use pci_types::capability::MultipleMessageSupport;
use pci_types::device_type::{DeviceType, UsbType};
use pci_types::{
    CommandRegister, DevselTiming, PciAddress, StatusRegister, COMMAND_INTERRUPT_DISABLE,
    COMMAND_IO_ENABLE, COMMAND_MEMORY_ENABLE,
};

#[test]
fn address_round_trip() {
    let address = PciAddress::new(0xabcd, 0x12, 31, 7);
    assert_eq!(address.segment(), 0xabcd);
    assert_eq!(address.bus(), 0x12);
    assert_eq!(address.device(), 31);
    assert_eq!(address.function(), 7);

    let address = PciAddress::new(0, 0, 0, 0);
    assert_eq!(address.segment(), 0);
    assert_eq!(address.bus(), 0);
    assert_eq!(address.device(), 0);
    assert_eq!(address.function(), 0);

    let address = PciAddress::new(1, 2, 3, 4);
    assert_eq!(address.segment(), 1);
    assert_eq!(address.bus(), 2);
    assert_eq!(address.device(), 3);
    assert_eq!(address.function(), 4);
}

#[test]
fn address_truncates_wide_fields() {
    let address = PciAddress::new(0, 0, 40, 9);
    assert_eq!(address.device(), 40 & 0x1f);
    assert_eq!(address.function(), 9 & 0x7);
}

#[test]
fn address_orders_by_segment_bus_device_function() {
    let a = PciAddress::new(0, 1, 2, 3);
    let b = PciAddress::new(0, 1, 2, 4);
    let c = PciAddress::new(0, 1, 3, 0);
    let d = PciAddress::new(0, 2, 0, 0);
    let e = PciAddress::new(1, 0, 0, 0);
    assert!(a < b && b < c && c < d && d < e);
    assert_eq!(a, PciAddress::new(0, 1, 2, 3));
}

#[test]
fn status_register_bits() {
    let status = StatusRegister::new(1 << 15);
    assert!(status.parity_error_detected());
    assert!(!status.signalled_system_error());

    let status = StatusRegister::new(1 << 14);
    assert!(status.signalled_system_error());

    let status = StatusRegister::new(1 << 13);
    assert!(status.received_master_abort());

    let status = StatusRegister::new(1 << 12);
    assert!(status.received_target_abort());

    let status = StatusRegister::new(1 << 11);
    assert!(status.signalled_target_abort());

    let status = StatusRegister::new(1 << 8);
    assert!(status.master_data_parity_error());

    let status = StatusRegister::new(1 << 7);
    assert!(status.fast_back_to_back_capable());

    let status = StatusRegister::new(1 << 5);
    assert!(status.capable_66mhz());

    let status = StatusRegister::new(1 << 4);
    assert!(status.has_capability_list());
    assert!(!StatusRegister::new(0).has_capability_list());

    let status = StatusRegister::new(1 << 3);
    assert!(status.interrupt_status());
}

#[test]
fn status_register_devsel_timing() {
    assert_eq!(StatusRegister::new(0 << 9).devsel_timing().unwrap(), DevselTiming::Fast);
    assert_eq!(StatusRegister::new(1 << 9).devsel_timing().unwrap(), DevselTiming::Medium);
    assert_eq!(StatusRegister::new(2 << 9).devsel_timing().unwrap(), DevselTiming::Slow);
    assert!(StatusRegister::new(3 << 9).devsel_timing().is_err());
}

#[test]
fn devsel_timing_try_from_value() {
    assert_eq!(DevselTiming::try_from_value(0x0).unwrap(), DevselTiming::Fast);
    assert_eq!(DevselTiming::try_from_value(0x1).unwrap(), DevselTiming::Medium);
    assert_eq!(DevselTiming::try_from_value(0x2).unwrap(), DevselTiming::Slow);
    let err = DevselTiming::try_from_value(0x3).unwrap_err();
    assert_eq!(err.number(), 0x3);
}

#[test]
fn command_register_bits() {
    let command = CommandRegister::from_bits_retain(0);
    assert_eq!(command.bits(), 0);
    let command = command.with(COMMAND_IO_ENABLE | COMMAND_MEMORY_ENABLE);
    assert!(command.contains(COMMAND_IO_ENABLE));
    assert!(command.contains(COMMAND_MEMORY_ENABLE));
    assert!(!command.contains(COMMAND_INTERRUPT_DISABLE));
    let command = command.without(COMMAND_IO_ENABLE);
    assert!(!command.contains(COMMAND_IO_ENABLE));
    assert_eq!(command.bits(), COMMAND_MEMORY_ENABLE);
    assert_eq!(CommandRegister::from_bits_retain(0xffff).bits(), 0xffff);
}

#[test]
fn multiple_message_support_from_bits() {
    assert_eq!(MultipleMessageSupport::try_from_bits(0).unwrap(), MultipleMessageSupport::Int1);
    assert_eq!(MultipleMessageSupport::try_from_bits(1).unwrap(), MultipleMessageSupport::Int2);
    assert_eq!(MultipleMessageSupport::try_from_bits(2).unwrap(), MultipleMessageSupport::Int4);
    assert_eq!(MultipleMessageSupport::try_from_bits(3).unwrap(), MultipleMessageSupport::Int8);
    assert_eq!(MultipleMessageSupport::try_from_bits(4).unwrap(), MultipleMessageSupport::Int16);
    assert_eq!(MultipleMessageSupport::try_from_bits(5).unwrap(), MultipleMessageSupport::Int32);
    assert!(MultipleMessageSupport::try_from_bits(6).is_err());
    assert!(MultipleMessageSupport::try_from_bits(7).is_err());
}

#[test]
fn usb_type_from_interface() {
    assert_eq!(UsbType::try_from_interface(0x00).unwrap(), UsbType::Uhci);
    assert_eq!(UsbType::try_from_interface(0x10).unwrap(), UsbType::Ohci);
    assert_eq!(UsbType::try_from_interface(0x20).unwrap(), UsbType::Ehci);
    assert_eq!(UsbType::try_from_interface(0x30).unwrap(), UsbType::Xhci);
    assert_eq!(UsbType::try_from_interface(0x80).unwrap(), UsbType::OtherInterface);
    assert_eq!(UsbType::try_from_interface(0xfe).unwrap(), UsbType::Device);
    assert!(UsbType::try_from_interface(0x40).is_err());
    assert!(UsbType::try_from_interface(0xff).is_err());
}

#[test]
fn classification_of_unlisted_pairs_is_unknown() {
    assert_eq!(DeviceType::from_class(0x00, 0x02), DeviceType::Unknown);
    assert_eq!(DeviceType::from_class(0x01, 0x0a), DeviceType::Unknown);
    assert_eq!(DeviceType::from_class(0x02, 0x05), DeviceType::Unknown);
    assert_eq!(DeviceType::from_class(0x12, 0x00), DeviceType::Unknown);
    assert_eq!(DeviceType::from_class(0xff, 0xff), DeviceType::Unknown);
    assert_eq!(DeviceType::from_class(0x0b, 0x41), DeviceType::Unknown);
}
