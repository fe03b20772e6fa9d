use crate::{BaseClass, Interface, SubClass};
use vstd::prelude::*;

verus! {

/// Combines the Base Class and the Sub-class of a device to classify it
/// into a `DeviceType`. Combined with the device's Interface, this can be
/// enough to know how to drive the device.
#[derive(Clone, Copy, PartialEq, Eq, Structural, Debug)]
pub enum DeviceType {
    Unknown,

    /*
     * Base Class 0x00 - Devices that predate Class Codes
     */
    LegacyVgaCompatible,
    LegacyNotVgaCompatible,

    /*
     * Base Class 0x01 - Mass Storage Controllers
     */
    ScsiBusController,
    IdeController,
    FloppyController,
    IpiBusController,
    RaidController,
    AtaController,
    SataController,
    SasController,
    NvmeController,
    UfsController,
    OtherMassStorageController,

    /*
     * Base Class 0x02 - Network Controllers
     */
    EthernetController,
    TokenRingController,
    FddiController,
    AtmController,
    IsdnController,
    WorldFipController,
    PicmgController,
    OtherNetworkController,

    /*
     * Base Class 0x03 - Display Controllers
     */
    VgaCompatibleController,
    XgaController,
    ThreeDController,
    OtherDisplayController,

    /*
     * Base Class 0x04 - Multimedia Devices
     */
    VideoDevice,
    AudioDevice,
    TelephonyDevice,
    OtherMultimediaDevice,

    /*
     * Base Class 0x05 - Memory Controllers
     */
    RamController,
    FlashController,
    OtherMemoryController,

    /*
     * Base Class 0x06 - Bridge Devices
     */
    HostBridge,
    IsaBridge,
    EisaBridge,
    McaBridge,
    PciPciBridge,
    PcmciaBridge,
    NuBusBridge,
    CardBusBridge,
    RacewayBridge,
    SemiTransparentPciPciBridge,
    InfinibandPciHostBridge,
    OtherBridgeDevice,

    /*
     * Base Class 0x07 - Simple Communications Controllers
     */
    SerialController,
    ParallelPort,
    MultiportSerialController,
    Modem,
    GpibController,
    SmartCard,
    OtherCommunicationsDevice,

    /*
     * Base Class 0x08 - Generic System Peripherals
     */
    InterruptController,
    DmaController,
    SystemTimer,
    RtcController,
    GenericPciHotPlugController,
    SdHostController,
    OtherSystemPeripheral,

    /*
     * Base Class 0x09 - Input Devices
     */
    KeyboardController,
    Digitizer,
    MouseController,
    ScannerController,
    GameportController,
    OtherInputController,

    /*
     * Base Class 0x0a - Docking Stations
     */
    GenericDockingStation,
    OtherDockingStation,

    /*
     * Base Class 0x0b - Processors
     */
    Processor386,
    Processor486,
    ProcessorPentium,
    ProcessorAlpha,
    ProcessorPowerPc,
    ProcessorMips,
    CoProcessor,

    /*
     * Base Class 0x0c - Serial Bus Controllers
     */
    FirewireController,
    AccessBusController,
    SsaBusController,
    UsbController,
    FibreChannelController,
    SmBusController,
    InfiniBandController,
    IpmiController,
    SercosController,
    CanBusController,

    /*
     * Base Class 0x0d - Wireless Controllers
     */
    IrdaController,
    ConsumerIrController,
    RfController,
    BluetoothController,
    BroadbandController,
    Ethernet5GHzController,
    Ethernet24GHzController,
    OtherWirelessController,

    /*
     * Base Class 0x0e - Intelligent IO Controllers
     */
    IntelligentIoController,

    /*
     * Base Class 0x0f - Satellite Communications Controllers
     */
    TvSatelliteCommunicationsController,
    AudioSatelliteCommunicationsController,
    VoiceSatelliteCommunicationsController,
    DataSatelliteCommunicationsController,

    /*
     * Base Class 0x10 - Encryption and Decryption Controllers
     */
    NetworkCryptionController,
    EntertainmentCryptionController,
    OtherCryptionController,

    /*
     * Base Class 0x11 - Data Acquisition and Signal Processing Controllers
     */
    DpioModule,
    PerformanceCounter,
    CommunicationsSynchronizationController,
    ManagementCard,
    OtherSignalProcessingController,
}

/// The device type that a (base class, sub class) pair names. Every pair
/// the classification table lists maps to its documented type; every other
/// pair maps to `Unknown`.
pub open spec fn spec_device_type(base: BaseClass, sub: SubClass) -> DeviceType {
    match (base, sub) {
        (0x00, 0x00) => DeviceType::LegacyNotVgaCompatible,
        (0x00, 0x01) => DeviceType::LegacyVgaCompatible,
        (0x01, 0x00) => DeviceType::ScsiBusController,
        (0x01, 0x01) => DeviceType::IdeController,
        (0x01, 0x02) => DeviceType::FloppyController,
        (0x01, 0x03) => DeviceType::IpiBusController,
        (0x01, 0x04) => DeviceType::RaidController,
        (0x01, 0x05) => DeviceType::AtaController,
        (0x01, 0x06) => DeviceType::SataController,
        (0x01, 0x07) => DeviceType::SasController,
        (0x01, 0x08) => DeviceType::NvmeController,
        (0x01, 0x09) => DeviceType::UfsController,
        (0x01, 0x80) => DeviceType::OtherMassStorageController,
        (0x02, 0x00) => DeviceType::EthernetController,
        (0x02, 0x01) => DeviceType::TokenRingController,
        (0x02, 0x02) => DeviceType::FddiController,
        (0x02, 0x03) => DeviceType::AtmController,
        (0x02, 0x04) => DeviceType::IsdnController,
        (0x02, 0x06) => DeviceType::PicmgController,
        (0x02, 0x80) => DeviceType::OtherNetworkController,
        (0x03, 0x00) => DeviceType::VgaCompatibleController,
        (0x03, 0x01) => DeviceType::XgaController,
        (0x03, 0x02) => DeviceType::ThreeDController,
        (0x03, 0x80) => DeviceType::OtherDisplayController,
        (0x04, 0x00) => DeviceType::VideoDevice,
        (0x04, 0x01) => DeviceType::AudioDevice,
        (0x04, 0x02) => DeviceType::TelephonyDevice,
        (0x04, 0x03) => DeviceType::OtherMultimediaDevice,
        (0x05, 0x00) => DeviceType::RamController,
        (0x05, 0x01) => DeviceType::FlashController,
        (0x05, 0x02) => DeviceType::OtherMemoryController,
        (0x06, 0x00) => DeviceType::HostBridge,
        (0x06, 0x01) => DeviceType::IsaBridge,
        (0x06, 0x02) => DeviceType::EisaBridge,
        (0x06, 0x03) => DeviceType::McaBridge,
        (0x06, 0x04) => DeviceType::PciPciBridge,
        (0x06, 0x05) => DeviceType::PcmciaBridge,
        (0x06, 0x06) => DeviceType::NuBusBridge,
        (0x06, 0x07) => DeviceType::CardBusBridge,
        (0x06, 0x08) => DeviceType::RacewayBridge,
        (0x06, 0x09) => DeviceType::SemiTransparentPciPciBridge,
        (0x06, 0x0a) => DeviceType::InfinibandPciHostBridge,
        (0x06, 0x80) => DeviceType::OtherBridgeDevice,
        (0x07, 0x00) => DeviceType::SerialController,
        (0x07, 0x01) => DeviceType::ParallelPort,
        (0x07, 0x02) => DeviceType::MultiportSerialController,
        (0x07, 0x03) => DeviceType::Modem,
        (0x07, 0x04) => DeviceType::GpibController,
        (0x07, 0x05) => DeviceType::SmartCard,
        (0x07, 0x80) => DeviceType::OtherCommunicationsDevice,
        (0x08, 0x00) => DeviceType::InterruptController,
        (0x08, 0x01) => DeviceType::DmaController,
        (0x08, 0x02) => DeviceType::SystemTimer,
        (0x08, 0x03) => DeviceType::RtcController,
        (0x08, 0x04) => DeviceType::GenericPciHotPlugController,
        (0x08, 0x05) => DeviceType::SdHostController,
        (0x08, 0x80) => DeviceType::OtherSystemPeripheral,
        (0x09, 0x00) => DeviceType::KeyboardController,
        (0x09, 0x01) => DeviceType::Digitizer,
        (0x09, 0x02) => DeviceType::MouseController,
        (0x09, 0x03) => DeviceType::ScannerController,
        (0x09, 0x04) => DeviceType::GameportController,
        (0x09, 0x80) => DeviceType::OtherInputController,
        (0x0a, 0x00) => DeviceType::GenericDockingStation,
        (0x0a, 0x80) => DeviceType::OtherDockingStation,
        (0x0b, 0x00) => DeviceType::Processor386,
        (0x0b, 0x01) => DeviceType::Processor486,
        (0x0b, 0x02) => DeviceType::ProcessorPentium,
        (0x0b, 0x10) => DeviceType::ProcessorAlpha,
        (0x0b, 0x20) => DeviceType::ProcessorPowerPc,
        (0x0b, 0x30) => DeviceType::ProcessorMips,
        (0x0b, 0x40) => DeviceType::CoProcessor,
        (0x0c, 0x00) => DeviceType::FirewireController,
        (0x0c, 0x01) => DeviceType::AccessBusController,
        (0x0c, 0x02) => DeviceType::SsaBusController,
        (0x0c, 0x03) => DeviceType::UsbController,
        (0x0c, 0x04) => DeviceType::FibreChannelController,
        (0x0c, 0x05) => DeviceType::SmBusController,
        (0x0c, 0x06) => DeviceType::InfiniBandController,
        (0x0c, 0x07) => DeviceType::IpmiController,
        (0x0c, 0x08) => DeviceType::SercosController,
        (0x0c, 0x09) => DeviceType::CanBusController,
        (0x0d, 0x00) => DeviceType::IrdaController,
        (0x0d, 0x01) => DeviceType::ConsumerIrController,
        (0x0d, 0x10) => DeviceType::RfController,
        (0x0d, 0x11) => DeviceType::BluetoothController,
        (0x0d, 0x12) => DeviceType::BroadbandController,
        (0x0d, 0x20) => DeviceType::Ethernet5GHzController,
        (0x0d, 0x21) => DeviceType::Ethernet24GHzController,
        (0x0d, 0x80) => DeviceType::OtherWirelessController,
        (0x0e, 0x00) => DeviceType::IntelligentIoController,
        (0x0f, 0x00) => DeviceType::TvSatelliteCommunicationsController,
        (0x0f, 0x01) => DeviceType::AudioSatelliteCommunicationsController,
        (0x0f, 0x02) => DeviceType::VoiceSatelliteCommunicationsController,
        (0x0f, 0x03) => DeviceType::DataSatelliteCommunicationsController,
        (0x10, 0x00) => DeviceType::NetworkCryptionController,
        (0x10, 0x10) => DeviceType::EntertainmentCryptionController,
        (0x10, 0x80) => DeviceType::OtherCryptionController,
        (0x11, 0x00) => DeviceType::DpioModule,
        (0x11, 0x01) => DeviceType::PerformanceCounter,
        (0x11, 0x10) => DeviceType::CommunicationsSynchronizationController,
        (0x11, 0x20) => DeviceType::ManagementCard,
        (0x11, 0x80) => DeviceType::OtherSignalProcessingController,
        _ => DeviceType::Unknown,
    }
}

impl DeviceType {
    /// The device type that a (base class, sub class) pair names, `Unknown`
    /// for every pair outside the classification table.
    pub fn from_class(base: BaseClass, sub: SubClass) -> (r: DeviceType)
        ensures
            r == spec_device_type(base, sub),
    {
        match (base, sub) {
            (0x00, 0x00) => DeviceType::LegacyNotVgaCompatible,
            (0x00, 0x01) => DeviceType::LegacyVgaCompatible,
            (0x01, 0x00) => DeviceType::ScsiBusController,
            (0x01, 0x01) => DeviceType::IdeController,
            (0x01, 0x02) => DeviceType::FloppyController,
            (0x01, 0x03) => DeviceType::IpiBusController,
            (0x01, 0x04) => DeviceType::RaidController,
            (0x01, 0x05) => DeviceType::AtaController,
            (0x01, 0x06) => DeviceType::SataController,
            (0x01, 0x07) => DeviceType::SasController,
            (0x01, 0x08) => DeviceType::NvmeController,
            (0x01, 0x09) => DeviceType::UfsController,
            (0x01, 0x80) => DeviceType::OtherMassStorageController,
            (0x02, 0x00) => DeviceType::EthernetController,
            (0x02, 0x01) => DeviceType::TokenRingController,
            (0x02, 0x02) => DeviceType::FddiController,
            (0x02, 0x03) => DeviceType::AtmController,
            (0x02, 0x04) => DeviceType::IsdnController,
            (0x02, 0x06) => DeviceType::PicmgController,
            (0x02, 0x80) => DeviceType::OtherNetworkController,
            (0x03, 0x00) => DeviceType::VgaCompatibleController,
            (0x03, 0x01) => DeviceType::XgaController,
            (0x03, 0x02) => DeviceType::ThreeDController,
            (0x03, 0x80) => DeviceType::OtherDisplayController,
            (0x04, 0x00) => DeviceType::VideoDevice,
            (0x04, 0x01) => DeviceType::AudioDevice,
            (0x04, 0x02) => DeviceType::TelephonyDevice,
            (0x04, 0x03) => DeviceType::OtherMultimediaDevice,
            (0x05, 0x00) => DeviceType::RamController,
            (0x05, 0x01) => DeviceType::FlashController,
            (0x05, 0x02) => DeviceType::OtherMemoryController,
            (0x06, 0x00) => DeviceType::HostBridge,
            (0x06, 0x01) => DeviceType::IsaBridge,
            (0x06, 0x02) => DeviceType::EisaBridge,
            (0x06, 0x03) => DeviceType::McaBridge,
            (0x06, 0x04) => DeviceType::PciPciBridge,
            (0x06, 0x05) => DeviceType::PcmciaBridge,
            (0x06, 0x06) => DeviceType::NuBusBridge,
            (0x06, 0x07) => DeviceType::CardBusBridge,
            (0x06, 0x08) => DeviceType::RacewayBridge,
            (0x06, 0x09) => DeviceType::SemiTransparentPciPciBridge,
            (0x06, 0x0a) => DeviceType::InfinibandPciHostBridge,
            (0x06, 0x80) => DeviceType::OtherBridgeDevice,
            (0x07, 0x00) => DeviceType::SerialController,
            (0x07, 0x01) => DeviceType::ParallelPort,
            (0x07, 0x02) => DeviceType::MultiportSerialController,
            (0x07, 0x03) => DeviceType::Modem,
            (0x07, 0x04) => DeviceType::GpibController,
            (0x07, 0x05) => DeviceType::SmartCard,
            (0x07, 0x80) => DeviceType::OtherCommunicationsDevice,
            (0x08, 0x00) => DeviceType::InterruptController,
            (0x08, 0x01) => DeviceType::DmaController,
            (0x08, 0x02) => DeviceType::SystemTimer,
            (0x08, 0x03) => DeviceType::RtcController,
            (0x08, 0x04) => DeviceType::GenericPciHotPlugController,
            (0x08, 0x05) => DeviceType::SdHostController,
            (0x08, 0x80) => DeviceType::OtherSystemPeripheral,
            (0x09, 0x00) => DeviceType::KeyboardController,
            (0x09, 0x01) => DeviceType::Digitizer,
            (0x09, 0x02) => DeviceType::MouseController,
            (0x09, 0x03) => DeviceType::ScannerController,
            (0x09, 0x04) => DeviceType::GameportController,
            (0x09, 0x80) => DeviceType::OtherInputController,
            (0x0a, 0x00) => DeviceType::GenericDockingStation,
            (0x0a, 0x80) => DeviceType::OtherDockingStation,
            (0x0b, 0x00) => DeviceType::Processor386,
            (0x0b, 0x01) => DeviceType::Processor486,
            (0x0b, 0x02) => DeviceType::ProcessorPentium,
            (0x0b, 0x10) => DeviceType::ProcessorAlpha,
            (0x0b, 0x20) => DeviceType::ProcessorPowerPc,
            (0x0b, 0x30) => DeviceType::ProcessorMips,
            (0x0b, 0x40) => DeviceType::CoProcessor,
            (0x0c, 0x00) => DeviceType::FirewireController,
            (0x0c, 0x01) => DeviceType::AccessBusController,
            (0x0c, 0x02) => DeviceType::SsaBusController,
            (0x0c, 0x03) => DeviceType::UsbController,
            (0x0c, 0x04) => DeviceType::FibreChannelController,
            (0x0c, 0x05) => DeviceType::SmBusController,
            (0x0c, 0x06) => DeviceType::InfiniBandController,
            (0x0c, 0x07) => DeviceType::IpmiController,
            (0x0c, 0x08) => DeviceType::SercosController,
            (0x0c, 0x09) => DeviceType::CanBusController,
            (0x0d, 0x00) => DeviceType::IrdaController,
            (0x0d, 0x01) => DeviceType::ConsumerIrController,
            (0x0d, 0x10) => DeviceType::RfController,
            (0x0d, 0x11) => DeviceType::BluetoothController,
            (0x0d, 0x12) => DeviceType::BroadbandController,
            (0x0d, 0x20) => DeviceType::Ethernet5GHzController,
            (0x0d, 0x21) => DeviceType::Ethernet24GHzController,
            (0x0d, 0x80) => DeviceType::OtherWirelessController,
            (0x0e, 0x00) => DeviceType::IntelligentIoController,
            (0x0f, 0x00) => DeviceType::TvSatelliteCommunicationsController,
            (0x0f, 0x01) => DeviceType::AudioSatelliteCommunicationsController,
            (0x0f, 0x02) => DeviceType::VoiceSatelliteCommunicationsController,
            (0x0f, 0x03) => DeviceType::DataSatelliteCommunicationsController,
            (0x10, 0x00) => DeviceType::NetworkCryptionController,
            (0x10, 0x10) => DeviceType::EntertainmentCryptionController,
            (0x10, 0x80) => DeviceType::OtherCryptionController,
            (0x11, 0x00) => DeviceType::DpioModule,
            (0x11, 0x01) => DeviceType::PerformanceCounter,
            (0x11, 0x10) => DeviceType::CommunicationsSynchronizationController,
            (0x11, 0x20) => DeviceType::ManagementCard,
            (0x11, 0x80) => DeviceType::OtherSignalProcessingController,
            _ => DeviceType::Unknown,
        }
    }
}

/// The different register-level programming interfaces defined for USB
/// controllers (devices of type `DeviceType::UsbController`).
#[derive(Clone, Copy, PartialEq, Eq, Structural, Debug)]
pub enum UsbType {
    Uhci,
    Ohci,
    Ehci,
    Xhci,
    OtherInterface,
    Device,
}

/// The USB programming interface that an interface byte names, if any.
pub open spec fn spec_usb_type(interface: Interface) -> Option<UsbType> {
    if interface == 0x00 {
        Some(UsbType::Uhci)
    } else if interface == 0x10 {
        Some(UsbType::Ohci)
    } else if interface == 0x20 {
        Some(UsbType::Ehci)
    } else if interface == 0x30 {
        Some(UsbType::Xhci)
    } else if interface == 0x80 {
        Some(UsbType::OtherInterface)
    } else if interface == 0xfe {
        Some(UsbType::Device)
    } else {
        None
    }
}

impl UsbType {
    /// The USB programming interface that an interface byte names, or an
    /// error for a byte that names none.
    pub fn try_from_interface(interface: Interface) -> (r: Result<UsbType, ()>)
        ensures
            r matches Ok(t) ==> spec_usb_type(interface) == Some(t),
            r is Err <==> spec_usb_type(interface) is None,
    {
        match interface {
            0x00 => Ok(UsbType::Uhci),
            0x10 => Ok(UsbType::Ohci),
            0x20 => Ok(UsbType::Ehci),
            0x30 => Ok(UsbType::Xhci),
            0x80 => Ok(UsbType::OtherInterface),
            0xfe => Ok(UsbType::Device),
            _ => Err(()),
        }
    }
}

} // verus!
