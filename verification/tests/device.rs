use pci_types::capability::{MsiCapability, MsixCapability, MultipleMessageSupport, PciCapability, TriggerMode};
use pci_types::{
    Bar, BarWriteError, CommandRegister, ConfigRegionAccess, EndpointHeader, HeaderType,
    PciAddress, PciHeader, PciPciBridgeHeader, SimulatedRegion, COMMAND_MEMORY_ENABLE,
};

const REGION_SIZE: u16 = 0x108;

fn endpoint_address() -> PciAddress {
    PciAddress::new(0, 0, 1, 0)
}

/// A simulated endpoint with IDs, a capability chain holding an MSI and an
/// MSI-X capability behind one null entry, and a spread of BAR shapes.
fn simulated_endpoint() -> SimulatedRegion {
    let address = endpoint_address();
    let mut sim = SimulatedRegion::new(address, REGION_SIZE);
    sim.set_register(0x00, 0x1234_8086);
    // Command 0x0006; status with the capability-list bit (bit 4).
    sim.set_register(0x04, 0x0010_0006);
    // Revision 0x03, interface 0x02, sub class 0x08, base class 0x01.
    sim.set_register(0x08, 0x0108_0203);
    // Header type 0 with the multiple-function bit (bit 23).
    sim.set_register(0x0c, 0x0080_0000);
    // BAR 0: 32-bit memory, prefetchable, 16 bytes at 0xfee0_0000: the
    // address bits above the size are writable, the flag bits hardwired.
    sim.configure_register(0x10, 0xfee0_0000, 0xffff_fff0, 0b1000);
    // BAR 1: I/O, port 0x3020.
    sim.set_register(0x14, 0x3021);
    // BARs 2 and 3: 64-bit memory, 4 GiB at 0x2_0000_0000: no address bit
    // of the low dword is writable, the type bits read back as 64-bit.
    sim.configure_register(0x18, 0, 0, 0b0100);
    sim.set_register(0x1c, 0x2);
    // BAR 4 stays unimplemented: it reads and probes as zero.
    sim.configure_register(0x20, 0, 0, 0);
    // BAR 5: 64-bit typed, which cannot fit in the last slot.
    sim.configure_register(0x24, 0, 0, 0b0100);
    // Subsystem ID 0xaabb, subsystem vendor ID 0xccdd.
    sim.set_register(0x2c, 0xaabb_ccdd);
    // Capability pointer.
    sim.set_register(0x34, 0x60);
    // Interrupt pin 2, line 11.
    sim.set_register(0x3c, 0x0000_020b);
    // MSI capability at 0x60: next 0x40; control with per-vector masking
    // (bit 8), 64-bit addressing (bit 7) and a capable count of four
    // messages (bits 1..4 = 2).
    sim.set_register(0x60, 0x0184_4005);
    // Null capability at 0x40, pointing on to 0x50.
    sim.set_register(0x40, 0x0000_5000);
    // MSI-X capability at 0x50: last entry; control names 8 vectors.
    sim.set_register(0x50, 0x0007_0011);
    sim.set_register(0x54, 0x1002);
    sim.set_register(0x58, 0x2002);
    sim
}

fn simulated_msi() -> MsiCapability {
    let mut sim = simulated_endpoint();
    let endpoint = EndpointHeader::from_header(PciHeader::new(endpoint_address()), &sim).unwrap();
    let mut iterator = endpoint.capabilities(sim);
    match iterator.next() {
        Some(PciCapability::Msi(msi)) => msi,
        other => panic!("expected the MSI capability, got {:?}", other),
    }
}

fn simulated_msix() -> MsixCapability {
    let mut sim = simulated_endpoint();
    let endpoint = EndpointHeader::from_header(PciHeader::new(endpoint_address()), &sim).unwrap();
    let mut iterator = endpoint.capabilities(sim);
    iterator.next();
    match iterator.next() {
        Some(PciCapability::MsiX(msix)) => msix,
        other => panic!("expected the MSI-X capability, got {:?}", other),
    }
}

#[test]
fn header_reads_predefined_fields() {
    let sim = simulated_endpoint();
    let header = PciHeader::new(endpoint_address());
    assert_eq!(header.address(), endpoint_address());
    assert_eq!(header.id(&sim), (0x8086, 0x1234));
    assert_eq!(header.revision_and_class(&sim), (0x03, 0x01, 0x08, 0x02));
    assert_eq!(header.header_type(&sim), HeaderType::Endpoint);
    assert!(header.has_multiple_functions(&sim));
    assert!(header.status(&sim).has_capability_list());
    assert_eq!(header.command(&sim).bits(), 0x0006);
}

#[test]
fn header_type_unrecognized_values() {
    let address = endpoint_address();
    let mut sim = SimulatedRegion::new(address, REGION_SIZE);
    sim.set_register(0x0c, 0x02 << 16);
    let header = PciHeader::new(address);
    assert_eq!(header.header_type(&sim), HeaderType::CardBusBridge);
    sim.set_register(0x0c, 0x7c << 16);
    assert_eq!(header.header_type(&sim), HeaderType::Unknown(0x7c));
}

#[test]
fn header_type_dispatch_is_exclusive() {
    let address = endpoint_address();
    let mut sim = SimulatedRegion::new(address, REGION_SIZE);
    let header = PciHeader::new(address);

    // Type 0x00: endpoint only.
    sim.set_register(0x0c, 0x00 << 16);
    assert!(EndpointHeader::from_header(header, &sim).is_some());
    assert!(PciPciBridgeHeader::from_header(header, &sim).is_none());

    // Type 0x01: bridge only.
    sim.set_register(0x0c, 0x01 << 16);
    assert!(EndpointHeader::from_header(header, &sim).is_none());
    assert!(PciPciBridgeHeader::from_header(header, &sim).is_some());

    // Any other type: neither.
    sim.set_register(0x0c, 0x02 << 16);
    assert!(EndpointHeader::from_header(header, &sim).is_none());
    assert!(PciPciBridgeHeader::from_header(header, &sim).is_none());
}

#[test]
fn update_command_replaces_only_the_low_half() {
    let address = endpoint_address();
    let mut sim = simulated_endpoint();
    let mut header = PciHeader::new(address);
    header.update_command(&mut sim, |command: CommandRegister| {
        command.with(COMMAND_MEMORY_ENABLE)
    });
    assert_eq!(sim.read(address, 0x04), 0x0010_0006 | COMMAND_MEMORY_ENABLE as u32);
    header.update_command(&mut sim, |_command: CommandRegister| {
        CommandRegister::from_bits_retain(0)
    });
    assert_eq!(sim.read(address, 0x04), 0x0010_0000);
}

#[test]
fn endpoint_reads_its_fields() {
    let sim = simulated_endpoint();
    let header = PciHeader::new(endpoint_address());
    let endpoint = EndpointHeader::from_header(header, &sim).unwrap();
    assert_eq!(endpoint.header().address(), endpoint_address());
    assert_eq!(endpoint.subsystem(&sim), (0xaabb, 0xccdd));
    assert_eq!(endpoint.capability_pointer(&sim), 0x60);
    assert_eq!(endpoint.interrupt(&sim), (2, 11));
    assert!(endpoint.status(&sim).has_capability_list());
    assert_eq!(endpoint.command(&sim).bits(), 0x0006);
}

#[test]
fn update_interrupt_replaces_only_pin_and_line() {
    let address = endpoint_address();
    let mut sim = simulated_endpoint();
    let mut endpoint = EndpointHeader::from_header(PciHeader::new(address), &sim).unwrap();
    endpoint.update_interrupt(&mut sim, |(_pin, _line)| (1, 9));
    assert_eq!(sim.read(address, 0x3c), 0x0000_0109);
}

#[test]
fn bar_sizing_decodes_a_32_bit_memory_bar() {
    let mut sim = simulated_endpoint();
    let endpoint = EndpointHeader::from_header(PciHeader::new(endpoint_address()), &sim).unwrap();
    match endpoint.bar(0, &mut sim) {
        Some(Bar::Memory32 { address, size, prefetchable }) => {
            assert_eq!(address, 0xfee0_0000);
            assert_eq!(size, 16);
            assert!(prefetchable);
        }
        other => panic!("expected a 32-bit memory BAR, got {:?}", other),
    }
}

#[test]
fn bar_sizing_restores_the_registers() {
    let address = endpoint_address();
    let mut sim = simulated_endpoint();
    let endpoint = EndpointHeader::from_header(PciHeader::new(address), &sim).unwrap();
    let before: Vec<u32> = (0..REGION_SIZE).map(|o| sim.read(address, o)).collect();
    for slot in 0..6 {
        endpoint.bar(slot, &mut sim);
        let after: Vec<u32> = (0..REGION_SIZE).map(|o| sim.read(address, o)).collect();
        assert_eq!(after, before, "slot {} probe left the registers changed", slot);
    }
}

#[test]
fn bar_sizing_mask_of_fff0_means_sixteen_bytes() {
    let address = endpoint_address();
    let mut sim = SimulatedRegion::new(address, REGION_SIZE);
    // A slot whose probe reads back exactly 0xffff_fff0 sizes to 16.
    sim.configure_register(0x10, 0, 0xffff_fff0, 0);
    let endpoint = EndpointHeader::from_header(PciHeader::new(address), &sim).unwrap();
    match endpoint.bar(0, &mut sim) {
        Some(Bar::Memory32 { size, .. }) => assert_eq!(size, 16),
        other => panic!("expected a 32-bit memory BAR, got {:?}", other),
    }
}

#[test]
fn bar_decodes_an_io_bar() {
    let mut sim = simulated_endpoint();
    let endpoint = EndpointHeader::from_header(PciHeader::new(endpoint_address()), &sim).unwrap();
    match endpoint.bar(1, &mut sim) {
        Some(bar @ Bar::Io { port }) => {
            assert_eq!(port, 0x3020);
            assert_eq!(bar.unwrap_io(), 0x3020);
        }
        other => panic!("expected an I/O BAR, got {:?}", other),
    }
}

#[test]
fn bar_decodes_a_64_bit_memory_bar() {
    let mut sim = simulated_endpoint();
    let endpoint = EndpointHeader::from_header(PciHeader::new(endpoint_address()), &sim).unwrap();
    match endpoint.bar(2, &mut sim) {
        Some(bar @ Bar::Memory64 { address, size, prefetchable }) => {
            assert_eq!(address, 0x2_0000_0000);
            assert_eq!(size, 1u64 << 32);
            assert!(!prefetchable);
            assert_eq!(bar.unwrap_mem(), (0x2_0000_0000, 1usize << 32));
        }
        other => panic!("expected a 64-bit memory BAR, got {:?}", other),
    }
}

#[test]
fn bar_decodes_a_64_bit_bar_under_4_gib() {
    let address = endpoint_address();
    let mut sim = SimulatedRegion::new(address, REGION_SIZE);
    // 64-bit typed with a 4 KiB size entirely in the low dword.
    sim.configure_register(0x10, 0x8000_0000, 0xffff_f000, 0b0100);
    sim.set_register(0x14, 0x1);
    let endpoint = EndpointHeader::from_header(PciHeader::new(address), &sim).unwrap();
    match endpoint.bar(0, &mut sim) {
        Some(Bar::Memory64 { address, size, prefetchable }) => {
            assert_eq!(address, 0x1_8000_0000);
            assert_eq!(size, 0x1000);
            assert!(!prefetchable);
        }
        other => panic!("expected a 64-bit memory BAR, got {:?}", other),
    }
}

#[test]
fn bar_of_unimplemented_slot_is_absent() {
    let mut sim = simulated_endpoint();
    let endpoint = EndpointHeader::from_header(PciHeader::new(endpoint_address()), &sim).unwrap();
    assert!(endpoint.bar(4, &mut sim).is_none());
}

#[test]
fn bar_64_bit_in_last_slot_is_absent() {
    let mut sim = simulated_endpoint();
    let endpoint = EndpointHeader::from_header(PciHeader::new(endpoint_address()), &sim).unwrap();
    assert!(endpoint.bar(5, &mut sim).is_none());
}

#[test]
fn bar_slot_out_of_range_is_absent() {
    let mut sim = simulated_endpoint();
    let endpoint = EndpointHeader::from_header(PciHeader::new(endpoint_address()), &sim).unwrap();
    assert!(endpoint.bar(6, &mut sim).is_none());
    assert!(endpoint.bar(250, &mut sim).is_none());
}

#[test]
fn write_bar_writes_a_32_bit_slot() {
    let address = endpoint_address();
    let mut sim = simulated_endpoint();
    let mut endpoint = EndpointHeader::from_header(PciHeader::new(address), &sim).unwrap();
    assert_eq!(endpoint.write_bar(0, &mut sim, 0xfec0_0000), Ok(()));
    // The register keeps its hardwired flag bits and its writable bits take
    // the new address.
    assert_eq!(sim.read(address, 0x10), 0xfec0_0008);
}

#[test]
fn write_bar_rejects_wide_values_for_32_bit_slots() {
    let address = endpoint_address();
    let mut sim = simulated_endpoint();
    let mut endpoint = EndpointHeader::from_header(PciHeader::new(address), &sim).unwrap();
    let before: Vec<u32> = (0..REGION_SIZE).map(|o| sim.read(address, o)).collect();
    assert_eq!(
        endpoint.write_bar(0, &mut sim, 0x1_0000_0000usize),
        Err(BarWriteError::InvalidValue)
    );
    let after: Vec<u32> = (0..REGION_SIZE).map(|o| sim.read(address, o)).collect();
    assert_eq!(after, before);
}

#[test]
fn write_bar_rejects_missing_slots() {
    let mut sim = simulated_endpoint();
    let mut endpoint = EndpointHeader::from_header(PciHeader::new(endpoint_address()), &sim).unwrap();
    assert_eq!(endpoint.write_bar(4, &mut sim, 0x1000), Err(BarWriteError::NoSuchBar));
    assert_eq!(endpoint.write_bar(6, &mut sim, 0x1000), Err(BarWriteError::NoSuchBar));
}

#[test]
fn write_bar_writes_both_words_of_a_64_bit_slot() {
    let address = endpoint_address();
    let mut sim = simulated_endpoint();
    let mut endpoint = EndpointHeader::from_header(PciHeader::new(address), &sim).unwrap();
    assert_eq!(endpoint.write_bar(2, &mut sim, 0x3_0000_0000usize), Ok(()));
    // The low word has no writable address bits at this size; the type
    // flags stay hardwired and the high word takes the upper half.
    assert_eq!(sim.read(address, 0x18), 0b0100);
    assert_eq!(sim.read(address, 0x1c), 0x3);
}

#[test]
fn bridge_reads_bus_numbers() {
    let address = PciAddress::new(0, 0, 2, 0);
    let mut sim = SimulatedRegion::new(address, REGION_SIZE);
    sim.set_register(0x0c, 0x01 << 16);
    sim.set_register(0x18, 0x0005_0201);
    let header = PciHeader::new(address);
    let bridge = PciPciBridgeHeader::from_header(header, &sim).unwrap();
    assert_eq!(bridge.header().address(), address);
    assert_eq!(bridge.primary_bus_number(&sim), 1);
    assert_eq!(bridge.secondary_bus_number(&sim), 2);
    assert_eq!(bridge.subordinate_bus_number(&sim), 5);
}

#[test]
fn capability_chain_skips_null_entries_and_ends() {
    let sim = simulated_endpoint();
    let endpoint = EndpointHeader::from_header(PciHeader::new(endpoint_address()), &sim).unwrap();
    let mut iterator = endpoint.capabilities(sim);

    // The chain at 0x60 -> 0x40 (null) -> 0x50 -> end yields exactly two
    // capabilities: the null entry is skipped, not chain-ending.
    let first = iterator.next().expect("the chain holds an MSI capability");
    match first {
        PciCapability::Msi(msi) => {
            assert_eq!(msi.address().offset, 0x60);
        }
        other => panic!("expected the MSI capability first, got {:?}", other),
    }
    let second = iterator.next().expect("the chain holds an MSI-X capability");
    match second {
        PciCapability::MsiX(msix) => {
            assert_eq!(msix.address().offset, 0x50);
        }
        other => panic!("expected the MSI-X capability second, got {:?}", other),
    }
    assert!(iterator.next().is_none());
    assert!(iterator.next().is_none());
}

#[test]
fn capability_chain_reports_unknown_ids() {
    let address = endpoint_address();
    let mut sim = simulated_endpoint();
    sim.set_register(0x60, 0x0000_00c0); // ID 0xc0, unknown, last entry
    let endpoint = EndpointHeader::from_header(PciHeader::new(address), &sim).unwrap();
    let mut iterator = endpoint.capabilities(sim);
    match iterator.next() {
        Some(PciCapability::Unknown { address: cap_address, id }) => {
            assert_eq!(id, 0xc0);
            assert_eq!(cap_address.offset, 0x60);
            assert_eq!(cap_address.address, address);
        }
        other => panic!("expected an unknown capability, got {:?}", other),
    }
    assert!(iterator.next().is_none());
}

#[test]
fn capability_chain_without_capability_list_is_empty() {
    let mut sim = simulated_endpoint();
    sim.set_register(0x04, 0x0000_0006); // status without the capability-list bit
    let endpoint = EndpointHeader::from_header(PciHeader::new(endpoint_address()), &sim).unwrap();
    assert_eq!(endpoint.capability_pointer(&sim), 0);
    let mut iterator = endpoint.capabilities(sim);
    assert!(iterator.next().is_none());
}

#[test]
fn capability_chain_with_a_cycle_terminates() {
    let mut sim = simulated_endpoint();
    // An entry at 0x60 that names itself as its successor.
    sim.set_register(0x60, 0x0000_6005);
    let endpoint = EndpointHeader::from_header(PciHeader::new(endpoint_address()), &sim).unwrap();
    let mut iterator = endpoint.capabilities(sim);
    let mut yielded = 0usize;
    while let Some(_cap) = iterator.next() {
        yielded += 1;
        assert!(yielded <= 255, "the walker followed more links than the chain can hold");
    }
    assert_eq!(yielded, 255);
    assert!(iterator.next().is_none());
}

#[test]
fn capability_addresses_name_their_structures() {
    let sim = simulated_endpoint();
    let endpoint = EndpointHeader::from_header(PciHeader::new(endpoint_address()), &sim).unwrap();
    let mut iterator = endpoint.capabilities(sim);
    let mut offsets = Vec::new();
    while let Some(cap) = iterator.next() {
        offsets.push(cap.address().offset);
    }
    assert_eq!(offsets, vec![0x60, 0x50]);
}

#[test]
fn msi_capability_decodes_its_control_word() {
    let msi = simulated_msi();
    assert!(msi.has_per_vector_masking());
    assert!(msi.is_64bit());
    assert_eq!(msi.multiple_message_capable(), MultipleMessageSupport::Int4);
    assert_eq!(msi.address().offset, 0x60);
    assert_eq!(msi.address().address, endpoint_address());
}

#[test]
fn msi_enable_bit_round_trips() {
    let address = endpoint_address();
    let mut sim = simulated_endpoint();
    let msi = simulated_msi();
    assert!(!msi.is_enabled(&sim));
    assert_eq!(msi.ctrl(&sim), 0x0184_4005);
    msi.set_enabled(true, &mut sim);
    assert!(msi.is_enabled(&sim));
    assert_eq!(sim.read(address, 0x60) & 0x0001_0000, 0x0001_0000);
    msi.set_enabled(false, &mut sim);
    assert!(!msi.is_enabled(&sim));
}

#[test]
fn msi_message_count_request_is_clamped_to_the_capable_count() {
    let address = endpoint_address();
    let mut sim = simulated_endpoint();
    let msi = simulated_msi();
    // The device is capable of four messages; a request for 32 writes the
    // capable count, never the requested one.
    msi.set_multiple_message_enable(MultipleMessageSupport::Int32, &mut sim);
    assert_eq!((sim.read(address, 0x60) >> 4) & 0x7, 2);
    assert_eq!(msi.multiple_message_enable(&sim), MultipleMessageSupport::Int4);

    // A request within the capable count is written as it is.
    msi.set_multiple_message_enable(MultipleMessageSupport::Int2, &mut sim);
    assert_eq!((sim.read(address, 0x60) >> 4) & 0x7, 1);
    assert_eq!(msi.multiple_message_enable(&sim), MultipleMessageSupport::Int2);
}

#[test]
fn msi_message_info_uses_the_64_bit_layout() {
    let address = endpoint_address();
    let mut sim = simulated_endpoint();
    let msi = simulated_msi();
    msi.set_message_info(0x0000_000f_fee0_1000, 0x4041, &mut sim);
    assert_eq!(sim.read(address, 0x64), 0xfee0_1000);
    assert_eq!(sim.read(address, 0x68), 0xf);
    assert_eq!(sim.read(address, 0x6c), 0x4041);
}

#[test]
fn msi_message_info_uses_the_32_bit_layout() {
    let address = endpoint_address();
    let mut sim = simulated_endpoint();
    // An MSI control word without the 64-bit addressing bit.
    sim.set_register(0x60, 0x0104_4005);
    let endpoint = EndpointHeader::from_header(PciHeader::new(address), &sim).unwrap();
    let mut decode_sim = simulated_endpoint();
    decode_sim.set_register(0x60, 0x0104_4005);
    let mut iterator = endpoint.capabilities(decode_sim);
    let msi = match iterator.next() {
        Some(PciCapability::Msi(msi)) => msi,
        other => panic!("expected the MSI capability, got {:?}", other),
    };
    assert!(!msi.is_64bit());
    msi.set_message_info(0xfee0_2000, 0x99, &mut sim);
    assert_eq!(sim.read(address, 0x64), 0xfee0_2000);
    assert_eq!(sim.read(address, 0x68), 0x99);
}

#[test]
fn msi_lapic_message_composes_vector_and_trigger_mode() {
    let address = endpoint_address();
    let mut sim = simulated_endpoint();
    let msi = simulated_msi();
    msi.set_message_info_lapic(0xfee0_0000, 0x31, TriggerMode::LevelAssert, &mut sim);
    assert_eq!(sim.read(address, 0x64), 0xfee0_0000);
    assert_eq!(sim.read(address, 0x68), 0);
    assert_eq!(sim.read(address, 0x6c), 0x31 | (0b11 << 14));

    msi.set_message_info_lapic(0xfee0_0000, 0x40, TriggerMode::Edge, &mut sim);
    assert_eq!(sim.read(address, 0x6c), 0x40);
}

#[test]
fn msi_mask_and_pending_need_the_wide_layout() {
    let address = endpoint_address();
    let mut sim = simulated_endpoint();
    let msi = simulated_msi();
    // This capability supports 64-bit addressing and per-vector masking.
    msi.set_message_mask(0xdead_beef, &mut sim);
    assert_eq!(sim.read(address, 0x70), 0xdead_beef);
    assert_eq!(msi.message_mask(&sim), 0xdead_beef);
    sim.set_register(0x74, 0x55);
    assert_eq!(msi.is_pending(&sim), 0x55);
}

#[test]
fn msi_mask_and_pending_are_inert_without_the_wide_layout() {
    let address = endpoint_address();
    let mut sim = simulated_endpoint();
    // An MSI control word without per-vector masking or 64-bit addressing.
    sim.set_register(0x60, 0x0004_4005);
    let endpoint = EndpointHeader::from_header(PciHeader::new(address), &sim).unwrap();
    let mut decode_sim = simulated_endpoint();
    decode_sim.set_register(0x60, 0x0004_4005);
    let mut iterator = endpoint.capabilities(decode_sim);
    let msi = match iterator.next() {
        Some(PciCapability::Msi(msi)) => msi,
        other => panic!("expected the MSI capability, got {:?}", other),
    };
    let before: Vec<u32> = (0..REGION_SIZE).map(|o| sim.read(address, o)).collect();
    msi.set_message_mask(0xdead_beef, &mut sim);
    let after: Vec<u32> = (0..REGION_SIZE).map(|o| sim.read(address, o)).collect();
    assert_eq!(after, before);
    assert_eq!(msi.message_mask(&sim), 0);
    assert_eq!(msi.is_pending(&sim), 0);
}

#[test]
fn msix_decodes_its_fixed_fields() {
    let msix = simulated_msix();
    assert_eq!(msix.table_size(), 8);
    assert_eq!(msix.table_bar(), 2);
    assert_eq!(msix.table_offset(), 0x1000);
    assert_eq!(msix.pba_bar(), 2);
    assert_eq!(msix.pba_offset(), 0x2000);
    assert_eq!(msix.address().offset, 0x50);
}

#[test]
fn msix_enable_and_function_mask_round_trip() {
    let address = endpoint_address();
    let mut sim = simulated_endpoint();
    let mut msix = simulated_msix();
    assert!(!msix.enabled(&sim));
    msix.set_enabled(true, &mut sim);
    assert!(msix.enabled(&sim));
    assert_eq!(sim.read(address, 0x50) & 0x8000_0000, 0x8000_0000);
    msix.set_enabled(false, &mut sim);
    assert!(!msix.enabled(&sim));

    assert!(!msix.function_mask(&sim));
    msix.set_function_mask(true, &mut sim);
    assert!(msix.function_mask(&sim));
    assert_eq!(sim.read(address, 0x50) & 0x4000_0000, 0x4000_0000);
    msix.set_function_mask(false, &mut sim);
    assert!(!msix.function_mask(&sim));
}

#[test]
fn simulated_region_stores_reads_and_writes() {
    let address = PciAddress::new(1, 2, 3, 4);
    let mut sim = SimulatedRegion::new(address, 0x40);
    assert_eq!(sim.read(address, 0x00), 0);
    sim.write(address, 0x00, 0x1234_5678);
    assert_eq!(sim.read(address, 0x00), 0x1234_5678);
    // A register with hardwired bits keeps them over any write.
    sim.configure_register(0x10, 0xffff_ffff, 0xffff_0000, 0x0000_00f0);
    assert_eq!(sim.read(address, 0x10), 0xffff_00f0);
    sim.write(address, 0x10, 0x1234_5678);
    assert_eq!(sim.read(address, 0x10), 0x1234_00f0);
}
