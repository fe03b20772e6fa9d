use crate::access::{register_stable, ConfigRegionAccess};
use crate::addr::PciAddress;
use crate::bar::{
    bar_restorable, spec_bar_is_io, spec_bar_memory_type, spec_bar_offset, spec_bar_valid_encoding,
    spec_decode_bar, Bar, BarWriteError,
};
use crate::capability::CapabilityIterator;
use crate::header::{spec_header_type, HeaderType, PciHeader};
use crate::register::{CommandRegister, StatusRegister};
use crate::{InterruptLine, InterruptPin, SubsystemId, SubsystemVendorId};
use vstd::prelude::*;
use vstd::std_specs::bits::axiom_u32_trailing_zeros;

verus! {

/// The capability pointer of an endpoint: the low byte of the dword at
/// offset `0x34` when the status register advertises a capability list,
/// and zero otherwise.
pub open spec fn spec_capability_pointer(
    region: Map<(PciAddress, u16), u32>,
    address: PciAddress,
) -> u16 {
    if ((region[(address, 0x04)] >> 16) as u16 >> 4) & 1 == 1 {
        (region[(address, 0x34)] & 0xff) as u16
    } else {
        0
    }
}

/// A type-0 (endpoint) view of a configuration header, obtained only by
/// checking the generic header's type field first.
///
/// Past the predefined region, a type-0 header holds the six BAR slots at
/// `0x10..0x28`, the subsystem IDs at `0x2c`, the capability pointer in the
/// low byte of `0x34`, and the interrupt pin and line in the low half of
/// `0x3c`. Like [`PciHeader`] this is a stateless view: every accessor
/// reads or writes the live registers.
#[derive(Clone, Copy, PartialEq, Eq, Structural, Debug)]
pub struct EndpointHeader(PciAddress);

impl EndpointHeader {
    /// The address whose configuration region this header reads.
    pub closed spec fn spec_address(&self) -> PciAddress {
        self.0
    }

    /// The endpoint view of `header`, exactly when the live header type is
    /// `Endpoint`.
    pub fn from_header<A: ConfigRegionAccess>(header: PciHeader, access: &A) -> (r: Option<
        EndpointHeader,
    >)
        requires
            access.region().dom().contains((header.spec_address(), 0x0c)),
        ensures
            r is Some <==> spec_header_type(access.region()[(header.spec_address(), 0x0c)])
                == HeaderType::Endpoint,
            r matches Some(endpoint) ==> endpoint.spec_address() == header.spec_address(),
    {
        match header.header_type(access) {
            HeaderType::Endpoint => Some(EndpointHeader(header.address())),
            _ => None,
        }
    }

    /// The generic header view of the same function.
    pub fn header(&self) -> (r: PciHeader)
        ensures
            r.spec_address() == self.spec_address(),
    {
        PciHeader::new(self.0)
    }

    /// The status register, from the high half of the dword at offset
    /// `0x04`.
    pub fn status<A: ConfigRegionAccess>(&self, access: &A) -> (r: StatusRegister)
        requires
            access.region().dom().contains((self.spec_address(), 0x04)),
        ensures
            r.spec_bits() == (access.region()[(self.spec_address(), 0x04)] >> 16) as u16,
    {
        self.header().status(access)
    }

    /// The command register, from the low half of the dword at offset
    /// `0x04`.
    pub fn command<A: ConfigRegionAccess>(&self, access: &A) -> (r: CommandRegister)
        requires
            access.region().dom().contains((self.spec_address(), 0x04)),
        ensures
            r.spec_bits() == access.region()[(self.spec_address(), 0x04)] as u16,
    {
        self.header().command(access)
    }

    /// Replaces the command register with `f` of its current value; the
    /// status half of the dword is written back unchanged.
    pub fn update_command<A: ConfigRegionAccess, F: FnOnce(CommandRegister) -> CommandRegister>(
        &mut self,
        access: &mut A,
        f: F,
    )
        requires
            old(access).region().dom().contains((old(self).spec_address(), 0x04)),
            forall|c: CommandRegister| #[trigger] call_requires(f, (c,)),
        ensures
            *final(self) == *old(self),
            ({
                let address = old(self).spec_address();
                let data = old(access).region()[(address, 0x04)];
                exists|c: CommandRegister|
                    #[trigger] call_ensures(f, (CommandRegister::spec_from_bits(data as u16),), c)
                        && final(access).region() == old(access).region().insert(
                        (address, 0x04),
                        old(access).write_result(
                            address,
                            0x04,
                            (data & 0xffff_0000) | (c.spec_bits() as u32),
                        ),
                    )
            }),
            forall|a: PciAddress, o: u16, v: u32|
                #[trigger] final(access).write_result(a, o, v) == old(access).write_result(a, o, v),
    {
        let mut header = self.header();
        header.update_command(access, f);
    }

    /// The subsystem ID (high half) and subsystem vendor ID (low half) of
    /// the dword at offset `0x2c`.
    pub fn subsystem<A: ConfigRegionAccess>(&self, access: &A) -> (r: (
        SubsystemId,
        SubsystemVendorId,
    ))
        requires
            access.region().dom().contains((self.spec_address(), 0x2c)),
        ensures
            r.0 == (access.region()[(self.spec_address(), 0x2c)] >> 16) as u16,
            r.1 == access.region()[(self.spec_address(), 0x2c)] as u16,
    {
        let data = access.read(self.0, 0x2c);
        ((data >> 16) as u16, data as u16)
    }

    /// The offset of the first capability in the function's capability
    /// list, from the low byte of the dword at offset `0x34`, or zero when
    /// the status register reports no capability list.
    pub fn capability_pointer<A: ConfigRegionAccess>(&self, access: &A) -> (r: u16)
        requires
            access.region().dom().contains((self.spec_address(), 0x04)),
            access.region().dom().contains((self.spec_address(), 0x34)),
        ensures
            r == spec_capability_pointer(access.region(), self.spec_address()),
            r < 0x100,
    {
        let status = self.status(access);
        if status.has_capability_list() {
            let word = access.read(self.0, 0x34);
            proof {
                assert(word & 0xff < 0x100) by (bit_vector);
            }
            (word & 0xff) as u16
        } else {
            0
        }
    }

    /// A walker over the function's capability list, anchored at the
    /// capability pointer. The walker owns the access mechanism it is
    /// handed; pass a reference-like access to keep using it elsewhere.
    pub fn capabilities<T: ConfigRegionAccess>(&self, access: T) -> (r: CapabilityIterator<T>)
        requires
            access.region().dom().contains((self.spec_address(), 0x04)),
            access.region().dom().contains((self.spec_address(), 0x34)),
            forall|o: u16|
                0 < o < 0x108 ==> access.region().dom().contains((self.spec_address(), o)),
        ensures
            r.wf(),
            r.spec_target() == self.spec_address(),
            r.spec_offset() == spec_capability_pointer(access.region(), self.spec_address()),
            r.spec_budget() == 255,
            r.spec_access() == access,
    {
        let pointer = self.capability_pointer(&access);
        CapabilityIterator::new(self.0, pointer, access)
    }

    /// Get the contents of a BAR in a given slot. Empty bars will return
    /// `None`.
    ///
    /// The BAR is decoded by the write-probe-restore sizing protocol: for a
    /// memory BAR, all ones are written over the address bits, the readback
    /// mask determines the size, and the original address is written back.
    /// The probe leaves every register exactly as it found them, but it is
    /// destructive while it runs: nothing else may access the function's
    /// registers until it returns.
    ///
    /// ### Note
    /// 64-bit memory BARs use two slots, so if one is decoded in e.g. slot
    /// 0, this method should not be called for slot 1.
    pub fn bar<A: ConfigRegionAccess>(&self, slot: u8, access: &mut A) -> (r: Option<Bar>)
        requires
            ({
                let address = self.spec_address();
                let offset = spec_bar_offset(slot);
                let high_offset = (spec_bar_offset(slot) + 4) as u16;
                let raw = old(access).region()[(address, offset)];
                slot < 6 ==> {
                    &&& old(access).region().dom().contains((address, offset))
                    &&& spec_bar_valid_encoding(raw)
                    &&& !spec_bar_is_io(raw) && spec_bar_memory_type(raw) == 0b00
                        ==> bar_restorable(old(access), address, offset)
                    &&& !spec_bar_is_io(raw) && spec_bar_memory_type(raw) == 0b10 && slot < 5 ==> {
                        &&& bar_restorable(old(access), address, offset)
                        &&& old(access).region().dom().contains((address, high_offset))
                        &&& register_stable(old(access), address, high_offset)
                    }
                }
            }),
        ensures
            final(access).region() == old(access).region(),
            forall|a: PciAddress, o: u16, v: u32|
                #[trigger] final(access).write_result(a, o, v) == old(access).write_result(a, o, v),
            r == spec_decode_bar(
                slot,
                old(access).region()[(self.spec_address(), spec_bar_offset(slot))],
                old(access).write_result(self.spec_address(), spec_bar_offset(slot), 0xffff_fff0),
                old(access).region()[(self.spec_address(), (spec_bar_offset(slot) + 4) as u16)],
                old(access).write_result(
                    self.spec_address(),
                    (spec_bar_offset(slot) + 4) as u16,
                    0xffff_ffff,
                ),
            ),
    {
        if slot >= 6 {
            return None;
        }
        let offset: u16 = 0x10 + (slot as u16) * 4;
        let bar = access.read(self.0, offset);

        // Bit 0 of the raw value distinguishes memory (0) from I/O (1)
        // decoding.
        if bar & 1 == 1 {
            Some(Bar::Io { port: bar & 0xffff_fffc })
        } else {
            let prefetchable = (bar >> 3) & 1 == 1;
            let address = bar & 0xffff_fff0;
            let mem_type = (bar >> 1) & 0b11;

            if mem_type == 0b00 {
                access.write(self.0, offset, 0xffff_fff0);
                let readback = access.read(self.0, offset);
                access.write(self.0, offset, address);
                proof {
                    assert(final(access).region() =~= old(access).region());
                }

                let masked = readback & 0xffff_fff0;
                if masked == 0 {
                    // A masked readback of zero means the slot is not
                    // implemented.
                    return None;
                }
                proof {
                    axiom_u32_trailing_zeros(masked);
                }
                let size = 1u32 << masked.trailing_zeros();
                Some(Bar::Memory32 { address, size, prefetchable })
            } else if mem_type == 0b10 {
                // A 64-bit BAR in the last slot has no second slot for the
                // upper half of its address.
                if slot >= 5 {
                    return None;
                }
                let address_upper = access.read(self.0, offset + 4);

                access.write(self.0, offset, 0xffff_fff0);
                access.write(self.0, offset + 4, 0xffff_ffff);
                let readback_low = access.read(self.0, offset);
                let readback_high = access.read(self.0, offset + 4);
                access.write(self.0, offset, address);
                access.write(self.0, offset + 4, address_upper);
                proof {
                    assert(final(access).region() =~= old(access).region());
                }

                let masked_low = readback_low & 0xffff_fff0;
                let size: u64;
                if masked_low != 0 {
                    // The readback from the first slot is not zero, so the
                    // size of the BAR is less than 4 GiB.
                    proof {
                        axiom_u32_trailing_zeros(masked_low);
                    }
                    size = (1u32 << masked_low.trailing_zeros()) as u64;
                } else if readback_high != 0 {
                    proof {
                        axiom_u32_trailing_zeros(readback_high);
                    }
                    size = 1u64 << ((readback_high.trailing_zeros() + 32) as u64);
                } else {
                    return None;
                }

                let full_address = (address as u64) | ((address_upper as u64) << 32);
                Some(Bar::Memory64 { address: full_address, size, prefetchable })
            } else {
                // The reserved memory type encodings are a caller contract
                // violation, ruled out by the precondition.
                proof {
                    assert(false);
                }
                None
            }
        }
    }

    /// Write to a BAR, setting the address for a device to use.
    ///
    /// The slot is first decoded by the sizing probe: a slot that holds no
    /// BAR reports `NoSuchBar`, and a value too wide for a 32-bit memory or
    /// I/O BAR reports `InvalidValue`, with the registers unchanged either
    /// way. Otherwise the value is written over the slot — both slots for a
    /// 64-bit BAR. The caller is responsible for supplying a value that is
    /// a legal BAR encoding for the device.
    pub fn write_bar<A: ConfigRegionAccess>(
        &mut self,
        slot: u8,
        access: &mut A,
        value: usize,
    ) -> (r: Result<(), BarWriteError>)
        requires
            ({
                let address = old(self).spec_address();
                let offset = spec_bar_offset(slot);
                let high_offset = (spec_bar_offset(slot) + 4) as u16;
                let raw = old(access).region()[(address, offset)];
                slot < 6 ==> {
                    &&& old(access).region().dom().contains((address, offset))
                    &&& spec_bar_valid_encoding(raw)
                    &&& !spec_bar_is_io(raw) && spec_bar_memory_type(raw) == 0b00
                        ==> bar_restorable(old(access), address, offset)
                    &&& !spec_bar_is_io(raw) && spec_bar_memory_type(raw) == 0b10 && slot < 5 ==> {
                        &&& bar_restorable(old(access), address, offset)
                        &&& old(access).region().dom().contains((address, high_offset))
                        &&& register_stable(old(access), address, high_offset)
                    }
                }
            }),
        ensures
            *final(self) == *old(self),
            forall|a: PciAddress, o: u16, v: u32|
                #[trigger] final(access).write_result(a, o, v) == old(access).write_result(a, o, v),
            ({
                let address = old(self).spec_address();
                let offset = spec_bar_offset(slot);
                let high_offset = (spec_bar_offset(slot) + 4) as u16;
                let decoded = spec_decode_bar(
                    slot,
                    old(access).region()[(address, offset)],
                    old(access).write_result(address, offset, 0xffff_fff0),
                    old(access).region()[(address, high_offset)],
                    old(access).write_result(address, high_offset, 0xffff_ffff),
                );
                match decoded {
                    Some(Bar::Memory64 { .. }) => r == Ok::<(), BarWriteError>(())
                        && final(access).region() == old(access).region().insert(
                        (address, offset),
                        old(access).write_result(address, offset, (value as u64) as u32),
                    ).insert(
                        (address, high_offset),
                        old(access).write_result(address, high_offset, ((value as u64) >> 32) as u32),
                    ),
                    Some(Bar::Memory32 { .. }) | Some(Bar::Io { .. }) => {
                        if value > u32::MAX as usize {
                            r == Err::<(), BarWriteError>(BarWriteError::InvalidValue)
                                && final(access).region() == old(access).region()
                        } else {
                            r == Ok::<(), BarWriteError>(())
                                && final(access).region() == old(access).region().insert(
                                (address, offset),
                                old(access).write_result(address, offset, value as u32),
                            )
                        }
                    },
                    None => r == Err::<(), BarWriteError>(BarWriteError::NoSuchBar)
                        && final(access).region() == old(access).region(),
                }
            }),
    {
        match self.bar(slot, access) {
            Some(Bar::Memory64 { .. }) => {
                let offset: u16 = 0x10 + (slot as u16) * 4;
                access.write(self.0, offset, (value as u64) as u32);
                access.write(self.0, offset + 4, ((value as u64) >> 32) as u32);
                Ok(())
            },
            Some(Bar::Memory32 { .. }) | Some(Bar::Io { .. }) => {
                if value > u32::MAX as usize {
                    return Err(BarWriteError::InvalidValue);
                }
                let offset: u16 = 0x10 + (slot as u16) * 4;
                access.write(self.0, offset, value as u32);
                Ok(())
            },
            None => Err(BarWriteError::NoSuchBar),
        }
    }

    /// The interrupt pin (bits 8..16) and line (bits 0..8) of the dword at
    /// offset `0x3c`.
    pub fn interrupt<A: ConfigRegionAccess>(&self, access: &A) -> (r: (InterruptPin, InterruptLine))
        requires
            access.region().dom().contains((self.spec_address(), 0x3c)),
        ensures
            r.0 == (access.region()[(self.spec_address(), 0x3c)] >> 8) as u8,
            r.1 == access.region()[(self.spec_address(), 0x3c)] as u8,
    {
        let data = access.read(self.0, 0x3c);
        ((data >> 8) as u8, data as u8)
    }

    /// Replaces the interrupt pin and line with `f` of their current
    /// values by a read-modify-write of the dword at offset `0x3c`; the
    /// high half of the dword is written back unchanged.
    pub fn update_interrupt<
        A: ConfigRegionAccess,
        F: FnOnce((InterruptPin, InterruptLine)) -> (InterruptPin, InterruptLine),
    >(
        &mut self,
        access: &mut A,
        f: F,
    )
        requires
            old(access).region().dom().contains((old(self).spec_address(), 0x3c)),
            forall|p: (InterruptPin, InterruptLine)| #[trigger] call_requires(f, (p,)),
        ensures
            *final(self) == *old(self),
            ({
                let address = old(self).spec_address();
                let data = old(access).region()[(address, 0x3c)];
                exists|p: (InterruptPin, InterruptLine)|
                    #[trigger] call_ensures(f, (((data >> 8) as u8, data as u8),), p)
                        && final(access).region() == old(access).region().insert(
                        (address, 0x3c),
                        old(access).write_result(
                            address,
                            0x3c,
                            (data & 0xffff_0000) | ((p.0 as u32) << 8) | (p.1 as u32),
                        ),
                    )
            }),
            forall|a: PciAddress, o: u16, v: u32|
                #[trigger] final(access).write_result(a, o, v) == old(access).write_result(a, o, v),
    {
        let data = access.read(self.0, 0x3c);
        let (new_pin, new_line) = f(((data >> 8) as u8, data as u8));
        let new_data = (data & 0xffff_0000) | ((new_pin as u32) << 8) | (new_line as u32);
        access.write(self.0, 0x3c, new_data);
    }
}

} // verus!
