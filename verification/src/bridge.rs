use crate::access::ConfigRegionAccess;
use crate::addr::PciAddress;
use crate::header::{spec_header_type, HeaderType, PciHeader};
use crate::register::{CommandRegister, StatusRegister};
use vstd::prelude::*;

verus! {

/// A type-1 (PCI-PCI bridge) view of a configuration header, obtained only
/// by checking the generic header's type field first.
///
/// Past the predefined region, a type-1 header holds two BAR slots, the
/// primary, secondary and subordinate bus numbers packed into the dword at
/// `0x18` (bits 0..8, 8..16 and 16..24 respectively), the windows the
/// bridge forwards, and a capability pointer. Like [`PciHeader`] this is a
/// stateless view: every accessor reads the live registers.
#[derive(Clone, Copy, PartialEq, Eq, Structural, Debug)]
pub struct PciPciBridgeHeader(PciAddress);

impl PciPciBridgeHeader {
    /// The address whose configuration region this header reads.
    pub closed spec fn spec_address(&self) -> PciAddress {
        self.0
    }

    /// The bridge view of `header`, exactly when the live header type is
    /// `PciPciBridge`.
    pub fn from_header<A: ConfigRegionAccess>(header: PciHeader, access: &A) -> (r: Option<
        PciPciBridgeHeader,
    >)
        requires
            access.region().dom().contains((header.spec_address(), 0x0c)),
        ensures
            r is Some <==> spec_header_type(access.region()[(header.spec_address(), 0x0c)])
                == HeaderType::PciPciBridge,
            r matches Some(bridge) ==> bridge.spec_address() == header.spec_address(),
    {
        match header.header_type(access) {
            HeaderType::PciPciBridge => Some(PciPciBridgeHeader(header.address())),
            _ => None,
        }
    }

    /// The generic header view of the same function.
    pub fn header(&self) -> (r: PciHeader)
        ensures
            r.spec_address() == self.spec_address(),
    {
        PciHeader::new(self.0)
    }

    /// The status register, from the high half of the dword at offset
    /// `0x04`.
    pub fn status<A: ConfigRegionAccess>(&self, access: &A) -> (r: StatusRegister)
        requires
            access.region().dom().contains((self.spec_address(), 0x04)),
        ensures
            r.spec_bits() == (access.region()[(self.spec_address(), 0x04)] >> 16) as u16,
    {
        self.header().status(access)
    }

    /// The command register, from the low half of the dword at offset
    /// `0x04`.
    pub fn command<A: ConfigRegionAccess>(&self, access: &A) -> (r: CommandRegister)
        requires
            access.region().dom().contains((self.spec_address(), 0x04)),
        ensures
            r.spec_bits() == access.region()[(self.spec_address(), 0x04)] as u16,
    {
        self.header().command(access)
    }

    /// Replaces the command register with `f` of its current value; the
    /// status half of the dword is written back unchanged.
    pub fn update_command<A: ConfigRegionAccess, F: FnOnce(CommandRegister) -> CommandRegister>(
        &mut self,
        access: &mut A,
        f: F,
    )
        requires
            old(access).region().dom().contains((old(self).spec_address(), 0x04)),
            forall|c: CommandRegister| #[trigger] call_requires(f, (c,)),
        ensures
            *final(self) == *old(self),
            ({
                let address = old(self).spec_address();
                let data = old(access).region()[(address, 0x04)];
                exists|c: CommandRegister|
                    #[trigger] call_ensures(f, (CommandRegister::spec_from_bits(data as u16),), c)
                        && final(access).region() == old(access).region().insert(
                        (address, 0x04),
                        old(access).write_result(
                            address,
                            0x04,
                            (data & 0xffff_0000) | (c.spec_bits() as u32),
                        ),
                    )
            }),
            forall|a: PciAddress, o: u16, v: u32|
                #[trigger] final(access).write_result(a, o, v) == old(access).write_result(a, o, v),
    {
        let mut header = self.header();
        header.update_command(access, f);
    }

    /// The primary bus number, from bits 0..8 of the dword at offset
    /// `0x18`.
    pub fn primary_bus_number<A: ConfigRegionAccess>(&self, access: &A) -> (r: u8)
        requires
            access.region().dom().contains((self.spec_address(), 0x18)),
        ensures
            r == access.region()[(self.spec_address(), 0x18)] as u8,
    {
        let data = access.read(self.0, 0x18);
        data as u8
    }

    /// The secondary bus number, from bits 8..16 of the dword at offset
    /// `0x18`.
    pub fn secondary_bus_number<A: ConfigRegionAccess>(&self, access: &A) -> (r: u8)
        requires
            access.region().dom().contains((self.spec_address(), 0x18)),
        ensures
            r == (access.region()[(self.spec_address(), 0x18)] >> 8) as u8,
    {
        let data = access.read(self.0, 0x18);
        (data >> 8) as u8
    }

    /// The subordinate bus number, from bits 16..24 of the dword at offset
    /// `0x18`.
    pub fn subordinate_bus_number<A: ConfigRegionAccess>(&self, access: &A) -> (r: u8)
        requires
            access.region().dom().contains((self.spec_address(), 0x18)),
        ensures
            r == (access.region()[(self.spec_address(), 0x18)] >> 16) as u8,
    {
        let data = access.read(self.0, 0x18);
        (data >> 16) as u8
    }
}

} // verus!
