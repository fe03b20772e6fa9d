use crate::access::ConfigRegionAccess;
use crate::addr::PciAddress;
use crate::register::{CommandRegister, StatusRegister};
use crate::{BaseClass, DeviceId, DeviceRevision, Interface, SubClass, VendorId};
use vstd::prelude::*;

verus! {

/// The layout a configuration header follows after its predefined part,
/// decoded from the seven low bits of the header type byte.
#[non_exhaustive]
#[derive(Clone, Copy, PartialEq, Eq, Structural, Debug)]
pub enum HeaderType {
    Endpoint,
    PciPciBridge,
    CardBusBridge,
    Unknown(u8),
}

/// The header type named by the dword at offset `0x0c`: its bits 16..23,
/// leaving out bit 23, the multiple-function flag.
pub open spec fn spec_header_type(word: u32) -> HeaderType {
    let t = ((word >> 16) & 0x7f) as u8;
    if t == 0x00 {
        HeaderType::Endpoint
    } else if t == 0x01 {
        HeaderType::PciPciBridge
    } else if t == 0x02 {
        HeaderType::CardBusBridge
    } else {
        HeaderType::Unknown(t)
    }
}

/// Every PCI configuration region starts with a header made up of two parts:
/// a predefined region that identifies the function (bytes `0x00..0x10`)
/// and a device-dependent region whose layout the Header Type field names.
///
/// The predefined region holds, dword by dword: the device and vendor IDs at
/// `0x00`, the status and command registers at `0x04`, the class code and
/// revision at `0x08`, and BIST, header type, latency timer and cacheline
/// size at `0x0c`.
///
/// The header is a stateless view: it holds only the function's address and
/// every accessor reads the live registers through the access mechanism it
/// is handed.
#[derive(Clone, Copy, PartialEq, Eq, Structural, Debug)]
pub struct PciHeader(PciAddress);

impl PciHeader {
    /// The address whose configuration region this header reads.
    pub closed spec fn spec_address(&self) -> PciAddress {
        self.0
    }

    /// A header view of the configuration region at `address`.
    pub fn new(address: PciAddress) -> (r: PciHeader)
        ensures
            r.spec_address() == address,
    {
        PciHeader(address)
    }

    /// The address whose configuration region this header reads.
    #[verifier::when_used_as_spec(spec_address)]
    pub fn address(&self) -> (r: PciAddress)
        ensures
            r == self.spec_address(),
    {
        self.0
    }

    /// The vendor ID (low half) and device ID (high half) of the dword at
    /// offset `0x00`.
    pub fn id<A: ConfigRegionAccess>(&self, access: &A) -> (r: (VendorId, DeviceId))
        requires
            access.region().dom().contains((self.spec_address(), 0x00)),
        ensures
            r.0 == access.region()[(self.spec_address(), 0x00)] as u16,
            r.1 == (access.region()[(self.spec_address(), 0x00)] >> 16) as u16,
    {
        let id = access.read(self.0, 0x00);
        (id as u16, (id >> 16) as u16)
    }

    /// The header type held in bits 16..23 of the dword at offset `0x0c`.
    /// Bit 23 dictates whether the device has multiple functions and so is
    /// not part of the type; [`Self::has_multiple_functions`] exposes it.
    pub fn header_type<A: ConfigRegionAccess>(&self, access: &A) -> (r: HeaderType)
        requires
            access.region().dom().contains((self.spec_address(), 0x0c)),
        ensures
            r == spec_header_type(access.region()[(self.spec_address(), 0x0c)]),
    {
        let word = access.read(self.0, 0x0c);
        let t = ((word >> 16) & 0x7f) as u8;
        match t {
            0x00 => HeaderType::Endpoint,
            0x01 => HeaderType::PciPciBridge,
            0x02 => HeaderType::CardBusBridge,
            _ => HeaderType::Unknown(t),
        }
    }

    /// Whether bit 23 of the dword at offset `0x0c` reports the device as
    /// having multiple functions.
    pub fn has_multiple_functions<A: ConfigRegionAccess>(&self, access: &A) -> (r: bool)
        requires
            access.region().dom().contains((self.spec_address(), 0x0c)),
        ensures
            r == ((access.region()[(self.spec_address(), 0x0c)] >> 23) & 1 == 1),
    {
        let word = access.read(self.0, 0x0c);
        (word >> 23) & 1 == 1
    }

    /// The revision (bits 0..8), base class (bits 24..32), sub class (bits
    /// 16..24) and interface (bits 8..16) of the dword at offset `0x08`, in
    /// that order.
    pub fn revision_and_class<A: ConfigRegionAccess>(&self, access: &A) -> (r: (
        DeviceRevision,
        BaseClass,
        SubClass,
        Interface,
    ))
        requires
            access.region().dom().contains((self.spec_address(), 0x08)),
        ensures
            ({
                let field = access.region()[(self.spec_address(), 0x08)];
                &&& r.0 == field as u8
                &&& r.1 == (field >> 24) as u8
                &&& r.2 == (field >> 16) as u8
                &&& r.3 == (field >> 8) as u8
            }),
    {
        let field = access.read(self.0, 0x08);
        (field as u8, (field >> 24) as u8, (field >> 16) as u8, (field >> 8) as u8)
    }

    /// The status register, from the high half of the dword at offset
    /// `0x04`.
    pub fn status<A: ConfigRegionAccess>(&self, access: &A) -> (r: StatusRegister)
        requires
            access.region().dom().contains((self.spec_address(), 0x04)),
        ensures
            r.spec_bits() == (access.region()[(self.spec_address(), 0x04)] >> 16) as u16,
    {
        let data = access.read(self.0, 0x04);
        StatusRegister::new((data >> 16) as u16)
    }

    /// The command register, from the low half of the dword at offset
    /// `0x04`.
    pub fn command<A: ConfigRegionAccess>(&self, access: &A) -> (r: CommandRegister)
        requires
            access.region().dom().contains((self.spec_address(), 0x04)),
        ensures
            r.spec_bits() == access.region()[(self.spec_address(), 0x04)] as u16,
    {
        let data = access.read(self.0, 0x04);
        CommandRegister::from_bits_retain(data as u16)
    }

    /// Replaces the command register with `f` of its current value by a
    /// read-modify-write of the dword at offset `0x04`; the status half of
    /// the dword is written back unchanged.
    pub fn update_command<A: ConfigRegionAccess, F: FnOnce(CommandRegister) -> CommandRegister>(
        &mut self,
        access: &mut A,
        f: F,
    )
        requires
            old(access).region().dom().contains((old(self).spec_address(), 0x04)),
            forall|c: CommandRegister| #[trigger] call_requires(f, (c,)),
        ensures
            *final(self) == *old(self),
            ({
                let address = old(self).spec_address();
                let data = old(access).region()[(address, 0x04)];
                exists|c: CommandRegister|
                    #[trigger] call_ensures(f, (CommandRegister::spec_from_bits(data as u16),), c)
                        && final(access).region() == old(access).region().insert(
                        (address, 0x04),
                        old(access).write_result(
                            address,
                            0x04,
                            (data & 0xffff_0000) | (c.spec_bits() as u32),
                        ),
                    )
            }),
            forall|a: PciAddress, o: u16, v: u32|
                #[trigger] final(access).write_result(a, o, v) == old(access).write_result(a, o, v),
    {
        let data = access.read(self.0, 0x04);
        let new_command = f(CommandRegister::from_bits_retain(data as u16));
        let new_data = (data & 0xffff_0000) | (new_command.bits() as u32);
        access.write(self.0, 0x04, new_data);
    }
}

} // verus!
