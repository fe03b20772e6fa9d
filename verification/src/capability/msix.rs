use crate::access::ConfigRegionAccess;
use crate::addr::PciAddress;
use crate::capability::PciCapabilityAddress;
use vstd::prelude::*;

verus! {

/// The MSI-X capability, ID `0x11`.
///
/// The table size and the two BAR-index/offset words for the vector table
/// and the pending bit array are fixed by the device, read once at
/// discovery and cached. The enable and function-mask bits of the control
/// word can change concurrently with driver inspection and are read from
/// or written to the live register on every call.
#[derive(Clone, Copy, PartialEq, Eq, Structural, Debug)]
pub struct MsixCapability {
    pub(crate) address: PciCapabilityAddress,
    table_size: u16,
    /// Table BAR index in bits 0..3 and the offset into that BAR in bits
    /// 3..32.
    table: u32,
    /// Pending Bit Array BAR index in bits 0..3 and the offset into that
    /// BAR in bits 3..32.
    pba: u32,
}

impl MsixCapability {
    /// The capability decoded from its 16-bit control word and the two
    /// dwords at capability offsets `0x04` and `0x08`: the table size is
    /// the count-minus-one in the control word's bits 0..11, plus one.
    pub closed spec fn spec_new(
        address: PciCapabilityAddress,
        control: u16,
        region: Map<(PciAddress, u16), u32>,
    ) -> MsixCapability {
        MsixCapability {
            address,
            table_size: ((control & 0x7ff) + 1) as u16,
            table: region[(address.address, (address.offset + 0x04) as u16)],
            pba: region[(address.address, (address.offset + 0x08) as u16)],
        }
    }

    /// The location of the capability structure.
    pub closed spec fn spec_address(&self) -> PciCapabilityAddress {
        self.address
    }

    #[verifier::type_invariant]
    spec fn type_inv(&self) -> bool {
        self.address.offset < 0x100
    }

    pub(crate) fn new<A: ConfigRegionAccess>(
        address: PciCapabilityAddress,
        control: u16,
        access: &A,
    ) -> (r: MsixCapability)
        requires
            address.offset < 0x100,
            access.region().dom().contains((address.address, (address.offset + 0x04) as u16)),
            access.region().dom().contains((address.address, (address.offset + 0x08) as u16)),
        ensures
            r == MsixCapability::spec_new(address, control, access.region()),
    {
        proof {
            assert(control & 0x7ff <= 0x7ff) by (bit_vector);
        }
        let table_size = (control & 0x7ff) + 1;
        let table = access.read(address.address, address.offset + 0x04);
        let pba = access.read(address.address, address.offset + 0x08);
        MsixCapability { address, table_size, table, pba }
    }

    /// The location of the capability structure.
    #[verifier::when_used_as_spec(spec_address)]
    pub fn address(&self) -> (r: PciCapabilityAddress)
        ensures
            r == self.spec_address(),
            r.offset < 0x100,
    {
        proof {
            use_type_invariant(self);
        }
        self.address
    }

    /// Enable MSI-X on the specified device function, by a
    /// read-modify-write of bit 31 of the live control dword.
    ///
    /// Unlike with MSI, the message data and delivery address are not held
    /// in the capability, but in system memory, pointed to by the BAR that
    /// [`MsixCapability::table_bar`] and [`MsixCapability::table_offset`]
    /// name. The caller is responsible for configuring the table
    /// separately, as this crate has no access to arbitrary physical
    /// memory.
    pub fn set_enabled<A: ConfigRegionAccess>(&mut self, enabled: bool, access: &mut A)
        requires
            old(access).region().dom().contains(
                (old(self).spec_address().address, old(self).spec_address().offset),
            ),
        ensures
            *final(self) == *old(self),
            ({
                let k = (old(self).spec_address().address, old(self).spec_address().offset);
                let control = old(access).region()[k];
                let written = if enabled {
                    control | 0x8000_0000
                } else {
                    control & 0x7fff_ffff
                };
                final(access).region() == old(access).region().insert(
                    k,
                    old(access).write_result(k.0, k.1, written),
                )
            }),
            forall|a: PciAddress, o: u16, v: u32|
                #[trigger] final(access).write_result(a, o, v) == old(access).write_result(a, o, v),
    {
        let mut control = access.read(self.address.address, self.address.offset);
        if enabled {
            control = control | 0x8000_0000;
        } else {
            control = control & 0x7fff_ffff;
        }
        access.write(self.address.address, self.address.offset, control);
    }

    /// Whether MSI-X is enabled: bit 31 of the live control dword.
    pub fn enabled<A: ConfigRegionAccess>(&self, access: &A) -> (r: bool)
        requires
            access.region().dom().contains((self.spec_address().address, self.spec_address().offset)),
        ensures
            r == ((access.region()[(self.spec_address().address, self.spec_address().offset)] >> 31)
                & 1 == 1),
    {
        let control = access.read(self.address.address, self.address.offset);
        (control >> 31) & 1 == 1
    }

    /// Enable or disable the masking of all interrupts of this function,
    /// by a read-modify-write of bit 30 of the live control dword.
    ///
    /// Individual interrupt sources can be masked using the mask field of
    /// the corresponding entry in the MSI-X table.
    pub fn set_function_mask<A: ConfigRegionAccess>(&mut self, mask: bool, access: &mut A)
        requires
            old(access).region().dom().contains(
                (old(self).spec_address().address, old(self).spec_address().offset),
            ),
        ensures
            *final(self) == *old(self),
            ({
                let k = (old(self).spec_address().address, old(self).spec_address().offset);
                let control = old(access).region()[k];
                let written = if mask {
                    control | 0x4000_0000
                } else {
                    control & 0xbfff_ffff
                };
                final(access).region() == old(access).region().insert(
                    k,
                    old(access).write_result(k.0, k.1, written),
                )
            }),
            forall|a: PciAddress, o: u16, v: u32|
                #[trigger] final(access).write_result(a, o, v) == old(access).write_result(a, o, v),
    {
        let mut control = access.read(self.address.address, self.address.offset);
        if mask {
            control = control | 0x4000_0000;
        } else {
            control = control & 0xbfff_ffff;
        }
        access.write(self.address.address, self.address.offset, control);
    }

    /// Whether all interrupts of the function are masked: bit 30 of the
    /// live control dword.
    pub fn function_mask<A: ConfigRegionAccess>(&self, access: &A) -> (r: bool)
        requires
            access.region().dom().contains((self.spec_address().address, self.spec_address().offset)),
        ensures
            r == ((access.region()[(self.spec_address().address, self.spec_address().offset)] >> 30)
                & 1 == 1),
    {
        let control = access.read(self.address.address, self.address.offset);
        (control >> 30) & 1 == 1
    }

    /// The index of the BAR that contains the MSI-X table: bits 0..3 of
    /// the cached table word.
    pub fn table_bar(&self) -> (r: u8)
        ensures
            r == (self.spec_table() & 0x7) as u8,
    {
        (self.table & 0x7) as u8
    }

    /// The offset, in bytes, of the MSI-X table within its BAR: the cached
    /// table word with its three BAR-index bits masked off.
    pub fn table_offset(&self) -> (r: u32)
        ensures
            r == self.spec_table() & 0xffff_fff8,
    {
        self.table & 0xffff_fff8
    }

    /// How many vectors the MSI-X table holds.
    pub fn table_size(&self) -> (r: u16)
        ensures
            r == self.spec_table_size(),
    {
        self.table_size
    }

    /// The index of the BAR that contains the pending bit array: bits 0..3
    /// of the cached pending bit array word.
    pub fn pba_bar(&self) -> (r: u8)
        ensures
            r == (self.spec_pba() & 0x7) as u8,
    {
        (self.pba & 0x7) as u8
    }

    /// The offset, in bytes, of the pending bit array within its BAR: the
    /// cached pending bit array word with its three BAR-index bits masked
    /// off.
    pub fn pba_offset(&self) -> (r: u32)
        ensures
            r == self.spec_pba() & 0xffff_fff8,
    {
        self.pba & 0xffff_fff8
    }

    /// The cached table location word.
    pub closed spec fn spec_table(&self) -> u32 {
        self.table
    }

    /// The cached pending bit array location word.
    pub closed spec fn spec_pba(&self) -> u32 {
        self.pba
    }

    /// The cached vector count.
    pub closed spec fn spec_table_size(&self) -> u16 {
        self.table_size
    }
}

/// What the cached fields of a freshly decoded MSI-X capability hold, in
/// terms of the control word and the registers it was decoded from.
pub proof fn lemma_msix_decode(
    address: PciCapabilityAddress,
    control: u16,
    region: Map<(PciAddress, u16), u32>,
)
    ensures
        MsixCapability::spec_new(address, control, region).spec_address() == address,
        MsixCapability::spec_new(address, control, region).spec_table_size() == (control & 0x7ff)
            + 1,
        MsixCapability::spec_new(address, control, region).spec_table() == region[
            (address.address, (address.offset + 0x04) as u16)],
        MsixCapability::spec_new(address, control, region).spec_pba() == region[
            (address.address, (address.offset + 0x08) as u16)],
{
    assert(control & 0x7ff <= 0x7ff) by (bit_vector);
}

} // verus!
