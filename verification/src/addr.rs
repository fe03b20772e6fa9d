use vstd::prelude::*;

verus! {

/// The address of a PCIe function.
///
/// PCIe supports 65536 segments, each with 256 buses, each with 32 devices,
/// each with 8 possible functions. The four fields are packed into a `u32`
/// so that addresses order by segment, then bus, then device, then function:
/// the function occupies bits 0..3, the device bits 3..8, the bus bits 8..16
/// and the segment bits 16..32.
#[derive(Clone, Copy, PartialEq, Eq, Structural, PartialOrd, Ord, Hash, Default, Debug)]
pub struct PciAddress(u32);

/// The packed key built from the four address fields; a device wider than 5
/// bits or a function wider than 3 bits is truncated to its field.
pub closed spec fn spec_pack_address(segment: u16, bus: u8, device: u8, function: u8) -> u32 {
    ((function as u32) & 0x7) | (((device as u32) & 0x1f) << 3) | ((bus as u32) << 8) | (
    (segment as u32) << 16)
}

/// The address whose packed key is built from the four given fields.
pub closed spec fn spec_address(segment: u16, bus: u8, device: u8, function: u8) -> PciAddress {
    PciAddress(spec_pack_address(segment, bus, device, function))
}

proof fn lemma_pack_address_fields(segment: u16, bus: u8, device: u8, function: u8)
    by (bit_vector)
    ensures
        ({
            let v = ((function as u32) & 0x7) | (((device as u32) & 0x1f) << 3) | ((bus
                as u32) << 8) | ((segment as u32) << 16);
            &&& (v >> 16) as u16 == segment
            &&& (v >> 8) as u8 == bus
            &&& ((v >> 3) & 0x1f) as u8 == device & 0x1f
            &&& (v & 0x7) as u8 == function & 0x7
        }),
{
}

impl PciAddress {
    /// The segment field of the packed key.
    pub closed spec fn spec_segment(&self) -> u16 {
        (self.0 >> 16) as u16
    }

    /// The bus field of the packed key.
    pub closed spec fn spec_bus(&self) -> u8 {
        (self.0 >> 8) as u8
    }

    /// The device field of the packed key.
    pub closed spec fn spec_device(&self) -> u8 {
        ((self.0 >> 3) & 0x1f) as u8
    }

    /// The function field of the packed key.
    pub closed spec fn spec_function(&self) -> u8 {
        (self.0 & 0x7) as u8
    }

    /// Packs the four fields into one key. A `device` of 32 or more or a
    /// `function` of 8 or more is silently truncated to its field width;
    /// callers that cannot accept truncation must validate the ranges first.
    pub fn new(segment: u16, bus: u8, device: u8, function: u8) -> (r: PciAddress)
        ensures
            r == spec_address(segment, bus, device, function),
            r.spec_segment() == segment,
            r.spec_bus() == bus,
            r.spec_device() == device & 0x1f,
            r.spec_function() == function & 0x7,
    {
        proof {
            lemma_pack_address_fields(segment, bus, device, function);
        }
        PciAddress(
            ((function as u32) & 0x7) | (((device as u32) & 0x1f) << 3) | ((bus as u32) << 8) | (
            (segment as u32) << 16),
        )
    }

    /// The segment of the address.
    #[verifier::when_used_as_spec(spec_segment)]
    pub fn segment(&self) -> (r: u16)
        ensures
            r == self.spec_segment(),
    {
        (self.0 >> 16) as u16
    }

    /// The bus of the address.
    #[verifier::when_used_as_spec(spec_bus)]
    pub fn bus(&self) -> (r: u8)
        ensures
            r == self.spec_bus(),
    {
        (self.0 >> 8) as u8
    }

    /// The device of the address; always below 32.
    #[verifier::when_used_as_spec(spec_device)]
    pub fn device(&self) -> (r: u8)
        ensures
            r == self.spec_device(),
    {
        ((self.0 >> 3) & 0x1f) as u8
    }

    /// The function of the address; always below 8.
    #[verifier::when_used_as_spec(spec_function)]
    pub fn function(&self) -> (r: u8)
        ensures
            r == self.spec_function(),
    {
        (self.0 & 0x7) as u8
    }
}

/// Decoding a packed address recovers exactly the four fields it was built
/// from, for every in-range device and function.
pub proof fn lemma_address_round_trip(segment: u16, bus: u8, device: u8, function: u8)
    requires
        device < 32,
        function < 8,
    ensures
        spec_address(segment, bus, device, function).spec_segment() == segment,
        spec_address(segment, bus, device, function).spec_bus() == bus,
        spec_address(segment, bus, device, function).spec_device() == device,
        spec_address(segment, bus, device, function).spec_function() == function,
{
    lemma_pack_address_fields(segment, bus, device, function);
    assert(device < 32 ==> device & 0x1f == device) by (bit_vector);
    assert(function < 8 ==> function & 0x7 == function) by (bit_vector);
}

} // verus!
