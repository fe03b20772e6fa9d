use crate::access::ConfigRegionAccess;
use crate::addr::PciAddress;
use vstd::arithmetic::power2::pow2;
use vstd::bits::{lemma_u32_shl_is_mul, lemma_u64_shl_is_mul};
use vstd::prelude::*;
use vstd::std_specs::bits::{axiom_u32_trailing_zeros, u32_trailing_zeros};

verus! {

/// A decoded Base Address Register.
///
/// A BAR is produced only by the sizing probe ([`crate::EndpointHeader::bar`]),
/// so the size of a memory BAR is always a power of two; an unimplemented
/// slot decodes to no BAR at all.
#[derive(Clone, Copy, Debug)]
#[allow(inconsistent_fields)]
pub enum Bar {
    Memory32 { address: u32, size: u32, prefetchable: bool },
    Memory64 { address: u64, size: u64, prefetchable: bool },
    Io { port: u32 },
}

/// The error returned when a BAR cannot be written: the slot decodes to no
/// BAR at all, or the value does not fit the BAR's width.
#[derive(Clone, Copy, PartialEq, Eq, Structural, Debug)]
pub enum BarWriteError {
    NoSuchBar,
    InvalidValue,
}

/// Whether the raw BAR value decodes by I/O rather than memory: its bit 0.
pub open spec fn spec_bar_is_io(raw: u32) -> bool {
    raw & 1 == 1
}

/// The memory type field of a raw memory BAR value: its bits 1..3.
/// `0b00` is 32-bit wide, `0b10` is 64-bit wide; `0b01` and `0b11` are
/// reserved encodings that a caller must reject rather than decode.
pub open spec fn spec_bar_memory_type(raw: u32) -> u32 {
    (raw >> 1) & 0b11
}

/// Whether the raw memory BAR value marks the region prefetchable: its
/// bit 3.
pub open spec fn spec_bar_prefetchable(raw: u32) -> bool {
    (raw >> 3) & 1 == 1
}

/// The address bits of a raw memory BAR value: everything above the four
/// type and prefetch bits.
pub open spec fn spec_bar_address(raw: u32) -> u32 {
    raw & 0xffff_fff0
}

/// The size a sizing probe reports: two to the power of the number of
/// trailing zeros of the readback mask, address bits only. Meaningful when
/// the masked readback is not zero.
pub open spec fn spec_bar_size_from_mask(readback: u32) -> u32 {
    1u32 << u32_trailing_zeros(readback & 0xffff_fff0)
}

/// The raw value a well-formed BAR slot may hold: one that does not use a
/// reserved memory type encoding. Decoding a reserved encoding is a caller
/// contract violation, so the probe requires this of the live value.
pub open spec fn spec_bar_valid_encoding(raw: u32) -> bool {
    spec_bar_is_io(raw) || spec_bar_memory_type(raw) == 0b00 || spec_bar_memory_type(raw) == 0b10
}

/// The byte offset of a BAR slot in a type-0 header: the slots are the six
/// consecutive dwords from `0x10`.
pub open spec fn spec_bar_offset(slot: u8) -> u16 {
    (0x10 + (slot as u16) * 4) as u16
}

/// The register at `(address, offset)` behaves like a live memory BAR under
/// restore: writing back only the address bits of its current value leaves
/// the register unchanged. Real BARs hardwire their four low type and
/// prefetch bits, so the write cannot lose them; the sizing probe relies on
/// this to put the register back exactly as it found it.
pub open spec fn bar_restorable<A: ConfigRegionAccess>(
    access: &A,
    address: PciAddress,
    offset: u16,
) -> bool {
    access.write_result(address, offset, access.region()[(address, offset)] & 0xffff_fff0)
        == access.region()[(address, offset)]
}

/// The BAR that the sizing probe of one slot decodes.
///
/// `raw` is the value the slot held before the probe and `probe` the
/// readback after all-ones were written to its address bits. For a 64-bit
/// BAR, `raw_high` and `probe_high` are the same pair for the next slot;
/// they are irrelevant to every other shape. An I/O BAR needs no probe: its
/// port is the raw value without the two low flag bits. A masked readback
/// of zero means the slot is unimplemented, and a 64-bit BAR in the last
/// slot has no room for its upper half; neither decodes to a BAR.
pub open spec fn spec_decode_bar(
    slot: u8,
    raw: u32,
    probe: u32,
    raw_high: u32,
    probe_high: u32,
) -> Option<Bar> {
    if slot >= 6 {
        None
    } else if spec_bar_is_io(raw) {
        Some(Bar::Io { port: raw & 0xffff_fffc })
    } else if spec_bar_memory_type(raw) == 0b00 {
        if probe & 0xffff_fff0 == 0 {
            None
        } else {
            Some(
                Bar::Memory32 {
                    address: spec_bar_address(raw),
                    size: spec_bar_size_from_mask(probe),
                    prefetchable: spec_bar_prefetchable(raw),
                },
            )
        }
    } else if spec_bar_memory_type(raw) == 0b10 {
        if slot >= 5 {
            None
        } else {
            let address = (spec_bar_address(raw) as u64) | ((raw_high as u64) << 32);
            let prefetchable = spec_bar_prefetchable(raw);
            if probe & 0xffff_fff0 != 0 {
                Some(
                    Bar::Memory64 {
                        address,
                        size: spec_bar_size_from_mask(probe) as u64,
                        prefetchable,
                    },
                )
            } else if probe_high != 0 {
                Some(
                    Bar::Memory64 {
                        address,
                        size: 1u64 << ((u32_trailing_zeros(probe_high) + 32) as u64),
                        prefetchable,
                    },
                )
            } else {
                None
            }
        }
    } else {
        None
    }
}

impl Bar {
    /// Return the I/O port of this BAR. The BAR must be an I/O BAR.
    pub fn unwrap_io(self) -> (r: u32)
        requires
            self is Io,
        ensures
            self matches Bar::Io { port } && r == port,
    {
        match self {
            Bar::Io { port } => port,
            Bar::Memory32 { .. } | Bar::Memory64 { .. } => {
                proof {
                    assert(false);
                }
                0
            },
        }
    }

    /// Return the address and size of this BAR. The BAR must be a memory
    /// BAR, and a 64-bit one must fit the platform's address width.
    pub fn unwrap_mem(self) -> (r: (usize, usize))
        requires
            self is Memory32 || self is Memory64,
            self matches Bar::Memory64 { address, size, .. } ==> address <= usize::MAX && size
                <= usize::MAX,
        ensures
            self matches Bar::Memory32 { address, size, .. } ==> r.0 == address && r.1 == size,
            self matches Bar::Memory64 { address, size, .. } ==> r.0 == address && r.1 == size,
    {
        match self {
            Bar::Memory32 { address, size, prefetchable: _ } => (address as usize, size as usize),
            Bar::Memory64 { address, size, prefetchable: _ } => (address as usize, size as usize),
            Bar::Io { .. } => {
                proof {
                    assert(false);
                }
                (0, 0)
            },
        }
    }
}

/// The size of every decoded memory BAR is a power of two.
pub proof fn lemma_bar_size_power_of_two(
    slot: u8,
    raw: u32,
    probe: u32,
    raw_high: u32,
    probe_high: u32,
)
    ensures
        spec_decode_bar(slot, raw, probe, raw_high, probe_high) matches Some(
            Bar::Memory32 { size, .. },
        ) ==> exists|e: nat| e < 32 && size == pow2(e),
        spec_decode_bar(slot, raw, probe, raw_high, probe_high) matches Some(
            Bar::Memory64 { size, .. },
        ) ==> exists|e: nat| e < 64 && size == pow2(e),
{
    axiom_u32_trailing_zeros(probe & 0xffff_fff0);
    axiom_u32_trailing_zeros(probe_high);
    let tz = u32_trailing_zeros(probe & 0xffff_fff0);
    let tz_high = u32_trailing_zeros(probe_high);
    if probe & 0xffff_fff0 != 0 {
        vstd::bits::lemma_u32_pow2_no_overflow(tz as nat);
        lemma_u32_shl_is_mul(1u32, tz);
        assert(spec_bar_size_from_mask(probe) == pow2(tz as nat));
        assert((spec_bar_size_from_mask(probe) as u64) == pow2(tz as nat));
    }
    if probe_high != 0 {
        vstd::bits::lemma_u64_pow2_no_overflow((tz_high + 32) as nat);
        lemma_u64_shl_is_mul(1u64, (tz_high + 32) as u64);
        assert((1u64 << ((tz_high + 32) as u64)) == pow2((tz_high + 32) as nat));
    }
}

/// A 64-bit-typed BAR in the last slot decodes to no BAR: there is no next
/// slot to hold the upper half of its address.
pub proof fn lemma_bar64_needs_second_slot(raw: u32, probe: u32, raw_high: u32, probe_high: u32)
    requires
        !spec_bar_is_io(raw),
        spec_bar_memory_type(raw) == 0b10,
    ensures
        spec_decode_bar(5, raw, probe, raw_high, probe_high) is None,
{
}

} // verus!

