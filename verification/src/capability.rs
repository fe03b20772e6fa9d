use crate::access::ConfigRegionAccess;
use crate::addr::PciAddress;
use vstd::prelude::*;

mod msi;
mod msix;

pub use msi::{MsiCapability, MultipleMessageSupport, TriggerMode};
pub use msi::{lemma_msi_decode, spec_message_count_from_bits};
pub use msix::{lemma_msix_decode, MsixCapability};

verus! {

/// Identifies one capability structure's start within the configuration
/// space of the function that owns it.
#[derive(Clone, Copy, PartialEq, Eq, Structural, Debug)]
pub struct PciCapabilityAddress {
    pub address: PciAddress,
    pub offset: u16,
}

/// PCI capabilities, keyed by the one-byte ID that starts each structure.
#[derive(Clone, Copy, Debug)]
pub enum PciCapability {
    /// Power management capability, Cap ID = `0x01`
    PowerManagement(PciCapabilityAddress),
    /// Accelerated graphics port capability, Cap ID = `0x02`
    AcceleratedGraphicsPort(PciCapabilityAddress),
    /// Vital product data capability, Cap ID = `0x03`
    VitalProductData(PciCapabilityAddress),
    /// Slot identification capability, Cap ID = `0x04`
    SlotIdentification(PciCapabilityAddress),
    /// Message signalling interrupts capability, Cap ID = `0x05`
    Msi(MsiCapability),
    /// CompactPCI HotSwap capability, Cap ID = `0x06`
    CompactPCIHotswap(PciCapabilityAddress),
    /// PCI-X capability, Cap ID = `0x07`
    PciX(PciCapabilityAddress),
    /// HyperTransport capability, Cap ID = `0x08`
    HyperTransport(PciCapabilityAddress),
    /// Vendor-specific capability, Cap ID = `0x09`
    Vendor(PciCapabilityAddress),
    /// Debug port capability, Cap ID = `0x0A`
    DebugPort(PciCapabilityAddress),
    /// CompactPCI Central Resource Control capability, Cap ID = `0x0B`
    CompactPCICentralResourceControl(PciCapabilityAddress),
    /// PCI Standard Hot-Plug Controller capability, Cap ID = `0x0C`
    PciHotPlugControl(PciCapabilityAddress),
    /// Bridge subsystem vendor/device ID capability, Cap ID = `0x0D`
    BridgeSubsystemVendorId(PciCapabilityAddress),
    /// AGP Target PCI-PCI bridge capability, Cap ID = `0x0E`
    AGP3(PciCapabilityAddress),
    /// PCI Express capability, Cap ID = `0x10`
    PciExpress(PciCapabilityAddress),
    /// MSI-X capability, Cap ID = `0x11`
    MsiX(MsixCapability),
    /// Unknown capability
    Unknown { address: PciCapabilityAddress, id: u8 },
}

/// The capability ID held in bits 0..8 of the dword that starts a
/// capability structure.
pub open spec fn spec_cap_id(word: u32) -> u8 {
    word as u8
}

/// The offset of the next capability, held in bits 8..16 of the dword that
/// starts a capability structure; zero ends the list.
pub open spec fn spec_cap_next(word: u32) -> u16 {
    ((word >> 8) as u8) as u16
}

/// The capability-specific extension data held in bits 16..32 of the dword
/// that starts a capability structure.
pub open spec fn spec_cap_extension(word: u32) -> u16 {
    (word >> 16) as u16
}

/// The capability a chain entry decodes to. The null ID `0x00` decodes to
/// nothing; an ID outside the recognized set still decodes, to `Unknown`,
/// so callers can see the raw chain structure. The region is read further
/// only for MSI-X, whose table and pending-bit-array words sit in the two
/// dwords after the entry.
pub open spec fn spec_parse_capability(
    id: u8,
    address: PciCapabilityAddress,
    extension: u16,
    region: Map<(PciAddress, u16), u32>,
) -> Option<PciCapability> {
    if id == 0x00 {
        None
    } else if id == 0x01 {
        Some(PciCapability::PowerManagement(address))
    } else if id == 0x02 {
        Some(PciCapability::AcceleratedGraphicsPort(address))
    } else if id == 0x03 {
        Some(PciCapability::VitalProductData(address))
    } else if id == 0x04 {
        Some(PciCapability::SlotIdentification(address))
    } else if id == 0x05 {
        Some(PciCapability::Msi(MsiCapability::spec_new(address, extension)))
    } else if id == 0x06 {
        Some(PciCapability::CompactPCIHotswap(address))
    } else if id == 0x07 {
        Some(PciCapability::PciX(address))
    } else if id == 0x08 {
        Some(PciCapability::HyperTransport(address))
    } else if id == 0x09 {
        Some(PciCapability::Vendor(address))
    } else if id == 0x0a {
        Some(PciCapability::DebugPort(address))
    } else if id == 0x0b {
        Some(PciCapability::CompactPCICentralResourceControl(address))
    } else if id == 0x0c {
        Some(PciCapability::PciHotPlugControl(address))
    } else if id == 0x0d {
        Some(PciCapability::BridgeSubsystemVendorId(address))
    } else if id == 0x0e {
        Some(PciCapability::AGP3(address))
    } else if id == 0x10 {
        Some(PciCapability::PciExpress(address))
    } else if id == 0x11 {
        Some(PciCapability::MsiX(MsixCapability::spec_new(address, extension, region)))
    } else {
        Some(PciCapability::Unknown { address, id })
    }
}

impl PciCapability {
    /// The location of the capability structure.
    pub open spec fn spec_capability_address(&self) -> PciCapabilityAddress {
        match *self {
            PciCapability::PowerManagement(address) => address,
            PciCapability::AcceleratedGraphicsPort(address) => address,
            PciCapability::VitalProductData(address) => address,
            PciCapability::SlotIdentification(address) => address,
            PciCapability::Msi(msi_cap) => msi_cap.spec_address(),
            PciCapability::CompactPCIHotswap(address) => address,
            PciCapability::PciX(address) => address,
            PciCapability::HyperTransport(address) => address,
            PciCapability::Vendor(address) => address,
            PciCapability::DebugPort(address) => address,
            PciCapability::CompactPCICentralResourceControl(address) => address,
            PciCapability::PciHotPlugControl(address) => address,
            PciCapability::BridgeSubsystemVendorId(address) => address,
            PciCapability::AGP3(address) => address,
            PciCapability::PciExpress(address) => address,
            PciCapability::MsiX(msix_cap) => msix_cap.spec_address(),
            PciCapability::Unknown { address, id: _ } => address,
        }
    }

    fn parse<A: ConfigRegionAccess>(
        id: u8,
        address: PciCapabilityAddress,
        extension: u16,
        access: &A,
    ) -> (r: Option<PciCapability>)
        requires
            address.offset < 0x100,
            id == 0x11 ==> access.region().dom().contains(
                (address.address, (address.offset + 0x04) as u16),
            ) && access.region().dom().contains((address.address, (address.offset + 0x08) as u16)),
        ensures
            r == spec_parse_capability(id, address, extension, access.region()),
    {
        match id {
            0x00 => None,  // null capability
            0x01 => Some(PciCapability::PowerManagement(address)),
            0x02 => Some(PciCapability::AcceleratedGraphicsPort(address)),
            0x03 => Some(PciCapability::VitalProductData(address)),
            0x04 => Some(PciCapability::SlotIdentification(address)),
            0x05 => Some(PciCapability::Msi(MsiCapability::new(address, extension))),
            0x06 => Some(PciCapability::CompactPCIHotswap(address)),
            0x07 => Some(PciCapability::PciX(address)),
            0x08 => Some(PciCapability::HyperTransport(address)),
            0x09 => Some(PciCapability::Vendor(address)),
            0x0a => Some(PciCapability::DebugPort(address)),
            0x0b => Some(PciCapability::CompactPCICentralResourceControl(address)),
            0x0c => Some(PciCapability::PciHotPlugControl(address)),
            0x0d => Some(PciCapability::BridgeSubsystemVendorId(address)),
            0x0e => Some(PciCapability::AGP3(address)),
            0x10 => Some(PciCapability::PciExpress(address)),
            0x11 => Some(PciCapability::MsiX(MsixCapability::new(address, extension, access))),
            _ => Some(PciCapability::Unknown { address, id }),
        }
    }

    /// The location of the capability structure.
    pub fn address(&self) -> (r: PciCapabilityAddress)
        ensures
            r == self.spec_capability_address(),
    {
        match *self {
            PciCapability::PowerManagement(address) => address,
            PciCapability::AcceleratedGraphicsPort(address) => address,
            PciCapability::VitalProductData(address) => address,
            PciCapability::SlotIdentification(address) => address,
            PciCapability::Msi(msi_cap) => msi_cap.address(),
            PciCapability::CompactPCIHotswap(address) => address,
            PciCapability::PciX(address) => address,
            PciCapability::HyperTransport(address) => address,
            PciCapability::Vendor(address) => address,
            PciCapability::DebugPort(address) => address,
            PciCapability::CompactPCICentralResourceControl(address) => address,
            PciCapability::PciHotPlugControl(address) => address,
            PciCapability::BridgeSubsystemVendorId(address) => address,
            PciCapability::AGP3(address) => address,
            PciCapability::PciExpress(address) => address,
            PciCapability::MsiX(msix_cap) => msix_cap.address(),
            PciCapability::Unknown { address, id: _ } => address,
        }
    }
}

/// The offset of the entry that yields the first visible capability of a
/// chain, following next pointers from `offset` and skipping entries with
/// the null ID, together with the number of links that remain of `budget`
/// once that entry's next pointer has been followed. A chain that ends, or
/// whose walk exhausts the budget, yields nothing.
pub open spec fn spec_chain_head(
    region: Map<(PciAddress, u16), u32>,
    address: PciAddress,
    offset: u16,
    budget: nat,
) -> Option<(u16, nat)>
    decreases budget,
{
    if offset == 0 || budget == 0 {
        None
    } else {
        let word = region[(address, offset)];
        if spec_cap_id(word) != 0 {
            Some((offset, (budget - 1) as nat))
        } else {
            spec_chain_head(region, address, spec_cap_next(word), (budget - 1) as nat)
        }
    }
}

/// A lazy, single-pass walk of a function's capability list.
///
/// Each entry names its successor by an eight-bit offset; an offset of
/// exactly zero ends the list. Entries carrying the null ID are skipped
/// without ending the walk. The walker follows at most 255 links over its
/// lifetime: a longer walk must revisit one of the 255 possible nonzero
/// offsets, which only a cyclic chain reported by misbehaving hardware can
/// produce, and after that many links the walk reports exhaustion instead
/// of following the cycle forever.
pub struct CapabilityIterator<T: ConfigRegionAccess> {
    address: PciAddress,
    offset: u16,
    budget: u8,
    access: T,
}

impl<T: ConfigRegionAccess> CapabilityIterator<T> {
    /// The function whose capability list is walked.
    pub closed spec fn spec_target(&self) -> PciAddress {
        self.address
    }

    /// The offset of the next entry to visit; zero when the walk is over.
    pub closed spec fn spec_offset(&self) -> u16 {
        self.offset
    }

    /// How many links the walker may still follow.
    pub closed spec fn spec_budget(&self) -> u8 {
        self.budget
    }

    /// The access mechanism the walker reads through.
    pub closed spec fn spec_access(&self) -> T {
        self.access
    }

    /// The walker can run: its offset is an eight-bit chain offset, and
    /// every register a chain entry could name is readable, including the
    /// two dwords past an entry that the MSI-X decoder takes.
    pub open spec fn wf(&self) -> bool {
        &&& self.spec_offset() < 0x100
        &&& forall|o: u16|
            0 < o < 0x108 ==> self.spec_access().region().dom().contains((self.spec_target(), o))
    }

    pub(crate) fn new(address: PciAddress, offset: u16, access: T) -> (r: CapabilityIterator<T>)
        requires
            offset < 0x100,
            forall|o: u16| 0 < o < 0x108 ==> access.region().dom().contains((address, o)),
        ensures
            r.wf(),
            r.spec_target() == address,
            r.spec_offset() == offset,
            r.spec_budget() == 255,
            r.spec_access() == access,
    {
        CapabilityIterator { address, offset, budget: 255, access }
    }

    /// The next visible capability of the chain, or `None` once the chain
    /// has ended. Entries with the null ID are passed over; the walker
    /// advances past the yielded entry before returning it.
    pub fn next(&mut self) -> (r: Option<PciCapability>)
        requires
            old(self).wf(),
        ensures
            final(self).wf(),
            final(self).spec_target() == old(self).spec_target(),
            final(self).spec_access() == old(self).spec_access(),
            ({
                let region = old(self).spec_access().region();
                let head = spec_chain_head(
                    region,
                    old(self).spec_target(),
                    old(self).spec_offset(),
                    old(self).spec_budget() as nat,
                );
                match head {
                    None => r is None && (final(self).spec_offset() == 0
                        || final(self).spec_budget() == 0),
                    Some(found) => {
                        let word = region[(old(self).spec_target(), found.0)];
                        &&& r == spec_parse_capability(
                            spec_cap_id(word),
                            PciCapabilityAddress {
                                address: old(self).spec_target(),
                                offset: found.0,
                            },
                            spec_cap_extension(word),
                            region,
                        )
                        &&& r is Some
                        &&& final(self).spec_offset() == spec_cap_next(word)
                        &&& final(self).spec_budget() == found.1
                    },
                }
            }),
    {
        loop
            invariant
                self.wf(),
                self.address == old(self).spec_target(),
                self.access == old(self).spec_access(),
                spec_chain_head(
                    self.access.region(),
                    self.address,
                    self.offset,
                    self.budget as nat,
                ) == spec_chain_head(
                    old(self).spec_access().region(),
                    old(self).spec_target(),
                    old(self).spec_offset(),
                    old(self).spec_budget() as nat,
                ),
            decreases self.budget,
        {
            if self.offset == 0 || self.budget == 0 {
                return None;
            }
            proof {
                assert(self.spec_access().region().dom().contains(
                    (self.spec_target(), self.offset),
                ));
            }
            let data = self.access.read(self.address, self.offset);
            let id = data as u8;
            let next_ptr = ((data >> 8) as u8) as u16;
            let current = self.offset;
            self.offset = next_ptr;
            self.budget = self.budget - 1;
            if id != 0 {
                proof {
                    assert(self.spec_access().region().dom().contains(
                        (self.spec_target(), (current + 0x04) as u16),
                    ));
                    assert(self.spec_access().region().dom().contains(
                        (self.spec_target(), (current + 0x08) as u16),
                    ));
                }
                let cap = PciCapability::parse(
                    id,
                    PciCapabilityAddress { address: self.address, offset: current },
                    (data >> 16) as u16,
                    &self.access,
                );
                return cap;
            }
        }
    }
}

} // verus!
