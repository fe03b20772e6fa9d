//! Types for decoding and manipulating the configuration space of a
//! PCI/PCIe function: address packing, header models, Base Address
//! Register decoding and sizing, the capability list, and the MSI and
//! MSI-X capability structures.
//!
//! The concrete access mechanism (ECAM, port I/O, ...) is supplied by the
//! caller through the [`ConfigRegionAccess`] trait; everything in this
//! crate is specified against the abstract register contents that the
//! trait exposes.

use vstd::prelude::*;

mod access;
mod addr;
mod bar;
mod bridge;
pub mod capability;
pub mod device_type;
mod endpoint;
mod header;
mod register;
mod sim;

pub use access::{register_stable, ConfigRegionAccess};
pub use addr::PciAddress;
pub use bar::{Bar, BarWriteError};
pub use bridge::PciPciBridgeHeader;
pub use endpoint::EndpointHeader;
pub use header::{HeaderType, PciHeader};
pub use sim::SimulatedRegion;
pub use register::{
    CommandRegister, DevselTiming, StatusRegister, TryFromDevselTimingError, COMMAND_BUS_MASTER_ENABLE,
    COMMAND_FAST_BACK_TO_BACK_ENABLE, COMMAND_IDSEL_STEP_WAIT_CYCLE_CONTROL, COMMAND_INTERRUPT_DISABLE,
    COMMAND_IO_ENABLE, COMMAND_MEMORY_ENABLE, COMMAND_MEMORY_WRITE_AND_INVALIDATE,
    COMMAND_PARITY_ERROR_RESPONSE, COMMAND_SERR_ENABLE, COMMAND_SPECIAL_CYCLE_ENABLE,
    COMMAND_VGA_PALETTE_SNOOP,
};

verus! {

pub type VendorId = u16;

pub type DeviceId = u16;

pub type DeviceRevision = u8;

pub type BaseClass = u8;

pub type SubClass = u8;

pub type Interface = u8;

pub type SubsystemId = u16;

pub type SubsystemVendorId = u16;

pub type InterruptLine = u8;

pub type InterruptPin = u8;

/// The number of Base Address Register slots in a type-0 header.
pub const MAX_BARS: usize = 6;

} // verus!
