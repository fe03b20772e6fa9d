use crate::addr::PciAddress;
use vstd::prelude::*;

verus! {

/// A caller-supplied mechanism for reading and writing the configuration
/// space of PCI functions (memory-mapped ECAM, indexed port I/O, ...).
///
/// The mechanism is modelled by two spec functions. [`Self::region`] gives
/// the value every implemented dword register currently holds, keyed by the
/// function's address and the register's byte offset; a pair outside its
/// domain is not valid for access, and passing one to `read` or `write` is a
/// contract violation, mirroring hardware where such an access is undefined.
/// [`Self::write_result`] gives the value a register holds after a value is
/// written to it: configuration registers routinely ignore or hardwire some
/// of their bits, so the stored value need not be the written one.
///
/// Reads are assumed to be free of side effects and writes to affect only
/// the addressed register, as they are for configuration space. Hardware
/// may also change registers on its own (a status bit rising, for example);
/// staleness of that kind is outside the model, which describes the region
/// as of the caller's last access.
pub trait ConfigRegionAccess: Sized {
    /// The current contents of each implemented dword register. The default
    /// implements no register at all; a verified implementor overrides it
    /// with its own model of the region.
    open spec fn region(&self) -> Map<(PciAddress, u16), u32> {
        Map::empty()
    }

    /// The value the register at `(address, offset)` holds once `value` has
    /// been written to it. The default stores the value unchanged; a
    /// verified implementor whose registers hardwire or ignore bits
    /// overrides it.
    open spec fn write_result(&self, address: PciAddress, offset: u16, value: u32) -> u32 {
        value
    }

    /// Performs a configuration read at `address` with `offset`.
    fn read(&self, address: PciAddress, offset: u16) -> (value: u32)
        requires
            self.region().dom().contains((address, offset)),
        ensures
            value == self.region()[(address, offset)],
    ;

    /// Performs a configuration write at `address` with `offset`.
    fn write(&mut self, address: PciAddress, offset: u16, value: u32)
        requires
            old(self).region().dom().contains((address, offset)),
        ensures
            final(self).region() == old(self).region().insert(
                (address, offset),
                old(self).write_result(address, offset, value),
            ),
            forall|a: PciAddress, o: u16, v: u32|
                #[trigger] final(self).write_result(a, o, v) == old(self).write_result(a, o, v),
    ;
}

/// The register at `(address, offset)` keeps the value it holds when that
/// value is written back to it. This holds of every configuration register
/// whose read-only bits read as the hardwired values that writes cannot
/// change; it is what lets a probed register be restored from a readback.
pub open spec fn register_stable<A: ConfigRegionAccess>(
    access: &A,
    address: PciAddress,
    offset: u16,
) -> bool {
    access.write_result(address, offset, access.region()[(address, offset)])
        == access.region()[(address, offset)]
}

} // verus!
