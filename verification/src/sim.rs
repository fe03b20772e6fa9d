use crate::access::ConfigRegionAccess;
use crate::addr::PciAddress;
use vstd::prelude::*;

verus! {

/// A simulated configuration region for one function, for exercising code
/// that consumes a [`ConfigRegionAccess`].
///
/// Every offset below the region's size names a dword register with a
/// write mask and hardwired bits: a write stores `(value & mask) | fixed`,
/// the way a live configuration register with read-only bits does. A
/// register whose hardwired bits lie outside its write mask keeps its
/// value when that value is written back, so a BAR simulated this way
/// satisfies the restore preconditions of the sizing probe.
pub struct SimulatedRegion {
    address: PciAddress,
    regs: Vec<u32>,
    masks: Vec<u32>,
    fixed: Vec<u32>,
}

proof fn lemma_full_mask_keeps_value()
    by (bit_vector)
    ensures
        forall|v: u32| #[trigger] ((v & 0xffff_ffff) | 0) == v,
{
}

impl SimulatedRegion {
    /// The function whose configuration region is simulated.
    pub closed spec fn spec_address(&self) -> PciAddress {
        self.address
    }

    #[verifier::type_invariant]
    spec fn type_inv(&self) -> bool {
        self.masks.len() == self.regs.len() && self.fixed.len() == self.regs.len()
    }

    /// A region of `size` registers for the function at `address`, every
    /// register holding zero and storing writes unchanged.
    pub fn new(address: PciAddress, size: u16) -> (r: SimulatedRegion)
        ensures
            r.spec_address() == address,
            forall|a: PciAddress, o: u16|
                #[trigger] r.region().dom().contains((a, o)) <==> (a == address && o < size),
            forall|o: u16| o < size ==> r.region()[(address, o)] == 0,
            forall|a: PciAddress, o: u16, v: u32| #[trigger] r.write_result(a, o, v) == v,
    {
        proof {
            lemma_full_mask_keeps_value();
        }
        let n = size as usize;
        let regs: Vec<u32> = vec![0u32; n];
        let masks: Vec<u32> = vec![0xffff_ffffu32; n];
        let fixed: Vec<u32> = vec![0u32; n];
        SimulatedRegion { address, regs, masks, fixed }
    }

    /// Stores `value` in the register at `offset` as it is, leaving the
    /// register's write behaviour alone.
    pub fn set_register(&mut self, offset: u16, value: u32)
        requires
            old(self).region().dom().contains((old(self).spec_address(), offset)),
        ensures
            final(self).spec_address() == old(self).spec_address(),
            final(self).region() == old(self).region().insert(
                (old(self).spec_address(), offset),
                value,
            ),
            forall|a: PciAddress, o: u16, v: u32|
                #[trigger] final(self).write_result(a, o, v) == old(self).write_result(a, o, v),
    {
        proof {
            use_type_invariant(&*self);
        }
        let i = offset as usize;
        self.regs[i] = value;
        proof {
            assert(self.region() =~= old(self).region().insert((self.address, offset), value));
        }
    }

    /// Gives the register at `offset` the write behaviour of a register
    /// whose writable bits are `mask` and whose other bits are hardwired to
    /// `fixed`, and stores `value` through that behaviour.
    pub fn configure_register(&mut self, offset: u16, value: u32, mask: u32, fixed: u32)
        requires
            old(self).region().dom().contains((old(self).spec_address(), offset)),
        ensures
            final(self).spec_address() == old(self).spec_address(),
            final(self).region() == old(self).region().insert(
                (old(self).spec_address(), offset),
                (value & mask) | fixed,
            ),
            forall|v: u32|
                #[trigger] final(self).write_result(old(self).spec_address(), offset, v) == (v
                    & mask) | fixed,
            forall|a: PciAddress, o: u16, v: u32|
                a != old(self).spec_address() || o != offset ==> #[trigger] final(self).write_result(
                    a,
                    o,
                    v,
                ) == old(self).write_result(a, o, v),
    {
        proof {
            use_type_invariant(&*self);
        }
        let i = offset as usize;
        self.masks[i] = mask;
        self.fixed[i] = fixed;
        self.regs[i] = (value & mask) | fixed;
        proof {
            assert(self.region() =~= old(self).region().insert(
                (self.address, offset),
                (value & mask) | fixed,
            ));
        }
    }
}

impl ConfigRegionAccess for SimulatedRegion {
    closed spec fn region(&self) -> Map<(PciAddress, u16), u32> {
        Map::new(
            |k: (PciAddress, u16)| k.0 == self.address && (k.1 as int) < self.regs@.len(),
            |k: (PciAddress, u16)| self.regs@[k.1 as int],
        )
    }

    closed spec fn write_result(&self, address: PciAddress, offset: u16, value: u32) -> u32 {
        if address == self.address && (offset as int) < self.masks@.len() {
            (value & self.masks@[offset as int]) | self.fixed@[offset as int]
        } else {
            value
        }
    }

    fn read(&self, address: PciAddress, offset: u16) -> (value: u32) {
        let i = offset as usize;
        self.regs[i]
    }

    fn write(&mut self, address: PciAddress, offset: u16, value: u32) {
        proof {
            use_type_invariant(&*self);
        }
        let i = offset as usize;
        self.regs[i] = (value & self.masks[i]) | self.fixed[i];
        proof {
            assert(self.region() =~= old(self).region().insert(
                (address, offset),
                old(self).write_result(address, offset, value),
            ));
        }
    }
}

} // verus!
