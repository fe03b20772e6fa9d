use crate::access::ConfigRegionAccess;
use crate::addr::PciAddress;
use crate::capability::PciCapabilityAddress;
use vstd::prelude::*;

verus! {

/// Specifies how many MSI interrupts one device can have.
///
/// The device modifies the low bits of its interrupt vector to send
/// multiple messages, so the interrupt block must be aligned accordingly.
#[derive(Debug, Copy, Clone, Ord, PartialOrd, Eq, PartialEq, Structural)]
pub enum MultipleMessageSupport {
    /// Device can send 1 interrupt. No interrupt vector modification is
    /// happening here.
    Int1,
    /// Device can send 2 interrupts.
    Int2,
    /// Device can send 4 interrupts.
    Int4,
    /// Device can send 8 interrupts.
    Int8,
    /// Device can send 16 interrupts.
    Int16,
    /// Device can send 32 interrupts.
    Int32,
}

/// The count named by a three-bit control field value: the log2-encoded
/// counts 0..6 name 1 to 32 messages. A reserved value names no count.
pub open spec fn spec_message_count_from_bits(value: u8) -> Option<MultipleMessageSupport> {
    if value == 0 {
        Some(MultipleMessageSupport::Int1)
    } else if value == 1 {
        Some(MultipleMessageSupport::Int2)
    } else if value == 2 {
        Some(MultipleMessageSupport::Int4)
    } else if value == 3 {
        Some(MultipleMessageSupport::Int8)
    } else if value == 4 {
        Some(MultipleMessageSupport::Int16)
    } else if value == 5 {
        Some(MultipleMessageSupport::Int32)
    } else {
        None
    }
}

impl MultipleMessageSupport {
    /// The three-bit encoding of the count in the MSI control word: the
    /// base-two logarithm of the count.
    pub open spec fn spec_encoding(self) -> u8 {
        match self {
            MultipleMessageSupport::Int1 => 0,
            MultipleMessageSupport::Int2 => 1,
            MultipleMessageSupport::Int4 => 2,
            MultipleMessageSupport::Int8 => 3,
            MultipleMessageSupport::Int16 => 4,
            MultipleMessageSupport::Int32 => 5,
        }
    }

    /// The three-bit encoding of the count in the MSI control word.
    #[verifier::when_used_as_spec(spec_encoding)]
    pub fn encoding(self) -> (r: u8)
        ensures
            r == self.spec_encoding(),
    {
        match self {
            MultipleMessageSupport::Int1 => 0,
            MultipleMessageSupport::Int2 => 1,
            MultipleMessageSupport::Int4 => 2,
            MultipleMessageSupport::Int8 => 3,
            MultipleMessageSupport::Int16 => 4,
            MultipleMessageSupport::Int32 => 5,
        }
    }

    /// The count a three-bit control field value names, or an error for the
    /// two reserved values.
    pub fn try_from_bits(value: u8) -> (r: Result<MultipleMessageSupport, ()>)
        ensures
            r matches Ok(c) ==> spec_message_count_from_bits(value) == Some(c),
            r is Err <==> spec_message_count_from_bits(value) is None,
    {
        match value {
            0 => Ok(MultipleMessageSupport::Int1),
            1 => Ok(MultipleMessageSupport::Int2),
            2 => Ok(MultipleMessageSupport::Int4),
            3 => Ok(MultipleMessageSupport::Int8),
            4 => Ok(MultipleMessageSupport::Int16),
            5 => Ok(MultipleMessageSupport::Int32),
            _ => Err(()),
        }
    }
}

/// When the device should trigger the interrupt.
#[derive(Debug, Clone, Copy, PartialEq, Eq, Structural)]
pub enum TriggerMode {
    Edge,
    LevelAssert,
    LevelDeassert,
}

impl TriggerMode {
    /// The two-bit encoding of the mode in the message data word's bits
    /// 14..16.
    pub open spec fn spec_encoding(self) -> u8 {
        match self {
            TriggerMode::Edge => 0b00,
            TriggerMode::LevelAssert => 0b11,
            TriggerMode::LevelDeassert => 0b10,
        }
    }

    /// The two-bit encoding of the mode in the message data word's bits
    /// 14..16.
    #[verifier::when_used_as_spec(spec_encoding)]
    pub fn encoding(self) -> (r: u8)
        ensures
            r == self.spec_encoding(),
    {
        match self {
            TriggerMode::Edge => 0b00,
            TriggerMode::LevelAssert => 0b11,
            TriggerMode::LevelDeassert => 0b10,
        }
    }
}

/// The Message Signalled Interrupts capability, ID `0x05`.
///
/// The three capability-static facts in the control word — per-vector
/// masking support, 64-bit addressing support, and the multiple-message
/// count the device is capable of — are decoded once at discovery and
/// cached. Everything else (the enable bit, message address and data, the
/// per-vector mask and pending bits) can change under the device and is
/// read from or written to the live registers on every call.
#[derive(Debug, Clone, Copy, PartialEq, Eq, Structural)]
pub struct MsiCapability {
    pub(crate) address: PciCapabilityAddress,
    per_vector_masking: bool,
    is_64bit: bool,
    multiple_message_capable: MultipleMessageSupport,
}

impl MsiCapability {
    /// The capability decoded from its 16-bit control word: bit 8 is
    /// per-vector masking support, bit 7 is 64-bit addressing support, and
    /// bits 1..4 the multiple-message-capable count, falling back to one
    /// message on a reserved count encoding.
    pub closed spec fn spec_new(address: PciCapabilityAddress, control: u16) -> MsiCapability {
        MsiCapability {
            address,
            per_vector_masking: (control >> 8) & 1 == 1,
            is_64bit: (control >> 7) & 1 == 1,
            multiple_message_capable: match spec_message_count_from_bits(
                ((control >> 1) & 0x7) as u8,
            ) {
                Some(c) => c,
                None => MultipleMessageSupport::Int1,
            },
        }
    }

    /// The location of the capability structure.
    pub closed spec fn spec_address(&self) -> PciCapabilityAddress {
        self.address
    }

    /// Whether the device supports masking individual vectors.
    pub closed spec fn spec_has_per_vector_masking(&self) -> bool {
        self.per_vector_masking
    }

    /// Whether the device uses 64-bit addressing.
    pub closed spec fn spec_is_64bit(&self) -> bool {
        self.is_64bit
    }

    /// How many interrupts the device is capable of.
    pub closed spec fn spec_multiple_message_capable(&self) -> MultipleMessageSupport {
        self.multiple_message_capable
    }

    #[verifier::type_invariant]
    spec fn type_inv(&self) -> bool {
        self.address.offset < 0x100
    }

    pub(crate) fn new(address: PciCapabilityAddress, control: u16) -> (r: MsiCapability)
        requires
            address.offset < 0x100,
        ensures
            r == MsiCapability::spec_new(address, control),
    {
        let bits = ((control >> 1) & 0x7) as u8;
        let capable = match MultipleMessageSupport::try_from_bits(bits) {
            Ok(c) => c,
            Err(()) => MultipleMessageSupport::Int1,
        };
        MsiCapability {
            address,
            per_vector_masking: (control >> 8) & 1 == 1,
            is_64bit: (control >> 7) & 1 == 1,
            multiple_message_capable: capable,
        }
    }

    /// The location of the capability structure.
    #[verifier::when_used_as_spec(spec_address)]
    pub fn address(&self) -> (r: PciCapabilityAddress)
        ensures
            r == self.spec_address(),
            r.offset < 0x100,
    {
        proof {
            use_type_invariant(self);
        }
        self.address
    }

    /// Does the device support masking individual vectors?
    #[verifier::when_used_as_spec(spec_has_per_vector_masking)]
    pub fn has_per_vector_masking(&self) -> (r: bool)
        ensures
            r == self.spec_has_per_vector_masking(),
    {
        self.per_vector_masking
    }

    /// Is the device using 64-bit addressing?
    #[verifier::when_used_as_spec(spec_is_64bit)]
    pub fn is_64bit(&self) -> (r: bool)
        ensures
            r == self.spec_is_64bit(),
    {
        self.is_64bit
    }

    /// How many interrupts does the device have?
    #[verifier::when_used_as_spec(spec_multiple_message_capable)]
    pub fn multiple_message_capable(&self) -> (r: MultipleMessageSupport)
        ensures
            r == self.spec_multiple_message_capable(),
    {
        self.multiple_message_capable
    }

    /// The live control and status dword at the capability's offset.
    pub fn ctrl<A: ConfigRegionAccess>(&self, access: &A) -> (r: u32)
        requires
            access.region().dom().contains((self.spec_address().address, self.spec_address().offset)),
        ensures
            r == access.region()[(self.spec_address().address, self.spec_address().offset)],
    {
        access.read(self.address.address, self.address.offset)
    }

    /// Is the MSI capability enabled? Bit 16 of the control dword.
    pub fn is_enabled<A: ConfigRegionAccess>(&self, access: &A) -> (r: bool)
        requires
            access.region().dom().contains((self.spec_address().address, self.spec_address().offset)),
        ensures
            r == ((access.region()[(self.spec_address().address, self.spec_address().offset)] >> 16)
                & 1 == 1),
    {
        let reg = access.read(self.address.address, self.address.offset);
        (reg >> 16) & 1 == 1
    }

    /// Enable or disable the MSI capability by a read-modify-write of bit
    /// 16 of the control dword.
    pub fn set_enabled<A: ConfigRegionAccess>(&self, enabled: bool, access: &mut A)
        requires
            old(access).region().dom().contains(
                (self.spec_address().address, self.spec_address().offset),
            ),
        ensures
            ({
                let k = (self.spec_address().address, self.spec_address().offset);
                let data = old(access).region()[k];
                let written = if enabled {
                    data | 0x0001_0000
                } else {
                    data & 0xfffe_ffff
                };
                final(access).region() == old(access).region().insert(
                    k,
                    old(access).write_result(k.0, k.1, written),
                )
            }),
            forall|a: PciAddress, o: u16, v: u32|
                #[trigger] final(access).write_result(a, o, v) == old(access).write_result(a, o, v),
    {
        let mut reg = access.read(self.address.address, self.address.offset);
        if enabled {
            reg = reg | 0x0001_0000;
        } else {
            reg = reg & 0xfffe_ffff;
        }
        access.write(self.address.address, self.address.offset, reg);
    }

    /// Set how many interrupts the device will use, in bits 4..7 of the
    /// control dword. A requested count greater than the count the device
    /// is capable of is clamped: the capable count is written, never the
    /// requested one.
    pub fn set_multiple_message_enable<A: ConfigRegionAccess>(
        &self,
        data: MultipleMessageSupport,
        access: &mut A,
    )
        requires
            old(access).region().dom().contains(
                (self.spec_address().address, self.spec_address().offset),
            ),
        ensures
            ({
                let k = (self.spec_address().address, self.spec_address().offset);
                let reg = old(access).region()[k];
                let clamped = if data.spec_encoding()
                    <= self.spec_multiple_message_capable().spec_encoding() {
                    data
                } else {
                    self.spec_multiple_message_capable()
                };
                let written = (reg & 0xffff_ff8f) | ((clamped.spec_encoding() as u32) << 4);
                final(access).region() == old(access).region().insert(
                    k,
                    old(access).write_result(k.0, k.1, written),
                )
            }),
            forall|a: PciAddress, o: u16, v: u32|
                #[trigger] final(access).write_result(a, o, v) == old(access).write_result(a, o, v),
    {
        let clamped = if data.encoding() <= self.multiple_message_capable.encoding() {
            data
        } else {
            self.multiple_message_capable
        };
        let reg = access.read(self.address.address, self.address.offset);
        let written = (reg & 0xffff_ff8f) | ((clamped.encoding() as u32) << 4);
        access.write(self.address.address, self.address.offset, written);
    }

    /// Return how many interrupts the device is using, from bits 4..7 of
    /// the control dword, falling back to one message on a reserved count
    /// encoding.
    pub fn multiple_message_enable<A: ConfigRegionAccess>(&self, access: &A) -> (r:
        MultipleMessageSupport)
        requires
            access.region().dom().contains((self.spec_address().address, self.spec_address().offset)),
        ensures
            ({
                let reg = access.region()[(self.spec_address().address, self.spec_address().offset)];
                r == match spec_message_count_from_bits(((reg >> 4) & 0x7) as u8) {
                    Some(c) => c,
                    None => MultipleMessageSupport::Int1,
                }
            }),
    {
        let reg = access.read(self.address.address, self.address.offset);
        match MultipleMessageSupport::try_from_bits(((reg >> 4) & 0x7) as u8) {
            Ok(c) => c,
            Err(()) => MultipleMessageSupport::Int1,
        }
    }

    /// Set the memory address that will be written to when the interrupt
    /// fires, and the data that will be written to it.
    ///
    /// The low address word goes to the dword at capability offset `0x04`;
    /// on a 64-bit capability the high word goes to `0x08` and the data
    /// word to `0x0c`, while a 32-bit capability takes the data word at
    /// `0x08`.
    pub fn set_message_info<A: ConfigRegionAccess>(&self, address: u64, data: u32, access: &mut A)
        requires
            ({
                let a = self.spec_address().address;
                let off = self.spec_address().offset;
                &&& old(access).region().dom().contains((a, (off + 0x04) as u16))
                &&& self.spec_is_64bit() ==> old(access).region().dom().contains(
                    (a, (off + 0x08) as u16),
                )
                &&& old(access).region().dom().contains(
                    (a, (off + if self.spec_is_64bit() { 0x0cu16 } else { 0x08u16 }) as u16),
                )
            }),
        ensures
            ({
                let a = self.spec_address().address;
                let off = self.spec_address().offset;
                let address_key = (a, (off + 0x04) as u16);
                let high_key = (a, (off + 0x08) as u16);
                let data_key = (a, (off + if self.spec_is_64bit() { 0x0cu16 } else { 0x08u16 }) as u16);
                if self.spec_is_64bit() {
                    final(access).region() == old(access).region().insert(
                        address_key,
                        old(access).write_result(a, address_key.1, address as u32),
                    ).insert(
                        high_key,
                        old(access).write_result(a, high_key.1, (address >> 32) as u32),
                    ).insert(data_key, old(access).write_result(a, data_key.1, data))
                } else {
                    final(access).region() == old(access).region().insert(
                        address_key,
                        old(access).write_result(a, address_key.1, address as u32),
                    ).insert(data_key, old(access).write_result(a, data_key.1, data))
                }
            }),
            forall|a: PciAddress, o: u16, v: u32|
                #[trigger] final(access).write_result(a, o, v) == old(access).write_result(a, o, v),
    {
        proof {
            use_type_invariant(self);
        }
        access.write(self.address.address, self.address.offset + 0x04, address as u32);
        if self.is_64bit {
            access.write(self.address.address, self.address.offset + 0x08, (address >> 32) as u32);
        }
        let data_offset: u16 = if self.is_64bit {
            0x0c
        } else {
            0x08
        };
        access.write(self.address.address, self.address.offset + data_offset, data);
    }

    /// Set the memory address that will be written to when the interrupt
    /// fires, and the data that will be written to it, specialised for the
    /// message format the LAPIC expects: the vector in bits 0..8 of the
    /// data word and the trigger mode in its bits 14..16.
    ///
    /// # Arguments
    /// * `address` - Target Local APIC address (if not changed, can be
    ///   calculated with `0xfee00000 | (processor << 12)`)
    /// * `vector` - Which interrupt vector should be triggered on the LAPIC
    /// * `trigger_mode` - When the interrupt should be triggered
    /// * `access` - Configuration space access mechanism
    pub fn set_message_info_lapic<A: ConfigRegionAccess>(
        &self,
        address: u64,
        vector: u8,
        trigger_mode: TriggerMode,
        access: &mut A,
    )
        requires
            ({
                let a = self.spec_address().address;
                let off = self.spec_address().offset;
                &&& old(access).region().dom().contains((a, (off + 0x04) as u16))
                &&& self.spec_is_64bit() ==> old(access).region().dom().contains(
                    (a, (off + 0x08) as u16),
                )
                &&& old(access).region().dom().contains(
                    (a, (off + if self.spec_is_64bit() { 0x0cu16 } else { 0x08u16 }) as u16),
                )
            }),
        ensures
            ({
                let a = self.spec_address().address;
                let off = self.spec_address().offset;
                let address_key = (a, (off + 0x04) as u16);
                let high_key = (a, (off + 0x08) as u16);
                let data_key = (a, (off + if self.spec_is_64bit() { 0x0cu16 } else { 0x08u16 }) as u16);
                let data = (vector as u32) | ((trigger_mode.spec_encoding() as u32) << 14);
                if self.spec_is_64bit() {
                    final(access).region() == old(access).region().insert(
                        address_key,
                        old(access).write_result(a, address_key.1, address as u32),
                    ).insert(
                        high_key,
                        old(access).write_result(a, high_key.1, (address >> 32) as u32),
                    ).insert(data_key, old(access).write_result(a, data_key.1, data))
                } else {
                    final(access).region() == old(access).region().insert(
                        address_key,
                        old(access).write_result(a, address_key.1, address as u32),
                    ).insert(data_key, old(access).write_result(a, data_key.1, data))
                }
            }),
            forall|a: PciAddress, o: u16, v: u32|
                #[trigger] final(access).write_result(a, o, v) == old(access).write_result(a, o, v),
    {
        let data = (vector as u32) | ((trigger_mode.encoding() as u32) << 14);
        self.set_message_info(address, data, access);
    }

    /// Get the interrupt mask, from the dword at capability offset `0x10`.
    ///
    /// # Note
    /// Only supported when the device supports 64-bit addressing and
    /// per-vector masking. Otherwise returns `0`.
    pub fn message_mask<A: ConfigRegionAccess>(&self, access: &A) -> (r: u32)
        requires
            self.spec_is_64bit() && self.spec_has_per_vector_masking() ==> access.region(
            ).dom().contains(
                (self.spec_address().address, (self.spec_address().offset + 0x10) as u16),
            ),
        ensures
            r == if self.spec_is_64bit() && self.spec_has_per_vector_masking() {
                access.region()[(self.spec_address().address, (self.spec_address().offset
                    + 0x10) as u16)]
            } else {
                0u32
            },
    {
        proof {
            use_type_invariant(self);
        }
        if self.is_64bit && self.per_vector_masking {
            access.read(self.address.address, self.address.offset + 0x10)
        } else {
            0
        }
    }

    /// Set the interrupt mask, in the dword at capability offset `0x10`.
    ///
    /// # Note
    /// Only supported when the device supports 64-bit addressing and
    /// per-vector masking. Otherwise the call is a silent no-op, not an
    /// error.
    pub fn set_message_mask<A: ConfigRegionAccess>(&self, mask: u32, access: &mut A)
        requires
            self.spec_is_64bit() && self.spec_has_per_vector_masking() ==> old(access).region(
            ).dom().contains(
                (self.spec_address().address, (self.spec_address().offset + 0x10) as u16),
            ),
        ensures
            ({
                let k = (self.spec_address().address, (self.spec_address().offset + 0x10) as u16);
                if self.spec_is_64bit() && self.spec_has_per_vector_masking() {
                    final(access).region() == old(access).region().insert(
                        k,
                        old(access).write_result(k.0, k.1, mask),
                    )
                } else {
                    final(access).region() == old(access).region()
                }
            }),
            forall|a: PciAddress, o: u16, v: u32|
                #[trigger] final(access).write_result(a, o, v) == old(access).write_result(a, o, v),
    {
        proof {
            use_type_invariant(self);
        }
        if self.is_64bit && self.per_vector_masking {
            access.write(self.address.address, self.address.offset + 0x10, mask);
        }
    }

    /// Get the pending interrupts, from the dword at capability offset
    /// `0x14`.
    ///
    /// # Note
    /// Only supported when the device supports 64-bit addressing and
    /// per-vector masking. Otherwise returns `0`.
    pub fn is_pending<A: ConfigRegionAccess>(&self, access: &A) -> (r: u32)
        requires
            self.spec_is_64bit() && self.spec_has_per_vector_masking() ==> access.region(
            ).dom().contains(
                (self.spec_address().address, (self.spec_address().offset + 0x14) as u16),
            ),
        ensures
            r == if self.spec_is_64bit() && self.spec_has_per_vector_masking() {
                access.region()[(self.spec_address().address, (self.spec_address().offset
                    + 0x14) as u16)]
            } else {
                0u32
            },
    {
        proof {
            use_type_invariant(self);
        }
        if self.is_64bit && self.per_vector_masking {
            access.read(self.address.address, self.address.offset + 0x14)
        } else {
            0
        }
    }
}

/// What the capability-static fields of a freshly decoded MSI capability
/// hold, in terms of the control word it was decoded from.
pub proof fn lemma_msi_decode(address: PciCapabilityAddress, control: u16)
    ensures
        MsiCapability::spec_new(address, control).spec_address() == address,
        MsiCapability::spec_new(address, control).spec_has_per_vector_masking() == ((control >> 8)
            & 1 == 1),
        MsiCapability::spec_new(address, control).spec_is_64bit() == ((control >> 7) & 1 == 1),
        MsiCapability::spec_new(address, control).spec_multiple_message_capable() == (
        match spec_message_count_from_bits(((control >> 1) & 0x7) as u8) {
            Some(c) => c,
            None => MultipleMessageSupport::Int1,
        }),
{
}

} // verus!
