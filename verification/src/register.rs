use vstd::prelude::*;

verus! {

/// Slowest time that a device will assert DEVSEL# for any bus command except
/// Configuration Space reads and writes.
#[derive(Clone, Copy, Debug, Eq, PartialEq, Structural)]
pub enum DevselTiming {
    Fast,
    Medium,
    Slow,
}

/// The error carrying a value that names no [`DevselTiming`].
#[derive(Debug)]
pub struct TryFromDevselTimingError {
    number: u8,
}

impl TryFromDevselTimingError {
    /// The value that matched no timing.
    pub closed spec fn spec_number(&self) -> u8 {
        self.number
    }

    /// The value that matched no timing.
    #[verifier::when_used_as_spec(spec_number)]
    pub fn number(&self) -> (r: u8)
        ensures
            r == self.spec_number(),
    {
        self.number
    }
}

impl DevselTiming {
    /// The two-bit encoding of the timing in the status register.
    pub open spec fn spec_encoding(self) -> u8 {
        match self {
            DevselTiming::Fast => 0x0,
            DevselTiming::Medium => 0x1,
            DevselTiming::Slow => 0x2,
        }
    }

    /// The timing a two-bit status field value names, or an error carrying
    /// the value when it is not exactly the encoding of one of the three.
    pub fn try_from_value(value: u8) -> (r: Result<DevselTiming, TryFromDevselTimingError>)
        ensures
            value <= 0x2 ==> (r matches Ok(t) && t.spec_encoding() == value),
            value > 0x2 ==> (r matches Err(e) && e.spec_number() == value),
    {
        match value {
            0x0 => Ok(DevselTiming::Fast),
            0x1 => Ok(DevselTiming::Medium),
            0x2 => Ok(DevselTiming::Slow),
            number => Err(TryFromDevselTimingError { number }),
        }
    }
}

/// A decoded view of the 16-bit status register held in the high half of the
/// dword at offset `0x04` of a configuration header.
#[derive(Clone, Copy, Eq, PartialEq, Structural, Debug)]
pub struct StatusRegister(u16);

impl StatusRegister {
    /// The raw 16-bit register value.
    pub closed spec fn spec_bits(&self) -> u16 {
        self.0
    }

    /// Wraps a raw 16-bit status register value.
    pub fn new(value: u16) -> (r: Self)
        ensures
            r.spec_bits() == value,
    {
        StatusRegister(value)
    }

    /// The raw 16-bit register value.
    #[verifier::when_used_as_spec(spec_bits)]
    pub fn bits(&self) -> (r: u16)
        ensures
            r == self.spec_bits(),
    {
        self.0
    }

    /// Will be `true` whenever the device detects a parity error, even if
    /// parity error handling is disabled.
    pub fn parity_error_detected(&self) -> (r: bool)
        ensures
            r == ((self.spec_bits() >> 15) & 1 == 1),
    {
        (self.0 >> 15) & 1 == 1
    }

    /// Will be `true` whenever the device asserts SERR#.
    pub fn signalled_system_error(&self) -> (r: bool)
        ensures
            r == ((self.spec_bits() >> 14) & 1 == 1),
    {
        (self.0 >> 14) & 1 == 1
    }

    /// Will return `true`, by a master device, whenever its transaction
    /// (except for Special Cycle transactions) is terminated with
    /// Master-Abort.
    pub fn received_master_abort(&self) -> (r: bool)
        ensures
            r == ((self.spec_bits() >> 13) & 1 == 1),
    {
        (self.0 >> 13) & 1 == 1
    }

    /// Will return `true`, by a master device, whenever its transaction is
    /// terminated with Target-Abort.
    pub fn received_target_abort(&self) -> (r: bool)
        ensures
            r == ((self.spec_bits() >> 12) & 1 == 1),
    {
        (self.0 >> 12) & 1 == 1
    }

    /// Will return `true` whenever a target device terminates a transaction
    /// with Target-Abort.
    pub fn signalled_target_abort(&self) -> (r: bool)
        ensures
            r == ((self.spec_bits() >> 11) & 1 == 1),
    {
        (self.0 >> 11) & 1 == 1
    }

    /// The slowest time that a device will assert DEVSEL# for any bus command
    /// except Configuration Space reads and writes, from bits 9..11 of the
    /// register.
    ///
    /// For PCIe always set to `Fast`.
    pub fn devsel_timing(&self) -> (r: Result<DevselTiming, TryFromDevselTimingError>)
        ensures
            ({
                let field = ((self.spec_bits() >> 9) & 0x3) as u8;
                &&& field <= 0x2 ==> (r matches Ok(t) && t.spec_encoding() == field)
                &&& field > 0x2 ==> (r matches Err(e) && e.spec_number() == field)
            }),
    {
        let bits = (self.0 >> 9) & 0x3;
        DevselTiming::try_from_value(bits as u8)
    }

    /// This returns `true` only when the bus agent took part in a data
    /// parity error as bus master while parity error response was enabled.
    pub fn master_data_parity_error(&self) -> (r: bool)
        ensures
            r == ((self.spec_bits() >> 8) & 1 == 1),
    {
        (self.0 >> 8) & 1 == 1
    }

    /// If returns `true` the device can accept fast back-to-back
    /// transactions that are not from the same agent; otherwise,
    /// transactions can only be accepted from the same agent.
    ///
    /// For PCIe always set to `false`.
    pub fn fast_back_to_back_capable(&self) -> (r: bool)
        ensures
            r == ((self.spec_bits() >> 7) & 1 == 1),
    {
        (self.0 >> 7) & 1 == 1
    }

    /// If returns `true` the device is capable of running at 66 MHz;
    /// otherwise, the device runs at 33 MHz.
    ///
    /// For PCIe always set to `false`.
    pub fn capable_66mhz(&self) -> (r: bool)
        ensures
            r == ((self.spec_bits() >> 5) & 1 == 1),
    {
        (self.0 >> 5) & 1 == 1
    }

    /// If returns `true` the device implements the pointer for a New
    /// Capabilities Linked list; otherwise, the linked list is not
    /// available.
    ///
    /// For PCIe always set to `true`.
    pub fn has_capability_list(&self) -> (r: bool)
        ensures
            r == ((self.spec_bits() >> 4) & 1 == 1),
    {
        (self.0 >> 4) & 1 == 1
    }

    /// Represents the state of the device's INTx# signal. If returns `true`
    /// and bit 10 of the Command register (Interrupt Disable bit) is set to
    /// 0 the signal will be asserted; otherwise, the signal will be ignored.
    pub fn interrupt_status(&self) -> (r: bool)
        ensures
            r == ((self.spec_bits() >> 3) & 1 == 1),
    {
        (self.0 >> 3) & 1 == 1
    }
}

/// Enables I/O space decoding.
pub const COMMAND_IO_ENABLE: u16 = 0x0001;

/// Enables memory space decoding.
pub const COMMAND_MEMORY_ENABLE: u16 = 0x0002;

/// Lets the device act as bus master.
pub const COMMAND_BUS_MASTER_ENABLE: u16 = 0x0004;

/// Enables monitoring of Special Cycle operations.
pub const COMMAND_SPECIAL_CYCLE_ENABLE: u16 = 0x0008;

/// Lets the device use the Memory Write and Invalidate command.
pub const COMMAND_MEMORY_WRITE_AND_INVALIDATE: u16 = 0x0010;

/// Enables palette snooping on VGA compatible devices.
pub const COMMAND_VGA_PALETTE_SNOOP: u16 = 0x0020;

/// Enables the device's response to parity errors.
pub const COMMAND_PARITY_ERROR_RESPONSE: u16 = 0x0040;

/// Controls IDSEL stepping / wait cycles.
pub const COMMAND_IDSEL_STEP_WAIT_CYCLE_CONTROL: u16 = 0x0080;

/// Enables the SERR# driver.
pub const COMMAND_SERR_ENABLE: u16 = 0x0100;

/// Lets a master run fast back-to-back transactions.
pub const COMMAND_FAST_BACK_TO_BACK_ENABLE: u16 = 0x0200;

/// Disables the assertion of the INTx# signal.
pub const COMMAND_INTERRUPT_DISABLE: u16 = 0x0400;

/// The 16-bit command register held in the low half of the dword at offset
/// `0x04` of a configuration header. The `COMMAND_` constants name its
/// defined bits.
#[derive(Clone, Copy, Eq, PartialEq, Structural, Hash, Debug)]
pub struct CommandRegister(u16);

impl CommandRegister {
    /// The raw 16-bit register value.
    pub closed spec fn spec_bits(&self) -> u16 {
        self.0
    }

    /// The register wrapping the given raw value.
    pub closed spec fn spec_from_bits(bits: u16) -> CommandRegister {
        CommandRegister(bits)
    }

    /// Wraps a raw 16-bit command register value, keeping every bit.
    pub fn from_bits_retain(bits: u16) -> (r: CommandRegister)
        ensures
            r == CommandRegister::spec_from_bits(bits),
            r.spec_bits() == bits,
    {
        CommandRegister(bits)
    }

    /// The raw 16-bit register value.
    #[verifier::when_used_as_spec(spec_bits)]
    pub fn bits(&self) -> (r: u16)
        ensures
            r == self.spec_bits(),
    {
        self.0
    }

    /// Whether every bit set in `flags` is set in the register.
    pub fn contains(&self, flags: u16) -> (r: bool)
        ensures
            r == (self.spec_bits() & flags == flags),
    {
        self.0 & flags == flags
    }

    /// The register with every bit of `flags` also set.
    pub fn with(&self, flags: u16) -> (r: CommandRegister)
        ensures
            r.spec_bits() == self.spec_bits() | flags,
    {
        CommandRegister(self.0 | flags)
    }

    /// The register with every bit of `flags` cleared.
    pub fn without(&self, flags: u16) -> (r: CommandRegister)
        ensures
            r.spec_bits() == self.spec_bits() & !flags,
    {
        CommandRegister(self.0 & !flags)
    }
}

} // verus!
