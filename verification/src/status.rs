//! The controller's status register as a set of flags.

use vstd::prelude::*;

verus! {

/// Output buffer full: a byte waits in the data register.
pub const OUTPUT_FULL: u8 = 0x01;

/// Input buffer full: the controller has not yet taken the last byte written.
pub const INPUT_FULL: u8 = 0x02;

/// System flag, set once the controller has passed its self test.
pub const SYSTEM: u8 = 0x04;

/// The last write went to the command register rather than the data register.
pub const COMMAND: u8 = 0x08;

/// Keyboard lock (chipset specific).
pub const KEYBOARD_LOCK: u8 = 0x10;

/// Output buffer of the second port full (chipset specific).
pub const SECOND_OUTPUT_FULL: u8 = 0x20;

/// Time-out error.
pub const TIME_OUT: u8 = 0x40;

/// Parity error.
pub const PARITY: u8 = 0x80;

/// A snapshot of the status register. Every bit of the register is a flag,
/// so every byte is a valid snapshot.
#[derive(Clone, Copy, Debug, PartialEq, Eq, Structural)]
pub struct StatusFlags {
    bits: u8,
}

impl View for StatusFlags {
    type V = u8;

    closed spec fn view(&self) -> u8 {
        self.bits
    }
}

/// Whether every flag of `mask` is set in `bits`.
pub open spec fn has_all(bits: u8, mask: u8) -> bool {
    bits & mask == mask
}

impl StatusFlags {
    /// The snapshot with no flag set.
    pub fn empty() -> (flags: StatusFlags)
        ensures
            flags@ == 0,
    {
        StatusFlags { bits: 0 }
    }

    /// The snapshot that a register value stands for.
    pub fn from_bits_truncate(bits: u8) -> (flags: StatusFlags)
        ensures
            flags@ == bits,
    {
        StatusFlags { bits }
    }

    /// The register value of this snapshot.
    pub fn bits(&self) -> (bits: u8)
        ensures
            bits == self@,
    {
        self.bits
    }

    /// Whether every flag of `other` is set in this snapshot.
    pub fn contains(&self, other: StatusFlags) -> (yes: bool)
        ensures
            yes == has_all(self@, other@),
    {
        self.bits & other.bits == other.bits
    }

    /// Whether a byte waits in the data register.
    pub fn output_full(&self) -> (yes: bool)
        ensures
            yes == has_all(self@, OUTPUT_FULL),
    {
        self.bits & OUTPUT_FULL == OUTPUT_FULL
    }
}

} // verus!
