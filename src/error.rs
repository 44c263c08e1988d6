use vstd::prelude::*;

verus! {

/// Failures that stop the emulator.
#[derive(Clone, Copy, Debug, PartialEq, Eq, Structural)]
pub enum NesError {
    /// The cartridge image does not start with `4E 45 53 1A`.
    BadMagic,
    /// The cartridge needs a mapper or a ROM layout other than NROM.
    UnsupportedMapper,
    /// The cartridge image is shorter than its header says.
    Truncated,
    /// The CPU fetched an opcode byte that is not an official 6502 instruction.
    IllegalOpcode(u8),
}

} // verus!
