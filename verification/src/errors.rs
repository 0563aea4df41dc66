use vstd::prelude::*;

verus! {

/// Returned by opcode lookup when a byte has no entry in the instruction
/// table; carries the offending byte.
#[derive(Clone, Copy, Debug, PartialEq, Eq, Structural)]
pub struct DecodeError {
    pub opcode: u8,
}

/// Returned by cartridge ingestion, before any instruction executes.
#[derive(Clone, Copy, Debug, PartialEq, Eq, Structural)]
pub enum LoadError {
    /// The buffer does not begin with the cartridge magic sequence.
    BadMagic,
    /// The buffer is shorter than the regions its header declares.
    Truncated,
    /// The program region exceeds the 32KiB window above the load base.
    ProgramTooLarge,
    /// The tile region exceeds the capacity of the decoded tile store.
    TileDataTooLarge,
}

/// Returned by the fetch-decode-execute step; identifies the offending byte
/// and the program counter at which it was fetched.
#[derive(Clone, Copy, Debug, PartialEq, Eq, Structural)]
pub enum StepError {
    /// The byte at the program counter is not in the instruction table.
    Decode { opcode: u8, pc: u16 },
    /// The byte decodes to a (mnemonic, mode) pair outside the supported set.
    Unimplemented { opcode: u8, pc: u16 },
}

} // verus!
