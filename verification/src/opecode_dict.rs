use vstd::prelude::*;

use crate::errors::DecodeError;

verus! {

#[derive(Clone, Copy, Debug, PartialEq, Eq, Structural)]
pub enum OpecodeName {
    JMP,
    SEI,
    DEY,
    TSX,
    LDY,
    LDX,
    LDA,
    STA,
    INX,
    BNE,
}

#[derive(Clone, Copy, Debug, PartialEq, Eq, Structural)]
pub enum AddressingMode {
    IMP,
    IMD,
    REL,
    ABS,
    ABX,
}

/// Total instruction length in bytes, opcode byte included, for each
/// addressing mode; the amount the program counter advances by for
/// non-branching instructions.
pub open spec fn operand_num_spec(mode: AddressingMode) -> usize {
    match mode {
        AddressingMode::IMP => 1,
        AddressingMode::IMD => 2,
        AddressingMode::REL => 2,
        AddressingMode::ABX => 3,
        AddressingMode::ABS => 3,
    }
}

impl AddressingMode {
    pub fn getOperandNum(&self) -> (r: usize)
        ensures
            r == operand_num_spec(*self),
    {
        match self {
            AddressingMode::IMP => 1,
            AddressingMode::IMD => 2,
            AddressingMode::REL => 2,
            AddressingMode::ABX => 3,
            AddressingMode::ABS => 3,
        }
    }
}

#[derive(Clone, Copy, Debug, PartialEq, Eq, Structural)]
pub struct Opecode {
    pub name: OpecodeName,
    pub mode: AddressingMode,
}

impl Opecode {
    pub fn new(name: OpecodeName, mode: AddressingMode) -> (r: Opecode)
        ensures
            r == (Opecode { name, mode }),
    {
        Opecode { name, mode }
    }
}

/// The registered instruction set: the single source of truth for decode.
/// Every byte maps to at most one (mnemonic, mode) pair.
pub open spec fn opcode_spec(b: u8) -> Option<Opecode> {
    match b {
        0x4C => Some(Opecode { name: OpecodeName::JMP, mode: AddressingMode::ABS }),
        0x78 => Some(Opecode { name: OpecodeName::SEI, mode: AddressingMode::IMP }),
        0x88 => Some(Opecode { name: OpecodeName::DEY, mode: AddressingMode::IMP }),
        0x9A => Some(Opecode { name: OpecodeName::TSX, mode: AddressingMode::IMP }),
        0xA0 => Some(Opecode { name: OpecodeName::LDY, mode: AddressingMode::IMD }),
        0xA2 => Some(Opecode { name: OpecodeName::LDX, mode: AddressingMode::IMD }),
        0xA9 => Some(Opecode { name: OpecodeName::LDA, mode: AddressingMode::IMD }),
        0x8D => Some(Opecode { name: OpecodeName::STA, mode: AddressingMode::ABS }),
        0xBD => Some(Opecode { name: OpecodeName::LDA, mode: AddressingMode::ABX }),
        0xE8 => Some(Opecode { name: OpecodeName::INX, mode: AddressingMode::IMP }),
        0xD0 => Some(Opecode { name: OpecodeName::BNE, mode: AddressingMode::REL }),
        _ => None,
    }
}

/// The instruction table, built once at construction, keyed directly by the
/// opcode byte, and immutable thereafter.
pub struct OpecodeDict {
    table: Vec<Option<Opecode>>,
}

impl View for OpecodeDict {
    type V = Seq<Option<Opecode>>;

    closed spec fn view(&self) -> Seq<Option<Opecode>> {
        self.table@
    }
}

/// The registered entry for a single byte.
fn entry_for(b: u8) -> (r: Option<Opecode>)
    ensures
        r == opcode_spec(b),
{
    match b {
        0x4C => Some(Opecode::new(OpecodeName::JMP, AddressingMode::ABS)),
        0x78 => Some(Opecode::new(OpecodeName::SEI, AddressingMode::IMP)),
        0x88 => Some(Opecode::new(OpecodeName::DEY, AddressingMode::IMP)),
        0x9A => Some(Opecode::new(OpecodeName::TSX, AddressingMode::IMP)),
        0xA0 => Some(Opecode::new(OpecodeName::LDY, AddressingMode::IMD)),
        0xA2 => Some(Opecode::new(OpecodeName::LDX, AddressingMode::IMD)),
        0xA9 => Some(Opecode::new(OpecodeName::LDA, AddressingMode::IMD)),
        0x8D => Some(Opecode::new(OpecodeName::STA, AddressingMode::ABS)),
        0xBD => Some(Opecode::new(OpecodeName::LDA, AddressingMode::ABX)),
        0xE8 => Some(Opecode::new(OpecodeName::INX, AddressingMode::IMP)),
        0xD0 => Some(Opecode::new(OpecodeName::BNE, AddressingMode::REL)),
        _ => None,
    }
}

impl OpecodeDict {
    /// The table holds exactly the registered instruction set.
    pub open spec fn wf(&self) -> bool {
        &&& self@.len() == 256
        &&& forall|b: int| 0 <= b < 256 ==> self@[b] == opcode_spec(b as u8)
    }

    pub fn new() -> (r: OpecodeDict)
        ensures
            r.wf(),
    {
        let mut table: Vec<Option<Opecode>> = Vec::new();
        let mut i: usize = 0;
        while i < 256
            invariant
                i <= 256,
                table@.len() == i,
                forall|b: int| 0 <= b < i ==> table@[b] == opcode_spec(b as u8),
            decreases 256 - i,
        {
            table.push(entry_for(i as u8));
            i = i + 1;
        }
        OpecodeDict { table }
    }

    /// Decode one opcode byte.  Returns the registered (mnemonic, mode) pair
    /// for every byte in the table, and fails with a `DecodeError` naming
    /// the byte for every byte that is absent.
    pub fn searchOpecode(&self, opecode: &u8) -> (r: Result<Opecode, DecodeError>)
        requires
            self.wf(),
        ensures
            r == (match opcode_spec(*opecode) {
                Some(op) => Ok::<Opecode, DecodeError>(op),
                None => Err::<Opecode, DecodeError>(DecodeError { opcode: *opecode }),
            }),
    {
        match self.table[*opecode as usize] {
            Some(op) => Ok(op),
            None => Err(DecodeError { opcode: *opecode }),
        }
    }
}

} // verus!
