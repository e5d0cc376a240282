//! Major and compressed opcodes.
use vstd::prelude::*;

verus! {

/// Table 19.1: RISC-V base opcode map (the low seven bits of a 32-bit instruction).
#[allow(non_camel_case_types)]
#[derive(Debug, Copy, Clone, PartialEq, Eq, Structural)]
pub enum MajorOpcode {
    AUIPC,
    BRANCH,
    LOAD,
    JALR,
    JAL,
    OP,
    AMO,
    OP_32,
    OP_IMM,
    OP_IMM_32,
    LUI,
    MISC_MEM,
    STORE,
    SYSTEM,
}

/// The encoding of each `MajorOpcode` value.
pub open spec fn major_opcode_value(e: MajorOpcode) -> u8 {
    match e {
        MajorOpcode::AUIPC => 0b0010111,
        MajorOpcode::BRANCH => 0b1100011,
        MajorOpcode::LOAD => 0b0000011,
        MajorOpcode::JALR => 0b1100111,
        MajorOpcode::JAL => 0b1101111,
        MajorOpcode::OP => 0b0110011,
        MajorOpcode::AMO => 0b0101111,
        MajorOpcode::OP_32 => 0b0111011,
        MajorOpcode::OP_IMM => 0b0010011,
        MajorOpcode::OP_IMM_32 => 0b0011011,
        MajorOpcode::LUI => 0b0110111,
        MajorOpcode::MISC_MEM => 0b0001111,
        MajorOpcode::STORE => 0b0100011,
        MajorOpcode::SYSTEM => 0b1110011,
    }
}

/// The `MajorOpcode` value encoded as `v`, if any.
pub open spec fn major_opcode_from(v: u8) -> Option<MajorOpcode> {
    match v {
        0b0010111 => Some(MajorOpcode::AUIPC),
        0b1100011 => Some(MajorOpcode::BRANCH),
        0b0000011 => Some(MajorOpcode::LOAD),
        0b1100111 => Some(MajorOpcode::JALR),
        0b1101111 => Some(MajorOpcode::JAL),
        0b0110011 => Some(MajorOpcode::OP),
        0b0101111 => Some(MajorOpcode::AMO),
        0b0111011 => Some(MajorOpcode::OP_32),
        0b0010011 => Some(MajorOpcode::OP_IMM),
        0b0011011 => Some(MajorOpcode::OP_IMM_32),
        0b0110111 => Some(MajorOpcode::LUI),
        0b0001111 => Some(MajorOpcode::MISC_MEM),
        0b0100011 => Some(MajorOpcode::STORE),
        0b1110011 => Some(MajorOpcode::SYSTEM),
        _ => None,
    }
}

impl MajorOpcode {
    /// The encoding of this value.
    pub fn value(&self) -> (v: u8)
        ensures
            v == major_opcode_value(*self),
    {
        match self {
            MajorOpcode::AUIPC => 0b0010111,
            MajorOpcode::BRANCH => 0b1100011,
            MajorOpcode::LOAD => 0b0000011,
            MajorOpcode::JALR => 0b1100111,
            MajorOpcode::JAL => 0b1101111,
            MajorOpcode::OP => 0b0110011,
            MajorOpcode::AMO => 0b0101111,
            MajorOpcode::OP_32 => 0b0111011,
            MajorOpcode::OP_IMM => 0b0010011,
            MajorOpcode::OP_IMM_32 => 0b0011011,
            MajorOpcode::LUI => 0b0110111,
            MajorOpcode::MISC_MEM => 0b0001111,
            MajorOpcode::STORE => 0b0100011,
            MajorOpcode::SYSTEM => 0b1110011,
        }
    }

    /// The value with a given encoding, if any has it.
    pub fn from_u8(v: u8) -> (r: Option<MajorOpcode>)
        ensures
            r == major_opcode_from(v),
    {
        match v {
            0b0010111 => Some(MajorOpcode::AUIPC),
            0b1100011 => Some(MajorOpcode::BRANCH),
            0b0000011 => Some(MajorOpcode::LOAD),
            0b1100111 => Some(MajorOpcode::JALR),
            0b1101111 => Some(MajorOpcode::JAL),
            0b0110011 => Some(MajorOpcode::OP),
            0b0101111 => Some(MajorOpcode::AMO),
            0b0111011 => Some(MajorOpcode::OP_32),
            0b0010011 => Some(MajorOpcode::OP_IMM),
            0b0011011 => Some(MajorOpcode::OP_IMM_32),
            0b0110111 => Some(MajorOpcode::LUI),
            0b0001111 => Some(MajorOpcode::MISC_MEM),
            0b0100011 => Some(MajorOpcode::STORE),
            0b1110011 => Some(MajorOpcode::SYSTEM),
            _ => None,
        }
    }
}
/// The quadrant of a compressed instruction: its low two bits.
#[derive(Debug, Copy, Clone, PartialEq, Eq, Structural)]
pub enum CompressedOpcode {
    C0,
    C1,
    C2,
    C3,
}

/// The encoding of each `CompressedOpcode` value.
pub open spec fn compressed_opcode_value(e: CompressedOpcode) -> u8 {
    match e {
        CompressedOpcode::C0 => 0b00,
        CompressedOpcode::C1 => 0b01,
        CompressedOpcode::C2 => 0b10,
        CompressedOpcode::C3 => 0b11,
    }
}

/// The `CompressedOpcode` value encoded as `v`, if any.
pub open spec fn compressed_opcode_from(v: u8) -> Option<CompressedOpcode> {
    match v {
        0b00 => Some(CompressedOpcode::C0),
        0b01 => Some(CompressedOpcode::C1),
        0b10 => Some(CompressedOpcode::C2),
        0b11 => Some(CompressedOpcode::C3),
        _ => None,
    }
}

impl CompressedOpcode {
    /// The encoding of this value.
    pub fn value(&self) -> (v: u8)
        ensures
            v == compressed_opcode_value(*self),
    {
        match self {
            CompressedOpcode::C0 => 0b00,
            CompressedOpcode::C1 => 0b01,
            CompressedOpcode::C2 => 0b10,
            CompressedOpcode::C3 => 0b11,
        }
    }

    /// The value with a given encoding, if any has it.
    pub fn from_u8(v: u8) -> (r: Option<CompressedOpcode>)
        ensures
            r == compressed_opcode_from(v),
    {
        match v {
            0b00 => Some(CompressedOpcode::C0),
            0b01 => Some(CompressedOpcode::C1),
            0b10 => Some(CompressedOpcode::C2),
            0b11 => Some(CompressedOpcode::C3),
            _ => None,
        }
    }
}

} // verus!
