//! Instruction opcodes combined with their function bits.
use vstd::prelude::*;

pub use crate::instructions::opcodes::{CompressedOpcode, MajorOpcode};

verus! {

/// Where funct7 starts in an encoded opcode.
pub const FUNCT7_SHIFT: u8 = 11;

/// The bits below funct7 in an encoded opcode.
pub const FUNCT7_MASK: u16 = 0x7ff;

/// Where funct3 starts in an encoded opcode.
pub const FUNCT3_SHIFT: u8 = 7;

/// The bits below funct3 in an encoded opcode.
pub const FUNCT3_MASK: u8 = 0x7f;

/// Each opcode encoded together with its funct3 and funct7 bits: bits 6:0 the
/// opcode, bits 9:7 funct3, bits 11 and up funct7.
#[derive(Debug, Copy, Clone, PartialEq, Eq, Structural)]
pub enum OpCodes {
    NONE,
    ILLEGAL,
    LUI,
    AUIPC,
    JAL,
    JALR,
    BEQ,
    BNE,
    BLT,
    BGE,
    BLTU,
    BGEU,
    LB,
    LH,
    LW,
    LBU,
    LHU,
    SB,
    SH,
    SW,
    ADDI,
    SLTI,
    SLTIU,
    XORI,
    ORI,
    ANDI,
    SLLI,
    SRLI,
    SRAI,
    ADD,
    SUB,
    SLL,
    SLT,
    SLTU,
    XOR,
    SRL,
    SRA,
    OR,
    AND,
    FENCE,
    FENCEI,
    ECALL,
    EBREAK,
    CSRRW,
    CSRRS,
    CSRRC,
    CSRRWI,
    CSRRSI,
    CSRRCI,
    LWU,
    LD,
    SD,
    SRAI64,
    MUL,
    MULH,
    MULHSU,
    MULHU,
    DIV,
    DIVU,
    REM,
    REMU,
    MULW,
    DIVW,
    DIVUW,
    REMW,
    REMUW,
}

/// The encoding of each `OpCodes` value.
pub open spec fn opcodes_value(e: OpCodes) -> u32 {
    match e {
        OpCodes::NONE => 0x0,
        OpCodes::ILLEGAL => 0x80000000,
        OpCodes::LUI => 0x37,
        OpCodes::AUIPC => 0x17,
        OpCodes::JAL => 0x6f,
        OpCodes::JALR => 0x67,
        OpCodes::BEQ => 0x63,
        OpCodes::BNE => 0xe3,
        OpCodes::BLT => 0x263,
        OpCodes::BGE => 0x2e3,
        OpCodes::BLTU => 0x363,
        OpCodes::BGEU => 0x3e3,
        OpCodes::LB => 0x3,
        OpCodes::LH => 0x83,
        OpCodes::LW => 0x103,
        OpCodes::LBU => 0x203,
        OpCodes::LHU => 0x283,
        OpCodes::SB => 0x23,
        OpCodes::SH => 0xa3,
        OpCodes::SW => 0x123,
        OpCodes::ADDI => 0x13,
        OpCodes::SLTI => 0x113,
        OpCodes::SLTIU => 0x193,
        OpCodes::XORI => 0x213,
        OpCodes::ORI => 0x313,
        OpCodes::ANDI => 0x393,
        OpCodes::SLLI => 0x93,
        OpCodes::SRLI => 0x293,
        OpCodes::SRAI => 0x10293,
        OpCodes::ADD => 0x33,
        OpCodes::SUB => 0x10033,
        OpCodes::SLL => 0xb3,
        OpCodes::SLT => 0x133,
        OpCodes::SLTU => 0x1b3,
        OpCodes::XOR => 0x233,
        OpCodes::SRL => 0x2b3,
        OpCodes::SRA => 0x102b3,
        OpCodes::OR => 0x333,
        OpCodes::AND => 0x3b3,
        OpCodes::FENCE => 0xf,
        OpCodes::FENCEI => 0x8f,
        OpCodes::ECALL => 0x73,
        OpCodes::EBREAK => 0x873,
        OpCodes::CSRRW => 0xf3,
        OpCodes::CSRRS => 0x173,
        OpCodes::CSRRC => 0x1f3,
        OpCodes::CSRRWI => 0x2f3,
        OpCodes::CSRRSI => 0x373,
        OpCodes::CSRRCI => 0x3f3,
        OpCodes::LWU => 0x303,
        OpCodes::LD => 0x183,
        OpCodes::SD => 0x1a3,
        OpCodes::SRAI64 => 0x8293,
        OpCodes::MUL => 0x833,
        OpCodes::MULH => 0x8b3,
        OpCodes::MULHSU => 0x933,
        OpCodes::MULHU => 0x9b3,
        OpCodes::DIV => 0xa33,
        OpCodes::DIVU => 0xab3,
        OpCodes::REM => 0xb33,
        OpCodes::REMU => 0xbb3,
        OpCodes::MULW => 0x83b,
        OpCodes::DIVW => 0xa3b,
        OpCodes::DIVUW => 0xabb,
        OpCodes::REMW => 0xb3b,
        OpCodes::REMUW => 0xbbb,
    }
}

/// The `OpCodes` value encoded as `v`, if any.
pub open spec fn opcodes_from(v: u32) -> Option<OpCodes> {
    match v {
        0x0 => Some(OpCodes::NONE),
        0x80000000 => Some(OpCodes::ILLEGAL),
        0x37 => Some(OpCodes::LUI),
        0x17 => Some(OpCodes::AUIPC),
        0x6f => Some(OpCodes::JAL),
        0x67 => Some(OpCodes::JALR),
        0x63 => Some(OpCodes::BEQ),
        0xe3 => Some(OpCodes::BNE),
        0x263 => Some(OpCodes::BLT),
        0x2e3 => Some(OpCodes::BGE),
        0x363 => Some(OpCodes::BLTU),
        0x3e3 => Some(OpCodes::BGEU),
        0x3 => Some(OpCodes::LB),
        0x83 => Some(OpCodes::LH),
        0x103 => Some(OpCodes::LW),
        0x203 => Some(OpCodes::LBU),
        0x283 => Some(OpCodes::LHU),
        0x23 => Some(OpCodes::SB),
        0xa3 => Some(OpCodes::SH),
        0x123 => Some(OpCodes::SW),
        0x13 => Some(OpCodes::ADDI),
        0x113 => Some(OpCodes::SLTI),
        0x193 => Some(OpCodes::SLTIU),
        0x213 => Some(OpCodes::XORI),
        0x313 => Some(OpCodes::ORI),
        0x393 => Some(OpCodes::ANDI),
        0x93 => Some(OpCodes::SLLI),
        0x293 => Some(OpCodes::SRLI),
        0x10293 => Some(OpCodes::SRAI),
        0x33 => Some(OpCodes::ADD),
        0x10033 => Some(OpCodes::SUB),
        0xb3 => Some(OpCodes::SLL),
        0x133 => Some(OpCodes::SLT),
        0x1b3 => Some(OpCodes::SLTU),
        0x233 => Some(OpCodes::XOR),
        0x2b3 => Some(OpCodes::SRL),
        0x102b3 => Some(OpCodes::SRA),
        0x333 => Some(OpCodes::OR),
        0x3b3 => Some(OpCodes::AND),
        0xf => Some(OpCodes::FENCE),
        0x8f => Some(OpCodes::FENCEI),
        0x73 => Some(OpCodes::ECALL),
        0x873 => Some(OpCodes::EBREAK),
        0xf3 => Some(OpCodes::CSRRW),
        0x173 => Some(OpCodes::CSRRS),
        0x1f3 => Some(OpCodes::CSRRC),
        0x2f3 => Some(OpCodes::CSRRWI),
        0x373 => Some(OpCodes::CSRRSI),
        0x3f3 => Some(OpCodes::CSRRCI),
        0x303 => Some(OpCodes::LWU),
        0x183 => Some(OpCodes::LD),
        0x1a3 => Some(OpCodes::SD),
        0x8293 => Some(OpCodes::SRAI64),
        0x833 => Some(OpCodes::MUL),
        0x8b3 => Some(OpCodes::MULH),
        0x933 => Some(OpCodes::MULHSU),
        0x9b3 => Some(OpCodes::MULHU),
        0xa33 => Some(OpCodes::DIV),
        0xab3 => Some(OpCodes::DIVU),
        0xb33 => Some(OpCodes::REM),
        0xbb3 => Some(OpCodes::REMU),
        0x83b => Some(OpCodes::MULW),
        0xa3b => Some(OpCodes::DIVW),
        0xabb => Some(OpCodes::DIVUW),
        0xb3b => Some(OpCodes::REMW),
        0xbbb => Some(OpCodes::REMUW),
        _ => None,
    }
}

impl OpCodes {
    /// The encoding of this value.
    pub fn value(&self) -> (v: u32)
        ensures
            v == opcodes_value(*self),
    {
        match self {
            OpCodes::NONE => 0x0,
            OpCodes::ILLEGAL => 0x80000000,
            OpCodes::LUI => 0x37,
            OpCodes::AUIPC => 0x17,
            OpCodes::JAL => 0x6f,
            OpCodes::JALR => 0x67,
            OpCodes::BEQ => 0x63,
            OpCodes::BNE => 0xe3,
            OpCodes::BLT => 0x263,
            OpCodes::BGE => 0x2e3,
            OpCodes::BLTU => 0x363,
            OpCodes::BGEU => 0x3e3,
            OpCodes::LB => 0x3,
            OpCodes::LH => 0x83,
            OpCodes::LW => 0x103,
            OpCodes::LBU => 0x203,
            OpCodes::LHU => 0x283,
            OpCodes::SB => 0x23,
            OpCodes::SH => 0xa3,
            OpCodes::SW => 0x123,
            OpCodes::ADDI => 0x13,
            OpCodes::SLTI => 0x113,
            OpCodes::SLTIU => 0x193,
            OpCodes::XORI => 0x213,
            OpCodes::ORI => 0x313,
            OpCodes::ANDI => 0x393,
            OpCodes::SLLI => 0x93,
            OpCodes::SRLI => 0x293,
            OpCodes::SRAI => 0x10293,
            OpCodes::ADD => 0x33,
            OpCodes::SUB => 0x10033,
            OpCodes::SLL => 0xb3,
            OpCodes::SLT => 0x133,
            OpCodes::SLTU => 0x1b3,
            OpCodes::XOR => 0x233,
            OpCodes::SRL => 0x2b3,
            OpCodes::SRA => 0x102b3,
            OpCodes::OR => 0x333,
            OpCodes::AND => 0x3b3,
            OpCodes::FENCE => 0xf,
            OpCodes::FENCEI => 0x8f,
            OpCodes::ECALL => 0x73,
            OpCodes::EBREAK => 0x873,
            OpCodes::CSRRW => 0xf3,
            OpCodes::CSRRS => 0x173,
            OpCodes::CSRRC => 0x1f3,
            OpCodes::CSRRWI => 0x2f3,
            OpCodes::CSRRSI => 0x373,
            OpCodes::CSRRCI => 0x3f3,
            OpCodes::LWU => 0x303,
            OpCodes::LD => 0x183,
            OpCodes::SD => 0x1a3,
            OpCodes::SRAI64 => 0x8293,
            OpCodes::MUL => 0x833,
            OpCodes::MULH => 0x8b3,
            OpCodes::MULHSU => 0x933,
            OpCodes::MULHU => 0x9b3,
            OpCodes::DIV => 0xa33,
            OpCodes::DIVU => 0xab3,
            OpCodes::REM => 0xb33,
            OpCodes::REMU => 0xbb3,
            OpCodes::MULW => 0x83b,
            OpCodes::DIVW => 0xa3b,
            OpCodes::DIVUW => 0xabb,
            OpCodes::REMW => 0xb3b,
            OpCodes::REMUW => 0xbbb,
        }
    }

    /// The value with a given encoding, if any has it.
    pub fn from_u32(v: u32) -> (r: Option<OpCodes>)
        ensures
            r == opcodes_from(v),
    {
        match v {
            0x0 => Some(OpCodes::NONE),
            0x80000000 => Some(OpCodes::ILLEGAL),
            0x37 => Some(OpCodes::LUI),
            0x17 => Some(OpCodes::AUIPC),
            0x6f => Some(OpCodes::JAL),
            0x67 => Some(OpCodes::JALR),
            0x63 => Some(OpCodes::BEQ),
            0xe3 => Some(OpCodes::BNE),
            0x263 => Some(OpCodes::BLT),
            0x2e3 => Some(OpCodes::BGE),
            0x363 => Some(OpCodes::BLTU),
            0x3e3 => Some(OpCodes::BGEU),
            0x3 => Some(OpCodes::LB),
            0x83 => Some(OpCodes::LH),
            0x103 => Some(OpCodes::LW),
            0x203 => Some(OpCodes::LBU),
            0x283 => Some(OpCodes::LHU),
            0x23 => Some(OpCodes::SB),
            0xa3 => Some(OpCodes::SH),
            0x123 => Some(OpCodes::SW),
            0x13 => Some(OpCodes::ADDI),
            0x113 => Some(OpCodes::SLTI),
            0x193 => Some(OpCodes::SLTIU),
            0x213 => Some(OpCodes::XORI),
            0x313 => Some(OpCodes::ORI),
            0x393 => Some(OpCodes::ANDI),
            0x93 => Some(OpCodes::SLLI),
            0x293 => Some(OpCodes::SRLI),
            0x10293 => Some(OpCodes::SRAI),
            0x33 => Some(OpCodes::ADD),
            0x10033 => Some(OpCodes::SUB),
            0xb3 => Some(OpCodes::SLL),
            0x133 => Some(OpCodes::SLT),
            0x1b3 => Some(OpCodes::SLTU),
            0x233 => Some(OpCodes::XOR),
            0x2b3 => Some(OpCodes::SRL),
            0x102b3 => Some(OpCodes::SRA),
            0x333 => Some(OpCodes::OR),
            0x3b3 => Some(OpCodes::AND),
            0xf => Some(OpCodes::FENCE),
            0x8f => Some(OpCodes::FENCEI),
            0x73 => Some(OpCodes::ECALL),
            0x873 => Some(OpCodes::EBREAK),
            0xf3 => Some(OpCodes::CSRRW),
            0x173 => Some(OpCodes::CSRRS),
            0x1f3 => Some(OpCodes::CSRRC),
            0x2f3 => Some(OpCodes::CSRRWI),
            0x373 => Some(OpCodes::CSRRSI),
            0x3f3 => Some(OpCodes::CSRRCI),
            0x303 => Some(OpCodes::LWU),
            0x183 => Some(OpCodes::LD),
            0x1a3 => Some(OpCodes::SD),
            0x8293 => Some(OpCodes::SRAI64),
            0x833 => Some(OpCodes::MUL),
            0x8b3 => Some(OpCodes::MULH),
            0x933 => Some(OpCodes::MULHSU),
            0x9b3 => Some(OpCodes::MULHU),
            0xa33 => Some(OpCodes::DIV),
            0xab3 => Some(OpCodes::DIVU),
            0xb33 => Some(OpCodes::REM),
            0xbb3 => Some(OpCodes::REMU),
            0x83b => Some(OpCodes::MULW),
            0xa3b => Some(OpCodes::DIVW),
            0xabb => Some(OpCodes::DIVUW),
            0xb3b => Some(OpCodes::REMW),
            0xbbb => Some(OpCodes::REMUW),
            _ => None,
        }
    }
}

} // verus!
