//! Instruction formats by opcode.
use vstd::prelude::*;

verus! {

/// The format of an instruction, by opcode. C is the system (CSR) format; the
/// ones starting with C after it are the compressed formats.
#[derive(Debug, Copy, Clone, PartialEq, Eq, Structural)]
pub enum OpType {
    Unknown,
    R,
    I,
    S,
    B,
    U,
    J,
    C,
    CR,
    CI,
    CSS,
    CIW,
    CL,
    CS,
    CB,
    CJ,
}

/// The encoding of each `OpType` value.
pub open spec fn optype_value(e: OpType) -> u8 {
    match e {
        OpType::Unknown => 0,
        OpType::R => 1,
        OpType::I => 2,
        OpType::S => 3,
        OpType::B => 4,
        OpType::U => 5,
        OpType::J => 6,
        OpType::C => 7,
        OpType::CR => 8,
        OpType::CI => 9,
        OpType::CSS => 10,
        OpType::CIW => 11,
        OpType::CL => 12,
        OpType::CS => 13,
        OpType::CB => 14,
        OpType::CJ => 15,
    }
}

/// The `OpType` value encoded as `v`, if any.
pub open spec fn optype_from(v: u8) -> Option<OpType> {
    match v {
        0 => Some(OpType::Unknown),
        1 => Some(OpType::R),
        2 => Some(OpType::I),
        3 => Some(OpType::S),
        4 => Some(OpType::B),
        5 => Some(OpType::U),
        6 => Some(OpType::J),
        7 => Some(OpType::C),
        8 => Some(OpType::CR),
        9 => Some(OpType::CI),
        10 => Some(OpType::CSS),
        11 => Some(OpType::CIW),
        12 => Some(OpType::CL),
        13 => Some(OpType::CS),
        14 => Some(OpType::CB),
        15 => Some(OpType::CJ),
        _ => None,
    }
}

impl OpType {
    /// The encoding of this value.
    pub fn value(&self) -> (v: u8)
        ensures
            v == optype_value(*self),
    {
        match self {
            OpType::Unknown => 0,
            OpType::R => 1,
            OpType::I => 2,
            OpType::S => 3,
            OpType::B => 4,
            OpType::U => 5,
            OpType::J => 6,
            OpType::C => 7,
            OpType::CR => 8,
            OpType::CI => 9,
            OpType::CSS => 10,
            OpType::CIW => 11,
            OpType::CL => 12,
            OpType::CS => 13,
            OpType::CB => 14,
            OpType::CJ => 15,
        }
    }

    /// The value with a given encoding, if any has it.
    pub fn from_u8(v: u8) -> (r: Option<OpType>)
        ensures
            r == optype_from(v),
    {
        match v {
            0 => Some(OpType::Unknown),
            1 => Some(OpType::R),
            2 => Some(OpType::I),
            3 => Some(OpType::S),
            4 => Some(OpType::B),
            5 => Some(OpType::U),
            6 => Some(OpType::J),
            7 => Some(OpType::C),
            8 => Some(OpType::CR),
            9 => Some(OpType::CI),
            10 => Some(OpType::CSS),
            11 => Some(OpType::CIW),
            12 => Some(OpType::CL),
            13 => Some(OpType::CS),
            14 => Some(OpType::CB),
            15 => Some(OpType::CJ),
            _ => None,
        }
    }
}

/// The format of a 32-bit instruction with major opcode `opcode` (bits 6:0).
pub open spec fn spec_optype(opcode: u8) -> OpType {
    if opcode == 0x03 || opcode == 0x13 || opcode == 0x67 {
        OpType::I
    } else if opcode == 0x17 || opcode == 0x37 {
        OpType::U
    } else if opcode == 0x23 {
        OpType::S
    } else if opcode == 0x33 {
        OpType::R
    } else if opcode == 0x63 {
        OpType::B
    } else if opcode == 0x6f {
        OpType::J
    } else if opcode == 0x73 {
        OpType::C
    } else {
        OpType::Unknown
    }
}

/// The format of a 32-bit instruction with major opcode `opcode` (bits 6:0): loads, register
/// immediates and JALR are I, AUIPC and LUI U, stores S, register operations R, branches B,
/// JAL J and the CSR instructions C.
pub fn optype(opcode: u8) -> (t: OpType)
    ensures
        t == spec_optype(opcode),
{
    if opcode == 0x03 || opcode == 0x13 || opcode == 0x67 {
        OpType::I
    } else if opcode == 0x17 || opcode == 0x37 {
        OpType::U
    } else if opcode == 0x23 {
        OpType::S
    } else if opcode == 0x33 {
        OpType::R
    } else if opcode == 0x63 {
        OpType::B
    } else if opcode == 0x6f {
        OpType::J
    } else if opcode == 0x73 {
        OpType::C
    } else {
        OpType::Unknown
    }
}

/// The format of a compressed instruction by its five low opcode bits: only 13 (C.LUI and
/// C.ADDI16SP) has one, CI.
pub fn compressed_optype(index: u8) -> (t: OpType)
    ensures
        t == if index == 13 {
            OpType::CI
        } else {
            OpType::Unknown
        },
{
    if index == 13 {
        OpType::CI
    } else {
        OpType::Unknown
    }
}

} // verus!
