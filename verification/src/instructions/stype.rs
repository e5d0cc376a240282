//! S-type (store) instructions.
use vstd::prelude::*;

use super::opcodes::{major_opcode_from, MajorOpcode};
use super::{FormatDecoder, ImmediateDecoder, InstructionFormatType, UncompressedFormatType};
use crate::cpu::Register;

verus! {

/// The fields of an S-type instruction.
#[derive(Debug, PartialEq, Eq, Copy, Clone, Structural)]
pub struct Stype {
    pub opcode: MajorOpcode,
    pub rs1: Register,
    pub rs2: Register,
    pub imm12: u16,
    pub funct3: u8,
}

impl InstructionFormatType for Stype {}

impl UncompressedFormatType for Stype {}

/// The S-immediate: imm[11:5] = inst[31:25], imm[4:0] = inst[11:7].
pub open spec fn s_immediate(i: u32) -> u16 {
    ((i >> 25) % 128 * 32 + (i >> 7) % 32) as u16
}

impl ImmediateDecoder<u32, u16> for Stype {
    open spec fn spec_decode_immediate(i: u32) -> u16 {
        s_immediate(i)
    }

    fn decode_immediate(i: u32) -> (r: u16) {
        let imm12 = (((i >> 7) & 0b11111) | ((i >> 20) & 0xffffe0)) as u16;
        let imm5 = ((i >> 7) & 31) as u16;
        let r = imm12 | imm5;
        assert(r == s_immediate(i)) by (bit_vector)
            requires
                imm12 == (((i >> 7) & 0b11111) | ((i >> 20) & 0xffffe0)) as u16,
                imm5 == ((i >> 7) & 31) as u16,
                r == imm12 | imm5,
        ;
        assert(r == Self::spec_decode_immediate(i));
        r
    }
}

impl FormatDecoder<Stype> for Stype {
    open spec fn decodable(word: u32) -> bool {
        major_opcode_from((word & 0x7f) as u8) is Some
    }

    open spec fn spec_decode(word: u32) -> Stype {
        Stype {
            opcode: major_opcode_from((word & 0x7f) as u8).unwrap(),
            rs1: ((word >> 15) & 31) as u8,
            rs2: ((word >> 20) & 31) as u8,
            imm12: s_immediate(word),
            funct3: ((word >> 12) & 7) as u8,
        }
    }

    fn decode(word: u32) -> (r: Stype) {
        Stype {
            opcode: MajorOpcode::from_u8((word & 0x7f) as u8).unwrap(),
            rs1: ((word >> 15) & 31) as Register,
            rs2: ((word >> 20) & 31) as Register,
            imm12: Stype::decode_immediate(word),
            funct3: ((word >> 12) & 7) as u8,
        }
    }
}

} // verus!
