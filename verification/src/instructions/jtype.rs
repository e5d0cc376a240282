//! J-type (JAL) instructions.
use vstd::prelude::*;

use super::opcodes::{major_opcode_from, MajorOpcode};
use super::{FormatDecoder, ImmediateDecoder, InstructionFormatType, UncompressedFormatType};
use crate::cpu::Register;

verus! {

/// The fields of a J-type instruction.
#[derive(Debug, PartialEq, Eq, Copy, Clone, Structural)]
pub struct Jtype {
    pub opcode: MajorOpcode,
    pub rd: Register,
    pub imm20: u32,
}

impl InstructionFormatType for Jtype {}

impl UncompressedFormatType for Jtype {}

/// The J-immediate divided by two, that is imm[20:1]: imm[20] = inst[31],
/// imm[19:12] = inst[19:12], imm[11] = inst[20], imm[10:1] = inst[30:21].
pub open spec fn j_immediate(i: u32) -> u32 {
    ((i >> 31) % 2 * 0x80000 + (i >> 12) % 256 * 0x800 + (i >> 20) % 2 * 0x400 + (i >> 21)
        % 1024) as u32
}

impl ImmediateDecoder<u32, u32> for Jtype {
    open spec fn spec_decode_immediate(i: u32) -> u32 {
        j_immediate(i)
    }

    fn decode_immediate(i: u32) -> (r: u32) {
        let imm20 = ((i >> 31) & 0b1) as u32;
        let imm101 = ((i >> 21) & 0b1111111111) as u32;
        let imm11 = ((i >> 20) & 0b1) as u32;
        let imm1912 = ((i >> 12) & 0b11111111) as u32;

        let imm = (imm20 << 20) | (imm101 << 1) | (imm11 << 11) | (imm1912 << 12);
        let r = ((imm) << 11) >> 12;
        assert(r == j_immediate(i)) by (bit_vector)
            requires
                imm20 == ((i >> 31) & 0b1),
                imm101 == ((i >> 21) & 0b1111111111),
                imm11 == ((i >> 20) & 0b1),
                imm1912 == ((i >> 12) & 0b11111111),
                imm == (imm20 << 20) | (imm101 << 1) | (imm11 << 11) | (imm1912 << 12),
                r == ((imm) << 11) >> 12,
        ;
        assert(r == Self::spec_decode_immediate(i));
        r
    }
}

impl FormatDecoder<Jtype> for Jtype {
    open spec fn decodable(word: u32) -> bool {
        major_opcode_from((word & 0x7f) as u8) is Some
    }

    open spec fn spec_decode(word: u32) -> Jtype {
        Jtype {
            opcode: major_opcode_from((word & 0x7f) as u8).unwrap(),
            rd: ((word >> 7) & 31) as u8,
            imm20: j_immediate(word),
        }
    }

    fn decode(word: u32) -> (r: Jtype) {
        Jtype {
            opcode: MajorOpcode::from_u8((word & 0x7f) as u8).unwrap(),
            rd: ((word >> 7) & 31) as Register,
            imm20: Jtype::decode_immediate(word),
        }
    }
}

} // verus!
