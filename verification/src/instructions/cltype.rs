//! CL-type (compressed load) instructions.
use vstd::prelude::*;

use super::opcodes::{compressed_opcode_from, CompressedOpcode};
use super::{CompressedFormatDecoder, CompressedFormatType, ImmediateDecoder, InstructionFormatType};
use crate::cpu::Register;

verus! {

/// The fields of a CL-type instruction.
#[derive(Debug, PartialEq, Eq, Copy, Clone, Structural)]
pub struct CLtype {
    pub opcode: CompressedOpcode,
    pub rd: Register,
    pub rs1: Register,
    pub imm: u16,
}

impl InstructionFormatType for CLtype {}

impl CompressedFormatType for CLtype {}

/// The CL offset: offset[5:3] = inst[12:10], offset[2] = inst[6], offset[6] = inst[5].
pub open spec fn cl_immediate(i: u16) -> u16 {
    ((i >> 10) % 8 * 8 + (i >> 6) % 2 * 4 + (i >> 5) % 2 * 64) as u16
}

impl ImmediateDecoder<u16, u16> for CLtype {
    open spec fn spec_decode_immediate(i: u16) -> u16 {
        cl_immediate(i)
    }

    fn decode_immediate(i: u16) -> (r: u16) {
        let r = ((i >> 7) & 0x38) |  // offset[5:3] <= [12:10]
        ((i >> 4) & 0x4) |  // offset[2] <= [6]
        ((i << 1) & 0x40);  // offset[6] <= [5]
        assert(r == cl_immediate(i)) by (bit_vector)
            requires
                r == ((i >> 7) & 0x38) | ((i >> 4) & 0x4) | ((i << 1) & 0x40),
        ;
        assert(r == Self::spec_decode_immediate(i));
        r
    }
}

impl CompressedFormatDecoder<CLtype> for CLtype {
    open spec fn decodable(word: u16) -> bool {
        true
    }

    /// rd' is 8 plus inst[4:2] and rs1' is 8 plus inst[9:7], so each names one of x8 to x15.
    open spec fn spec_decode(word: u16) -> CLtype {
        CLtype {
            opcode: compressed_opcode_from((word & 3) as u8).unwrap(),
            rd: (((word >> 2) & 7) + 8) as u8,
            rs1: (((word >> 7) & 7) + 8) as u8,
            imm: cl_immediate(word),
        }
    }

    fn decode(word: u16) -> (r: CLtype) {
        assert((word & 3) < 4 && ((word >> 2) & 7) < 8 && ((word >> 7) & 7) < 8)
            by (bit_vector);
        CLtype {
            opcode: CompressedOpcode::from_u8((word & 3) as u8).unwrap(),
            rd: ((word >> 2) & 7) as Register + 8,
            rs1: ((word >> 7) & 7) as Register + 8,
            imm: CLtype::decode_immediate(word),
        }
    }
}

} // verus!
