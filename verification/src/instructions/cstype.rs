//! CS-type (compressed store and register-register ALU) instructions.
use vstd::prelude::*;

use super::opcodes::{compressed_opcode_from, CompressedOpcode};
use super::{CompressedFormatDecoder, CompressedFormatType, InstructionFormatType};
use crate::cpu::Register;

verus! {

/// The fields of a CS-type instruction.
#[derive(Debug, PartialEq, Eq, Copy, Clone, Structural)]
pub struct CStype {
    pub opcode: CompressedOpcode,
    pub rs1: Register,
    pub rs2: Register,
    pub funct: u8,
    pub funct6: u8,
}

impl InstructionFormatType for CStype {}

impl CompressedFormatType for CStype {}

impl CompressedFormatDecoder<CStype> for CStype {
    open spec fn decodable(word: u16) -> bool {
        true
    }

    /// rs1' is 8 plus the three bits inst[9:7] and rs2' is 8 plus inst[4:2], so each names one of
    /// x8 to x15.
    open spec fn spec_decode(word: u16) -> CStype {
        CStype {
            opcode: compressed_opcode_from((word & 3) as u8).unwrap(),
            rs1: (((word >> 7) & 7) + 8) as u8,
            rs2: (((word >> 2) & 7) + 8) as u8,
            funct: ((word >> 5) & 3) as u8,
            funct6: (word >> 10) as u8,
        }
    }

    fn decode(word: u16) -> (r: CStype) {
        assert((word & 3) < 4 && ((word >> 7) & 7) < 8 && ((word >> 2) & 7) < 8 && ((word as u8 >> 5)
            & 3) == ((word >> 5) & 3) as u8) by (bit_vector);
        CStype {
            opcode: CompressedOpcode::from_u8((word & 3) as u8).unwrap(),
            rs1: ((word >> 7) & 7) as u8 + 8,
            rs2: ((word >> 2) & 7) as u8 + 8,
            funct: (word as u8 >> 5) & 3,
            funct6: (word >> 10) as u8,
        }
    }
}

} // verus!
