//! Each instruction format type is represented by a separate struct, passing the parameters for
//! a specific instruction inside a DecodedInstruction.
//!
//! Compressed instructions are handled the same way as regular instructions, though the
//! compressed instruction decoding takes one or several more extra match arms.
use vstd::prelude::*;

use super::btype::Btype;
use super::cbtype::CBtype;
use super::citype::CItype;
use super::ciwtype::CIWtype;
use super::cjtype::CJtype;
use super::cltype::CLtype;
use super::crtype::CRtype;
use super::csstype::CSStype;
use super::cstype::CStype;
use super::functions::{
    c0_funct3_from, c1_funct3_from, c2_funct3_from, C0_Funct3, C1_Funct3, C2_Funct3,
};
use super::itype::Itype;
use super::jtype::Jtype;
use super::map::{format_of, instruction_format};
use super::opcodes::major_opcode_from;
use super::rtype::Rtype;
use super::stype::Stype;
use super::utype::Utype;
use super::{CompressedFormat, CompressedFormatDecoder, FormatDecoder, InstructionFormat};
use crate::cpu::Core;
use crate::pipeline::RawInstruction;

verus! {

/// The fields of a decoded instruction, by format.
#[derive(Debug, PartialEq, Eq, Copy, Clone, Structural)]
pub enum DecodedInstruction {
    I(Itype),
    J(Jtype),
    B(Btype),
    S(Stype),
    U(Utype),
    R(Rtype),
    CR(CRtype),
    CI(CItype),
    CSS(CSStype),
    CIW(CIWtype),
    CL(CLtype),
    CS(CStype),
    CB(CBtype),
    CJ(CJtype),
}

/// The format of a compressed instruction word, chosen by its quadrant (bits 1:0) and funct3
/// (bits 15:13); `None` where no format is assigned (quadrant 0 funct3 `0b100`, quadrant 3, and
/// C.EBREAK / C.JALR).
pub open spec fn compressed_format_of(word: u32) -> Option<CompressedFormat> {
    let funct3 = ((word >> 13) & 7) as u8;
    if word & 3 == 0 {
        match c0_funct3_from(funct3) {
            Some(C0_Funct3::C_LD) => Some(CompressedFormat::CI),
            Some(C0_Funct3::C_ADDI4SPN) => Some(CompressedFormat::CIW),
            Some(C0_Funct3::C_LQ) => Some(CompressedFormat::CL),
            Some(C0_Funct3::C_LW) => Some(CompressedFormat::CL),
            Some(C0_Funct3::C_SQ) => Some(CompressedFormat::CS),
            Some(C0_Funct3::C_SW) => Some(CompressedFormat::CS),
            Some(C0_Funct3::C_SD) => Some(CompressedFormat::CS),
            None => None,
        }
    } else if word & 3 == 1 {
        match c1_funct3_from(funct3) {
            Some(C1_Funct3::C_ANDI) => Some(CompressedFormat::CB),
            Some(C1_Funct3::C_BEQZ) => Some(CompressedFormat::CB),
            Some(C1_Funct3::C_BNEZ) => Some(CompressedFormat::CB),
            Some(C1_Funct3::C_LI) => Some(CompressedFormat::CI),
            Some(C1_Funct3::C_LUI) => Some(CompressedFormat::CI),
            Some(C1_Funct3::C_ADDI) => Some(CompressedFormat::CI),
            Some(C1_Funct3::C_ADDIW) => Some(CompressedFormat::CI),
            Some(C1_Funct3::C_J) => Some(CompressedFormat::CJ),
            None => None,
        }
    } else if word & 3 == 2 {
        match c2_funct3_from(funct3) {
            Some(C2_Funct3::C_LDSP) => Some(CompressedFormat::CI),
            Some(C2_Funct3::C_SLLI) => Some(CompressedFormat::CI),
            Some(C2_Funct3::C_SDSP) => Some(CompressedFormat::CSS),
            Some(_) => {
                let rs2 = (word >> 2) & 31;
                let funct1 = (word >> 12) & 1;
                if funct1 == 0 || rs2 != 0 {
                    Some(CompressedFormat::CR)
                } else {
                    None
                }
            },
            None => None,
        }
    } else {
        None
    }
}

/// Whether an instruction can be decoded: a 32-bit one needs an opcode of a known format, a
/// compressed one a format other than CB, whose offset has no decoder.
pub open spec fn decodable(instruction: RawInstruction) -> bool {
    let word = instruction.word;
    if !instruction.compressed {
        format_of((word & 0x7f) as u8) != InstructionFormat::Unknown
    } else {
        compressed_format_of(word) matches Some(f) && f != CompressedFormat::CB
    }
}

/// The decoding of a decodable instruction.
pub open spec fn spec_decode_instruction(instruction: RawInstruction) -> DecodedInstruction {
    let word = instruction.word;
    if !instruction.compressed {
        match format_of((word & 0x7f) as u8) {
            InstructionFormat::R => DecodedInstruction::R(Rtype::spec_decode(word)),
            InstructionFormat::U => DecodedInstruction::U(Utype::spec_decode(word)),
            InstructionFormat::S => DecodedInstruction::S(Stype::spec_decode(word)),
            InstructionFormat::B => DecodedInstruction::B(Btype::spec_decode(word)),
            InstructionFormat::I => DecodedInstruction::I(Itype::spec_decode(word)),
            _ => DecodedInstruction::J(Jtype::spec_decode(word)),
        }
    } else {
        let w = word as u16;
        match compressed_format_of(word).unwrap() {
            CompressedFormat::CSS => DecodedInstruction::CSS(CSStype::spec_decode(w)),
            CompressedFormat::CS => DecodedInstruction::CS(CStype::spec_decode(w)),
            CompressedFormat::CI => DecodedInstruction::CI(CItype::spec_decode(w)),
            CompressedFormat::CR => DecodedInstruction::CR(CRtype::spec_decode(w)),
            CompressedFormat::CIW => DecodedInstruction::CIW(CIWtype::spec_decode(w)),
            CompressedFormat::CL => DecodedInstruction::CL(CLtype::spec_decode(w)),
            _ => DecodedInstruction::CJ(CJtype::spec_decode(w)),
        }
    }
}

/// Every opcode with a known format is a major opcode.
proof fn lemma_known_format_is_major_opcode(opcode: u8)
    requires
        format_of(opcode) != InstructionFormat::Unknown,
    ensures
        major_opcode_from(opcode) is Some,
{
}

/// Decodes a RawInstruction into a DecodedInstruction variant, which holds the type-specific
/// parameters for the decoded instruction.
pub fn decode_instruction(instruction: RawInstruction) -> (d: DecodedInstruction)
    requires
        decodable(instruction),
    ensures
        d == spec_decode_instruction(instruction),
{
    let word = instruction.word;
    match instruction.compressed {
        false => {
            let opcode_idx = (word & 0x7f) as u8;
            proof {
                lemma_known_format_is_major_opcode(opcode_idx);
            }
            match instruction_format(opcode_idx) {
                InstructionFormat::R => DecodedInstruction::R(Rtype::decode(word)),
                InstructionFormat::U => DecodedInstruction::U(Utype::decode(word)),
                InstructionFormat::S => DecodedInstruction::S(Stype::decode(word)),
                InstructionFormat::B => DecodedInstruction::B(Btype::decode(word)),
                InstructionFormat::I => DecodedInstruction::I(Itype::decode(word)),
                _ => DecodedInstruction::J(Jtype::decode(word)),
            }
        },
        true => {
            let funct3 = ((word >> 13) & (0x7)) as u8;  // bits 13, 14, 15
            assert(((word >> 13) & 7) < 8) by (bit_vector);
            let format = match word & 3 {
                0 => {
                    // Quadrant 0
                    match C0_Funct3::from_u8(funct3).unwrap() {
                        C0_Funct3::C_LD => CompressedFormat::CI,
                        C0_Funct3::C_ADDI4SPN => CompressedFormat::CIW,
                        C0_Funct3::C_LQ => CompressedFormat::CL,
                        C0_Funct3::C_LW => CompressedFormat::CL,
                        C0_Funct3::C_SQ => CompressedFormat::CS,
                        C0_Funct3::C_SW => CompressedFormat::CS,
                        C0_Funct3::C_SD => CompressedFormat::CS,
                    }
                },
                1 => match C1_Funct3::from_u8(funct3).unwrap() {
                    C1_Funct3::C_ANDI => CompressedFormat::CB,
                    C1_Funct3::C_BEQZ => CompressedFormat::CB,
                    C1_Funct3::C_BNEZ => CompressedFormat::CB,
                    C1_Funct3::C_LI => CompressedFormat::CI,
                    C1_Funct3::C_LUI => CompressedFormat::CI,
                    C1_Funct3::C_ADDI => CompressedFormat::CI,
                    C1_Funct3::C_ADDIW => CompressedFormat::CI,
                    C1_Funct3::C_J => CompressedFormat::CJ,
                },
                _ => match C2_Funct3::from_u8(funct3).unwrap() {
                    C2_Funct3::C_LDSP => CompressedFormat::CI,
                    C2_Funct3::C_SLLI => CompressedFormat::CI,
                    C2_Funct3::C_SDSP => CompressedFormat::CSS,
                    _ => {
                        // C.JR and C.MV (funct1 = 0), C.ADD (funct1 = 1, rs2 != 0)
                        CompressedFormat::CR
                    },
                },
            };
            let w = word as u16;
            match format {
                CompressedFormat::CSS => DecodedInstruction::CSS(CSStype::decode(w)),
                CompressedFormat::CS => DecodedInstruction::CS(CStype::decode(w)),
                CompressedFormat::CI => DecodedInstruction::CI(CItype::decode(w)),
                CompressedFormat::CR => DecodedInstruction::CR(CRtype::decode(w)),
                CompressedFormat::CIW => DecodedInstruction::CIW(CIWtype::decode(w)),
                CompressedFormat::CL => DecodedInstruction::CL(CLtype::decode(w)),
                _ => DecodedInstruction::CJ(CJtype::decode(w)),
            }
        },
    }
}

/// The format of a compressed instruction word, as `compressed_format_of` gives it.
fn compressed_format(word: u32) -> (r: Option<CompressedFormat>)
    ensures
        r == compressed_format_of(word),
{
    let funct3 = ((word >> 13) & 7) as u8;
    match word & 3 {
        0 => match C0_Funct3::from_u8(funct3) {
            Some(C0_Funct3::C_LD) => Some(CompressedFormat::CI),
            Some(C0_Funct3::C_ADDI4SPN) => Some(CompressedFormat::CIW),
            Some(C0_Funct3::C_LQ) => Some(CompressedFormat::CL),
            Some(C0_Funct3::C_LW) => Some(CompressedFormat::CL),
            Some(C0_Funct3::C_SQ) => Some(CompressedFormat::CS),
            Some(C0_Funct3::C_SW) => Some(CompressedFormat::CS),
            Some(C0_Funct3::C_SD) => Some(CompressedFormat::CS),
            None => None,
        },
        1 => match C1_Funct3::from_u8(funct3) {
            Some(C1_Funct3::C_ANDI) => Some(CompressedFormat::CB),
            Some(C1_Funct3::C_BEQZ) => Some(CompressedFormat::CB),
            Some(C1_Funct3::C_BNEZ) => Some(CompressedFormat::CB),
            Some(C1_Funct3::C_LI) => Some(CompressedFormat::CI),
            Some(C1_Funct3::C_LUI) => Some(CompressedFormat::CI),
            Some(C1_Funct3::C_ADDI) => Some(CompressedFormat::CI),
            Some(C1_Funct3::C_ADDIW) => Some(CompressedFormat::CI),
            Some(C1_Funct3::C_J) => Some(CompressedFormat::CJ),
            None => None,
        },
        2 => match C2_Funct3::from_u8(funct3) {
            Some(C2_Funct3::C_LDSP) => Some(CompressedFormat::CI),
            Some(C2_Funct3::C_SLLI) => Some(CompressedFormat::CI),
            Some(C2_Funct3::C_SDSP) => Some(CompressedFormat::CSS),
            Some(_) => {
                let rs2 = (word >> 2) & 31;
                let funct1 = (word >> 12) & 1;
                if funct1 == 0 || rs2 != 0 {
                    Some(CompressedFormat::CR)
                } else {
                    None
                }
            },
            None => None,
        },
        _ => None,
    }
}

/// Whether an instruction can be decoded.
pub fn is_decodable(instruction: RawInstruction) -> (b: bool)
    ensures
        b == decodable(instruction),
{
    let word = instruction.word;
    if !instruction.compressed {
        instruction_format((word & 0x7f) as u8) != InstructionFormat::Unknown
    } else {
        match compressed_format(word) {
            Some(CompressedFormat::CB) => false,
            Some(_) => true,
            None => false,
        }
    }
}

/// Decodes fetched instructions.
pub trait InstructionDecoder {
    /// Decodes a RawInstruction into a DecodedInstruction variant, which holds the
    /// type-specific parameters for the decoded instruction.
    fn decode_instruction(&self, instruction: RawInstruction) -> (d: DecodedInstruction)
        requires
            decodable(instruction),
        ensures
            d == spec_decode_instruction(instruction),
    ;
}

impl InstructionDecoder for Core {
    fn decode_instruction(&self, instruction: RawInstruction) -> (d: DecodedInstruction) {
        decode_instruction(instruction)
    }
}

} // verus!
