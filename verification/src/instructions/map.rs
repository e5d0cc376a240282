//! Which instruction format each major opcode uses.
use vstd::prelude::*;

use super::InstructionFormat;

verus! {

/// The format of the instructions with the given seven-bit opcode (`Unknown` for opcodes this
/// decoder does not handle).
pub open spec fn format_of(opcode: u8) -> InstructionFormat {
    match opcode {
        0b0000011 => InstructionFormat::I,  // LB/LH/LW
        0b0001111 => InstructionFormat::I,  // FENCE
        0b0010011 => InstructionFormat::I,  // ADDI/SLTI/SLTIU/XORI/ORI/ANDI/SLLI/SRLI/SRAI
        0b0010111 => InstructionFormat::U,  // AUIPC
        0b0011011 => InstructionFormat::I,  // ADDIW
        0b0100011 => InstructionFormat::S,  // SB/SH/SW
        0b0110011 => InstructionFormat::R,  // XOR/XRL/SRA/OR/AND
        0b0110111 => InstructionFormat::U,  // LUI
        0b1100011 => InstructionFormat::B,  // BEQ/BNE/BLT/BGE/BLTU/BGEU
        0b1100111 => InstructionFormat::I,  // JALR
        0b1101111 => InstructionFormat::J,  // JAL
        0b1110011 => InstructionFormat::I,  // CSR*
        _ => InstructionFormat::Unknown,
    }
}

/// The format of the instructions with the given seven-bit opcode.
pub fn instruction_format(opcode: u8) -> (f: InstructionFormat)
    ensures
        f == format_of(opcode),
{
    match opcode {
        0b0000011 => InstructionFormat::I,
        0b0001111 => InstructionFormat::I,
        0b0010011 => InstructionFormat::I,
        0b0010111 => InstructionFormat::U,
        0b0011011 => InstructionFormat::I,
        0b0100011 => InstructionFormat::S,
        0b0110011 => InstructionFormat::R,
        0b0110111 => InstructionFormat::U,
        0b1100011 => InstructionFormat::B,
        0b1100111 => InstructionFormat::I,
        0b1101111 => InstructionFormat::J,
        0b1110011 => InstructionFormat::I,
        _ => InstructionFormat::Unknown,
    }
}

} // verus!
