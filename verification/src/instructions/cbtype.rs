//! CB-type (compressed branch) instructions.
use vstd::prelude::*;

use super::opcodes::CompressedOpcode;
use super::{CompressedFormatType, InstructionFormatType};
use crate::cpu::Register;

verus! {

/// The fields of a CB-type instruction. Words of this format are not decoded: their offset
/// has no decoder yet.
#[derive(Debug, PartialEq, Eq, Copy, Clone, Structural)]
pub struct CBtype {
    pub opcode: CompressedOpcode,
    pub rs1: Register,
    pub offset: u16,
    pub funct3: u8,
}

impl InstructionFormatType for CBtype {}

impl CompressedFormatType for CBtype {}

} // verus!
