//! U-type (LUI, AUIPC) instructions.
use vstd::prelude::*;

use super::opcodes::{major_opcode_from, MajorOpcode};
use super::{
    instruction_of, FormatDecoder, Instruction, InstructionFormatType, InstructionSelector,
    Operation, UncompressedFormatType,
};
use crate::cpu::{Core, Register, Xlen};
use crate::pipeline::{Stage, WritebackStage};

verus! {

/// The fields of a U-type instruction.
#[derive(Debug, PartialEq, Eq, Copy, Clone, Structural)]
pub struct Utype {
    pub opcode: MajorOpcode,
    pub rd: Register,
    pub imm20: u32,
}

impl InstructionFormatType for Utype {}

impl UncompressedFormatType for Utype {}

impl FormatDecoder<Utype> for Utype {
    open spec fn decodable(word: u32) -> bool {
        major_opcode_from((word & 0x7f) as u8) is Some
    }

    /// The immediate is inst[31:12], unshifted.
    open spec fn spec_decode(word: u32) -> Utype {
        Utype {
            opcode: major_opcode_from((word & 0x7f) as u8).unwrap(),
            rd: ((word >> 7) & 31) as u8,
            imm20: word >> 12,
        }
    }

    fn decode(word: u32) -> (r: Utype) {
        Utype {
            opcode: MajorOpcode::from_u8((word & 0x7f) as u8).unwrap(),
            rd: ((word >> 7) & 31) as Register,
            imm20: word >> 12,
        }
    }
}

/// Bit 19 of a 20-bit immediate, by which AUIPC sign-extends it.
pub const IMM20_SIGN: u32 = 0x80000;

/// The value AUIPC writes: the immediate, sign-adjusted from bit 19 and shifted into the upper
/// 20 bits of a 32-bit word, plus the address of the instruction.
pub open spec fn auipc_value(core: &Core, a: Utype) -> u64 {
    let se_imm20 = ((a.imm20 ^ IMM20_SIGN) - IMM20_SIGN) as u32;
    vstd::wrapping::u64_specs::wrapping_add((se_imm20 << 12u32) as u64, core.prev_pc)
}

#[allow(non_snake_case)]
impl Instruction<Utype> {
    pub fn AUIPC(utype: Utype) -> (i: Instruction<Utype>)
        ensures
            i == instruction_of(Operation::AUIPC, utype),
    {
        Instruction { mnemonic: "AUIPC", args: Some(utype), funct: Operation::AUIPC }
    }

    pub fn LUI(utype: Utype) -> (i: Instruction<Utype>)
        ensures
            i == instruction_of(Operation::LUI, utype),
    {
        Instruction { mnemonic: "LUI", args: Some(utype), funct: Operation::LUI }
    }

    /// Whether the instruction can run: it has arguments and a U-type operation; AUIPC's
    /// sign adjustment does not underflow (bit 19 of the immediate is clear).
    pub open spec fn runnable(&self, core: &Core) -> bool {
        &&& self.args matches Some(a)
        &&& match self.funct {
            Operation::AUIPC => a.imm20 ^ IMM20_SIGN >= IMM20_SIGN,
            Operation::LUI => true,
            _ => false,
        }
    }

    /// The stage the instruction leads to: the write of rd with the AUIPC value, or with the
    /// immediate shifted left by 12 (LUI).
    pub open spec fn result(&self, core: &Core) -> Stage {
        let a = self.args.unwrap();
        let value = match self.funct {
            Operation::AUIPC => auipc_value(core, a),
            _ => (a.imm20 as u64) << 12u64,
        };
        Stage::WRITEBACK(Some(WritebackStage { register: a.rd, value }))
    }

    /// Runs the instruction; the hart's state is left as it was.
    pub fn run(&self, core: &mut Core) -> (s: Stage)
        requires
            self.runnable(old(core)),
        ensures
            s == self.result(old(core)),
            *final(core) == *old(core),
    {
        let args = self.args.unwrap();
        match self.funct {
            Operation::AUIPC => {
                let se_imm20 = (args.imm20 ^ IMM20_SIGN) - IMM20_SIGN;
                let value = ((se_imm20 << 12) as u64).wrapping_add(core.prev_pc);
                Stage::WRITEBACK(Some(WritebackStage { register: args.rd, value }))
            },
            _ => Stage::WRITEBACK(
                Some(WritebackStage { register: args.rd, value: (args.imm20 as u64) << 12 }),
            ),
        }
    }
}

/// The operation U-type arguments encode.
pub open spec fn utype_operation(a: Utype) -> Option<Operation> {
    match a.opcode {
        MajorOpcode::AUIPC => Some(Operation::AUIPC),
        MajorOpcode::LUI => Some(Operation::LUI),
        _ => None,
    }
}

impl InstructionSelector<Utype> for Utype {
    open spec fn operation(&self, xlen: Xlen) -> Option<Operation> {
        utype_operation(*self)
    }

    fn selects(&self, _xlen: Xlen) -> (b: bool) {
        match self.opcode {
            MajorOpcode::AUIPC | MajorOpcode::LUI => true,
            _ => false,
        }
    }

    fn select(&self, _xlen: Xlen) -> (i: Instruction<Utype>)
        ensures
            i == instruction_of(utype_operation(*self).unwrap(), *self),
    {
        match self.opcode {
            MajorOpcode::AUIPC => Instruction::AUIPC(*self),
            MajorOpcode::LUI => Instruction::LUI(*self),
            _ => unreached(),
        }
    }
}

} // verus!
