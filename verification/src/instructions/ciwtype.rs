//! CIW-type (compressed wide immediate) instructions.
use vstd::prelude::*;
use vstd::string::StringExecFns;

use super::functions::{c0_funct3_from, funct3_from, funct3_value, C0_Funct3, Funct3};
use super::opcodes::{compressed_opcode_from, CompressedOpcode};
use super::{
    instruction_of, CompressedFormatDecoder, CompressedFormatType, Instruction,
    InstructionFormatType, InstructionSelector, Operation,
};
use crate::disassembler::{append_decimal, decimal};
use crate::cpu::{Core, Register, Xlen};
use crate::pipeline::{Stage, WritebackStage};

verus! {

/// The fields of a CIW-type instruction.
#[derive(Debug, PartialEq, Eq, Copy, Clone, Structural)]
pub struct CIWtype {
    pub opcode: CompressedOpcode,
    pub imm: u16,
    pub rd: Register,
    pub funct3: Funct3,
}

impl InstructionFormatType for CIWtype {}

impl CompressedFormatType for CIWtype {}

impl CompressedFormatDecoder<CIWtype> for CIWtype {
    open spec fn decodable(word: u16) -> bool {
        true
    }

    /// The immediate is the seven bits inst[11:5]; rd' names x8 to x15.
    open spec fn spec_decode(word: u16) -> CIWtype {
        CIWtype {
            opcode: compressed_opcode_from((word & 3) as u8).unwrap(),
            imm: (word >> 5) & 0x7f,
            rd: (((word >> 2) & 7) + 8) as u8,
            funct3: funct3_from(((word >> 13) & 0x7) as u8).unwrap(),
        }
    }

    fn decode(word: u16) -> (r: CIWtype) {
        assert((word & 3) < 4 && ((word >> 13) & 0x7) < 8 && ((word >> 2) & 7) < 8 && (1u16 << 7u16)
            == 128) by (bit_vector);
        CIWtype {
            opcode: CompressedOpcode::from_u8((word & 3) as u8).unwrap(),
            imm: ((word >> 5) as u16) & ((1 << 7) - 1),
            rd: ((word >> 2) & 7) as Register + 8,
            funct3: Funct3::from_u8(((word >> 13) & 0x7) as u8).unwrap(),
        }
    }
}

#[allow(non_snake_case)]
impl Instruction<CIWtype> {
    /// Adds a zero-extended non-zero immediate, scaled by 4, to the stack pointer, x2, and
    /// writes the result to rd.
    pub fn C_ADDI4SPN(ciwtype: CIWtype) -> (i: Instruction<CIWtype>)
        ensures
            i == instruction_of(Operation::C_ADDI4SPN, ciwtype),
    {
        Instruction { args: Some(ciwtype), mnemonic: "C.ADDI4SPN", funct: Operation::C_ADDI4SPN }
    }

    /// Whether the instruction can run: it has arguments naming a register, a non-zero
    /// immediate, and sp plus four times the immediate does not overflow.
    pub open spec fn runnable(&self, core: &Core) -> bool {
        &&& self.args matches Some(a)
        &&& a.rd < 32
        &&& self.funct == Operation::C_ADDI4SPN
        &&& a.imm != 0
        &&& core.reg(2) + 4 * a.imm <= u64::MAX
    }

    /// The write of rd with sp plus four times the immediate.
    pub open spec fn result(&self, core: &Core) -> Stage {
        let a = self.args.unwrap();
        Stage::WRITEBACK(
            Some(WritebackStage { register: a.rd, value: (core.reg(2) + 4 * a.imm) as u64 }),
        )
    }

    /// Runs the instruction; the hart's state is left as it was.
    pub fn run(&self, core: &mut Core) -> (s: Stage)
        requires
            self.runnable(old(core)),
        ensures
            s == self.result(old(core)),
            *final(core) == *old(core),
    {
        let args = self.args.unwrap();
        let sp = core.read_register(2);
        let value = sp + (args.imm as u64) * 4;
        Stage::writeback(args.rd, value)
    }
}

/// The operation CIW-type arguments encode: C.ADDI4SPN for funct3 zero.
pub open spec fn ciwtype_operation(a: CIWtype) -> Option<Operation> {
    match c0_funct3_from(funct3_value(a.funct3)) {
        Some(C0_Funct3::C_ADDI4SPN) => Some(Operation::C_ADDI4SPN),
        _ => None,
    }
}

impl InstructionSelector<CIWtype> for CIWtype {
    open spec fn operation(&self, xlen: Xlen) -> Option<Operation> {
        ciwtype_operation(*self)
    }

    fn selects(&self, _xlen: Xlen) -> (b: bool) {
        match C0_Funct3::from_u8(self.funct3.value()) {
            Some(C0_Funct3::C_ADDI4SPN) => true,
            _ => false,
        }
    }

    fn select(&self, _xlen: Xlen) -> (i: Instruction<CIWtype>)
        ensures
            i == instruction_of(ciwtype_operation(*self).unwrap(), *self),
    {
        match C0_Funct3::from_u8(self.funct3.value()) {
            Some(C0_Funct3::C_ADDI4SPN) => Instruction::C_ADDI4SPN(*self),
            _ => unreached(),
        }
    }
}

impl Instruction<CIWtype> {
    /// The assembler text: the mnemonic, then `x<rd>,x2,<imm>`; the mnemonic alone without arguments.
    pub open spec fn text(&self) -> Seq<char> {
        match self.args {
            Some(a) => self.mnemonic@ + " x"@ + decimal(a.rd as nat) + ",x2,"@ + decimal(a.imm as nat),
            None => self.mnemonic@,
        }
    }

    /// The assembler text.
    pub fn to_string(&self) -> (s: String)
        ensures
            s@ == self.text(),
    {
        let mut s = String::from_str(self.mnemonic);
        match self.args {
            Some(args) => {
                s.append(" x");
                append_decimal(&mut s, args.rd as u64);
                s.append(",x2,");
                append_decimal(&mut s, args.imm as u64);
            },
            None => {},
        }
        s
    }
}

} // verus!
