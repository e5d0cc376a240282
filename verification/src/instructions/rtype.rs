//! R-type (register-register) instructions.
use vstd::prelude::*;
use vstd::string::StringExecFns;

use super::functions::{
    funct3_from, funct3_value, funct7_from, op_funct3_from, rv32m_funct3_from, Funct3, Funct7,
    Op_Funct3, RV32M_Funct3,
};
use super::opcodes::{major_opcode_from, MajorOpcode};
use super::{
    instruction_of, FormatDecoder, Instruction, InstructionFormatType, InstructionSelector,
    Operation, UncompressedFormatType,
};
use crate::disassembler::{append_decimal, decimal};
use crate::cpu::{xlen_extend, Core, Register, Xlen};
use crate::pipeline::{Stage, WritebackStage};

verus! {

/// The fields of an R-type instruction.
#[derive(Debug, PartialEq, Eq, Copy, Clone, Structural)]
pub struct Rtype {
    pub opcode: MajorOpcode,
    pub rd: Register,
    pub rs1: Register,
    pub rs2: Register,
    pub funct3: Funct3,
    pub funct7: u8,
}

impl InstructionFormatType for Rtype {}

impl UncompressedFormatType for Rtype {}

impl FormatDecoder<Rtype> for Rtype {
    open spec fn decodable(word: u32) -> bool {
        major_opcode_from((word & 0x7f) as u8) is Some
    }

    open spec fn spec_decode(word: u32) -> Rtype {
        Rtype {
            opcode: major_opcode_from((word & 0x7f) as u8).unwrap(),
            rd: ((word >> 7) & 31) as u8,
            rs1: ((word >> 15) & 31) as u8,
            rs2: ((word >> 20) & 31) as u8,
            funct3: funct3_from(((word >> 12) & 7) as u8).unwrap(),
            funct7: ((word >> 25) & 0x7f) as u8,
        }
    }

    fn decode(word: u32) -> (r: Rtype) {
        let f3 = ((word >> 12) & 7) as u8;
        assert(((word >> 12) & 7) < 8) by (bit_vector);
        Rtype {
            opcode: MajorOpcode::from_u8((word & 0x7f) as u8).unwrap(),
            rd: ((word >> 7) & 31) as Register,
            rs1: ((word >> 15) & 31) as Register,
            rs2: ((word >> 20) & 31) as Register,
            funct3: Funct3::from_u8(f3).unwrap(),
            funct7: ((word >> 25) & 0x7f) as u8,
        }
    }
}

/// The high 64 bits of the product of two register values (in 32-bit mode, bits 63:32 of the
/// signed 64-bit product, passed through `bit_extend`).
pub open spec fn mulh_value(xlen: Xlen, r1: u64, r2: u64) -> u64 {
    match xlen {
        Xlen::Bits32 => xlen_extend(xlen, (((r1 as i64) * (r2 as i64)) as i64) >> 32u64) as u64,
        Xlen::Bits64 => ((((r1 as i128) * (r2 as i128)) as i128) >> 64u64) as u64,
    }
}

/// Whether MULH's product fits the signed type it is computed in.
pub open spec fn mulh_fits(xlen: Xlen, r1: u64, r2: u64) -> bool {
    match xlen {
        Xlen::Bits32 => i64::MIN <= (r1 as i64) * (r2 as i64) <= i64::MAX,
        Xlen::Bits64 => (r1 as i128) * (r2 as i128) <= i128::MAX,
    }
}

#[allow(non_snake_case)]
impl Instruction<Rtype> {
    pub fn AND(rtype: Rtype) -> (i: Instruction<Rtype>)
        ensures
            i == instruction_of(Operation::AND, rtype),
    {
        Instruction { mnemonic: "AND", args: Some(rtype), funct: Operation::AND }
    }

    pub fn OR(rtype: Rtype) -> (i: Instruction<Rtype>)
        ensures
            i == instruction_of(Operation::OR, rtype),
    {
        Instruction { mnemonic: "OR", args: Some(rtype), funct: Operation::OR }
    }

    pub fn MUL(rtype: Rtype) -> (i: Instruction<Rtype>)
        ensures
            i == instruction_of(Operation::MUL, rtype),
    {
        Instruction { mnemonic: "MUL", args: Some(rtype), funct: Operation::MUL }
    }

    pub fn MULH(rtype: Rtype) -> (i: Instruction<Rtype>)
        ensures
            i == instruction_of(Operation::MULH, rtype),
    {
        Instruction { mnemonic: "MULH", args: Some(rtype), funct: Operation::MULH }
    }

    /// Whether the instruction can run on `core`: it has arguments that name registers, an
    /// R-type operation, and (for MULH) a product that fits.
    pub open spec fn runnable(&self, core: &Core) -> bool {
        &&& self.args matches Some(a)
        &&& a.rd < 32 && a.rs1 < 32 && a.rs2 < 32
        &&& match self.funct {
            Operation::AND | Operation::OR | Operation::MUL => true,
            Operation::MULH => mulh_fits(core.xlen, core.reg(a.rs1 as int), core.reg(a.rs2 as int)),
            _ => false,
        }
    }

    /// The stage the instruction leads to: the write of rd with rs1 AND / OR / times rs2, or
    /// with the high half of their product.
    pub open spec fn result(&self, core: &Core) -> Stage {
        let a = self.args.unwrap();
        let r1 = core.reg(a.rs1 as int);
        let r2 = core.reg(a.rs2 as int);
        let value = match self.funct {
            Operation::AND => xlen_extend(core.xlen, (r1 & r2) as i64) as u64,
            Operation::OR => xlen_extend(core.xlen, (r1 | r2) as i64) as u64,
            Operation::MUL => xlen_extend(
                core.xlen,
                vstd::wrapping::u64_specs::wrapping_mul(r1, r2) as i64,
            ) as u64,
            _ => mulh_value(core.xlen, r1, r2),
        };
        Stage::WRITEBACK(Some(WritebackStage { register: a.rd, value }))
    }

    /// Runs the instruction; the hart's state is left as it was.
    pub fn run(&self, core: &mut Core) -> (s: Stage)
        requires
            self.runnable(old(core)),
        ensures
            s == self.result(old(core)),
            *final(core) == *old(core),
    {
        let args = self.args.unwrap();
        let r1v = core.read_register(args.rs1);
        let r2v = core.read_register(args.rs2);
        match self.funct {
            Operation::AND => {
                let value = core.bit_extend((r1v & r2v) as i64) as u64;
                Stage::writeback(args.rd, value)
            },
            Operation::OR => {
                let value = core.bit_extend((r1v | r2v) as i64) as u64;
                Stage::writeback(args.rd, value)
            },
            Operation::MUL => {
                let value = core.bit_extend(r1v.wrapping_mul(r2v) as i64) as u64;
                Stage::writeback(args.rd, value)
            },
            _ => {
                let value = match core.xlen {
                    Xlen::Bits32 => core.bit_extend((r1v as i64 * r2v as i64) >> 32) as u64,
                    Xlen::Bits64 => ((r1v as i128) * (r2v as i128) >> 64) as u64,
                };
                Stage::writeback(args.rd, value)
            },
        }
    }
}

/// The operation R-type arguments encode: MUL for funct7 RV32M, AND and OR for funct7 zero.
pub open spec fn rtype_operation(r: Rtype) -> Option<Operation> {
    if r.opcode == MajorOpcode::OP {
        match funct7_from(r.funct7) {
            Some(Funct7::RV32M) => if rv32m_funct3_from(funct3_value(r.funct3)) == Some(
                RV32M_Funct3::MUL,
            ) {
                Some(Operation::MUL)
            } else {
                None
            },
            Some(Funct7::B0000000) => match op_funct3_from(funct3_value(r.funct3)) {
                Some(Op_Funct3::AND) => Some(Operation::AND),
                Some(Op_Funct3::OR) => Some(Operation::OR),
                _ => None,
            },
            _ => None,
        }
    } else {
        None
    }
}

impl InstructionSelector<Rtype> for Rtype {
    open spec fn operation(&self, xlen: Xlen) -> Option<Operation> {
        rtype_operation(*self)
    }

    fn selects(&self, _xlen: Xlen) -> (b: bool) {
        if self.opcode == MajorOpcode::OP {
            match Funct7::from_u8(self.funct7) {
                Some(Funct7::RV32M) => match RV32M_Funct3::from_u8(self.funct3.value()) {
                    Some(RV32M_Funct3::MUL) => true,
                    _ => false,
                },
                Some(Funct7::B0000000) => match Op_Funct3::from_u8(self.funct3.value()) {
                    Some(Op_Funct3::AND) | Some(Op_Funct3::OR) => true,
                    _ => false,
                },
                _ => false,
            }
        } else {
            false
        }
    }

    fn select(&self, _xlen: Xlen) -> (i: Instruction<Rtype>)
        ensures
            i == instruction_of(rtype_operation(*self).unwrap(), *self),
    {
        match self.opcode {
            MajorOpcode::OP => match Funct7::from_u8(self.funct7) {
                // RV32M
                Some(Funct7::RV32M) => match RV32M_Funct3::from_u8(self.funct3.value()) {
                    Some(RV32M_Funct3::MUL) => Instruction::MUL(*self),
                    _ => unreached(),
                },
                Some(Funct7::B0000000) => match Op_Funct3::from_u8(self.funct3.value()) {
                    Some(Op_Funct3::AND) => Instruction::AND(*self),
                    Some(Op_Funct3::OR) => Instruction::OR(*self),
                    _ => unreached(),
                },
                _ => unreached(),
            },
            _ => unreached(),
        }
    }
}

impl Instruction<Rtype> {
    /// The assembler text: the mnemonic, then `x<rd>,x<rs1>,x<rs2>`; the mnemonic alone without arguments.
    pub open spec fn text(&self) -> Seq<char> {
        match self.args {
            Some(a) => self.mnemonic@ + " x"@ + decimal(a.rd as nat) + ",x"@ + decimal(a.rs1 as nat) + ",x"@ + decimal(a.rs2 as nat),
            None => self.mnemonic@,
        }
    }

    /// The assembler text.
    pub fn to_string(&self) -> (s: String)
        ensures
            s@ == self.text(),
    {
        let mut s = String::from_str(self.mnemonic);
        match self.args {
            Some(args) => {
                s.append(" x");
                append_decimal(&mut s, args.rd as u64);
                s.append(",x");
                append_decimal(&mut s, args.rs1 as u64);
                s.append(",x");
                append_decimal(&mut s, args.rs2 as u64);
            },
            None => {},
        }
        s
    }
}

} // verus!
