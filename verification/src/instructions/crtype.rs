//! CR-type (compressed register) instructions.
use vstd::prelude::*;
use vstd::string::StringExecFns;

use super::functions::{funct3_from, Funct3};
use super::opcodes::{compressed_opcode_from, CompressedOpcode};
use super::{
    instruction_of, CompressedFormatDecoder, CompressedFormatType, Instruction,
    InstructionFormatType, InstructionSelector, Operation,
};
use crate::disassembler::{append_decimal, decimal};
use crate::cpu::{xlen_extend, Core, Register, Xlen};
use crate::pipeline::{Stage, WritebackStage};

verus! {

/// The fields of a CR-type instruction.
#[derive(Debug, PartialEq, Eq, Copy, Clone, Structural)]
pub struct CRtype {
    pub opcode: CompressedOpcode,
    pub rs1_rd: Register,
    pub rs2: Register,
    pub funct1: u8,
    pub funct3: Funct3,
}

impl InstructionFormatType for CRtype {}

impl CompressedFormatType for CRtype {}

impl CompressedFormatDecoder<CRtype> for CRtype {
    open spec fn decodable(word: u16) -> bool {
        true
    }

    open spec fn spec_decode(word: u16) -> CRtype {
        CRtype {
            opcode: compressed_opcode_from((word & 3) as u8).unwrap(),
            rs2: ((word >> 2) & 31) as u8,
            rs1_rd: ((word >> 7) & 31) as u8,
            funct1: ((word >> 12) & 1) as u8,
            funct3: funct3_from(((word >> 13) & 0x7) as u8).unwrap(),
        }
    }

    fn decode(word: u16) -> (r: CRtype) {
        assert((word & 3) < 4 && ((word >> 13) & 0x7) < 8) by (bit_vector);
        assert(((word >> 12) as u8 & 1) == ((word >> 12) & 1) as u8) by (bit_vector);
        CRtype {
            opcode: CompressedOpcode::from_u8((word & 3) as u8).unwrap(),
            rs2: ((word >> 2) & 31) as Register,
            rs1_rd: (word >> 7 & 31) as Register,
            funct1: (word >> 12) as u8 & 1,
            funct3: Funct3::from_u8(((word >> 13) & 0x7) as u8).unwrap(),
        }
    }
}

#[allow(non_snake_case)]
impl Instruction<CRtype> {
    pub fn C_ADD(crtype: CRtype) -> (i: Instruction<CRtype>)
        ensures
            i == instruction_of(Operation::C_ADD, crtype),
    {
        Instruction { args: Some(crtype), mnemonic: "C.ADD", funct: Operation::C_ADD }
    }

    pub fn C_JR(crtype: CRtype) -> (i: Instruction<CRtype>)
        ensures
            i == instruction_of(Operation::C_JR, crtype),
    {
        Instruction { args: Some(crtype), mnemonic: "C.JR", funct: Operation::C_JR }
    }

    pub fn C_MV(crtype: CRtype) -> (i: Instruction<CRtype>)
        ensures
            i == instruction_of(Operation::C_MV, crtype),
    {
        Instruction { args: Some(crtype), mnemonic: "C.MV", funct: Operation::C_MV }
    }

    /// Whether the instruction can run: it has arguments naming registers and a CR operation.
    pub open spec fn runnable(&self, core: &Core) -> bool {
        &&& self.args matches Some(a)
        &&& a.rs1_rd < 32 && a.rs2 < 32
        &&& match self.funct {
            Operation::C_ADD | Operation::C_JR | Operation::C_MV => true,
            _ => false,
        }
    }

    /// C.ADD writes rd with rd plus rs2 (wrapping), C.MV with rs2; C.JR writes nothing.
    pub open spec fn result(&self, core: &Core) -> Stage {
        let a = self.args.unwrap();
        let r1 = core.reg(a.rs1_rd as int);
        let r2 = core.reg(a.rs2 as int);
        match self.funct {
            Operation::C_ADD => Stage::WRITEBACK(
                Some(
                    WritebackStage {
                        register: a.rs1_rd,
                        value: xlen_extend(
                            core.xlen,
                            vstd::wrapping::u64_specs::wrapping_add(r1, r2) as i64,
                        ) as u64,
                    },
                ),
            ),
            Operation::C_MV => Stage::WRITEBACK(Some(WritebackStage { register: a.rs1_rd, value: r2 })),
            _ => Stage::WRITEBACK(None),
        }
    }

    /// Runs the instruction: C.JR jumps to rs1; the others leave the hart as it was.
    pub fn run(&self, core: &mut Core) -> (s: Stage)
        requires
            self.runnable(old(core)),
        ensures
            s == self.result(old(core)),
            if self.funct == Operation::C_JR {
                old(core).jumped(final(core), old(core).reg(self.args.unwrap().rs1_rd as int))
            } else {
                *final(core) == *old(core)
            },
    {
        let args = self.args.unwrap();
        match self.funct {
            Operation::C_ADD => {
                let rs1v = core.read_register(args.rs1_rd);
                let rs2v = core.read_register(args.rs2);
                let value = core.bit_extend(rs1v.wrapping_add(rs2v) as i64) as u64;
                Stage::writeback(args.rs1_rd, value)
            },
            Operation::C_JR => {
                let rs1v = core.read_register(args.rs1_rd);
                core.set_pc(rs1v);
                Stage::WRITEBACK(None)
            },
            _ => {
                let value = core.read_register(args.rs2);
                Stage::writeback(args.rs1_rd, value)
            },
        }
    }
}

/// The operation CR-type arguments encode in quadrant 2: C.JR (funct1 0, rs2 x0), C.MV
/// (funct1 0), C.ADD (funct1 1, rs2 not x0).
pub open spec fn crtype_operation(a: CRtype) -> Option<Operation> {
    if a.opcode == CompressedOpcode::C2 {
        if a.funct1 == 0 {
            if a.rs2 == 0 {
                Some(Operation::C_JR)
            } else {
                Some(Operation::C_MV)
            }
        } else if a.funct1 == 1 && a.rs2 != 0 {
            Some(Operation::C_ADD)
        } else {
            None
        }
    } else {
        None
    }
}

impl InstructionSelector<CRtype> for CRtype {
    open spec fn operation(&self, xlen: Xlen) -> Option<Operation> {
        crtype_operation(*self)
    }

    fn selects(&self, _xlen: Xlen) -> (b: bool) {
        self.opcode == CompressedOpcode::C2 && (self.funct1 == 0 || (self.funct1 == 1 && self.rs2
            != 0))
    }

    fn select(&self, _xlen: Xlen) -> (i: Instruction<CRtype>)
        ensures
            i == instruction_of(crtype_operation(*self).unwrap(), *self),
    {
        match self.opcode {
            CompressedOpcode::C2 => {
                match self.funct1 {
                    // C.JR / C.MV
                    0 => match self.rs2 {
                        0 => Instruction::C_JR(*self),
                        _ => Instruction::C_MV(*self),
                    },
                    // C.ADD (C.EBREAK and C.JALR have rs2 = 0)
                    1 => match self.rs2 {
                        0 => unreached(),
                        _ => Instruction::C_ADD(*self),
                    },
                    _ => unreached(),
                }
            },
            _ => unreached(),
        }
    }
}

impl Instruction<CRtype> {
    /// The assembler text: the mnemonic, then `x<rs1/rd>,x<rs2>`; the mnemonic alone without arguments.
    pub open spec fn text(&self) -> Seq<char> {
        match self.args {
            Some(a) => self.mnemonic@ + " x"@ + decimal(a.rs1_rd as nat) + ",x"@ + decimal(a.rs2 as nat),
            None => self.mnemonic@,
        }
    }

    /// The assembler text.
    pub fn to_string(&self) -> (s: String)
        ensures
            s@ == self.text(),
    {
        let mut s = String::from_str(self.mnemonic);
        match self.args {
            Some(args) => {
                s.append(" x");
                append_decimal(&mut s, args.rs1_rd as u64);
                s.append(",x");
                append_decimal(&mut s, args.rs2 as u64);
            },
            None => {},
        }
        s
    }
}

} // verus!
