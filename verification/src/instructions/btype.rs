//! B-type (conditional branch) instructions.
use vstd::prelude::*;
use vstd::string::StringExecFns;

use super::functions::{branch_funct3_from, BRANCH_Funct3};
use super::opcodes::{major_opcode_from, MajorOpcode};
use super::{
    instruction_of, FormatDecoder, ImmediateDecoder, Instruction, InstructionFormatType,
    InstructionSelector, Operation, UncompressedFormatType,
};
use crate::disassembler::{append_decimal, decimal};
use crate::cpu::{xlen_extend, Core, Register, Xlen};
use crate::pipeline::Stage;
use crate::signs::{sext_i64, sign_extend_i64};

verus! {

/// The fields of a B-type instruction.
#[derive(Debug, PartialEq, Eq, Copy, Clone, Structural)]
pub struct Btype {
    pub opcode: MajorOpcode,
    pub rd: Register,
    pub rs1: Register,
    pub rs2: Register,
    pub funct3: u8,
    pub imm12: u16,
}

impl InstructionFormatType for Btype {}

impl UncompressedFormatType for Btype {}

/// The B-immediate: imm[12] = inst[31], imm[11] = inst[7], imm[10:5] = inst[30:25],
/// imm[4:1] = inst[11:8], imm[0] = 0.
pub open spec fn b_immediate(i: u32) -> u16 {
    ((i >> 31) % 2 * 4096 + (i >> 7) % 2 * 2048 + (i >> 25) % 64 * 32 + (i >> 8) % 16 * 2) as u16
}

impl ImmediateDecoder<u32, u16> for Btype {
    open spec fn spec_decode_immediate(i: u32) -> u16 {
        b_immediate(i)
    }

    fn decode_immediate(i: u32) -> (r: u16) {
        let imm12 = ((i >> 31) & 1) as u16;
        let imm105 = ((i >> 25) & 0b111111) as u16;
        let imm41 = ((i >> 8) & 0xf) as u16;
        let imm11 = ((i >> 7) & 1) as u16;
        let r = (imm12 << 12) | (imm105 << 5) | (imm41 << 1) | (imm11 << 11);
        assert(r == b_immediate(i)) by (bit_vector)
            requires
                imm12 == ((i >> 31) & 1) as u16,
                imm105 == ((i >> 25) & 0b111111) as u16,
                imm41 == ((i >> 8) & 0xf) as u16,
                imm11 == ((i >> 7) & 1) as u16,
                r == (imm12 << 12) | (imm105 << 5) | (imm41 << 1) | (imm11 << 11),
        ;
        assert(r == Self::spec_decode_immediate(i));
        r
    }
}

impl FormatDecoder<Btype> for Btype {
    open spec fn decodable(word: u32) -> bool {
        major_opcode_from((word & 0x7f) as u8) is Some
    }

    open spec fn spec_decode(word: u32) -> Btype {
        Btype {
            opcode: major_opcode_from((word & 0x7f) as u8).unwrap(),
            rd: ((word >> 7) & 31) as u8,
            rs1: ((word >> 15) & 31) as u8,
            rs2: ((word >> 20) & 31) as u8,
            imm12: b_immediate(word),
            funct3: ((word >> 12) & 7) as u8,
        }
    }

    fn decode(word: u32) -> (r: Btype) {
        Btype {
            opcode: MajorOpcode::from_u8((word & 0x7f) as u8).unwrap(),
            rd: ((word >> 7) & 31) as Register,
            rs1: ((word >> 15) & 31) as Register,
            rs2: ((word >> 20) & 31) as Register,
            imm12: Btype::decode_immediate(word),
            funct3: ((word >> 12) & 7) as u8,
        }
    }
}

/// The decoded B-immediate puts each instruction bit where the B format puts it: offset bit 0
/// is zero, bits 4:1 are inst[11:8], bits 10:5 are inst[30:25], bit 11 is inst[7] and bit 12
/// is inst[31]; no higher bit is set.
pub proof fn lemma_b_immediate_fields(word: u32)
    ensures
        ({
            let imm = <Btype as FormatDecoder<Btype>>::spec_decode(word).imm12;
            &&& imm & 1 == 0
            &&& (imm >> 1u16) & 0xf == ((word >> 8u32) & 0xf) as u16
            &&& (imm >> 5u16) & 0x3f == ((word >> 25u32) & 0x3f) as u16
            &&& (imm >> 11u16) & 1 == ((word >> 7u32) & 1) as u16
            &&& imm >> 12u16 == (word >> 31u32) as u16
        }),
{
    let imm = b_immediate(word);
    assert({
        &&& imm & 1 == 0
        &&& (imm >> 1u16) & 0xf == ((word >> 8u32) & 0xf) as u16
        &&& (imm >> 5u16) & 0x3f == ((word >> 25u32) & 0x3f) as u16
        &&& (imm >> 11u16) & 1 == ((word >> 7u32) & 1) as u16
        &&& imm >> 12u16 == (word >> 31u32) as u16
    }) by (bit_vector)
        requires
            imm == ((word >> 31u32) % 2 * 4096 + (word >> 7u32) % 2 * 2048 + (word >> 25u32) % 64 * 32
                + (word >> 8u32) % 16 * 2) as u16,
    ;
}

/// Where a taken branch goes: the address of the branch plus the sign-extended offset, wrapping.
pub open spec fn branch_target(core: &Core, a: Btype) -> u64 {
    vstd::wrapping::i64_specs::wrapping_add(core.prev_pc as i64, sext_i64(a.imm12 as i64, 52)) as u64
}

/// Whether a branch is taken. BEQ, BNE and BGE compare the operands after `bit_extend`
/// (BGE as signed numbers), BLT compares them as signed numbers, BLTU and BGEU as unsigned.
pub open spec fn branch_taken(core: &Core, op: Operation, a: Btype) -> bool {
    let r1 = core.reg(a.rs1 as int);
    let r2 = core.reg(a.rs2 as int);
    let e1 = xlen_extend(core.xlen, r1 as i64);
    let e2 = xlen_extend(core.xlen, r2 as i64);
    match op {
        Operation::BNE => e1 as u64 != e2 as u64,
        Operation::BEQ => e1 as u64 == e2 as u64,
        Operation::BGE => e1 >= e2,
        Operation::BLT => (r1 as i64) < (r2 as i64),
        Operation::BLTU => r1 < r2,
        _ => r1 >= r2,
    }
}

#[allow(non_snake_case)]
impl Instruction<Btype> {
    pub fn BNE(args: Btype) -> (i: Instruction<Btype>)
        ensures
            i == instruction_of(Operation::BNE, args),
    {
        Instruction { args: Some(args), mnemonic: "BNE", funct: Operation::BNE }
    }

    pub fn BEQ(args: Btype) -> (i: Instruction<Btype>)
        ensures
            i == instruction_of(Operation::BEQ, args),
    {
        Instruction { args: Some(args), mnemonic: "BEQ", funct: Operation::BEQ }
    }

    pub fn BGE(args: Btype) -> (i: Instruction<Btype>)
        ensures
            i == instruction_of(Operation::BGE, args),
    {
        Instruction { args: Some(args), mnemonic: "BGE", funct: Operation::BGE }
    }

    pub fn BLT(args: Btype) -> (i: Instruction<Btype>)
        ensures
            i == instruction_of(Operation::BLT, args),
    {
        Instruction { args: Some(args), mnemonic: "BLT", funct: Operation::BLT }
    }

    pub fn BLTU(args: Btype) -> (i: Instruction<Btype>)
        ensures
            i == instruction_of(Operation::BLTU, args),
    {
        Instruction { args: Some(args), mnemonic: "BLTU", funct: Operation::BLTU }
    }

    pub fn BGEU(args: Btype) -> (i: Instruction<Btype>)
        ensures
            i == instruction_of(Operation::BGEU, args),
    {
        Instruction { args: Some(args), mnemonic: "BGEU", funct: Operation::BGEU }
    }

    /// Whether the instruction can run: it has arguments that name registers and a branch
    /// operation.
    pub open spec fn runnable(&self, core: &Core) -> bool {
        &&& self.args matches Some(a)
        &&& a.rs1 < 32 && a.rs2 < 32
        &&& match self.funct {
            Operation::BNE | Operation::BEQ | Operation::BGE | Operation::BLT | Operation::BLTU
            | Operation::BGEU => true,
            _ => false,
        }
    }

    /// A branch jumps to its target when it is taken and otherwise changes nothing; either way
    /// no register is written.
    pub fn run(&self, core: &mut Core) -> (s: Stage)
        requires
            self.runnable(old(core)),
        ensures
            s == Stage::WRITEBACK(None),
            if branch_taken(old(core), self.funct, self.args.unwrap()) {
                old(core).jumped(final(core), branch_target(old(core), self.args.unwrap()))
            } else {
                *final(core) == *old(core)
            },
    {
        let args = self.args.unwrap();
        let taken = match self.funct {
            Operation::BNE => {
                let rs1v = core.bit_extend(core.read_register(args.rs1) as i64) as u64;
                let rs2v = core.bit_extend(core.read_register(args.rs2) as i64) as u64;
                rs1v != rs2v
            },
            Operation::BEQ => {
                let rs1v = core.bit_extend(core.read_register(args.rs1) as i64) as u64;
                let rs2v = core.bit_extend(core.read_register(args.rs2) as i64) as u64;
                rs1v == rs2v
            },
            Operation::BGE => {
                let rs1v = core.bit_extend(core.read_register(args.rs1) as i64) as i64;
                let rs2v = core.bit_extend(core.read_register(args.rs2) as i64) as i64;
                rs1v >= rs2v
            },
            Operation::BLT => {
                let rs1v = core.read_register(args.rs1) as i64;
                let rs2v = core.read_register(args.rs2) as i64;
                rs1v < rs2v
            },
            Operation::BLTU => {
                let rs1v = core.read_register(args.rs1);
                let rs2v = core.read_register(args.rs2);
                rs1v < rs2v
            },
            _ => {
                let rs1v = core.read_register(args.rs1);
                let rs2v = core.read_register(args.rs2);
                rs1v >= rs2v
            },
        };
        if taken {
            let se_offs = sign_extend_i64(args.imm12 as i64, 64 - 12);
            let target = (core.prev_pc as i64).wrapping_add(se_offs) as u64;
            core.set_pc(target)
        }
        Stage::WRITEBACK(None)
    }
}

/// The branch that B-type arguments encode, by funct3.
pub open spec fn btype_operation(a: Btype) -> Option<Operation> {
    if a.opcode == MajorOpcode::BRANCH {
        match branch_funct3_from(a.funct3) {
            Some(BRANCH_Funct3::BNE) => Some(Operation::BNE),
            Some(BRANCH_Funct3::BEQ) => Some(Operation::BEQ),
            Some(BRANCH_Funct3::BGE) => Some(Operation::BGE),
            Some(BRANCH_Funct3::BLT) => Some(Operation::BLT),
            Some(BRANCH_Funct3::BLTU) => Some(Operation::BLTU),
            Some(BRANCH_Funct3::BGEU) => Some(Operation::BGEU),
            None => None,
        }
    } else {
        None
    }
}

impl InstructionSelector<Btype> for Btype {
    open spec fn operation(&self, xlen: Xlen) -> Option<Operation> {
        btype_operation(*self)
    }

    fn selects(&self, _xlen: Xlen) -> (b: bool) {
        self.opcode == MajorOpcode::BRANCH && BRANCH_Funct3::from_u8(self.funct3).is_some()
    }

    fn select(&self, _xlen: Xlen) -> (i: Instruction<Btype>)
        ensures
            i == instruction_of(btype_operation(*self).unwrap(), *self),
    {
        match self.opcode {
            MajorOpcode::BRANCH => match BRANCH_Funct3::from_u8(self.funct3) {
                Some(BRANCH_Funct3::BNE) => Instruction::BNE(*self),
                Some(BRANCH_Funct3::BEQ) => Instruction::BEQ(*self),
                Some(BRANCH_Funct3::BGE) => Instruction::BGE(*self),
                Some(BRANCH_Funct3::BLT) => Instruction::BLT(*self),
                Some(BRANCH_Funct3::BLTU) => Instruction::BLTU(*self),
                Some(BRANCH_Funct3::BGEU) => Instruction::BGEU(*self),
                None => unreached(),
            },
            _ => unreached(),
        }
    }
}

impl Instruction<Btype> {
    /// The assembler text: the mnemonic, then `x<rs1>,x<rs2>,<imm12>` (the raw offset); the mnemonic alone without arguments.
    pub open spec fn text(&self) -> Seq<char> {
        match self.args {
            Some(a) => self.mnemonic@ + " x"@ + decimal(a.rs1 as nat) + ",x"@ + decimal(a.rs2 as nat) + ","@ + decimal(a.imm12 as nat),
            None => self.mnemonic@,
        }
    }

    /// The assembler text.
    pub fn to_string(&self) -> (s: String)
        ensures
            s@ == self.text(),
    {
        let mut s = String::from_str(self.mnemonic);
        match self.args {
            Some(args) => {
                s.append(" x");
                append_decimal(&mut s, args.rs1 as u64);
                s.append(",x");
                append_decimal(&mut s, args.rs2 as u64);
                s.append(",");
                append_decimal(&mut s, args.imm12 as u64);
            },
            None => {},
        }
        s
    }
}

} // verus!
