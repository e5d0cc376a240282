//! I-type (register-immediate, load, JALR and CSR) instructions.
use vstd::prelude::*;
use vstd::string::StringExecFns;

use super::functions::{
    csr_funct3_from, load_funct3_from, op_imm32_funct3_from, op_imm_funct3_from, CSR_Funct3,
    Load_Funct3, OpImm32_Funct3, OpImm_Funct3,
};
use super::opcodes::{major_opcode_from, MajorOpcode};
use super::{
    instruction_of, FormatDecoder, Instruction, InstructionFormatType, InstructionSelector,
    Operation, UncompressedFormatType,
};
use crate::disassembler::{append_decimal, decimal};
use crate::cpu::{csr_from, csr_write, xlen_extend, CSRRegister, Core, Register, Xlen};
use crate::pipeline::{MemoryAccess, Stage, WritebackStage};
use crate::signs::{sext_u64, sign_extend_u64};

verus! {

/// The fields of an I-type instruction.
#[derive(Debug, PartialEq, Eq, Copy, Clone, Structural)]
pub struct Itype {
    pub opcode: MajorOpcode,
    pub rd: Register,
    pub rs1: Register,
    pub funct3: u8,
    pub imm12: u16,
}

impl InstructionFormatType for Itype {}

impl UncompressedFormatType for Itype {}

impl FormatDecoder<Itype> for Itype {
    open spec fn decodable(word: u32) -> bool {
        major_opcode_from((word & 0x7f) as u8) is Some
    }

    /// The immediate is the raw top twelve bits, inst[31:20].
    open spec fn spec_decode(word: u32) -> Itype {
        Itype {
            opcode: major_opcode_from((word & 0x7f) as u8).unwrap(),
            rd: ((word >> 7) & 31) as u8,
            rs1: ((word >> 15) & 31) as u8,
            imm12: (word >> 20) as u16,
            funct3: ((word >> 12) & 7) as u8,
        }
    }

    fn decode(word: u32) -> (r: Itype) {
        Itype {
            opcode: MajorOpcode::from_u8((word & 0x7f) as u8).unwrap(),
            rd: ((word >> 7) & 31) as Register,
            rs1: ((word >> 15) & 31) as Register,
            imm12: (word >> 20) as u16,
            funct3: ((word >> 12) & 7) as u8,
        }
    }
}

/// The sign-extended immediate of I-type arguments.
pub open spec fn itype_imm(a: Itype) -> u64 {
    sext_u64(a.imm12 as u64, 52)
}

/// rs1 plus the sign-extended immediate, as a signed sum (the effective address of LD, the
/// target of JALR).
pub open spec fn itype_sum(core: &Core, a: Itype) -> int {
    (core.reg(a.rs1 as int) as i64) + (itype_imm(a) as i64)
}

/// The stage a register write of `value` to `rd` leads to.
pub open spec fn write_rd(rd: Register, value: u64) -> Stage {
    Stage::WRITEBACK(Some(WritebackStage { register: rd, value }))
}

/// The bit facts behind ORI: the OR of two doublewords read as signed numbers is their OR,
/// its low word survives a 32-bit sign extension, and it keeps every bit of each operand.
proof fn lemma_or_bits(x: u64, i: u64)
    by (bit_vector)
    ensures
        ((x as i64) | (i as i64)) as u64 == x | i,
        ((((x as i64) | (i as i64)) as i32) as i64) as u64 as u32 == (x | i) as u32,
        (x | i) & x == x,
        (x | i) & i == i,
{
}

/// ORI writes rd with the bitwise OR of rs1 and the sign-extended immediate. In 64-bit mode
/// the value written is exactly that OR, so every bit set in rs1 or in the immediate is set
/// in it; in either mode its low 32 bits are those of the OR.
pub proof fn lemma_ori_is_bitwise_or(core: &Core, a: Itype)
    ensures
        ({
            let x = core.reg(a.rs1 as int);
            let i = sext_u64(a.imm12 as u64, 52);
            let r = instruction_of(Operation::ORI, a).result(core);
            &&& r matches Stage::WRITEBACK(Some(wb))
            &&& r->WRITEBACK_0->Some_0.register == a.rd
            &&& r->WRITEBACK_0->Some_0.value as u32 == (x | i) as u32
            &&& core.xlen == Xlen::Bits64 ==> {
                &&& r->WRITEBACK_0->Some_0.value == x | i
                &&& r->WRITEBACK_0->Some_0.value & x == x
                &&& r->WRITEBACK_0->Some_0.value & i == i
            }
        }),
{
    lemma_or_bits(core.reg(a.rs1 as int), sext_u64(a.imm12 as u64, 52));
}

#[allow(non_snake_case)]
impl Instruction<Itype> {
    pub fn CSRRW(args: Itype) -> (i: Instruction<Itype>)
        ensures
            i == instruction_of(Operation::CSRRW, args),
    {
        Instruction { mnemonic: "CSRRW", args: Some(args), funct: Operation::CSRRW }
    }

    pub fn CSRRS(args: Itype) -> (i: Instruction<Itype>)
        ensures
            i == instruction_of(Operation::CSRRS, args),
    {
        Instruction { mnemonic: "CSRRS", args: Some(args), funct: Operation::CSRRS }
    }

    pub fn ADDI(args: Itype) -> (i: Instruction<Itype>)
        ensures
            i == instruction_of(Operation::ADDI, args),
    {
        Instruction { mnemonic: "ADDI", args: Some(args), funct: Operation::ADDI }
    }

    pub fn ADDIW(args: Itype) -> (i: Instruction<Itype>)
        ensures
            i == instruction_of(Operation::ADDIW, args),
    {
        Instruction { mnemonic: "ADDIW", args: Some(args), funct: Operation::ADDIW }
    }

    pub fn ORI(args: Itype) -> (i: Instruction<Itype>)
        ensures
            i == instruction_of(Operation::ORI, args),
    {
        Instruction { mnemonic: "ORI", args: Some(args), funct: Operation::ORI }
    }

    pub fn JALR(args: Itype) -> (i: Instruction<Itype>)
        ensures
            i == instruction_of(Operation::JALR, args),
    {
        Instruction { mnemonic: "JALR", args: Some(args), funct: Operation::JALR }
    }

    pub fn SLLI(args: Itype) -> (i: Instruction<Itype>)
        ensures
            i == instruction_of(Operation::SLLI, args),
    {
        Instruction { mnemonic: "SLLI", args: Some(args), funct: Operation::SLLI }
    }

    pub fn SLLIW(args: Itype) -> (i: Instruction<Itype>)
        ensures
            i == instruction_of(Operation::SLLIW, args),
    {
        Instruction { mnemonic: "SLLIW", args: Some(args), funct: Operation::SLLIW }
    }

    pub fn LD(args: Itype) -> (i: Instruction<Itype>)
        ensures
            i == instruction_of(Operation::LD, args),
    {
        Instruction { mnemonic: "LD", args: Some(args), funct: Operation::LD }
    }

    /// Whether the instruction can run on `core`: it has arguments that name registers and an
    /// I-type operation; a CSR instruction names a CSR other than `time`; the signed sum of
    /// JALR and LD does not overflow.
    pub open spec fn runnable(&self, core: &Core) -> bool {
        &&& self.args matches Some(a)
        &&& a.rd < 32 && a.rs1 < 32
        &&& match self.funct {
            Operation::CSRRW | Operation::CSRRS => csr_from(a.imm12) matches Some(c) && c
                != CSRRegister::time,
            Operation::JALR | Operation::LD => i64::MIN <= itype_sum(core, a) <= i64::MAX,
            Operation::ADDI | Operation::ADDIW | Operation::ORI | Operation::SLLI
            | Operation::SLLIW => true,
            _ => false,
        }
    }

    /// The stage the instruction leads to.
    pub open spec fn result(&self, core: &Core) -> Stage {
        let a = self.args.unwrap();
        let rs1v = core.reg(a.rs1 as int);
        let imm = itype_imm(a);
        match self.funct {
            Operation::CSRRW => if a.rd != 0 {
                write_rd(a.rd, core.csr(csr_from(a.imm12).unwrap()))
            } else {
                Stage::WRITEBACK(None)
            },
            Operation::CSRRS => write_rd(a.rd, core.csr(csr_from(a.imm12).unwrap())),
            Operation::ADDI => write_rd(
                a.rd,
                xlen_extend(core.xlen, vstd::wrapping::i64_specs::wrapping_add(rs1v as i64, imm as i64))
                    as u64,
            ),
            Operation::ADDIW => write_rd(
                a.rd,
                (xlen_extend(
                    core.xlen,
                    vstd::wrapping::i64_specs::wrapping_add(rs1v as i64, imm as i64),
                ) as i32) as u64,
            ),
            Operation::ORI => write_rd(a.rd, xlen_extend(core.xlen, (rs1v as i64) | (imm as i64)) as u64),
            Operation::JALR => if a.rd != 0 {
                write_rd(a.rd, core.pc)
            } else {
                Stage::WRITEBACK(None)
            },
            Operation::SLLI => {
                let mask: u16 = if core.xlen == Xlen::Bits32 {
                    0x1f
                } else {
                    0x3f
                };
                write_rd(a.rd, ((rs1v as i64) << (a.imm12 & mask)) as u64)
            },
            Operation::SLLIW => write_rd(a.rd, (((rs1v as i64) << (a.imm12 & 0x3f)) as i32) as u64),
            _ => Stage::MEMORY(MemoryAccess::READ64(itype_sum(core, a) as u64, a.rd)),
        }
    }

    /// How the instruction changes the hart: JALR jumps to rs1 plus the immediate, CSRRW
    /// writes rs1 to the CSR, CSRRS sets the bits of rs1 in it (when rs1 is not x0); the
    /// others change nothing.
    pub open spec fn effect(&self, old: &Core, new: &Core) -> bool {
        let a = self.args.unwrap();
        let rs1v = old.reg(a.rs1 as int);
        match self.funct {
            Operation::JALR => old.jumped(new, itype_sum(old, a) as u64),
            Operation::CSRRW => {
                &&& new.same_except_csrs(old)
                &&& new.csr_file() == csr_write(old.csr_file(), csr_from(a.imm12).unwrap(), rs1v)
            },
            Operation::CSRRS => {
                let c = csr_from(a.imm12).unwrap();
                &&& new.same_except_csrs(old)
                &&& new.csr_file() == if a.rs1 != 0 {
                    csr_write(old.csr_file(), c, old.csr(c) | rs1v)
                } else {
                    old.csr_file()
                }
            },
            _ => *new == *old,
        }
    }

    /// Runs the instruction.
    pub fn run(&self, core: &mut Core) -> (s: Stage)
        requires
            self.runnable(old(core)),
        ensures
            s == self.result(old(core)),
            self.effect(old(core), final(core)),
    {
        let args = self.args.unwrap();
        match self.funct {
            Operation::CSRRW => {
                let csr_register = CSRRegister::from_u16(args.imm12).unwrap();
                // "If rd=x0, then the instruction shall not read the CSR"
                let value = if args.rd != 0 {
                    Some(core.read_csr(csr_register))
                } else {
                    None
                };
                let rs1v = core.read_register(args.rs1);
                core.write_csr(csr_register, rs1v);
                match value {
                    None => Stage::WRITEBACK(None),
                    Some(v) => Stage::writeback(args.rd, v),
                }
            },
            Operation::CSRRS => {
                let csr_register = CSRRegister::from_u16(args.imm12).unwrap();
                let value = core.read_csr(csr_register);
                if args.rs1 != 0 {
                    let rs1v = core.read_register(args.rs1);
                    core.write_csr(csr_register, value | rs1v);
                }
                Stage::writeback(args.rd, value)
            },
            Operation::ADDI => {
                let rs1v = core.read_register(args.rs1) as i64;
                let seimm = sign_extend_u64(args.imm12 as u64, 64 - 12);
                let value = core.bit_extend(rs1v.wrapping_add(seimm as i64)) as u64;
                Stage::writeback(args.rd, value)
            },
            Operation::ADDIW => {
                let rs1v = core.read_register(args.rs1) as i64;
                let seimm = sign_extend_u64(args.imm12 as u64, 64 - 12);
                let value = core.bit_extend(rs1v.wrapping_add(seimm as i64)) as i32 as u64;
                Stage::writeback(args.rd, value)
            },
            Operation::ORI => {
                let rs1v = core.read_register(args.rs1) as i64;
                let seimm = sign_extend_u64(args.imm12 as u64, 64 - 12);
                let value = core.bit_extend(rs1v | seimm as i64) as u64;
                Stage::writeback(args.rd, value)
            },
            Operation::JALR => {
                let value = core.pc;
                let se_imm12 = sign_extend_u64(args.imm12 as u64, 64 - 12) as i64;
                let rs1v = core.read_register(args.rs1);
                let target = (rs1v as i64 + se_imm12) as u64;
                core.set_pc(target);
                if args.rd != 0 {
                    Stage::writeback(args.rd, value)
                } else {
                    Stage::WRITEBACK(None)
                }
            },
            Operation::SLLI => {
                let rs1v = core.read_register(args.rs1);
                // the shift amount is encoded in the lower 6 bits of the I-immediate field for RV64I.
                let mask: u16 = match core.xlen {
                    Xlen::Bits32 => 0x1f,
                    Xlen::Bits64 => 0x3f,
                };
                let imm12 = args.imm12;
                let shamt = imm12 & mask;
                assert(imm12 & 0x1f < 64 && imm12 & 0x3f < 64) by (bit_vector);
                let value = ((rs1v as i64) << shamt) as u64;
                Stage::writeback(args.rd, value)
            },
            Operation::SLLIW => {
                let rs1v = core.read_register(args.rs1);
                let imm12 = args.imm12;
                let shamt = imm12 & 0b111111;
                assert(imm12 & 0b111111 < 64) by (bit_vector);
                let value = ((rs1v as i64) << shamt) as i32 as u64;
                Stage::writeback(args.rd, value)
            },
            _ => {
                let se_imm12 = sign_extend_u64(args.imm12 as u64, 64 - 12) as i64;
                let rs1v = core.read_register(args.rs1);
                let addr = (rs1v as i64 + se_imm12) as u64;
                Stage::MEMORY(MemoryAccess::READ64(addr, args.rd))
            },
        }
    }
}

/// The operation I-type arguments encode: ADDI, ORI and SLLI of OP-IMM, CSRRS and CSRRW of
/// SYSTEM, JALR, ADDIW and SLLIW of OP-IMM-32, and LD of LOAD.
pub open spec fn itype_operation(a: Itype) -> Option<Operation> {
    match a.opcode {
        MajorOpcode::OP_IMM => match op_imm_funct3_from(a.funct3) {
            Some(OpImm_Funct3::ADDI) => Some(Operation::ADDI),
            Some(OpImm_Funct3::ORI) => Some(Operation::ORI),
            Some(OpImm_Funct3::SLLI) => Some(Operation::SLLI),
            _ => None,
        },
        MajorOpcode::SYSTEM => match csr_funct3_from(a.funct3) {
            Some(CSR_Funct3::CSRRS) => Some(Operation::CSRRS),
            Some(CSR_Funct3::CSRRW) => Some(Operation::CSRRW),
            _ => None,
        },
        MajorOpcode::JALR => Some(Operation::JALR),
        MajorOpcode::OP_IMM_32 => match op_imm32_funct3_from(a.funct3) {
            Some(OpImm32_Funct3::ADDIW) => Some(Operation::ADDIW),
            Some(OpImm32_Funct3::SLLIW) => Some(Operation::SLLIW),
            _ => None,
        },
        MajorOpcode::LOAD => match load_funct3_from(a.funct3) {
            Some(Load_Funct3::LD) => Some(Operation::LD),
            _ => None,
        },
        _ => None,
    }
}

impl InstructionSelector<Itype> for Itype {
    open spec fn operation(&self, xlen: Xlen) -> Option<Operation> {
        itype_operation(*self)
    }

    fn selects(&self, _xlen: Xlen) -> (b: bool) {
        match self.opcode {
            MajorOpcode::OP_IMM => match OpImm_Funct3::from_u8(self.funct3) {
                Some(OpImm_Funct3::ADDI) | Some(OpImm_Funct3::ORI) | Some(OpImm_Funct3::SLLI) => true,
                _ => false,
            },
            MajorOpcode::SYSTEM => match CSR_Funct3::from_u8(self.funct3) {
                Some(CSR_Funct3::CSRRS) | Some(CSR_Funct3::CSRRW) => true,
                _ => false,
            },
            MajorOpcode::JALR => true,
            MajorOpcode::OP_IMM_32 => match OpImm32_Funct3::from_u8(self.funct3) {
                Some(OpImm32_Funct3::ADDIW) | Some(OpImm32_Funct3::SLLIW) => true,
                _ => false,
            },
            MajorOpcode::LOAD => match Load_Funct3::from_u8(self.funct3) {
                Some(Load_Funct3::LD) => true,
                _ => false,
            },
            _ => false,
        }
    }

    fn select(&self, _xlen: Xlen) -> (i: Instruction<Itype>)
        ensures
            i == instruction_of(itype_operation(*self).unwrap(), *self),
    {
        match self.opcode {
            MajorOpcode::OP_IMM => match OpImm_Funct3::from_u8(self.funct3) {
                Some(OpImm_Funct3::ADDI) => Instruction::ADDI(*self),
                Some(OpImm_Funct3::ORI) => Instruction::ORI(*self),
                Some(OpImm_Funct3::SLLI) => Instruction::SLLI(*self),
                _ => unreached(),
            },
            MajorOpcode::SYSTEM => match CSR_Funct3::from_u8(self.funct3) {
                Some(CSR_Funct3::CSRRS) => Instruction::CSRRS(*self),
                Some(CSR_Funct3::CSRRW) => Instruction::CSRRW(*self),
                _ => unreached(),
            },
            MajorOpcode::JALR => Instruction::JALR(*self),
            MajorOpcode::OP_IMM_32 => match OpImm32_Funct3::from_u8(self.funct3) {
                Some(OpImm32_Funct3::ADDIW) => Instruction::ADDIW(*self),
                Some(OpImm32_Funct3::SLLIW) => Instruction::SLLIW(*self),
                _ => unreached(),
            },
            MajorOpcode::LOAD => match Load_Funct3::from_u8(self.funct3) {
                Some(Load_Funct3::LD) => Instruction::LD(*self),
                _ => unreached(),
            },
            _ => unreached(),
        }
    }
}

impl Instruction<Itype> {
    /// The assembler text: the mnemonic, then `x<rd>,x<rs1>,<imm12>` (the raw immediate); the mnemonic alone without arguments.
    pub open spec fn text(&self) -> Seq<char> {
        match self.args {
            Some(a) => self.mnemonic@ + " x"@ + decimal(a.rd as nat) + ",x"@ + decimal(a.rs1 as nat) + ","@ + decimal(a.imm12 as nat),
            None => self.mnemonic@,
        }
    }

    /// The assembler text.
    pub fn to_string(&self) -> (s: String)
        ensures
            s@ == self.text(),
    {
        let mut s = String::from_str(self.mnemonic);
        match self.args {
            Some(args) => {
                s.append(" x");
                append_decimal(&mut s, args.rd as u64);
                s.append(",x");
                append_decimal(&mut s, args.rs1 as u64);
                s.append(",");
                append_decimal(&mut s, args.imm12 as u64);
            },
            None => {},
        }
        s
    }
}

} // verus!
