//! CI-type (compressed immediate) instructions.
use vstd::prelude::*;
use vstd::string::StringExecFns;

use super::functions::{
    c1_funct3_from, c2_funct3_from, funct3_from, funct3_value, C1_Funct3, C2_Funct3, Funct3,
};
use super::opcodes::{compressed_opcode_from, CompressedOpcode};
use super::{
    instruction_of, CompressedFormatDecoder, CompressedFormatType, ImmediateDecoder, Instruction,
    InstructionFormatType, InstructionSelector, Operation,
};
use crate::disassembler::{append_decimal, decimal};
use crate::cpu::{xlen_extend, Core, Register, Xlen};
use crate::pipeline::{MemoryAccess, Stage, WritebackStage};
use crate::signs::{sext_i64, sext_u64, sign_extend_i64, sign_extend_u64};

verus! {

/// The fields of a CI-type instruction. The raw word is kept because C.ADDI16SP scatters its
/// immediate differently from the other CI instructions.
#[derive(Debug, PartialEq, Eq, Copy, Clone, Structural)]
pub struct CItype {
    pub opcode: CompressedOpcode,
    pub rs1_rd: Register,
    pub imm: u16,
    pub funct3: Funct3,
    pub word: u16,
}

impl InstructionFormatType for CItype {}

impl CompressedFormatType for CItype {}

/// The C.LUI-style immediate: imm[5] = inst[12], imm[4:0] = inst[6:2].
pub open spec fn ci_immediate(i: u16) -> u16 {
    ((i >> 12) % 2 * 32 + (i >> 2) % 32) as u16
}

impl ImmediateDecoder<u16, u16> for CItype {
    open spec fn spec_decode_immediate(i: u16) -> u16 {
        ci_immediate(i)
    }

    fn decode_immediate(i: u16) -> (r: u16) {
        let nzimm1612 = (i >> 2) & 31;
        let nzimm17 = (i >> 12) & 1;
        let r = nzimm1612 | (nzimm17 << 5);
        assert(r == ci_immediate(i)) by (bit_vector)
            requires
                nzimm1612 == (i >> 2) & 31,
                nzimm17 == (i >> 12) & 1,
                r == nzimm1612 | (nzimm17 << 5),
        ;
        assert(r == Self::spec_decode_immediate(i));
        r
    }
}

impl CompressedFormatDecoder<CItype> for CItype {
    open spec fn decodable(word: u16) -> bool {
        true
    }

    open spec fn spec_decode(word: u16) -> CItype {
        CItype {
            opcode: compressed_opcode_from((word & 3) as u8).unwrap(),
            rs1_rd: ((word >> 7) & 31) as u8,
            imm: ci_immediate(word),
            funct3: funct3_from(((word >> 13) & 0x7) as u8).unwrap(),
            word: word,
        }
    }

    fn decode(word: u16) -> (r: CItype) {
        assert((word & 3) < 4 && ((word >> 13) & 0x7) < 8) by (bit_vector);
        CItype {
            opcode: CompressedOpcode::from_u8((word & 3) as u8).unwrap(),
            rs1_rd: ((word >> 7) & 31) as u8,
            imm: CItype::decode_immediate(word as u16),
            funct3: Funct3::from_u8(((word >> 13) & 0x7) as u8).unwrap(),
            word: word,
        }
    }
}

/// The C.ADDI16SP immediate: nzimm[9] = inst[12] (copied into bits 10 to 15), nzimm[4] =
/// inst[6], nzimm[6] = inst[5], nzimm[8:7] = inst[4:3], nzimm[5] = inst[2].
pub open spec fn addi16sp_immediate(w: u16) -> u16 {
    ((w >> 12) % 2 * 0xfe00 + (w >> 6) % 2 * 0x10 + (w >> 5) % 2 * 0x40 + (w >> 3) % 4 * 0x80 + (w
        >> 2) % 2 * 0x20) as u16
}

/// sp plus the zero-extended immediate: the address of C.LDSP and C.LWSP.
pub open spec fn ci_stack_address(core: &Core, a: CItype) -> int {
    core.reg(2) + a.imm
}

/// The stage a register write of `value` to `rd` leads to.
pub open spec fn ci_write(rd: Register, value: u64) -> Stage {
    Stage::WRITEBACK(Some(WritebackStage { register: rd, value }))
}

#[allow(non_snake_case)]
impl Instruction<CItype> {
    pub fn C_ADDI16SP(args: CItype) -> (i: Instruction<CItype>)
        ensures
            i == instruction_of(Operation::C_ADDI16SP, args),
    {
        Instruction { mnemonic: "C.ADDI16SP", args: Some(args), funct: Operation::C_ADDI16SP }
    }

    pub fn C_LUI(args: CItype) -> (i: Instruction<CItype>)
        ensures
            i == instruction_of(Operation::C_LUI, args),
    {
        Instruction { mnemonic: "C.LUI", args: Some(args), funct: Operation::C_LUI }
    }

    pub fn C_ADDI(args: CItype) -> (i: Instruction<CItype>)
        ensures
            i == instruction_of(Operation::C_ADDI, args),
    {
        Instruction { mnemonic: "C.ADDI", args: Some(args), funct: Operation::C_ADDI }
    }

    pub fn C_SLLI(args: CItype) -> (i: Instruction<CItype>)
        ensures
            i == instruction_of(Operation::C_SLLI, args),
    {
        Instruction { mnemonic: "C.SLLI", args: Some(args), funct: Operation::C_SLLI }
    }

    pub fn C_LDSP(args: CItype) -> (i: Instruction<CItype>)
        ensures
            i == instruction_of(Operation::C_LDSP, args),
    {
        Instruction { mnemonic: "C.LDSP", args: Some(args), funct: Operation::C_LDSP }
    }

    pub fn C_LWSP(args: CItype) -> (i: Instruction<CItype>)
        ensures
            i == instruction_of(Operation::C_LWSP, args),
    {
        Instruction { mnemonic: "C.LWSP", args: Some(args), funct: Operation::C_LWSP }
    }

    pub fn C_LI(args: CItype) -> (i: Instruction<CItype>)
        ensures
            i == instruction_of(Operation::C_LI, args),
    {
        Instruction { mnemonic: "C.LI", args: Some(args), funct: Operation::C_LI }
    }

    pub fn C_ADDIW(args: CItype) -> (i: Instruction<CItype>)
        ensures
            i == instruction_of(Operation::C_ADDIW, args),
    {
        Instruction { mnemonic: "C.ADDIW", args: Some(args), funct: Operation::C_ADDIW }
    }

    /// Whether the instruction can run: it has arguments naming a register and a CI
    /// operation; the stack-relative address of C.LDSP / C.LWSP does not overflow.
    pub open spec fn runnable(&self, core: &Core) -> bool {
        &&& self.args matches Some(a)
        &&& a.rs1_rd < 32
        &&& match self.funct {
            Operation::C_LDSP | Operation::C_LWSP => ci_stack_address(core, a) <= u64::MAX,
            Operation::C_ADDI16SP | Operation::C_LUI | Operation::C_ADDI | Operation::C_SLLI
            | Operation::C_LI | Operation::C_ADDIW => true,
            _ => false,
        }
    }

    /// The stage the instruction leads to.
    pub open spec fn result(&self, core: &Core) -> Stage {
        let a = self.args.unwrap();
        let rv = core.reg(a.rs1_rd as int);
        match self.funct {
            Operation::C_ADDI16SP => ci_write(
                a.rs1_rd,
                vstd::wrapping::i64_specs::wrapping_add(
                    core.reg(2) as i64,
                    (addi16sp_immediate(a.word) as i16) as i64,
                ) as u64,
            ),
            Operation::C_LUI => ci_write(a.rs1_rd, sext_u64(a.imm as u64, 58) << 12u64),
            Operation::C_ADDI => ci_write(
                a.rs1_rd,
                vstd::wrapping::i64_specs::wrapping_add(rv as i64, sext_i64(a.imm as i64, 58))
                    as u64,
            ),
            Operation::C_SLLI => {
                let mask: u16 = if core.xlen == Xlen::Bits32 {
                    0x1f
                } else {
                    0x3f
                };
                ci_write(a.rs1_rd, ((rv as i64) << (a.imm & mask)) as u64)
            },
            Operation::C_LDSP => Stage::MEMORY(
                MemoryAccess::READ64(ci_stack_address(core, a) as u64, a.rs1_rd),
            ),
            Operation::C_LWSP => Stage::MEMORY(
                MemoryAccess::READ32(ci_stack_address(core, a) as u64, a.rs1_rd),
            ),
            Operation::C_LI => ci_write(a.rs1_rd, sext_u64(a.imm as u64, 58)),
            _ => ci_write(
                a.rs1_rd,
                (xlen_extend(
                    core.xlen,
                    vstd::wrapping::i64_specs::wrapping_add(
                        rv as i64,
                        sext_u64(a.imm as u64, 58) as i64,
                    ),
                ) as i32) as u64,
            ),
        }
    }

    /// Runs the instruction; the hart's state is left as it was.
    pub fn run(&self, core: &mut Core) -> (s: Stage)
        requires
            self.runnable(old(core)),
        ensures
            s == self.result(old(core)),
            *final(core) == *old(core),
    {
        let args = self.args.unwrap();
        match self.funct {
            Operation::C_ADDI16SP => {
                let w = args.word;
                let imm: u16 = (match w & 0x1000 {
                    0x1000 => 0xfc00,
                    _ => 0,
                }) | ((w >> 3) & 0x200) | ((w >> 2) & 0x10) | ((w << 1) & 0x40) | ((w << 4)
                    & 0x180) | ((w << 3) & 0x20);
                assert(imm == addi16sp_immediate(w)) by (bit_vector)
                    requires
                        imm == (if w & 0x1000 == 0x1000 {
                            0xfc00u16
                        } else {
                            0u16
                        }) | ((w >> 3) & 0x200) | ((w >> 2) & 0x10) | ((w << 1) & 0x40) | ((w
                            << 4) & 0x180) | ((w << 3) & 0x20),
                ;
                let sp = core.read_register(2) as i64;
                let value = sp.wrapping_add(imm as i16 as i32 as i64) as u64;
                Stage::writeback(args.rs1_rd, value)
            },
            Operation::C_LUI => {
                let value = sign_extend_u64(args.imm as u64, 64 - 6) << 12;
                Stage::writeback(args.rs1_rd, value)
            },
            Operation::C_ADDI => {
                let value = (core.read_register(args.rs1_rd) as i64).wrapping_add(
                    sign_extend_i64(args.imm as i64, 64 - 6),
                ) as u64;
                Stage::writeback(args.rs1_rd, value)
            },
            Operation::C_SLLI => {
                let rs1v = core.read_register(args.rs1_rd);
                let mask: u16 = match core.xlen {
                    Xlen::Bits32 => 0x1f,
                    Xlen::Bits64 => 0x3f,
                };
                let imm = args.imm;
                let shamt = imm & mask;
                assert(imm & 0x1f < 64 && imm & 0x3f < 64) by (bit_vector);
                let value = ((rs1v as i64) << shamt) as u64;
                Stage::writeback(args.rs1_rd, value)
            },
            Operation::C_LDSP => {
                let ze_imm = args.imm as u64;
                let sp = core.read_register(2);
                let addr = sp + ze_imm;
                Stage::MEMORY(MemoryAccess::READ64(addr, args.rs1_rd))
            },
            Operation::C_LWSP => {
                let ze_imm = args.imm as u64;
                let sp = core.read_register(2);
                let addr = sp + ze_imm;
                Stage::MEMORY(MemoryAccess::READ32(addr, args.rs1_rd))
            },
            Operation::C_LI => {
                let value = sign_extend_u64(args.imm as u64, 64 - 6);
                Stage::writeback(args.rs1_rd, value)
            },
            _ => {
                let rs1v = core.read_register(args.rs1_rd) as i64;
                let seimm = sign_extend_u64(args.imm as u64, 64 - 6);
                let value = core.bit_extend(rs1v.wrapping_add(seimm as i64)) as i32 as u64;
                Stage::writeback(args.rs1_rd, value)
            },
        }
    }
}

/// The operation CI-type arguments encode. In quadrant 1, funct3 `C_LUI` with rd x0 or x2 is
/// C.ADDI16SP.
pub open spec fn citype_operation(a: CItype) -> Option<Operation> {
    match a.opcode {
        CompressedOpcode::C1 => match c1_funct3_from(funct3_value(a.funct3)) {
            Some(C1_Funct3::C_LUI) => if a.rs1_rd != 0 && a.rs1_rd != 2 {
                Some(Operation::C_LUI)
            } else {
                Some(Operation::C_ADDI16SP)
            },
            Some(C1_Funct3::C_ADDI) => Some(Operation::C_ADDI),
            Some(C1_Funct3::C_LI) => Some(Operation::C_LI),
            Some(C1_Funct3::C_ADDIW) => Some(Operation::C_ADDIW),
            _ => None,
        },
        CompressedOpcode::C2 => match c2_funct3_from(funct3_value(a.funct3)) {
            Some(C2_Funct3::C_SLLI) => Some(Operation::C_SLLI),
            Some(C2_Funct3::C_LDSP) => Some(Operation::C_LDSP),
            Some(C2_Funct3::C_LWSP) => Some(Operation::C_LWSP),
            _ => None,
        },
        _ => None,
    }
}

impl InstructionSelector<CItype> for CItype {
    open spec fn operation(&self, xlen: Xlen) -> Option<Operation> {
        citype_operation(*self)
    }

    fn selects(&self, _xlen: Xlen) -> (b: bool) {
        match self.opcode {
            CompressedOpcode::C1 => match C1_Funct3::from_u8(self.funct3.value()) {
                Some(C1_Funct3::C_LUI) | Some(C1_Funct3::C_ADDI) | Some(C1_Funct3::C_LI) | Some(
                    C1_Funct3::C_ADDIW,
                ) => true,
                _ => false,
            },
            CompressedOpcode::C2 => match C2_Funct3::from_u8(self.funct3.value()) {
                Some(C2_Funct3::C_SLLI) | Some(C2_Funct3::C_LDSP) | Some(C2_Funct3::C_LWSP) => true,
                _ => false,
            },
            _ => false,
        }
    }

    fn select(&self, _xlen: Xlen) -> (i: Instruction<CItype>)
        ensures
            i == instruction_of(citype_operation(*self).unwrap(), *self),
    {
        match self.opcode {
            CompressedOpcode::C1 => match C1_Funct3::from_u8(self.funct3.value()) {
                Some(C1_Funct3::C_LUI) => match self.rs1_rd != 0 && self.rs1_rd != 2 {
                    true => Instruction::C_LUI(*self),
                    false => Instruction::C_ADDI16SP(*self),
                },
                Some(C1_Funct3::C_ADDI) => Instruction::C_ADDI(*self),
                Some(C1_Funct3::C_LI) => Instruction::C_LI(*self),
                Some(C1_Funct3::C_ADDIW) => Instruction::C_ADDIW(*self),
                _ => unreached(),
            },
            CompressedOpcode::C2 => match C2_Funct3::from_u8(self.funct3.value()) {
                Some(C2_Funct3::C_SLLI) => Instruction::C_SLLI(*self),
                Some(C2_Funct3::C_LDSP) => Instruction::C_LDSP(*self),
                Some(C2_Funct3::C_LWSP) => Instruction::C_LWSP(*self),
                _ => unreached(),
            },
            _ => unreached(),
        }
    }
}

impl Instruction<CItype> {
    /// The assembler text: the mnemonic, then `x<rs1/rd>,<imm>`; the mnemonic alone without arguments.
    pub open spec fn text(&self) -> Seq<char> {
        match self.args {
            Some(a) => self.mnemonic@ + " x"@ + decimal(a.rs1_rd as nat) + ","@ + decimal(a.imm as nat),
            None => self.mnemonic@,
        }
    }

    /// The assembler text.
    pub fn to_string(&self) -> (s: String)
        ensures
            s@ == self.text(),
    {
        let mut s = String::from_str(self.mnemonic);
        match self.args {
            Some(args) => {
                s.append(" x");
                append_decimal(&mut s, args.rs1_rd as u64);
                s.append(",");
                append_decimal(&mut s, args.imm as u64);
            },
            None => {},
        }
        s
    }
}

} // verus!
