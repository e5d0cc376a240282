//! CJ-type (compressed jump) instructions.
use vstd::prelude::*;

use super::functions::{c1_funct3_from, C1_Funct3};
use super::opcodes::{compressed_opcode_from, CompressedOpcode};
use super::{
    instruction_of, CompressedFormatDecoder, CompressedFormatType, ImmediateDecoder, Instruction,
    InstructionFormatType, InstructionSelector, Operation,
};
use crate::cpu::{Core, Xlen};
use crate::pipeline::Stage;
use crate::signs::{sext_i64, sign_extend_i64};

verus! {

/// The fields of a CJ-type instruction.
#[derive(Debug, PartialEq, Eq, Copy, Clone, Structural)]
pub struct CJtype {
    pub opcode: CompressedOpcode,
    pub offset: u16,
    pub funct3: u8,
}

impl InstructionFormatType for CJtype {}

impl CompressedFormatType for CJtype {}

/// The CJ jump offset, with inst[12] (offset[11]) copied into bits 11 to 15:
/// offset[11|4|9:8|10|6|7|3:1|5] = inst[12:2].
pub open spec fn cj_immediate(i: u16) -> u16 {
    ((i >> 12) % 2 * 0xf800 + (i >> 11) % 2 * 0x10 + (i >> 9) % 4 * 0x100 + (i >> 8) % 2 * 0x400
        + (i >> 7) % 2 * 0x40 + (i >> 6) % 2 * 0x80 + (i >> 3) % 8 * 2 + (i >> 2) % 2
        * 0x20) as u16
}

impl ImmediateDecoder<u16, u16> for CJtype {
    open spec fn spec_decode_immediate(i: u16) -> u16 {
        cj_immediate(i)
    }

    fn decode_immediate(i: u16) -> (r: u16) {
        let r = (match i & 0x1000 {
            0x1000 => 0xf000,
            _ => 0,
        }) | ((i >> 1) & 0x800) | ((i >> 7) & 0x10) | ((i >> 1) & 0x300) | ((i << 2) & 0x400) | ((
        i >> 1) & 0x40) | ((i << 1) & 0x80) | ((i >> 2) & 0xe) | ((i << 3) & 0x20);
        assert(r == cj_immediate(i)) by (bit_vector)
            requires
                r == (if i & 0x1000 == 0x1000 {
                    0xf000u16
                } else {
                    0u16
                }) | ((i >> 1) & 0x800) | ((i >> 7) & 0x10) | ((i >> 1) & 0x300) | ((i << 2)
                    & 0x400) | ((i >> 1) & 0x40) | ((i << 1) & 0x80) | ((i >> 2) & 0xe) | ((i
                    << 3) & 0x20),
        ;
        assert(r == Self::spec_decode_immediate(i));
        r
    }
}

impl CompressedFormatDecoder<CJtype> for CJtype {
    open spec fn decodable(word: u16) -> bool {
        true
    }

    open spec fn spec_decode(word: u16) -> CJtype {
        CJtype {
            opcode: compressed_opcode_from((word & 3) as u8).unwrap(),
            offset: cj_immediate(word),
            funct3: (word >> 13) as u8,
        }
    }

    fn decode(word: u16) -> (r: CJtype) {
        assert((word & 3) < 4) by (bit_vector);
        CJtype {
            opcode: CompressedOpcode::from_u8((word & 3) as u8).unwrap(),
            offset: CJtype::decode_immediate(word),
            funct3: (word >> 13) as u8,
        }
    }
}

/// Where C.J goes: its own address plus the offset sign-extended from bit 9.
pub open spec fn cj_target(core: &Core, a: CJtype) -> u64 {
    vstd::wrapping::i64_specs::wrapping_add(core.prev_pc as i64, sext_i64(a.offset as i64, 54)) as u64
}

#[allow(non_snake_case)]
impl Instruction<CJtype> {
    /// C.J performs an unconditional control transfer. The [10-bit] offset is sign-extended and
    /// added to the pc to form the jump target address.
    pub fn C_J(args: CJtype) -> (i: Instruction<CJtype>)
        ensures
            i == instruction_of(Operation::C_J, args),
    {
        Instruction { args: Some(args), mnemonic: "C.J", funct: Operation::C_J }
    }

    /// Whether the instruction can run: it has arguments and is C.J.
    pub open spec fn runnable(&self, core: &Core) -> bool {
        &&& self.args is Some
        &&& self.funct == Operation::C_J
    }

    /// Jumps to the target; no register is written.
    pub fn run(&self, core: &mut Core) -> (s: Stage)
        requires
            self.runnable(old(core)),
        ensures
            s == Stage::WRITEBACK(None),
            old(core).jumped(final(core), cj_target(old(core), self.args.unwrap())),
    {
        let args = self.args.unwrap();
        let se_offs = sign_extend_i64(args.offset as i64, 64 - 10);
        let target = (core.prev_pc as i64).wrapping_add(se_offs) as u64;
        core.set_pc(target);
        Stage::WRITEBACK(None)
    }
}

/// The operation CJ-type arguments encode: C.J in quadrant 1.
pub open spec fn cjtype_operation(a: CJtype) -> Option<Operation> {
    if a.opcode == CompressedOpcode::C1 && c1_funct3_from(a.funct3) == Some(C1_Funct3::C_J) {
        Some(Operation::C_J)
    } else {
        None
    }
}

impl InstructionSelector<CJtype> for CJtype {
    open spec fn operation(&self, xlen: Xlen) -> Option<Operation> {
        cjtype_operation(*self)
    }

    fn selects(&self, _xlen: Xlen) -> (b: bool) {
        self.opcode == CompressedOpcode::C1 && match C1_Funct3::from_u8(self.funct3) {
            Some(C1_Funct3::C_J) => true,
            _ => false,
        }
    }

    fn select(&self, _xlen: Xlen) -> (i: Instruction<CJtype>)
        ensures
            i == instruction_of(cjtype_operation(*self).unwrap(), *self),
    {
        match self.opcode {
            CompressedOpcode::C1 => match C1_Funct3::from_u8(self.funct3) {
                Some(C1_Funct3::C_J) => Instruction::C_J(*self),
                _ => unreached(),
            },
            _ => unreached(),
        }
    }
}

} // verus!
