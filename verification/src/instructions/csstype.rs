//! CSS-type (compressed stack-relative store) instructions.
use vstd::prelude::*;

use super::opcodes::{compressed_opcode_from, CompressedOpcode};
use super::{
    instruction_of, CompressedFormatDecoder, CompressedFormatType, ImmediateDecoder, Instruction,
    InstructionFormatType, InstructionSelector, Operation,
};
use crate::cpu::{Core, Register, Xlen};
use crate::pipeline::{MemoryAccess, Stage};

verus! {

/// The fields of a CSS-type instruction.
#[derive(Debug, PartialEq, Eq, Copy, Clone, Structural)]
pub struct CSStype {
    pub opcode: CompressedOpcode,
    pub uimm: u16,
    pub rs2: Register,
    pub funct3: u8,
}

impl InstructionFormatType for CSStype {}

impl CompressedFormatType for CSStype {}

/// The doubleword-scaled CSS offset: offset[5:3] = inst[12:10], offset[8:6] = inst[9:7].
pub open spec fn css_immediate(i: u16) -> u16 {
    ((i >> 10) % 8 * 8 + (i >> 7) % 8 * 64) as u16
}

impl ImmediateDecoder<u16, u16> for CSStype {
    open spec fn spec_decode_immediate(i: u16) -> u16 {
        css_immediate(i)
    }

    fn decode_immediate(i: u16) -> (r: u16) {
        let offset = ((i >> 7) & 0x38) |  // offset[5:3] <= [12:10]
        ((i >> 1) & 0x1c0);  // offset[8:6] <= [9:7]
        let imm11_5 = (offset >> 5) & 0x3f;
        let imm4_0 = offset & 0x1f;
        let r = (imm11_5 << 5) | (imm4_0);
        assert(r == css_immediate(i)) by (bit_vector)
            requires
                offset == ((i >> 7) & 0x38) | ((i >> 1) & 0x1c0),
                imm11_5 == (offset >> 5) & 0x3f,
                imm4_0 == offset & 0x1f,
                r == (imm11_5 << 5) | (imm4_0),
        ;
        assert(r == Self::spec_decode_immediate(i));
        r
    }
}

impl CompressedFormatDecoder<CSStype> for CSStype {
    open spec fn decodable(word: u16) -> bool {
        true
    }

    open spec fn spec_decode(word: u16) -> CSStype {
        CSStype {
            opcode: compressed_opcode_from((word & 3) as u8).unwrap(),
            uimm: css_immediate(word),
            funct3: ((word >> 13) & 7) as u8,
            rs2: ((word >> 2) & 31) as u8,
        }
    }

    fn decode(word: u16) -> (r: CSStype) {
        assert((word & 3) < 4) by (bit_vector);
        assert(((word >> 2) as u8 & 31) == ((word >> 2) & 31) as u8) by (bit_vector);
        CSStype {
            opcode: CompressedOpcode::from_u8((word & 3) as u8).unwrap(),
            uimm: CSStype::decode_immediate(word),
            funct3: ((word >> 13) & 7) as u8,
            rs2: (word >> 2) as u8 & 31,
        }
    }
}

#[allow(non_snake_case)]
impl Instruction<CSStype> {
    /// C.SDSP is an RV64C/RV128C-only instruction that stores a 64-bit value in register rs2
    /// to memory. It computes an effective address by adding the zero-extended offset, scaled
    /// by 8, to the stack pointer, x2. It expands to sd rs2, offset[8:3](x2).
    pub fn C_SDSP(csstype: CSStype) -> (i: Instruction<CSStype>)
        ensures
            i == instruction_of(Operation::C_SDSP, csstype),
    {
        Instruction { args: Some(csstype), mnemonic: "C.SDSP", funct: Operation::C_SDSP }
    }

    /// The RV32 reading of the same encoding; it has no implementation.
    pub fn C_FSWSP(csstype: CSStype) -> (i: Instruction<CSStype>)
        ensures
            i == instruction_of(Operation::C_FSWSP, csstype),
    {
        Instruction { args: Some(csstype), mnemonic: "C.FSWSP", funct: Operation::C_FSWSP }
    }

    /// Whether the instruction can run: it is C.SDSP with arguments naming a register, and sp
    /// plus the offset does not overflow.
    pub open spec fn runnable(&self, core: &Core) -> bool {
        &&& self.args matches Some(a)
        &&& a.rs2 < 32
        &&& self.funct == Operation::C_SDSP
        &&& core.reg(2) + a.uimm <= u64::MAX
    }

    /// The 64-bit store of rs2 at sp plus the offset.
    pub open spec fn result(&self, core: &Core) -> Stage {
        let a = self.args.unwrap();
        Stage::MEMORY(MemoryAccess::WRITE64((core.reg(2) + a.uimm) as u64, core.reg(a.rs2 as int)))
    }

    /// Runs the instruction; the hart's state is left as it was.
    pub fn run(&self, core: &mut Core) -> (s: Stage)
        requires
            self.runnable(old(core)),
        ensures
            s == self.result(old(core)),
            *final(core) == *old(core),
    {
        let args = self.args.unwrap();
        let sp = core.read_register(2);
        let addr = sp + (args.uimm as u64);
        let rs2v = core.read_register(args.rs2);
        Stage::MEMORY(MemoryAccess::WRITE64(addr, rs2v))
    }
}

/// The operation CSS-type arguments encode: funct3 `0b111` is C.FSWSP in 32-bit mode and
/// C.SDSP otherwise.
pub open spec fn csstype_operation(a: CSStype, xlen: Xlen) -> Option<Operation> {
    if a.funct3 == 0b111 {
        if xlen == Xlen::Bits32 {
            Some(Operation::C_FSWSP)
        } else {
            Some(Operation::C_SDSP)
        }
    } else {
        None
    }
}

impl InstructionSelector<CSStype> for CSStype {
    open spec fn operation(&self, xlen: Xlen) -> Option<Operation> {
        csstype_operation(*self, xlen)
    }

    fn selects(&self, _xlen: Xlen) -> (b: bool) {
        self.funct3 == 0b111
    }

    fn select(&self, xlen: Xlen) -> (i: Instruction<CSStype>)
        ensures
            i == instruction_of(csstype_operation(*self, xlen).unwrap(), *self),
    {
        match self.funct3 {
            // C.FSWSP or C.SDSP
            0b111 => match xlen {
                Xlen::Bits32 => Instruction::C_FSWSP(*self),
                _ => Instruction::C_SDSP(*self),
            },
            _ => unreached(),
        }
    }
}

} // verus!
