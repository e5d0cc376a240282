//! The stages an instruction goes through, and what one stage hands to the next.
use vstd::prelude::*;

use vstd::bytes::{lemma_auto_spec_u32_to_from_le_bytes, spec_u32_from_le_bytes, spec_u32_to_le_bytes};

use crate::cpu::{csr_read, csr_value, csr_write, CSRRegister, Core, PrivMode, Register, RegisterValue, TrapCause};
use crate::instructions::btype::{branch_taken, branch_target, btype_operation};
use crate::instructions::citype::citype_operation;
use crate::instructions::ciwtype::ciwtype_operation;
use crate::instructions::cjtype::{cj_target, cjtype_operation};
use crate::instructions::crtype::crtype_operation;
use crate::instructions::csstype::csstype_operation;
use crate::instructions::decoder::{
    decodable, spec_decode_instruction, DecodedInstruction, InstructionDecoder,
};
use crate::instructions::itype::itype_operation;
use crate::instructions::rtype::rtype_operation;
use crate::instructions::utype::utype_operation;
use crate::instructions::{instruction_of, InstructionSelector, Operation};
use crate::memory::{bytes_from, lemma_store_then_load, spans, splice};
use crate::mmu::{phys_word, AddressingMode, MemoryAccessType, MMU};

pub use crate::memory::MemoryAccessWidth;

verus! {

/// A memory operation requested by the execute stage, on virtual addresses.
#[allow(non_camel_case_types)]
#[derive(Debug, Copy, Clone, PartialEq, Eq, Structural)]
pub enum MemoryAccess {
    AMOSWAP_W(u64, u64, Register),
    AMOSWAP_D(u64, u64, Register),
    READ8(u64, Register),
    READ16(u64, Register),
    READ32(u64, Register),
    READ64(u64, Register),
    WRITE8(u64, u8),
    WRITE16(u64, u16),
    WRITE32(u64, u32),
    WRITE64(u64, u64),
}

/// An instruction word as fetched, with the address it was fetched from.
#[derive(Debug, Copy, Clone, PartialEq, Eq, Structural)]
pub struct RawInstruction {
    pub compressed: bool,
    pub word: u32,
    pub pc: u64,
}

/// Whether a fetched word is a 16-bit instruction: its two low bits are not both set.
pub open spec fn is_compressed_word(word: u32) -> bool {
    word & 0x3 != 0x3
}

impl RawInstruction {
    /// The instruction that starts with the 32 bits `word` at `pc`: a compressed one keeps only
    /// the low half of the word.
    pub fn from_word(word: u32, pc: u64) -> (r: RawInstruction)
        ensures
            r.compressed == is_compressed_word(word),
            r.word == (if r.compressed {
                word & 0xffff
            } else {
                word
            }),
            r.pc == pc,
    {
        if (word & 0x3) == 0x03 {
            RawInstruction { compressed: false, word, pc }
        } else {
            RawInstruction { compressed: true, word: word & 0xffff, pc }
        }
    }

    /// The length of the instruction in bytes.
    pub fn size_in_bytes(&self) -> (n: u64)
        ensures
            n == (if self.compressed {
                2u64
            } else {
                4u64
            }),
    {
        if self.compressed {
            2
        } else {
            4
        }
    }
}

/// A register write requested by an earlier stage.
#[derive(Debug, Copy, Clone, PartialEq, Eq, Structural)]
pub struct WritebackStage {
    pub register: Register,
    pub value: u64,
}

/// The next thing the hart does, with what it needs for it.
#[allow(non_camel_case_types)]
#[derive(Debug, Copy, Clone, PartialEq, Eq, Structural)]
pub enum Stage {
    ENTER_TRAP(TrapCause),
    EXIT_TRAP,
    FETCH,
    DECODE(RawInstruction),
    EXECUTE(DecodedInstruction),  // May be skipped (by eg NOP)
    MEMORY(MemoryAccess),  // May be skipped
    WRITEBACK(Option<WritebackStage>),  // This stage is ALWAYS executed
}

/// Marker of instructions whose decoding could be cached.
pub trait CacheableInstruction {}

impl Stage {
    /// The writeback stage that puts `value` into `register`.
    pub fn writeback(register: Register, value: RegisterValue) -> (s: Stage)
        ensures
            s == Stage::WRITEBACK(Some(WritebackStage { register, value })),
    {
        Stage::WRITEBACK(Some(WritebackStage { register, value }))
    }
}

/// The instruction whose first 32 bits are `word`, fetched at `pc`.
pub open spec fn raw_of(word: u32, pc: u64) -> RawInstruction {
    if is_compressed_word(word) {
        RawInstruction { compressed: true, word: word & 0xffff, pc }
    } else {
        RawInstruction { compressed: false, word, pc }
    }
}

/// What a word read at `va` answers: through the translation for a read, the word of
/// physical memory or of the CLINT there; a store access fault where the address does not
/// translate or leads to neither.
pub open spec fn word_read(mmu: &MMU, va: u64) -> Result<u32, TrapCause> {
    match mmu.translation(va, MemoryAccessType::READ) {
        Some(pa) => if mmu.memory.range.contains(pa) {
            phys_word(mmu.ram_base(), mmu.ram_after_translation(va, MemoryAccessType::READ), pa)
        } else if mmu.clint.range.contains(pa) {
            phys_word(mmu.clint.ram.base, mmu.clint.ram.data@, pa)
        } else {
            Err(TrapCause::StoreAccessFault)
        },
        None => Err(TrapCause::StoreAccessFault),
    }
}

/// The word an instruction fetch at `va` reads: the word a read there gives.
pub open spec fn fetched_word(mmu: &MMU, va: u64) -> u32 {
    match word_read(mmu, va) {
        Ok(w) => w,
        Err(_) => 0,
    }
}

/// Whether the decoded instruction can be executed on `core`: its arguments select an
/// operation the executor implements, and that operation can run. Instructions of the J, S,
/// CL, CS and CB formats select none.
pub open spec fn executable(core: &Core, decoded: DecodedInstruction) -> bool {
    match decoded {
        DecodedInstruction::I(a) => itype_operation(a) matches Some(op) && instruction_of(op, a).runnable(core),
        DecodedInstruction::U(a) => utype_operation(a) matches Some(op) && instruction_of(op, a).runnable(core),
        DecodedInstruction::CI(a) => citype_operation(a) matches Some(op) && instruction_of(op, a).runnable(core),
        DecodedInstruction::CR(a) => crtype_operation(a) matches Some(op) && instruction_of(op, a).runnable(core),
        DecodedInstruction::B(a) => btype_operation(a) matches Some(op) && instruction_of(op, a).runnable(core),
        DecodedInstruction::R(a) => rtype_operation(a) matches Some(op) && instruction_of(op, a).runnable(core),
        DecodedInstruction::CSS(a) => csstype_operation(a, core.xlen) matches Some(op) && instruction_of(
            op,
            a,
        ).runnable(core),
        DecodedInstruction::CIW(a) => ciwtype_operation(a) matches Some(op) && instruction_of(op, a).runnable(core),
        DecodedInstruction::CJ(a) => cjtype_operation(a) matches Some(op) && instruction_of(op, a).runnable(core),
        _ => false,
    }
}

/// Whether executing the decoded instruction on `old` gave the stage `s` and left `new`.
pub open spec fn executed(old: &Core, new: &Core, decoded: DecodedInstruction, s: Stage) -> bool {
    match decoded {
        DecodedInstruction::I(a) => {
            let i = instruction_of(itype_operation(a).unwrap(), a);
            s == i.result(old) && i.effect(old, new)
        },
        DecodedInstruction::U(a) => s == instruction_of(utype_operation(a).unwrap(), a).result(old)
            && *new == *old,
        DecodedInstruction::CI(a) => s == instruction_of(citype_operation(a).unwrap(), a).result(old)
            && *new == *old,
        DecodedInstruction::CR(a) => {
            let i = instruction_of(crtype_operation(a).unwrap(), a);
            &&& s == i.result(old)
            &&& if i.funct == Operation::C_JR {
                old.jumped(new, old.reg(a.rs1_rd as int))
            } else {
                *new == *old
            }
        },
        DecodedInstruction::B(a) => {
            let op = btype_operation(a).unwrap();
            &&& s == Stage::WRITEBACK(None)
            &&& if branch_taken(old, op, a) {
                old.jumped(new, branch_target(old, a))
            } else {
                *new == *old
            }
        },
        DecodedInstruction::R(a) => s == instruction_of(rtype_operation(a).unwrap(), a).result(old)
            && *new == *old,
        DecodedInstruction::CSS(a) => s == instruction_of(
            csstype_operation(a, old.xlen).unwrap(),
            a,
        ).result(old) && *new == *old,
        DecodedInstruction::CIW(a) => s == instruction_of(ciwtype_operation(a).unwrap(), a).result(old)
            && *new == *old,
        DecodedInstruction::CJ(a) => s == Stage::WRITEBACK(None) && old.jumped(new, cj_target(old, a)),
        _ => false,
    }
}

/// Whether the memory operation can be done: each of its accesses is defined on the memory
/// system as the earlier ones leave it, and each read it makes succeeds. Halfword accesses
/// and AMOSWAP.D are not modelled.
pub open spec fn memory_defined(mmu: &MMU, access: MemoryAccess) -> bool {
    match access {
        MemoryAccess::READ8(va, _reg) => mmu.read8_defined(va) && forall|r: Result<u8, TrapCause>, m1: MMU|
            #[trigger] mmu.read8_result(va, r, &m1) ==> r is Ok,
        MemoryAccess::READ32(va, _reg) => mmu.read32_defined(va) && forall|r: Result<u32, TrapCause>, m1: MMU|
            #[trigger] mmu.read32_result(va, r, &m1) ==> r is Ok,
        MemoryAccess::READ64(va, _reg) => {
            &&& va + 4 <= u64::MAX
            &&& mmu.read32_defined(va)
            &&& forall|r1: Result<u32, TrapCause>, m1: MMU| #[trigger]
                mmu.read32_result(va, r1, &m1) ==> {
                    &&& r1 is Ok
                    &&& m1.read32_defined((va + 4) as u64)
                    &&& forall|r2: Result<u32, TrapCause>, m2: MMU| #[trigger]
                        m1.read32_result((va + 4) as u64, r2, &m2) ==> r2 is Ok
                }
        },
        MemoryAccess::WRITE8(va, value) => mmu.write8_defined(va),
        MemoryAccess::WRITE32(va, value) => mmu.write32_defined(va, value),
        MemoryAccess::WRITE64(va, value) => {
            &&& va + 4 <= u64::MAX
            &&& mmu.write32_defined(va, value as u32)
            &&& forall|r1: Option<TrapCause>, m1: MMU| #[trigger]
                mmu.write32_result(va, value as u32, r1, &m1) ==> m1.write32_defined(
                    (va + 4) as u64,
                    (value >> 32u64) as u32,
                )
        },
        MemoryAccess::AMOSWAP_W(from, to, _rd) => {
            &&& mmu.read32_defined(from)
            &&& forall|r1: Result<u32, TrapCause>, m1: MMU| #[trigger]
                mmu.read32_result(from, r1, &m1) ==> {
                    &&& r1 is Ok
                    &&& m1.read32_defined(to)
                    &&& forall|r2: Result<u32, TrapCause>, m2: MMU| #[trigger]
                        m1.read32_result(to, r2, &m2) ==> {
                            &&& r2 is Ok
                            &&& m2.write32_defined(to, r1->Ok_0)
                            &&& forall|r3: Option<TrapCause>, m3: MMU| #[trigger]
                                m2.write32_result(to, r1->Ok_0, r3, &m3) ==> m3.write32_defined(
                                    from,
                                    r2->Ok_0,
                                )
                        }
                }
        },
        _ => false,
    }
}

/// Whether the memory operation, done on `mmu`, gave the stage `s` and left `new`: a read
/// hands its value to the writeback stage (READ64 reads the low word, then the high one); a
/// write writes (WRITE64 the low word, then the high one); AMOSWAP.W reads both words, writes
/// each where the other was, and hands the first to the writeback stage.
pub open spec fn memory_done(mmu: &MMU, new: &MMU, access: MemoryAccess, s: Stage) -> bool {
    match access {
        MemoryAccess::READ8(va, reg) => s matches Stage::WRITEBACK(Some(wb)) && wb.register == reg
            && wb.value < 0x100 && mmu.read8_result(va, Ok(wb.value as u8), new),
        MemoryAccess::READ32(va, reg) => s matches Stage::WRITEBACK(Some(wb)) && wb.register == reg
            && wb.value < 0x1_0000_0000 && mmu.read32_result(va, Ok(wb.value as u32), new),
        MemoryAccess::READ64(va, reg) => s matches Stage::WRITEBACK(Some(wb)) && wb.register == reg
            && exists|m1: MMU| #[trigger]
            mmu.read32_result(va, Ok(wb.value as u32), &m1) && #[trigger] m1.read32_result(
                (va + 4) as u64,
                Ok((wb.value >> 32u64) as u32),
                new,
            ),
        MemoryAccess::WRITE8(va, value) => s == Stage::WRITEBACK(None) && exists|r: Option<TrapCause>|
            #[trigger] mmu.write8_result(va, value, r, new),
        MemoryAccess::WRITE32(va, value) => s == Stage::WRITEBACK(None) && exists|r: Option<TrapCause>|
            #[trigger] mmu.write32_result(va, value, r, new),
        MemoryAccess::WRITE64(va, value) => s == Stage::WRITEBACK(None) && exists|
            r1: Option<TrapCause>,
            m1: MMU,
            r2: Option<TrapCause>,
        | #[trigger]
            mmu.write32_result(va, value as u32, r1, &m1) && #[trigger] m1.write32_result(
                (va + 4) as u64,
                (value >> 32u64) as u32,
                r2,
                new,
            ),
        MemoryAccess::AMOSWAP_W(from, to, rd) => s matches Stage::WRITEBACK(Some(wb)) && wb.register
            == rd && wb.value < 0x1_0000_0000 && exists|
            m1: MMU,
            v2: u32,
            m2: MMU,
            r3: Option<TrapCause>,
            m3: MMU,
            r4: Option<TrapCause>,
        | #[trigger]
            mmu.read32_result(from, Ok(wb.value as u32), &m1) && #[trigger] m1.read32_result(
                to,
                Ok(v2),
                &m2,
            ) && #[trigger] m2.write32_result(to, wb.value as u32, r3, &m3) && #[trigger]
            m3.write32_result(from, v2, r4, new),
        _ => false,
    }
}

/// The counter of retired instructions in a privilege mode, and the CSR that holds its high
/// half.
pub open spec fn instret_csrs(pmode: PrivMode) -> (CSRRegister, CSRRegister) {
    match pmode {
        PrivMode::Machine => (CSRRegister::minstret, CSRRegister::minstreth),
        _ => (CSRRegister::instret, CSRRegister::instreth),
    }
}

/// The CSR file after an instruction retires in privilege mode `pmode`: the counter of
/// retired instructions is incremented, and its high half too when it wraps around.
pub open spec fn retired(csrs: Seq<u64>, pmode: PrivMode) -> Seq<u64> {
    let (lo, hi) = instret_csrs(pmode);
    let count = csr_read(csrs, lo);
    let next = vstd::wrapping::u64_specs::wrapping_add(count, 1);
    let with_high = if next < count {
        csr_write(csrs, hi, vstd::wrapping::u64_specs::wrapping_add(csr_read(csrs, hi), 1))
    } else {
        csrs
    };
    csr_write(with_high, lo, next)
}

/// Each retired instruction adds one to the counter of the privilege mode, wrapping around;
/// its high half gains one exactly when the counter wraps, and no other CSR changes.
pub proof fn lemma_retired_counts(csrs: Seq<u64>, pmode: PrivMode, other: CSRRegister)
    requires
        csrs.len() == 4096,
    ensures
        csr_read(retired(csrs, pmode), instret_csrs(pmode).0) == vstd::wrapping::u64_specs::wrapping_add(
            csr_read(csrs, instret_csrs(pmode).0),
            1,
        ),
        csr_read(retired(csrs, pmode), instret_csrs(pmode).1) == if csr_read(csrs, instret_csrs(pmode).0)
            == u64::MAX {
            vstd::wrapping::u64_specs::wrapping_add(csr_read(csrs, instret_csrs(pmode).1), 1)
        } else {
            csr_read(csrs, instret_csrs(pmode).1)
        },
        forall|i: int|
            0 <= i < 4096 && i != csr_value(instret_csrs(pmode).0) && i != csr_value(
                instret_csrs(pmode).1,
            ) ==> #[trigger] retired(csrs, pmode)[i] == csrs[i],
{
}

/// A doubleword written by the memory stage reads back through it. Without translation, when
/// the eight bytes from `va` on lie in physical memory, a WRITE64 of `value` (low word at
/// `va`, high word at `va + 4`) followed by a READ64 of `va` hands `value` to the writeback
/// stage for the register asked for.
pub proof fn lemma_write64_then_read64(
    m0: &MMU,
    va: u64,
    value: u64,
    s1: Stage,
    m1: &MMU,
    rd: Register,
    s2: Stage,
    m2: &MMU,
)
    requires
        m0.pmode == PrivMode::Machine || m0.addressing_mode == AddressingMode::Bare,
        va + 8 <= u64::MAX,
        m0.memory.range.contains(va),
        m0.memory.range.contains((va + 4) as u64),
        spans(m0.ram_base(), m0.ram(), va, 8),
        memory_done(m0, m1, MemoryAccess::WRITE64(va, value), s1),
        memory_done(m1, m2, MemoryAccess::READ64(va, rd), s2),
    ensures
        s1 == Stage::WRITEBACK(None),
        s2 == Stage::WRITEBACK(Some(WritebackStage { register: rd, value })),
{
    lemma_auto_spec_u32_to_from_le_bytes();
    let base = m0.ram_base();
    let hi_va = (va + 4) as u64;
    let lo = value as u32;
    let hi = (value >> 32u64) as u32;
    let (r1, ma, r2) = choose|r1: Option<TrapCause>, ma: MMU, r2: Option<TrapCause>|
        #[trigger] m0.write32_result(va, lo, r1, &ma) && #[trigger] ma.write32_result(
            hi_va,
            hi,
            r2,
            m1,
        );
    let lo_bytes = spec_u32_to_le_bytes(lo);
    let hi_bytes = spec_u32_to_le_bytes(hi);
    lemma_store_then_load(base, m0.ram(), va, lo_bytes, hi_va, 4);
    let ram_a = splice(m0.ram(), va - base, lo_bytes);
    assert(ma.ram() == ram_a);
    lemma_store_then_load(base, ram_a, hi_va, hi_bytes, va, 4);
    let ram_1 = splice(ram_a, hi_va - base, hi_bytes);
    assert(m1.ram() == ram_1);
    let wb = s2->WRITEBACK_0->Some_0;
    let mb = choose|mb: MMU| #[trigger] m1.read32_result(va, Ok(wb.value as u32), &mb)
        && #[trigger] mb.read32_result(hi_va, Ok((wb.value >> 32u64) as u32), m2);
    assert(m1.read32_result(va, Ok(wb.value as u32), &mb));
    assert(mb.ram() == ram_1);
    assert(wb.value as u32 == lo);
    assert((wb.value >> 32u64) as u32 == hi);
    let v = wb.value;
    assert(v == value) by (bit_vector)
        requires
            v as u32 == value as u32,
            (v >> 32u64) as u32 == (value >> 32u64) as u32,
    ;
}

/// The stages of the pipeline, each of which the hart performs in one cycle.
impl Core {
    /// Whether the hart can perform its current stage.
    pub open spec fn cycle_defined(&self, mmu: &MMU) -> bool {
        match self.stage {
            Stage::FETCH => self.fetch_defined(mmu),
            Stage::DECODE(instruction) => decodable(instruction),
            Stage::EXECUTE(decoded) => executable(self, decoded),
            Stage::MEMORY(access) => memory_defined(mmu, access),
            Stage::WRITEBACK(wb) => Core::writeback_defined(wb),
            _ => true,
        }
    }

    /// Whether one cycle took the hart from `self` and `mmu` to `new` and `new_mmu`: the
    /// current stage was performed, and the stage it led to became the current one.
    pub open spec fn cycled(&self, mmu: &MMU, new: &Core, new_mmu: &MMU) -> bool {
        let done = Core { stage: self.stage, ..*new };
        let s = new.stage;
        match self.stage {
            Stage::ENTER_TRAP(_) => s == Stage::EXIT_TRAP && done == *self && *new_mmu == *mmu,
            Stage::EXIT_TRAP => s == Stage::FETCH && done == *self && *new_mmu == *mmu,
            Stage::FETCH => {
                let word = fetched_word(mmu, self.pc);
                &&& mmu.read32_result(self.pc, Ok(word), new_mmu)
                &&& s == Stage::DECODE(raw_of(word, self.pc))
                &&& done == (Core {
                    pc: (self.pc + if is_compressed_word(word) {
                        2u64
                    } else {
                        4u64
                    }) as u64,
                    ..*self
                })
            },
            Stage::DECODE(instruction) => {
                &&& s == Stage::EXECUTE(spec_decode_instruction(instruction))
                &&& done == (Core { prev_pc: instruction.pc, ..*self })
                &&& *new_mmu == *mmu
            },
            Stage::EXECUTE(decoded) => executed(self, &done, decoded, s) && *new_mmu == *mmu,
            Stage::MEMORY(access) => done == *self && memory_done(mmu, new_mmu, access, s),
            Stage::WRITEBACK(wb) => {
                &&& s == Stage::FETCH
                &&& done.same_config(self)
                &&& done.pc == self.pc
                &&& done.pmode == self.pmode
                &&& done.symboltrace@ == self.symboltrace@
                &&& done.regs() == match wb {
                    Some(w) => self.regs().update(w.register as int, w.value),
                    None => self.regs(),
                }
                &&& done.csr_file() == retired(self.csr_file(), self.pmode)
                &&& *new_mmu == *mmu
            },
        }
    }

    /// Whether an instruction can be fetched: a word read at the pc is defined and succeeds,
    /// and the pc after the instruction does not wrap around.
    pub open spec fn fetch_defined(&self, mmu: &MMU) -> bool {
        &&& self.pc + 4 <= u64::MAX
        &&& mmu.read32_defined(self.pc)
        &&& word_read(mmu, self.pc) is Ok
    }

    /// Fetches the instruction at the pc with a word read through the memory system, and moves
    /// the pc past it (2 bytes for a compressed instruction, 4 for the others).
    pub fn fetch(&mut self, mmu: &mut MMU) -> (s: Stage)
        requires
            old(self).fetch_defined(old(mmu)),
        ensures
            old(mmu).read32_result(old(self).pc, Ok(fetched_word(old(mmu), old(self).pc)), final(mmu)),
            s == Stage::DECODE(raw_of(fetched_word(old(mmu), old(self).pc), old(self).pc)),
            *final(self) == (Core {
                pc: (old(self).pc + if is_compressed_word(fetched_word(old(mmu), old(self).pc)) {
                    2u64
                } else {
                    4u64
                }) as u64,
                ..*old(self)
            }),
    {
        let instruction = mmu.read32(self.pc).unwrap();
        let raw = RawInstruction::from_word(instruction, self.pc);
        self.pc = self.pc + raw.size_in_bytes();
        Stage::DECODE(raw)
    }

    /// Decodes a fetched instruction, remembering where it was fetched from.
    pub fn decode(&mut self, instruction: &RawInstruction) -> (s: Stage)
        requires
            decodable(*instruction),
        ensures
            s == Stage::EXECUTE(spec_decode_instruction(*instruction)),
            *final(self) == (Core { prev_pc: instruction.pc, ..*old(self) }),
    {
        self.prev_pc = instruction.pc;
        let decoded = self.decode_instruction(*instruction);
        Stage::EXECUTE(decoded)
    }

    /// Executes a decoded instruction.
    pub fn execute(&mut self, decoded: &DecodedInstruction) -> (s: Stage)
        requires
            executable(old(self), *decoded),
        ensures
            executed(old(self), final(self), *decoded, s),
    {
        match *decoded {
            DecodedInstruction::I(inst) => inst.select(self.xlen).run(self),
            DecodedInstruction::U(inst) => inst.select(self.xlen).run(self),
            DecodedInstruction::CI(param) => param.select(self.xlen).run(self),
            DecodedInstruction::CR(param) => param.select(self.xlen).run(self),
            DecodedInstruction::B(param) => param.select(self.xlen).run(self),
            DecodedInstruction::R(param) => param.select(self.xlen).run(self),
            DecodedInstruction::CSS(param) => param.select(self.xlen).run(self),
            DecodedInstruction::CIW(param) => param.select(self.xlen).run(self),
            DecodedInstruction::CJ(param) => param.select(self.xlen).run(self),
            _ => unreached(),
        }
    }

    /// Performs a memory operation.
    pub fn memory(&mut self, mmu: &mut MMU, memory_access: &MemoryAccess) -> (s: Stage)
        requires
            memory_defined(old(mmu), *memory_access),
        ensures
            *final(self) == *old(self),
            memory_done(old(mmu), final(mmu), *memory_access, s),
    {
        match *memory_access {
            MemoryAccess::READ8(offset, register) => {
                let value = mmu.read8(offset).unwrap();
                Stage::WRITEBACK(Some(WritebackStage { register: register, value: value as u64 }))
            },
            MemoryAccess::READ32(offset, register) => {
                let value = mmu.read32(offset).unwrap();
                Stage::WRITEBACK(Some(WritebackStage { register: register, value: value as u64 }))
            },
            MemoryAccess::READ64(offset, register) => {
                let l = mmu.read32(offset).unwrap();
                let ghost m1 = *mmu;
                let h = mmu.read32(offset + 4).unwrap();
                let value = ((h as u64) << 32) | l as u64;
                assert(value as u32 == l && (value >> 32u64) as u32 == h) by (bit_vector)
                    requires
                        value == ((h as u64) << 32u64) | l as u64,
                ;
                let s = Stage::WRITEBACK(Some(WritebackStage { register: register, value }));
                assert(old(mmu).read32_result(offset, Ok(s->WRITEBACK_0->Some_0.value as u32), &m1));
                assert(m1.read32_result(
                    (offset + 4) as u64,
                    Ok((s->WRITEBACK_0->Some_0.value >> 32u64) as u32),
                    final(mmu),
                ));
                s
            },
            MemoryAccess::WRITE8(offset, value) => {
                mmu.write8(offset, value);
                Stage::WRITEBACK(None)
            },
            MemoryAccess::WRITE32(offset, value) => {
                mmu.write32(offset, value);
                Stage::WRITEBACK(None)
            },
            MemoryAccess::WRITE64(offset, value) => {
                let ghost m0 = *mmu;
                let r1 = mmu.write32(offset, value as u32);
                let ghost m1 = *mmu;
                mmu.write32(offset + 4, (value >> 32) as u32);
                assert(m0.write32_result(offset, value as u32, r1, &m1));
                Stage::WRITEBACK(None)
            },
            MemoryAccess::AMOSWAP_W(from, to, rd) => {
                let ghost m0 = *mmu;
                let v1 = mmu.read32(from).unwrap();
                let ghost m1 = *mmu;
                let v2 = mmu.read32(to).unwrap();
                let ghost m2 = *mmu;
                let r3 = mmu.write32(to, v1);
                let ghost m3 = *mmu;
                let r4 = mmu.write32(from, v2);
                let s = Stage::writeback(rd, v1 as u64);
                let ghost first = s->WRITEBACK_0->Some_0.value as u32;
                assert(first == v1);
                assert(old(mmu).read32_result(from, Ok(first), &m1));
                assert(m1.read32_result(to, Ok(v2), &m2));
                assert(m2.write32_result(to, first, r3, &m3));
                assert(m3.write32_result(from, v2, r4, final(mmu)));
                s
            },
            _ => unreached(),
        }
    }

    /// Whether the writeback can be done: it writes a register other than x0.
    pub open spec fn writeback_defined(writeback: Option<WritebackStage>) -> bool {
        writeback matches Some(wb) ==> 0 < wb.register < 32
    }

    /// Writes back a result, if there is one, and counts the instruction as retired in the
    /// counter of the privilege mode: `minstret` in machine mode, `instret` otherwise.
    pub fn writeback(&mut self, writeback: Option<WritebackStage>) -> (s: Stage)
        requires
            Core::writeback_defined(writeback),
        ensures
            s == Stage::FETCH,
            final(self).same_config(old(self)),
            final(self).pc == old(self).pc,
            final(self).pmode == old(self).pmode,
            final(self).symboltrace@ == old(self).symboltrace@,
            final(self).regs() == match writeback {
                Some(wb) => old(self).regs().update(wb.register as int, wb.value),
                None => old(self).regs(),
            },
            final(self).csr_file() == retired(old(self).csr_file(), old(self).pmode),
    {
        match writeback {
            Some(wb) => self.write_register(wb.register, wb.value),
            None => {},
        }
        let (instretcsr, instrethcsr) = match self.pmode() {
            PrivMode::Machine => (CSRRegister::minstret, CSRRegister::minstreth),
            PrivMode::Supervisor => (CSRRegister::instret, CSRRegister::instreth),
            PrivMode::User => (CSRRegister::instret, CSRRegister::instreth),
        };
        let instret = self.read_csr(instretcsr);
        if instret.wrapping_add(1) < instret {
            let high = self.read_csr(instrethcsr);
            self.write_csr(instrethcsr, high.wrapping_add(1));
        }
        self.write_csr(instretcsr, instret.wrapping_add(1));
        Stage::FETCH
    }

    /// Enters a trap.
    pub fn enter_trap(&mut self, _cause: TrapCause) -> (s: Stage)
        ensures
            s == Stage::EXIT_TRAP,
            *final(self) == *old(self),
    {
        Stage::EXIT_TRAP
    }

    /// Leaves a trap.
    pub fn exit_trap(&mut self) -> (s: Stage)
        ensures
            s == Stage::FETCH,
            *final(self) == *old(self),
    {
        Stage::FETCH
    }
}

} // verus!
