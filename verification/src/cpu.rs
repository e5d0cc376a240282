//! The hart: its registers, CSRs, privilege mode and pipeline state.
use std::collections::{HashMap, VecDeque};

use vstd::prelude::*;

use crate::mmu::MMU;
use crate::pipeline::Stage;

verus! {

/// The index of an integer register.
pub type Register = u8;

/// The value of an integer register.
pub type RegisterValue = u64;

/// Why the hart traps: an interrupt (cause codes with bit 8 set) or an exception.
#[derive(Debug, Copy, Clone, PartialEq, Eq, Structural)]
pub enum TrapCause {
    SupervisorSoftlIrq,
    MachineSoftlIrq,
    SupervisorTimerlIrq,
    MachineTimerlIrq,
    SupervisorExternallIrq,
    MachineExternalIrq,
    InstructionMisaligned,
    InstructionAccessFault,
    IllegalInstruction,
    Breakpoint,
    LoadAddressMisaligned,
    LoadAccessFault,
    StoreAccessFault,
    EnvCallFromUmode,
    EnvCallFromSmode,
    EnvCallFromMmode,
    InstructionPageFault,
    LoadPageFault,
}

/// The cause code of each trap.
pub open spec fn trap_cause_code(c: TrapCause) -> u16 {
    match c {
        TrapCause::SupervisorSoftlIrq => 0x101,
        TrapCause::MachineSoftlIrq => 0x103,
        TrapCause::SupervisorTimerlIrq => 0x105,
        TrapCause::MachineTimerlIrq => 0x107,
        TrapCause::SupervisorExternallIrq => 0x109,
        TrapCause::MachineExternalIrq => 0x10B,
        TrapCause::InstructionMisaligned => 0x00,
        TrapCause::InstructionAccessFault => 0x01,
        TrapCause::IllegalInstruction => 0x02,
        TrapCause::Breakpoint => 0x03,
        TrapCause::LoadAddressMisaligned => 0x04,
        TrapCause::LoadAccessFault => 0x05,
        TrapCause::StoreAccessFault => 0x07,
        TrapCause::EnvCallFromUmode => 0x08,
        TrapCause::EnvCallFromSmode => 0x09,
        TrapCause::EnvCallFromMmode => 0x0B,
        TrapCause::InstructionPageFault => 0x0C,
        TrapCause::LoadPageFault => 0x0D,
    }
}

impl TrapCause {
    /// The cause code of this trap.
    pub fn code(&self) -> (c: u16)
        ensures
            c == trap_cause_code(*self),
    {
        match self {
            TrapCause::SupervisorSoftlIrq => 0x101,
            TrapCause::MachineSoftlIrq => 0x103,
            TrapCause::SupervisorTimerlIrq => 0x105,
            TrapCause::MachineTimerlIrq => 0x107,
            TrapCause::SupervisorExternallIrq => 0x109,
            TrapCause::MachineExternalIrq => 0x10B,
            TrapCause::InstructionMisaligned => 0x00,
            TrapCause::InstructionAccessFault => 0x01,
            TrapCause::IllegalInstruction => 0x02,
            TrapCause::Breakpoint => 0x03,
            TrapCause::LoadAddressMisaligned => 0x04,
            TrapCause::LoadAccessFault => 0x05,
            TrapCause::StoreAccessFault => 0x07,
            TrapCause::EnvCallFromUmode => 0x08,
            TrapCause::EnvCallFromSmode => 0x09,
            TrapCause::EnvCallFromMmode => 0x0B,
            TrapCause::InstructionPageFault => 0x0C,
            TrapCause::LoadPageFault => 0x0D,
        }
    }
}

/// The width of the integer registers. Only 64-bit operation is really supported.
#[derive(Debug, Copy, Clone, PartialEq, Eq, Structural)]
pub enum Xlen {
    Bits32,
    Bits64,
}

/// The privilege mode of the hart.
#[derive(Debug, Copy, Clone, PartialEq, Eq, Structural)]
pub enum PrivMode {
    User,
    Supervisor,
    Machine,
}

/// The encoding of each `PrivMode` value.
pub open spec fn priv_mode_value(e: PrivMode) -> u8 {
    match e {
        PrivMode::User => 0,
        PrivMode::Supervisor => 1,
        PrivMode::Machine => 3,
    }
}

/// The `PrivMode` value encoded as `v`, if any.
pub open spec fn priv_mode_from(v: u8) -> Option<PrivMode> {
    match v {
        0 => Some(PrivMode::User),
        1 => Some(PrivMode::Supervisor),
        3 => Some(PrivMode::Machine),
        _ => None,
    }
}

impl PrivMode {
    /// The encoding of this value.
    pub fn value(&self) -> (v: u8)
        ensures
            v == priv_mode_value(*self),
    {
        match self {
            PrivMode::User => 0,
            PrivMode::Supervisor => 1,
            PrivMode::Machine => 3,
        }
    }

    /// The value with a given encoding, if any has it.
    pub fn from_u8(v: u8) -> (r: Option<PrivMode>)
        ensures
            r == priv_mode_from(v),
    {
        match v {
            0 => Some(PrivMode::User),
            1 => Some(PrivMode::Supervisor),
            3 => Some(PrivMode::Machine),
            _ => None,
        }
    }
}

/// The control and status registers this core knows, each at its 12-bit address.
#[allow(non_camel_case_types)]
#[derive(Debug, Copy, Clone, PartialEq, Eq, Structural)]
pub enum CSRRegister {
    ustatus,
    fflags,
    frm,
    fcsr,
    uie,
    utvec,
    uepc,
    ucause,
    utval,
    sstatus,
    sedeleg,
    sideleg,
    sie,
    stvec,
    sscratch,
    sepc,
    scause,
    stval,
    sip,
    satp,
    mstatus,
    misa,
    medeleg,
    mideleg,
    mie,
    mtvec,
    mcounteren,
    mstatush,
    mscratch,
    mepc,
    mcause,
    mtval,
    mip,
    pmpcfg0,
    pmpaddr0,
    debug0,
    debug1,
    debug2,
    debug3,
    debug4,
    debug5,
    debug6,
    debug7,
    debug8,
    mcycle,
    minstret,
    minstreth,
    cycle,
    time,
    instret,
    cycleh,
    timeh,
    instreth,
    mvendorid,
    marchid,
    mimpid,
    mhartid,
    mconfigptr,
}

/// The encoding of each `CSRRegister` value.
pub open spec fn csr_value(e: CSRRegister) -> u16 {
    match e {
        CSRRegister::ustatus => 0,
        CSRRegister::fflags => 1,
        CSRRegister::frm => 2,
        CSRRegister::fcsr => 3,
        CSRRegister::uie => 4,
        CSRRegister::utvec => 5,
        CSRRegister::uepc => 0x41,
        CSRRegister::ucause => 0x42,
        CSRRegister::utval => 0x43,
        CSRRegister::sstatus => 0x100,
        CSRRegister::sedeleg => 0x102,
        CSRRegister::sideleg => 0x103,
        CSRRegister::sie => 0x104,
        CSRRegister::stvec => 0x105,
        CSRRegister::sscratch => 0x140,
        CSRRegister::sepc => 0x141,
        CSRRegister::scause => 0x142,
        CSRRegister::stval => 0x143,
        CSRRegister::sip => 0x144,
        CSRRegister::satp => 0x180,
        CSRRegister::mstatus => 0x300,
        CSRRegister::misa => 0x301,
        CSRRegister::medeleg => 0x302,
        CSRRegister::mideleg => 0x303,
        CSRRegister::mie => 0x304,
        CSRRegister::mtvec => 0x305,
        CSRRegister::mcounteren => 0x306,
        CSRRegister::mstatush => 0x307,
        CSRRegister::mscratch => 0x340,
        CSRRegister::mepc => 0x341,
        CSRRegister::mcause => 0x342,
        CSRRegister::mtval => 0x343,
        CSRRegister::mip => 0x344,
        CSRRegister::pmpcfg0 => 0x3a0,
        CSRRegister::pmpaddr0 => 0x3b0,
        CSRRegister::debug0 => 0x7a0,
        CSRRegister::debug1 => 0x7a1,
        CSRRegister::debug2 => 0x7a2,
        CSRRegister::debug3 => 0x7a3,
        CSRRegister::debug4 => 0x7a4,
        CSRRegister::debug5 => 0x7a5,
        CSRRegister::debug6 => 0x7a6,
        CSRRegister::debug7 => 0x7a7,
        CSRRegister::debug8 => 0x7a8,
        CSRRegister::mcycle => 0xb00,
        CSRRegister::minstret => 0xb02,
        CSRRegister::minstreth => 0xb82,
        CSRRegister::cycle => 0xc00,
        CSRRegister::time => 0xc01,
        CSRRegister::instret => 0xc02,
        CSRRegister::cycleh => 0xc80,
        CSRRegister::timeh => 0xc81,
        CSRRegister::instreth => 0xc82,
        CSRRegister::mvendorid => 0xf11,
        CSRRegister::marchid => 0xf12,
        CSRRegister::mimpid => 0xf13,
        CSRRegister::mhartid => 0xf14,
        CSRRegister::mconfigptr => 0xf15,
    }
}

/// The `CSRRegister` value encoded as `v`, if any.
pub open spec fn csr_from(v: u16) -> Option<CSRRegister> {
    match v {
        0 => Some(CSRRegister::ustatus),
        1 => Some(CSRRegister::fflags),
        2 => Some(CSRRegister::frm),
        3 => Some(CSRRegister::fcsr),
        4 => Some(CSRRegister::uie),
        5 => Some(CSRRegister::utvec),
        0x41 => Some(CSRRegister::uepc),
        0x42 => Some(CSRRegister::ucause),
        0x43 => Some(CSRRegister::utval),
        0x100 => Some(CSRRegister::sstatus),
        0x102 => Some(CSRRegister::sedeleg),
        0x103 => Some(CSRRegister::sideleg),
        0x104 => Some(CSRRegister::sie),
        0x105 => Some(CSRRegister::stvec),
        0x140 => Some(CSRRegister::sscratch),
        0x141 => Some(CSRRegister::sepc),
        0x142 => Some(CSRRegister::scause),
        0x143 => Some(CSRRegister::stval),
        0x144 => Some(CSRRegister::sip),
        0x180 => Some(CSRRegister::satp),
        0x300 => Some(CSRRegister::mstatus),
        0x301 => Some(CSRRegister::misa),
        0x302 => Some(CSRRegister::medeleg),
        0x303 => Some(CSRRegister::mideleg),
        0x304 => Some(CSRRegister::mie),
        0x305 => Some(CSRRegister::mtvec),
        0x306 => Some(CSRRegister::mcounteren),
        0x307 => Some(CSRRegister::mstatush),
        0x340 => Some(CSRRegister::mscratch),
        0x341 => Some(CSRRegister::mepc),
        0x342 => Some(CSRRegister::mcause),
        0x343 => Some(CSRRegister::mtval),
        0x344 => Some(CSRRegister::mip),
        0x3a0 => Some(CSRRegister::pmpcfg0),
        0x3b0 => Some(CSRRegister::pmpaddr0),
        0x7a0 => Some(CSRRegister::debug0),
        0x7a1 => Some(CSRRegister::debug1),
        0x7a2 => Some(CSRRegister::debug2),
        0x7a3 => Some(CSRRegister::debug3),
        0x7a4 => Some(CSRRegister::debug4),
        0x7a5 => Some(CSRRegister::debug5),
        0x7a6 => Some(CSRRegister::debug6),
        0x7a7 => Some(CSRRegister::debug7),
        0x7a8 => Some(CSRRegister::debug8),
        0xb00 => Some(CSRRegister::mcycle),
        0xb02 => Some(CSRRegister::minstret),
        0xb82 => Some(CSRRegister::minstreth),
        0xc00 => Some(CSRRegister::cycle),
        0xc01 => Some(CSRRegister::time),
        0xc02 => Some(CSRRegister::instret),
        0xc80 => Some(CSRRegister::cycleh),
        0xc81 => Some(CSRRegister::timeh),
        0xc82 => Some(CSRRegister::instreth),
        0xf11 => Some(CSRRegister::mvendorid),
        0xf12 => Some(CSRRegister::marchid),
        0xf13 => Some(CSRRegister::mimpid),
        0xf14 => Some(CSRRegister::mhartid),
        0xf15 => Some(CSRRegister::mconfigptr),
        _ => None,
    }
}

impl CSRRegister {
    /// The encoding of this value.
    pub fn value(&self) -> (v: u16)
        ensures
            v == csr_value(*self),
            v < 4096,
    {
        match self {
            CSRRegister::ustatus => 0,
            CSRRegister::fflags => 1,
            CSRRegister::frm => 2,
            CSRRegister::fcsr => 3,
            CSRRegister::uie => 4,
            CSRRegister::utvec => 5,
            CSRRegister::uepc => 0x41,
            CSRRegister::ucause => 0x42,
            CSRRegister::utval => 0x43,
            CSRRegister::sstatus => 0x100,
            CSRRegister::sedeleg => 0x102,
            CSRRegister::sideleg => 0x103,
            CSRRegister::sie => 0x104,
            CSRRegister::stvec => 0x105,
            CSRRegister::sscratch => 0x140,
            CSRRegister::sepc => 0x141,
            CSRRegister::scause => 0x142,
            CSRRegister::stval => 0x143,
            CSRRegister::sip => 0x144,
            CSRRegister::satp => 0x180,
            CSRRegister::mstatus => 0x300,
            CSRRegister::misa => 0x301,
            CSRRegister::medeleg => 0x302,
            CSRRegister::mideleg => 0x303,
            CSRRegister::mie => 0x304,
            CSRRegister::mtvec => 0x305,
            CSRRegister::mcounteren => 0x306,
            CSRRegister::mstatush => 0x307,
            CSRRegister::mscratch => 0x340,
            CSRRegister::mepc => 0x341,
            CSRRegister::mcause => 0x342,
            CSRRegister::mtval => 0x343,
            CSRRegister::mip => 0x344,
            CSRRegister::pmpcfg0 => 0x3a0,
            CSRRegister::pmpaddr0 => 0x3b0,
            CSRRegister::debug0 => 0x7a0,
            CSRRegister::debug1 => 0x7a1,
            CSRRegister::debug2 => 0x7a2,
            CSRRegister::debug3 => 0x7a3,
            CSRRegister::debug4 => 0x7a4,
            CSRRegister::debug5 => 0x7a5,
            CSRRegister::debug6 => 0x7a6,
            CSRRegister::debug7 => 0x7a7,
            CSRRegister::debug8 => 0x7a8,
            CSRRegister::mcycle => 0xb00,
            CSRRegister::minstret => 0xb02,
            CSRRegister::minstreth => 0xb82,
            CSRRegister::cycle => 0xc00,
            CSRRegister::time => 0xc01,
            CSRRegister::instret => 0xc02,
            CSRRegister::cycleh => 0xc80,
            CSRRegister::timeh => 0xc81,
            CSRRegister::instreth => 0xc82,
            CSRRegister::mvendorid => 0xf11,
            CSRRegister::marchid => 0xf12,
            CSRRegister::mimpid => 0xf13,
            CSRRegister::mhartid => 0xf14,
            CSRRegister::mconfigptr => 0xf15,
        }
    }

    /// The value with a given encoding, if any has it.
    pub fn from_u16(v: u16) -> (r: Option<CSRRegister>)
        ensures
            r == csr_from(v),
    {
        match v {
            0 => Some(CSRRegister::ustatus),
            1 => Some(CSRRegister::fflags),
            2 => Some(CSRRegister::frm),
            3 => Some(CSRRegister::fcsr),
            4 => Some(CSRRegister::uie),
            5 => Some(CSRRegister::utvec),
            0x41 => Some(CSRRegister::uepc),
            0x42 => Some(CSRRegister::ucause),
            0x43 => Some(CSRRegister::utval),
            0x100 => Some(CSRRegister::sstatus),
            0x102 => Some(CSRRegister::sedeleg),
            0x103 => Some(CSRRegister::sideleg),
            0x104 => Some(CSRRegister::sie),
            0x105 => Some(CSRRegister::stvec),
            0x140 => Some(CSRRegister::sscratch),
            0x141 => Some(CSRRegister::sepc),
            0x142 => Some(CSRRegister::scause),
            0x143 => Some(CSRRegister::stval),
            0x144 => Some(CSRRegister::sip),
            0x180 => Some(CSRRegister::satp),
            0x300 => Some(CSRRegister::mstatus),
            0x301 => Some(CSRRegister::misa),
            0x302 => Some(CSRRegister::medeleg),
            0x303 => Some(CSRRegister::mideleg),
            0x304 => Some(CSRRegister::mie),
            0x305 => Some(CSRRegister::mtvec),
            0x306 => Some(CSRRegister::mcounteren),
            0x307 => Some(CSRRegister::mstatush),
            0x340 => Some(CSRRegister::mscratch),
            0x341 => Some(CSRRegister::mepc),
            0x342 => Some(CSRRegister::mcause),
            0x343 => Some(CSRRegister::mtval),
            0x344 => Some(CSRRegister::mip),
            0x3a0 => Some(CSRRegister::pmpcfg0),
            0x3b0 => Some(CSRRegister::pmpaddr0),
            0x7a0 => Some(CSRRegister::debug0),
            0x7a1 => Some(CSRRegister::debug1),
            0x7a2 => Some(CSRRegister::debug2),
            0x7a3 => Some(CSRRegister::debug3),
            0x7a4 => Some(CSRRegister::debug4),
            0x7a5 => Some(CSRRegister::debug5),
            0x7a6 => Some(CSRRegister::debug6),
            0x7a7 => Some(CSRRegister::debug7),
            0x7a8 => Some(CSRRegister::debug8),
            0xb00 => Some(CSRRegister::mcycle),
            0xb02 => Some(CSRRegister::minstret),
            0xb82 => Some(CSRRegister::minstreth),
            0xc00 => Some(CSRRegister::cycle),
            0xc01 => Some(CSRRegister::time),
            0xc02 => Some(CSRRegister::instret),
            0xc80 => Some(CSRRegister::cycleh),
            0xc81 => Some(CSRRegister::timeh),
            0xc82 => Some(CSRRegister::instreth),
            0xf11 => Some(CSRRegister::mvendorid),
            0xf12 => Some(CSRRegister::marchid),
            0xf13 => Some(CSRRegister::mimpid),
            0xf14 => Some(CSRRegister::mhartid),
            0xf15 => Some(CSRRegister::mconfigptr),
            _ => None,
        }
    }
}


/// The bits of `mstatus` that `sstatus` shows.
pub const SSTATUS_MASK: u64 = 0x80000003000de162;

/// The most cycles an instruction takes: fetch, decode, execute, memory and writeback.
pub const CYCLES_PER_INSTRUCTION: usize = 5;

/// The bits of `mie` / `mip` that `sie` / `sip` show.
pub const SIE_SIP_MASK: u64 = 0x222;

/// The bits of `mideleg` that can be written.
pub const MIDELEG_MASK: u64 = 0x666;

/// The address of a CSR as an index into the CSR file.
pub open spec fn csr_index(reg: CSRRegister) -> int {
    csr_value(reg) as int
}

/// What reading a CSR returns, given the CSR file. `fflags` and `frm` are fields of `fcsr`;
/// `sstatus`, `sie` and `sip` are masked views of `mstatus`, `mie` and `mip`.
pub open spec fn csr_read(csrs: Seq<u64>, reg: CSRRegister) -> u64 {
    match reg {
        CSRRegister::fflags => csrs[3] & 0x1f,
        CSRRegister::frm => (csrs[3] >> 5u64) & 0x7,
        CSRRegister::sstatus => csrs[0x300] & SSTATUS_MASK,
        CSRRegister::sie => csrs[0x304] & SIE_SIP_MASK,
        CSRRegister::sip => csrs[0x344] & SIE_SIP_MASK,
        _ => csrs[csr_index(reg)],
    }
}

/// The CSR file after writing `value` to a CSR.
pub open spec fn csr_write(csrs: Seq<u64>, reg: CSRRegister, value: u64) -> Seq<u64> {
    match reg {
        CSRRegister::fflags => csrs.update(3, (csrs[3] & !0x1fu64) | (value & 0x1f)),
        CSRRegister::frm => csrs.update(3, (csrs[3] & !0xe0u64) | ((value << 5u64) & 0xe0)),
        CSRRegister::sstatus => csrs.update(
            0x300,
            (csrs[0x300] & !SSTATUS_MASK) | (value & SSTATUS_MASK),
        ),
        CSRRegister::sie => csrs.update(0x304, (csrs[0x304] & !SIE_SIP_MASK) | (value & SIE_SIP_MASK)),
        CSRRegister::sip => csrs.update(0x344, (csrs[0x344] & !SIE_SIP_MASK) | (value & SIE_SIP_MASK)),
        CSRRegister::mideleg => csrs.update(0x303, value & MIDELEG_MASK),
        _ => csrs.update(csr_index(reg), value),
    }
}

/// The value `bit_extend` gives: in 32-bit mode bit 31 extended across the bits above it; in
/// 64-bit mode the value itself.
pub open spec fn xlen_extend(xlen: Xlen, value: i64) -> i64 {
    match xlen {
        Xlen::Bits32 => (value as i32) as i64,
        Xlen::Bits64 => value,
    }
}

/// The symbol trace after jumping to `pc`: when `pc` names a symbol that differs from the last
/// one traced (or nothing is traced yet), the symbol is appended, and the trace is cut to its
/// last 20 entries.
pub open spec fn traced(trace: Seq<(u64, String)>, symbols: Map<u64, String>, pc: u64) -> Seq<(u64, String)> {
    if symbols.contains_key(pc) {
        let name = symbols[pc];
        if trace.len() == 0 {
            seq![(pc, name)]
        } else if trace.last().1@ != name@ {
            let t = trace.push((pc, name));
            if t.len() > 20 {
                t.drop_first()
            } else {
                t
            }
        } else {
            trace
        }
    } else {
        trace
    }
}

/// The bits of a value that a write to a CSR keeps: `fflags` five, `frm` three, `sstatus`,
/// `sie` and `sip` their masks of `mstatus`, `mie` and `mip`, `mideleg` its writable bits, and
/// every other CSR all of them.
pub open spec fn csr_write_mask(reg: CSRRegister) -> u64 {
    match reg {
        CSRRegister::fflags => 0x1f,
        CSRRegister::frm => 0x7,
        CSRRegister::sstatus => SSTATUS_MASK,
        CSRRegister::sie => SIE_SIP_MASK,
        CSRRegister::sip => SIE_SIP_MASK,
        CSRRegister::mideleg => MIDELEG_MASK,
        _ => 0xffff_ffff_ffff_ffff,
    }
}

/// A CSR reads back what was written to it, restricted to the bits it keeps.
pub proof fn lemma_csr_write_read(csrs: Seq<u64>, reg: CSRRegister, value: u64)
    requires
        csrs.len() == 4096,
        reg != CSRRegister::time,
    ensures
        csr_read(csr_write(csrs, reg, value), reg) == value & csr_write_mask(reg),
{
    let c = csrs[3];
    let ms = csrs[0x300];
    let me = csrs[0x304];
    let mp = csrs[0x344];
    assert({
        &&& ((c & !0x1fu64) | (value & 0x1f)) & 0x1f == value & 0x1f
        &&& (((c & !0xe0u64) | ((value << 5u64) & 0xe0)) >> 5u64) & 0x7 == value & 0x7
        &&& ((ms & !0x80000003000de162u64) | (value & 0x80000003000de162u64)) & 0x80000003000de162u64
            == value & 0x80000003000de162u64
        &&& ((me & !0x222u64) | (value & 0x222u64)) & 0x222u64 == value & 0x222u64
        &&& ((mp & !0x222u64) | (value & 0x222u64)) & 0x222u64 == value & 0x222u64
        &&& value & 0xffff_ffff_ffff_ffffu64 == value
    }) by (bit_vector);
}

/// `sstatus`, `sie` and `sip` are views of `mstatus`, `mie` and `mip`: reading one gives the
/// bits of the other that it shows, and writing one changes only those bits of the other.
pub proof fn lemma_supervisor_views(csrs: Seq<u64>, value: u64)
    requires
        csrs.len() == 4096,
    ensures
        csr_read(csrs, CSRRegister::sstatus) == csr_read(csrs, CSRRegister::mstatus) & SSTATUS_MASK,
        csr_read(csrs, CSRRegister::sie) == csr_read(csrs, CSRRegister::mie) & SIE_SIP_MASK,
        csr_read(csrs, CSRRegister::sip) == csr_read(csrs, CSRRegister::mip) & SIE_SIP_MASK,
        csr_read(csr_write(csrs, CSRRegister::sstatus, value), CSRRegister::mstatus) & !SSTATUS_MASK
            == csr_read(csrs, CSRRegister::mstatus) & !SSTATUS_MASK,
        csr_read(csr_write(csrs, CSRRegister::sie, value), CSRRegister::mie) & !SIE_SIP_MASK
            == csr_read(csrs, CSRRegister::mie) & !SIE_SIP_MASK,
        csr_read(csr_write(csrs, CSRRegister::sip, value), CSRRegister::mip) & !SIE_SIP_MASK
            == csr_read(csrs, CSRRegister::mip) & !SIE_SIP_MASK,
{
    let ms = csrs[0x300];
    let me = csrs[0x304];
    let mp = csrs[0x344];
    assert({
        &&& ((ms & !0x80000003000de162u64) | (value & 0x80000003000de162u64))
            & !0x80000003000de162u64 == ms & !0x80000003000de162u64
        &&& ((me & !0x222u64) | (value & 0x222u64)) & !0x222u64 == me & !0x222u64
        &&& ((mp & !0x222u64) | (value & 0x222u64)) & !0x222u64 == mp & !0x222u64
    }) by (bit_vector);
}

/// A hart.
pub struct Core {
    pub id: u64,
    pub xlen: Xlen,
    pub registers: [RegisterValue; 32],
    pub csrs: [RegisterValue; 4096],
    pub pmode: PrivMode,
    pub pc: u64,
    pub prev_pc: u64,
    pub stage: Stage,
    pub cycles: u64,
    pub symbols: HashMap<u64, String>,
    pub symboltrace: VecDeque<(u64, String)>,
}

impl Core {
    /// The integer registers x0 to x31 as stored (x0 is never written).
    pub open spec fn regs(&self) -> Seq<u64> {
        self.registers@
    }

    /// The CSR file, indexed by CSR address.
    pub open spec fn csr_file(&self) -> Seq<u64> {
        self.csrs@
    }

    /// The value an instruction reads from register `reg`: zero for x0.
    pub open spec fn reg(&self, reg: int) -> u64 {
        if reg == 0 {
            0
        } else {
            self.regs()[reg]
        }
    }

    /// What reading a CSR returns.
    pub open spec fn csr(&self, reg: CSRRegister) -> u64 {
        csr_read(self.csr_file(), reg)
    }

    /// Everything but the registers, the CSRs, the pc, the privilege mode and the symbol trace
    /// is the same in `self` and `other`.
    pub open spec fn same_config(&self, other: &Core) -> bool {
        &&& self.id == other.id
        &&& self.xlen == other.xlen
        &&& self.prev_pc == other.prev_pc
        &&& self.stage == other.stage
        &&& self.cycles == other.cycles
        &&& self.symbols@ == other.symbols@
    }

    /// `self` and `other` are the same hart state except for the integer registers.
    pub open spec fn same_except_regs(&self, other: &Core) -> bool {
        &&& self.same_config(other)
        &&& self.csr_file() == other.csr_file()
        &&& self.pc == other.pc
        &&& self.pmode == other.pmode
        &&& self.symboltrace@ == other.symboltrace@
    }

    /// `self` and `other` are the same hart state except for the CSRs.
    pub open spec fn same_except_csrs(&self, other: &Core) -> bool {
        &&& self.same_config(other)
        &&& self.regs() == other.regs()
        &&& self.pc == other.pc
        &&& self.pmode == other.pmode
        &&& self.symboltrace@ == other.symboltrace@
    }

    /// `other` is `self` after jumping to `pc`.
    pub open spec fn jumped(&self, other: &Core, pc: u64) -> bool {
        &&& self.same_config(other)
        &&& self.regs() == other.regs()
        &&& self.csr_file() == other.csr_file()
        &&& self.pmode == other.pmode
        &&& other.pc == pc
        &&& other.symboltrace@ == traced(self.symboltrace@, self.symbols@, pc)
    }

    /// A hart in machine mode at pc 0, with every register and CSR zero but `mhartid`, which
    /// holds `id`.
    pub fn create(id: u64) -> (c: Core)
        ensures
            c.id == id,
            c.xlen == Xlen::Bits64,
            forall|i: int| 0 <= i < 32 ==> c.regs()[i] == 0,
            c.csr_file() == Seq::new(4096, |i: int| 0u64).update(0xf14, id),
            c.pmode == PrivMode::Machine,
            c.pc == 0,
            c.prev_pc == 0,
            c.cycles == 0,
            c.stage == Stage::FETCH,
            c.symbols@ == Map::<u64, String>::empty(),
            c.symboltrace@ == Seq::<(u64, String)>::empty(),
    {
        let registers: [RegisterValue; 32] = [0; 32];
        let mut csrs: [RegisterValue; 4096] = [0; 4096];
        csrs[CSRRegister::mhartid.value() as usize] = id;
        assert(csrs@ =~= Seq::new(4096, |i: int| 0u64).update(0xf14, id));
        Core {
            id,
            xlen: Xlen::Bits64,
            registers,
            csrs,
            pmode: PrivMode::Machine,
            pc: 0,
            prev_pc: 0,
            cycles: 0,
            stage: Stage::FETCH,
            symbols: HashMap::new(),
            symboltrace: VecDeque::<(u64, String)>::new(),
        }
    }

    /// Names the address `addr` `name` in the symbol table.
    pub fn add_symbol(&mut self, addr: u64, name: String)
        ensures
            final(self).symbols@ == old(self).symbols@.insert(addr, name),
            final(self).id == old(self).id,
            final(self).xlen == old(self).xlen,
            final(self).prev_pc == old(self).prev_pc,
            final(self).stage == old(self).stage,
            final(self).cycles == old(self).cycles,
            final(self).regs() == old(self).regs(),
            final(self).csr_file() == old(self).csr_file(),
            final(self).pc == old(self).pc,
            final(self).pmode == old(self).pmode,
            final(self).symboltrace@ == old(self).symboltrace@,
    {
        broadcast use vstd::std_specs::hash::group_hash_axioms;

        self.symbols.insert(addr, name);
    }

    /// Restarts the pipeline at `pc`.
    pub fn reset(&mut self, pc: u64)
        ensures
            final(self).pc == pc,
            final(self).stage == Stage::FETCH,
            final(self).id == old(self).id,
            final(self).xlen == old(self).xlen,
            final(self).prev_pc == old(self).prev_pc,
            final(self).cycles == old(self).cycles,
            final(self).symbols@ == old(self).symbols@,
            final(self).regs() == old(self).regs(),
            final(self).csr_file() == old(self).csr_file(),
            final(self).pmode == old(self).pmode,
            final(self).symboltrace@ == old(self).symboltrace@,
    {
        self.pc = pc;
        self.stage = Stage::FETCH;
    }

    /// The program counter.
    pub fn pc(&self) -> (pc: u64)
        ensures
            pc == self.pc,
    {
        self.pc
    }

    /// Advances the program counter by `offs`.
    pub fn add_pc(&mut self, offs: u64)
        requires
            old(self).pc + offs <= u64::MAX,
        ensures
            final(self).pc == old(self).pc + offs,
            final(self).same_config(&*old(self)),
            final(self).regs() == old(self).regs(),
            final(self).csr_file() == old(self).csr_file(),
            final(self).pmode == old(self).pmode,
            final(self).symboltrace@ == old(self).symboltrace@,
    {
        self.pc += offs
    }

    /// The symbol at exactly `addr`, if the symbol table names it.
    pub fn find_closest_symbol(&self, addr: u64) -> (r: Option<(u64, String)>)
        ensures
            r == (if self.symbols@.contains_key(addr) {
                Some((addr, self.symbols@[addr]))
            } else {
                None
            }),
    {
        broadcast use vstd::std_specs::hash::group_hash_axioms;

        match self.symbols.get(&addr) {
            Some(symbol) => Some((addr, symbol.clone())),
            None => None,
        }
    }

    /// Jumps to `pc`, recording in the symbol trace a symbol that `pc` names.
    pub fn set_pc(&mut self, pc: u64)
        ensures
            old(self).jumped(&*final(self), pc),
    {
        broadcast use vstd::std_specs::vecdeque::group_vec_dequeue_axioms;

        let ghost trace0 = self.symboltrace@;
        let symbol = self.find_closest_symbol(pc);
        match symbol {
            Some(sym) => {
                let len = self.symboltrace.len();
                if len > 0 {
                    let last = &self.symboltrace[len - 1];
                    assert(*last == trace0.last());
                    let differs = !last.1.eq(&sym.1);
                    if sym.0 == pc && differs {
                        self.symboltrace.push_back((pc, sym.1));
                        let ghost t = self.symboltrace@;
                        if self.symboltrace.len() > 20 {
                            self.symboltrace.pop_front();
                            assert(self.symboltrace@ =~= t.drop_first());
                        }
                    }
                } else {
                    self.symboltrace.push_back((pc, sym.1));
                    assert(self.symboltrace@ =~= seq![(pc, self.symbols@[pc])]);
                }
                assert(self.symboltrace@ == traced(trace0, self.symbols@, pc));
            },
            None => {},
        }
        self.pc = pc;
    }

    /// The privilege mode.
    pub fn pmode(&self) -> (m: PrivMode)
        ensures
            m == self.pmode,
    {
        self.pmode
    }

    /// Switches to privilege mode `pmode`, returning the mode it was in.
    pub fn set_pmode(&mut self, pmode: PrivMode) -> (ret: PrivMode)
        ensures
            ret == old(self).pmode,
            final(self).pmode == pmode,
            final(self).same_config(&*old(self)),
            final(self).regs() == old(self).regs(),
            final(self).csr_file() == old(self).csr_file(),
            final(self).pc == old(self).pc,
            final(self).symboltrace@ == old(self).symboltrace@,
    {
        let ret = self.pmode;
        self.pmode = pmode;
        ret
    }

    /// Extends a value depending on XLEN. If in 32-bit mode, will extend the 31st bit
    /// across all bits above it. In 64-bit mode, this is a no-op.
    pub fn bit_extend(&self, value: i64) -> (r: i64)
        ensures
            r == xlen_extend(self.xlen, value),
            self.xlen == Xlen::Bits64 ==> r == value,
    {
        match self.xlen {
            Xlen::Bits32 => (value as i32) as i64,
            Xlen::Bits64 => value,
        }
    }

    /// Reads a CSR. SSTATUS, SIE, and SIP are subsets of MSTATUS, MIE, and MIP. `time` has no
    /// backing register.
    pub fn read_csr(&self, reg: CSRRegister) -> (value: RegisterValue)
        requires
            reg != CSRRegister::time,
        ensures
            value == self.csr(reg),
    {
        match reg {
            CSRRegister::fflags => self.csrs[CSRRegister::fcsr.value() as usize] & 0x1f,
            CSRRegister::frm => (self.csrs[CSRRegister::fcsr.value() as usize] >> 5) & 0x7,
            CSRRegister::sstatus => self.csrs[CSRRegister::mstatus.value() as usize] & SSTATUS_MASK,
            CSRRegister::sie => self.csrs[CSRRegister::mie.value() as usize] & SIE_SIP_MASK,
            CSRRegister::sip => self.csrs[CSRRegister::mip.value() as usize] & SIE_SIP_MASK,
            _ => self.csrs[reg.value() as usize],
        }
    }

    /// Writes a CSR: `fflags` and `frm` write their fields of `fcsr`; `sstatus`, `sie` and
    /// `sip` write only their bits of `mstatus`, `mie` and `mip`; `mideleg` keeps only its
    /// writable bits. `time` has no backing register.
    pub fn write_csr(&mut self, reg: CSRRegister, value: RegisterValue)
        requires
            reg != CSRRegister::time,
        ensures
            final(self).csr_file() == csr_write(old(self).csr_file(), reg, value),
            final(self).same_except_csrs(&*old(self)),
    {
        match reg {
            CSRRegister::fflags => {
                let i = CSRRegister::fcsr.value() as usize;
                self.csrs[i] = (self.csrs[i] & !0x1f) | (value & 0x1f);
            },
            CSRRegister::frm => {
                let i = CSRRegister::fcsr.value() as usize;
                self.csrs[i] = (self.csrs[i] & !0xe0) | ((value << 5) & 0xe0);
            },
            CSRRegister::sstatus => {
                let i = CSRRegister::mstatus.value() as usize;
                self.csrs[i] = (self.csrs[i] & !SSTATUS_MASK) | (value & SSTATUS_MASK);
            },
            CSRRegister::sie => {
                let i = CSRRegister::mie.value() as usize;
                self.csrs[i] = (self.csrs[i] & !SIE_SIP_MASK) | (value & SIE_SIP_MASK);
            },
            CSRRegister::sip => {
                let i = CSRRegister::mip.value() as usize;
                self.csrs[i] = (self.csrs[i] & !SIE_SIP_MASK) | (value & SIE_SIP_MASK);
            },
            CSRRegister::mideleg => {
                self.csrs[reg.value() as usize] = value & MIDELEG_MASK;  // from qemu
            },
            _ => {
                self.csrs[reg.value() as usize] = value;
            },
        }
    }

    /// Reads an integer register; x0 always reads zero.
    pub fn read_register(&self, reg: Register) -> (v: RegisterValue)
        requires
            reg < 32,
        ensures
            v == self.reg(reg as int),
    {
        match reg {
            0 => 0,
            _ => self.registers[reg as usize],
        }
    }

    /// Writes an integer register other than x0.
    pub fn write_register(&mut self, reg: Register, value: RegisterValue)
        requires
            0 < reg < 32,
        ensures
            final(self).regs() == old(self).regs().update(reg as int, value),
            final(self).same_except_regs(&*old(self)),
    {
        self.registers[reg as usize] = value;
    }

    /// Register x0 always reads zero; after a write to another register, that register reads
    /// the value written and every other register reads as before.
    pub proof fn lemma_register_write_read(
        before: &Core,
        after: &Core,
        reg: Register,
        value: u64,
        other: int,
    )
        requires
            0 < reg < 32,
            0 <= other < 32,
            after.regs() == before.regs().update(reg as int, value),
        ensures
            after.reg(0) == 0,
            after.reg(reg as int) == value,
            other != reg ==> after.reg(other) == before.reg(other),
    {
    }

    /// Performs the current stage of the pipeline and moves on to the stage it leads to.
    pub fn cycle(&mut self, mmu: &mut MMU)
        requires
            old(self).cycle_defined(old(mmu)),
        ensures
            old(self).cycled(old(mmu), final(self), final(mmu)),
    {
        let next = match self.stage {
            Stage::ENTER_TRAP(cause) => self.enter_trap(cause),
            Stage::EXIT_TRAP => self.exit_trap(),
            Stage::FETCH => self.fetch(mmu),
            Stage::DECODE(instruction) => self.decode(&instruction),
            Stage::EXECUTE(decoded) => self.execute(&decoded),
            Stage::MEMORY(memory_access) => self.memory(mmu, &memory_access),
            Stage::WRITEBACK(writeback) => self.writeback(writeback),
        };
        self.stage = next;
    }
}
} // verus!
