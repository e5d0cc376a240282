//! The funct3 / funct6 / funct7 fields that select an operation within an opcode.
use vstd::prelude::*;

verus! {

/// Any value of a three-bit funct3 field.
#[derive(Debug, Copy, Clone, PartialEq, Eq, Structural)]
pub enum Funct3 {
    B000,
    B001,
    B010,
    B011,
    B100,
    B101,
    B110,
    B111,
}

/// The encoding of each `Funct3` value.
pub open spec fn funct3_value(e: Funct3) -> u8 {
    match e {
        Funct3::B000 => 0b000,
        Funct3::B001 => 0b001,
        Funct3::B010 => 0b010,
        Funct3::B011 => 0b011,
        Funct3::B100 => 0b100,
        Funct3::B101 => 0b101,
        Funct3::B110 => 0b110,
        Funct3::B111 => 0b111,
    }
}

/// The `Funct3` value encoded as `v`, if any.
pub open spec fn funct3_from(v: u8) -> Option<Funct3> {
    match v {
        0b000 => Some(Funct3::B000),
        0b001 => Some(Funct3::B001),
        0b010 => Some(Funct3::B010),
        0b011 => Some(Funct3::B011),
        0b100 => Some(Funct3::B100),
        0b101 => Some(Funct3::B101),
        0b110 => Some(Funct3::B110),
        0b111 => Some(Funct3::B111),
        _ => None,
    }
}

impl Funct3 {
    /// The encoding of this value.
    pub fn value(&self) -> (v: u8)
        ensures
            v == funct3_value(*self),
    {
        match self {
            Funct3::B000 => 0b000,
            Funct3::B001 => 0b001,
            Funct3::B010 => 0b010,
            Funct3::B011 => 0b011,
            Funct3::B100 => 0b100,
            Funct3::B101 => 0b101,
            Funct3::B110 => 0b110,
            Funct3::B111 => 0b111,
        }
    }

    /// The value with a given encoding, if any has it.
    pub fn from_u8(v: u8) -> (r: Option<Funct3>)
        ensures
            r == funct3_from(v),
    {
        match v {
            0b000 => Some(Funct3::B000),
            0b001 => Some(Funct3::B001),
            0b010 => Some(Funct3::B010),
            0b011 => Some(Funct3::B011),
            0b100 => Some(Funct3::B100),
            0b101 => Some(Funct3::B101),
            0b110 => Some(Funct3::B110),
            0b111 => Some(Funct3::B111),
            _ => None,
        }
    }
}
/// funct3 of quadrant-0 compressed instructions (`0b100` is reserved).
#[allow(non_camel_case_types)]
#[derive(Debug, Copy, Clone, PartialEq, Eq, Structural)]
pub enum C0_Funct3 {
    C_ADDI4SPN,
    C_LQ,
    C_LW,
    C_LD,
    C_SQ,
    C_SW,
    C_SD,
}

/// The encoding of each `C0_Funct3` value.
pub open spec fn c0_funct3_value(e: C0_Funct3) -> u8 {
    match e {
        C0_Funct3::C_ADDI4SPN => 0b000,
        C0_Funct3::C_LQ => 0b001,
        C0_Funct3::C_LW => 0b010,
        C0_Funct3::C_LD => 0b011,
        C0_Funct3::C_SQ => 0b101,
        C0_Funct3::C_SW => 0b110,
        C0_Funct3::C_SD => 0b111,
    }
}

/// The `C0_Funct3` value encoded as `v`, if any.
pub open spec fn c0_funct3_from(v: u8) -> Option<C0_Funct3> {
    match v {
        0b000 => Some(C0_Funct3::C_ADDI4SPN),
        0b001 => Some(C0_Funct3::C_LQ),
        0b010 => Some(C0_Funct3::C_LW),
        0b011 => Some(C0_Funct3::C_LD),
        0b101 => Some(C0_Funct3::C_SQ),
        0b110 => Some(C0_Funct3::C_SW),
        0b111 => Some(C0_Funct3::C_SD),
        _ => None,
    }
}

impl C0_Funct3 {
    /// The encoding of this value.
    pub fn value(&self) -> (v: u8)
        ensures
            v == c0_funct3_value(*self),
    {
        match self {
            C0_Funct3::C_ADDI4SPN => 0b000,
            C0_Funct3::C_LQ => 0b001,
            C0_Funct3::C_LW => 0b010,
            C0_Funct3::C_LD => 0b011,
            C0_Funct3::C_SQ => 0b101,
            C0_Funct3::C_SW => 0b110,
            C0_Funct3::C_SD => 0b111,
        }
    }

    /// The value with a given encoding, if any has it.
    pub fn from_u8(v: u8) -> (r: Option<C0_Funct3>)
        ensures
            r == c0_funct3_from(v),
    {
        match v {
            0b000 => Some(C0_Funct3::C_ADDI4SPN),
            0b001 => Some(C0_Funct3::C_LQ),
            0b010 => Some(C0_Funct3::C_LW),
            0b011 => Some(C0_Funct3::C_LD),
            0b101 => Some(C0_Funct3::C_SQ),
            0b110 => Some(C0_Funct3::C_SW),
            0b111 => Some(C0_Funct3::C_SD),
            _ => None,
        }
    }
}
/// funct3 of OP-IMM instructions.
#[allow(non_camel_case_types)]
#[derive(Debug, Copy, Clone, PartialEq, Eq, Structural)]
pub enum OpImm_Funct3 {
    ADDI,
    SLLI,
    SLTI,
    SLTIU,
    XORI,
    ORI,
    ANDI,
}

/// The encoding of each `OpImm_Funct3` value.
pub open spec fn op_imm_funct3_value(e: OpImm_Funct3) -> u8 {
    match e {
        OpImm_Funct3::ADDI => 0b000,
        OpImm_Funct3::SLLI => 0b001,
        OpImm_Funct3::SLTI => 0b010,
        OpImm_Funct3::SLTIU => 0b011,
        OpImm_Funct3::XORI => 0b100,
        OpImm_Funct3::ORI => 0b110,
        OpImm_Funct3::ANDI => 0b111,
    }
}

/// The `OpImm_Funct3` value encoded as `v`, if any.
pub open spec fn op_imm_funct3_from(v: u8) -> Option<OpImm_Funct3> {
    match v {
        0b000 => Some(OpImm_Funct3::ADDI),
        0b001 => Some(OpImm_Funct3::SLLI),
        0b010 => Some(OpImm_Funct3::SLTI),
        0b011 => Some(OpImm_Funct3::SLTIU),
        0b100 => Some(OpImm_Funct3::XORI),
        0b110 => Some(OpImm_Funct3::ORI),
        0b111 => Some(OpImm_Funct3::ANDI),
        _ => None,
    }
}

impl OpImm_Funct3 {
    /// The encoding of this value.
    pub fn value(&self) -> (v: u8)
        ensures
            v == op_imm_funct3_value(*self),
    {
        match self {
            OpImm_Funct3::ADDI => 0b000,
            OpImm_Funct3::SLLI => 0b001,
            OpImm_Funct3::SLTI => 0b010,
            OpImm_Funct3::SLTIU => 0b011,
            OpImm_Funct3::XORI => 0b100,
            OpImm_Funct3::ORI => 0b110,
            OpImm_Funct3::ANDI => 0b111,
        }
    }

    /// The value with a given encoding, if any has it.
    pub fn from_u8(v: u8) -> (r: Option<OpImm_Funct3>)
        ensures
            r == op_imm_funct3_from(v),
    {
        match v {
            0b000 => Some(OpImm_Funct3::ADDI),
            0b001 => Some(OpImm_Funct3::SLLI),
            0b010 => Some(OpImm_Funct3::SLTI),
            0b011 => Some(OpImm_Funct3::SLTIU),
            0b100 => Some(OpImm_Funct3::XORI),
            0b110 => Some(OpImm_Funct3::ORI),
            0b111 => Some(OpImm_Funct3::ANDI),
            _ => None,
        }
    }
}
/// funct3 of OP-IMM-32 instructions.
#[allow(non_camel_case_types)]
#[derive(Debug, Copy, Clone, PartialEq, Eq, Structural)]
pub enum OpImm32_Funct3 {
    ADDIW,
    SLLIW,
    SRLIW,
}

/// The encoding of each `OpImm32_Funct3` value.
pub open spec fn op_imm32_funct3_value(e: OpImm32_Funct3) -> u8 {
    match e {
        OpImm32_Funct3::ADDIW => 0b000,
        OpImm32_Funct3::SLLIW => 0b001,
        OpImm32_Funct3::SRLIW => 0b101,
    }
}

/// The `OpImm32_Funct3` value encoded as `v`, if any.
pub open spec fn op_imm32_funct3_from(v: u8) -> Option<OpImm32_Funct3> {
    match v {
        0b000 => Some(OpImm32_Funct3::ADDIW),
        0b001 => Some(OpImm32_Funct3::SLLIW),
        0b101 => Some(OpImm32_Funct3::SRLIW),
        _ => None,
    }
}

impl OpImm32_Funct3 {
    /// The encoding of this value.
    pub fn value(&self) -> (v: u8)
        ensures
            v == op_imm32_funct3_value(*self),
    {
        match self {
            OpImm32_Funct3::ADDIW => 0b000,
            OpImm32_Funct3::SLLIW => 0b001,
            OpImm32_Funct3::SRLIW => 0b101,
        }
    }

    /// The value with a given encoding, if any has it.
    pub fn from_u8(v: u8) -> (r: Option<OpImm32_Funct3>)
        ensures
            r == op_imm32_funct3_from(v),
    {
        match v {
            0b000 => Some(OpImm32_Funct3::ADDIW),
            0b001 => Some(OpImm32_Funct3::SLLIW),
            0b101 => Some(OpImm32_Funct3::SRLIW),
            _ => None,
        }
    }
}
/// funct3 of LOAD instructions.
#[allow(non_camel_case_types)]
#[derive(Debug, Copy, Clone, PartialEq, Eq, Structural)]
pub enum Load_Funct3 {
    LB,
    LH,
    LW,
    LBU,
    LHU,
    LD,
}

/// The encoding of each `Load_Funct3` value.
pub open spec fn load_funct3_value(e: Load_Funct3) -> u8 {
    match e {
        Load_Funct3::LB => 0b000,
        Load_Funct3::LH => 0b001,
        Load_Funct3::LW => 0b010,
        Load_Funct3::LBU => 0b100,
        Load_Funct3::LHU => 0b101,
        Load_Funct3::LD => 0b011,
    }
}

/// The `Load_Funct3` value encoded as `v`, if any.
pub open spec fn load_funct3_from(v: u8) -> Option<Load_Funct3> {
    match v {
        0b000 => Some(Load_Funct3::LB),
        0b001 => Some(Load_Funct3::LH),
        0b010 => Some(Load_Funct3::LW),
        0b100 => Some(Load_Funct3::LBU),
        0b101 => Some(Load_Funct3::LHU),
        0b011 => Some(Load_Funct3::LD),
        _ => None,
    }
}

impl Load_Funct3 {
    /// The encoding of this value.
    pub fn value(&self) -> (v: u8)
        ensures
            v == load_funct3_value(*self),
    {
        match self {
            Load_Funct3::LB => 0b000,
            Load_Funct3::LH => 0b001,
            Load_Funct3::LW => 0b010,
            Load_Funct3::LBU => 0b100,
            Load_Funct3::LHU => 0b101,
            Load_Funct3::LD => 0b011,
        }
    }

    /// The value with a given encoding, if any has it.
    pub fn from_u8(v: u8) -> (r: Option<Load_Funct3>)
        ensures
            r == load_funct3_from(v),
    {
        match v {
            0b000 => Some(Load_Funct3::LB),
            0b001 => Some(Load_Funct3::LH),
            0b010 => Some(Load_Funct3::LW),
            0b100 => Some(Load_Funct3::LBU),
            0b101 => Some(Load_Funct3::LHU),
            0b011 => Some(Load_Funct3::LD),
            _ => None,
        }
    }
}
/// funct3 of the CSR instructions of the SYSTEM opcode.
#[allow(non_camel_case_types)]
#[derive(Debug, Copy, Clone, PartialEq, Eq, Structural)]
pub enum CSR_Funct3 {
    CSRRW,
    CSRRS,
    CSRRC,
    CSRRWI,
    CSRRSI,
    CSRRCI,
}

/// The encoding of each `CSR_Funct3` value.
pub open spec fn csr_funct3_value(e: CSR_Funct3) -> u8 {
    match e {
        CSR_Funct3::CSRRW => 0b001,
        CSR_Funct3::CSRRS => 0b010,
        CSR_Funct3::CSRRC => 0b011,
        CSR_Funct3::CSRRWI => 0b101,
        CSR_Funct3::CSRRSI => 0b110,
        CSR_Funct3::CSRRCI => 0b111,
    }
}

/// The `CSR_Funct3` value encoded as `v`, if any.
pub open spec fn csr_funct3_from(v: u8) -> Option<CSR_Funct3> {
    match v {
        0b001 => Some(CSR_Funct3::CSRRW),
        0b010 => Some(CSR_Funct3::CSRRS),
        0b011 => Some(CSR_Funct3::CSRRC),
        0b101 => Some(CSR_Funct3::CSRRWI),
        0b110 => Some(CSR_Funct3::CSRRSI),
        0b111 => Some(CSR_Funct3::CSRRCI),
        _ => None,
    }
}

impl CSR_Funct3 {
    /// The encoding of this value.
    pub fn value(&self) -> (v: u8)
        ensures
            v == csr_funct3_value(*self),
    {
        match self {
            CSR_Funct3::CSRRW => 0b001,
            CSR_Funct3::CSRRS => 0b010,
            CSR_Funct3::CSRRC => 0b011,
            CSR_Funct3::CSRRWI => 0b101,
            CSR_Funct3::CSRRSI => 0b110,
            CSR_Funct3::CSRRCI => 0b111,
        }
    }

    /// The value with a given encoding, if any has it.
    pub fn from_u8(v: u8) -> (r: Option<CSR_Funct3>)
        ensures
            r == csr_funct3_from(v),
    {
        match v {
            0b001 => Some(CSR_Funct3::CSRRW),
            0b010 => Some(CSR_Funct3::CSRRS),
            0b011 => Some(CSR_Funct3::CSRRC),
            0b101 => Some(CSR_Funct3::CSRRWI),
            0b110 => Some(CSR_Funct3::CSRRSI),
            0b111 => Some(CSR_Funct3::CSRRCI),
            _ => None,
        }
    }
}
/// funct3 of the RV32M multiply and divide instructions.
#[allow(non_camel_case_types)]
#[derive(Debug, Copy, Clone, PartialEq, Eq, Structural)]
pub enum RV32M_Funct3 {
    MUL,
    MULH,
    MULHSU,
    MULSHU,
    DIV,
    DIVU,
    REM,
    REMU,
}

/// The encoding of each `RV32M_Funct3` value.
pub open spec fn rv32m_funct3_value(e: RV32M_Funct3) -> u8 {
    match e {
        RV32M_Funct3::MUL => 0b000,
        RV32M_Funct3::MULH => 0b001,
        RV32M_Funct3::MULHSU => 0b010,
        RV32M_Funct3::MULSHU => 0b011,
        RV32M_Funct3::DIV => 0b100,
        RV32M_Funct3::DIVU => 0b101,
        RV32M_Funct3::REM => 0b110,
        RV32M_Funct3::REMU => 0b111,
    }
}

/// The `RV32M_Funct3` value encoded as `v`, if any.
pub open spec fn rv32m_funct3_from(v: u8) -> Option<RV32M_Funct3> {
    match v {
        0b000 => Some(RV32M_Funct3::MUL),
        0b001 => Some(RV32M_Funct3::MULH),
        0b010 => Some(RV32M_Funct3::MULHSU),
        0b011 => Some(RV32M_Funct3::MULSHU),
        0b100 => Some(RV32M_Funct3::DIV),
        0b101 => Some(RV32M_Funct3::DIVU),
        0b110 => Some(RV32M_Funct3::REM),
        0b111 => Some(RV32M_Funct3::REMU),
        _ => None,
    }
}

impl RV32M_Funct3 {
    /// The encoding of this value.
    pub fn value(&self) -> (v: u8)
        ensures
            v == rv32m_funct3_value(*self),
    {
        match self {
            RV32M_Funct3::MUL => 0b000,
            RV32M_Funct3::MULH => 0b001,
            RV32M_Funct3::MULHSU => 0b010,
            RV32M_Funct3::MULSHU => 0b011,
            RV32M_Funct3::DIV => 0b100,
            RV32M_Funct3::DIVU => 0b101,
            RV32M_Funct3::REM => 0b110,
            RV32M_Funct3::REMU => 0b111,
        }
    }

    /// The value with a given encoding, if any has it.
    pub fn from_u8(v: u8) -> (r: Option<RV32M_Funct3>)
        ensures
            r == rv32m_funct3_from(v),
    {
        match v {
            0b000 => Some(RV32M_Funct3::MUL),
            0b001 => Some(RV32M_Funct3::MULH),
            0b010 => Some(RV32M_Funct3::MULHSU),
            0b011 => Some(RV32M_Funct3::MULSHU),
            0b100 => Some(RV32M_Funct3::DIV),
            0b101 => Some(RV32M_Funct3::DIVU),
            0b110 => Some(RV32M_Funct3::REM),
            0b111 => Some(RV32M_Funct3::REMU),
            _ => None,
        }
    }
}
/// funct3 of quadrant-1 compressed instructions (`C_LUI` is shared with C.ADDI16SP, `C_ANDI` with the other register-immediate ALU operations).
#[allow(non_camel_case_types)]
#[derive(Debug, Copy, Clone, PartialEq, Eq, Structural)]
pub enum C1_Funct3 {
    C_ADDI,
    C_ADDIW,
    C_LI,
    C_LUI,
    C_ANDI,
    C_J,
    C_BEQZ,
    C_BNEZ,
}

/// The encoding of each `C1_Funct3` value.
pub open spec fn c1_funct3_value(e: C1_Funct3) -> u8 {
    match e {
        C1_Funct3::C_ADDI => 0b000,
        C1_Funct3::C_ADDIW => 0b001,
        C1_Funct3::C_LI => 0b010,
        C1_Funct3::C_LUI => 0b011,
        C1_Funct3::C_ANDI => 0b100,
        C1_Funct3::C_J => 0b101,
        C1_Funct3::C_BEQZ => 0b110,
        C1_Funct3::C_BNEZ => 0b111,
    }
}

/// The `C1_Funct3` value encoded as `v`, if any.
pub open spec fn c1_funct3_from(v: u8) -> Option<C1_Funct3> {
    match v {
        0b000 => Some(C1_Funct3::C_ADDI),
        0b001 => Some(C1_Funct3::C_ADDIW),
        0b010 => Some(C1_Funct3::C_LI),
        0b011 => Some(C1_Funct3::C_LUI),
        0b100 => Some(C1_Funct3::C_ANDI),
        0b101 => Some(C1_Funct3::C_J),
        0b110 => Some(C1_Funct3::C_BEQZ),
        0b111 => Some(C1_Funct3::C_BNEZ),
        _ => None,
    }
}

impl C1_Funct3 {
    /// The encoding of this value.
    pub fn value(&self) -> (v: u8)
        ensures
            v == c1_funct3_value(*self),
    {
        match self {
            C1_Funct3::C_ADDI => 0b000,
            C1_Funct3::C_ADDIW => 0b001,
            C1_Funct3::C_LI => 0b010,
            C1_Funct3::C_LUI => 0b011,
            C1_Funct3::C_ANDI => 0b100,
            C1_Funct3::C_J => 0b101,
            C1_Funct3::C_BEQZ => 0b110,
            C1_Funct3::C_BNEZ => 0b111,
        }
    }

    /// The value with a given encoding, if any has it.
    pub fn from_u8(v: u8) -> (r: Option<C1_Funct3>)
        ensures
            r == c1_funct3_from(v),
    {
        match v {
            0b000 => Some(C1_Funct3::C_ADDI),
            0b001 => Some(C1_Funct3::C_ADDIW),
            0b010 => Some(C1_Funct3::C_LI),
            0b011 => Some(C1_Funct3::C_LUI),
            0b100 => Some(C1_Funct3::C_ANDI),
            0b101 => Some(C1_Funct3::C_J),
            0b110 => Some(C1_Funct3::C_BEQZ),
            0b111 => Some(C1_Funct3::C_BNEZ),
            _ => None,
        }
    }
}
/// funct3 of quadrant-2 compressed instructions (`C_SLLI` is shared with C.SLLI64, `C_JR_MV_ADD` with C.EBREAK and C.JALR).
#[allow(non_camel_case_types)]
#[derive(Debug, Copy, Clone, PartialEq, Eq, Structural)]
pub enum C2_Funct3 {
    C_SLLI,
    C_FLDSP,
    C_LWSP,
    C_LDSP,
    C_JR_MV_ADD,
    C_FSDSP,
    C_SWSP,
    C_SDSP,
}

/// The encoding of each `C2_Funct3` value.
pub open spec fn c2_funct3_value(e: C2_Funct3) -> u8 {
    match e {
        C2_Funct3::C_SLLI => 0b000,
        C2_Funct3::C_FLDSP => 0b001,
        C2_Funct3::C_LWSP => 0b010,
        C2_Funct3::C_LDSP => 0b011,
        C2_Funct3::C_JR_MV_ADD => 0b100,
        C2_Funct3::C_FSDSP => 0b101,
        C2_Funct3::C_SWSP => 0b110,
        C2_Funct3::C_SDSP => 0b111,
    }
}

/// The `C2_Funct3` value encoded as `v`, if any.
pub open spec fn c2_funct3_from(v: u8) -> Option<C2_Funct3> {
    match v {
        0b000 => Some(C2_Funct3::C_SLLI),
        0b001 => Some(C2_Funct3::C_FLDSP),
        0b010 => Some(C2_Funct3::C_LWSP),
        0b011 => Some(C2_Funct3::C_LDSP),
        0b100 => Some(C2_Funct3::C_JR_MV_ADD),
        0b101 => Some(C2_Funct3::C_FSDSP),
        0b110 => Some(C2_Funct3::C_SWSP),
        0b111 => Some(C2_Funct3::C_SDSP),
        _ => None,
    }
}

impl C2_Funct3 {
    /// The encoding of this value.
    pub fn value(&self) -> (v: u8)
        ensures
            v == c2_funct3_value(*self),
    {
        match self {
            C2_Funct3::C_SLLI => 0b000,
            C2_Funct3::C_FLDSP => 0b001,
            C2_Funct3::C_LWSP => 0b010,
            C2_Funct3::C_LDSP => 0b011,
            C2_Funct3::C_JR_MV_ADD => 0b100,
            C2_Funct3::C_FSDSP => 0b101,
            C2_Funct3::C_SWSP => 0b110,
            C2_Funct3::C_SDSP => 0b111,
        }
    }

    /// The value with a given encoding, if any has it.
    pub fn from_u8(v: u8) -> (r: Option<C2_Funct3>)
        ensures
            r == c2_funct3_from(v),
    {
        match v {
            0b000 => Some(C2_Funct3::C_SLLI),
            0b001 => Some(C2_Funct3::C_FLDSP),
            0b010 => Some(C2_Funct3::C_LWSP),
            0b011 => Some(C2_Funct3::C_LDSP),
            0b100 => Some(C2_Funct3::C_JR_MV_ADD),
            0b101 => Some(C2_Funct3::C_FSDSP),
            0b110 => Some(C2_Funct3::C_SWSP),
            0b111 => Some(C2_Funct3::C_SDSP),
            _ => None,
        }
    }
}
/// funct6 of some quadrant-1 register-register instructions.
#[allow(non_camel_case_types)]
#[derive(Debug, Copy, Clone, PartialEq, Eq, Structural)]
pub enum C1_Funct6 {
    C_AND,
    C_SUBW,
}

/// The encoding of each `C1_Funct6` value.
pub open spec fn c1_funct6_value(e: C1_Funct6) -> u8 {
    match e {
        C1_Funct6::C_AND => 0b100_011,
        C1_Funct6::C_SUBW => 0b100_111,
    }
}

/// The `C1_Funct6` value encoded as `v`, if any.
pub open spec fn c1_funct6_from(v: u8) -> Option<C1_Funct6> {
    match v {
        0b100_011 => Some(C1_Funct6::C_AND),
        0b100_111 => Some(C1_Funct6::C_SUBW),
        _ => None,
    }
}

impl C1_Funct6 {
    /// The encoding of this value.
    pub fn value(&self) -> (v: u8)
        ensures
            v == c1_funct6_value(*self),
    {
        match self {
            C1_Funct6::C_AND => 0b100_011,
            C1_Funct6::C_SUBW => 0b100_111,
        }
    }

    /// The value with a given encoding, if any has it.
    pub fn from_u8(v: u8) -> (r: Option<C1_Funct6>)
        ensures
            r == c1_funct6_from(v),
    {
        match v {
            0b100_011 => Some(C1_Funct6::C_AND),
            0b100_111 => Some(C1_Funct6::C_SUBW),
            _ => None,
        }
    }
}
/// funct7 of OP instructions.
#[derive(Debug, Copy, Clone, PartialEq, Eq, Structural)]
pub enum Funct7 {
    B0000000,
    RV32M,
    B0100000,
}

/// The encoding of each `Funct7` value.
pub open spec fn funct7_value(e: Funct7) -> u8 {
    match e {
        Funct7::B0000000 => 0b0000000,
        Funct7::RV32M => 0b0000001,
        Funct7::B0100000 => 0b0100000,
    }
}

/// The `Funct7` value encoded as `v`, if any.
pub open spec fn funct7_from(v: u8) -> Option<Funct7> {
    match v {
        0b0000000 => Some(Funct7::B0000000),
        0b0000001 => Some(Funct7::RV32M),
        0b0100000 => Some(Funct7::B0100000),
        _ => None,
    }
}

impl Funct7 {
    /// The encoding of this value.
    pub fn value(&self) -> (v: u8)
        ensures
            v == funct7_value(*self),
    {
        match self {
            Funct7::B0000000 => 0b0000000,
            Funct7::RV32M => 0b0000001,
            Funct7::B0100000 => 0b0100000,
        }
    }

    /// The value with a given encoding, if any has it.
    pub fn from_u8(v: u8) -> (r: Option<Funct7>)
        ensures
            r == funct7_from(v),
    {
        match v {
            0b0000000 => Some(Funct7::B0000000),
            0b0000001 => Some(Funct7::RV32M),
            0b0100000 => Some(Funct7::B0100000),
            _ => None,
        }
    }
}
/// funct3 of OP instructions.
#[allow(non_camel_case_types)]
#[derive(Debug, Copy, Clone, PartialEq, Eq, Structural)]
pub enum Op_Funct3 {
    ADD_SUB,
    SLL,
    SLT,
    SLTU,
    XOR,
    SRL_SRA,
    OR,
    AND,
}

/// The encoding of each `Op_Funct3` value.
pub open spec fn op_funct3_value(e: Op_Funct3) -> u8 {
    match e {
        Op_Funct3::ADD_SUB => 0b000,
        Op_Funct3::SLL => 0b001,
        Op_Funct3::SLT => 0b010,
        Op_Funct3::SLTU => 0b011,
        Op_Funct3::XOR => 0b100,
        Op_Funct3::SRL_SRA => 0b101,
        Op_Funct3::OR => 0b110,
        Op_Funct3::AND => 0b111,
    }
}

/// The `Op_Funct3` value encoded as `v`, if any.
pub open spec fn op_funct3_from(v: u8) -> Option<Op_Funct3> {
    match v {
        0b000 => Some(Op_Funct3::ADD_SUB),
        0b001 => Some(Op_Funct3::SLL),
        0b010 => Some(Op_Funct3::SLT),
        0b011 => Some(Op_Funct3::SLTU),
        0b100 => Some(Op_Funct3::XOR),
        0b101 => Some(Op_Funct3::SRL_SRA),
        0b110 => Some(Op_Funct3::OR),
        0b111 => Some(Op_Funct3::AND),
        _ => None,
    }
}

impl Op_Funct3 {
    /// The encoding of this value.
    pub fn value(&self) -> (v: u8)
        ensures
            v == op_funct3_value(*self),
    {
        match self {
            Op_Funct3::ADD_SUB => 0b000,
            Op_Funct3::SLL => 0b001,
            Op_Funct3::SLT => 0b010,
            Op_Funct3::SLTU => 0b011,
            Op_Funct3::XOR => 0b100,
            Op_Funct3::SRL_SRA => 0b101,
            Op_Funct3::OR => 0b110,
            Op_Funct3::AND => 0b111,
        }
    }

    /// The value with a given encoding, if any has it.
    pub fn from_u8(v: u8) -> (r: Option<Op_Funct3>)
        ensures
            r == op_funct3_from(v),
    {
        match v {
            0b000 => Some(Op_Funct3::ADD_SUB),
            0b001 => Some(Op_Funct3::SLL),
            0b010 => Some(Op_Funct3::SLT),
            0b011 => Some(Op_Funct3::SLTU),
            0b100 => Some(Op_Funct3::XOR),
            0b101 => Some(Op_Funct3::SRL_SRA),
            0b110 => Some(Op_Funct3::OR),
            0b111 => Some(Op_Funct3::AND),
            _ => None,
        }
    }
}
/// funct3 of BRANCH instructions.
#[allow(non_camel_case_types)]
#[derive(Debug, Copy, Clone, PartialEq, Eq, Structural)]
pub enum BRANCH_Funct3 {
    BEQ,
    BNE,
    BLT,
    BGE,
    BLTU,
    BGEU,
}

/// The encoding of each `BRANCH_Funct3` value.
pub open spec fn branch_funct3_value(e: BRANCH_Funct3) -> u8 {
    match e {
        BRANCH_Funct3::BEQ => 0b000,
        BRANCH_Funct3::BNE => 0b001,
        BRANCH_Funct3::BLT => 0b100,
        BRANCH_Funct3::BGE => 0b101,
        BRANCH_Funct3::BLTU => 0b110,
        BRANCH_Funct3::BGEU => 0b111,
    }
}

/// The `BRANCH_Funct3` value encoded as `v`, if any.
pub open spec fn branch_funct3_from(v: u8) -> Option<BRANCH_Funct3> {
    match v {
        0b000 => Some(BRANCH_Funct3::BEQ),
        0b001 => Some(BRANCH_Funct3::BNE),
        0b100 => Some(BRANCH_Funct3::BLT),
        0b101 => Some(BRANCH_Funct3::BGE),
        0b110 => Some(BRANCH_Funct3::BLTU),
        0b111 => Some(BRANCH_Funct3::BGEU),
        _ => None,
    }
}

impl BRANCH_Funct3 {
    /// The encoding of this value.
    pub fn value(&self) -> (v: u8)
        ensures
            v == branch_funct3_value(*self),
    {
        match self {
            BRANCH_Funct3::BEQ => 0b000,
            BRANCH_Funct3::BNE => 0b001,
            BRANCH_Funct3::BLT => 0b100,
            BRANCH_Funct3::BGE => 0b101,
            BRANCH_Funct3::BLTU => 0b110,
            BRANCH_Funct3::BGEU => 0b111,
        }
    }

    /// The value with a given encoding, if any has it.
    pub fn from_u8(v: u8) -> (r: Option<BRANCH_Funct3>)
        ensures
            r == branch_funct3_from(v),
    {
        match v {
            0b000 => Some(BRANCH_Funct3::BEQ),
            0b001 => Some(BRANCH_Funct3::BNE),
            0b100 => Some(BRANCH_Funct3::BLT),
            0b101 => Some(BRANCH_Funct3::BGE),
            0b110 => Some(BRANCH_Funct3::BLTU),
            0b111 => Some(BRANCH_Funct3::BGEU),
            _ => None,
        }
    }
}

} // verus!
