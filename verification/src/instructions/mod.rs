//! Instruction formats, their decoders and the operations they select.
use vstd::prelude::*;

use crate::cpu::Xlen;

pub mod btype;
pub mod cbtype;
pub mod citype;
pub mod ciwtype;
pub mod cjtype;
pub mod cltype;
pub mod crtype;
pub mod csstype;
pub mod cstype;
pub mod decoder;
pub mod functions;
pub mod itype;
pub mod jtype;
pub mod map;
pub mod opcodes;
pub mod rtype;
pub mod stype;
pub mod utype;

verus! {

/// "2.2 Base instruction formats" and "2.3 Immediate Encoding Variants"
#[derive(Debug, PartialEq, Eq, Copy, Clone, Structural)]
pub enum InstructionFormat {
    Unknown,
    R,
    I,
    S,
    U,
    B,
    J,
}

/// Table 12.1: Compressed 16-bit RVC instruction formats.
#[derive(Debug, PartialEq, Eq, Copy, Clone, Structural)]
pub enum CompressedFormat {
    Unknown,
    CR,
    CI,
    CSS,
    CIW,
    CL,
    CS,
    CB,
    CJ,
}

/// Marker of the argument types of decoded instructions.
pub trait InstructionFormatType {}

/// Marker of the argument types of 32-bit instructions.
pub trait UncompressedFormatType: InstructionFormatType {}

/// Marker of the argument types of 16-bit instructions.
pub trait CompressedFormatType: InstructionFormatType {}

/// Decodes a 32-bit instruction word into the fields of one format.
pub trait FormatDecoder<T: UncompressedFormatType> {
    /// Whether the word can be decoded into this format.
    spec fn decodable(word: u32) -> bool;

    /// The fields of the word in this format.
    spec fn spec_decode(word: u32) -> T;

    fn decode(word: u32) -> (r: T)
        requires
            Self::decodable(word),
        ensures
            r == Self::spec_decode(word),
    ;
}

/// Decodes a 16-bit instruction word into the fields of one compressed format.
pub trait CompressedFormatDecoder<T: CompressedFormatType> {
    /// Whether the word can be decoded into this format.
    spec fn decodable(word: u16) -> bool;

    /// The fields of the word in this format.
    spec fn spec_decode(word: u16) -> T;

    fn decode(word: u16) -> (r: T)
        requires
            Self::decodable(word),
        ensures
            r == Self::spec_decode(word),
    ;
}

/// Gathers the scattered immediate bits of an instruction word into a value.
pub trait ImmediateDecoder<T, T2> {
    /// The immediate of the word.
    spec fn spec_decode_immediate(i: T) -> T2;

    fn decode_immediate(i: T) -> (r: T2)
        ensures
            r == Self::spec_decode_immediate(i),
    ;
}

/// The operations the executor implements.
#[allow(non_camel_case_types)]
#[derive(Debug, PartialEq, Eq, Copy, Clone, Structural)]
pub enum Operation {
    AND,
    OR,
    MUL,
    MULH,
    CSRRW,
    CSRRS,
    ADDI,
    ADDIW,
    ORI,
    JALR,
    SLLI,
    SLLIW,
    LD,
    BNE,
    BEQ,
    BGE,
    BLT,
    BLTU,
    BGEU,
    AUIPC,
    LUI,
    C_ADDI16SP,
    C_LUI,
    C_ADDI,
    C_SLLI,
    C_LDSP,
    C_LWSP,
    C_LI,
    C_ADDIW,
    C_ADDI4SPN,
    C_J,
    C_ADD,
    C_JR,
    C_MV,
    C_SDSP,
    C_FSWSP,
}

/// The assembler mnemonic of each operation.
pub open spec fn mnemonic_of(op: Operation) -> &'static str {
    match op {
        Operation::AND => "AND",
        Operation::OR => "OR",
        Operation::MUL => "MUL",
        Operation::MULH => "MULH",
        Operation::CSRRW => "CSRRW",
        Operation::CSRRS => "CSRRS",
        Operation::ADDI => "ADDI",
        Operation::ADDIW => "ADDIW",
        Operation::ORI => "ORI",
        Operation::JALR => "JALR",
        Operation::SLLI => "SLLI",
        Operation::SLLIW => "SLLIW",
        Operation::LD => "LD",
        Operation::BNE => "BNE",
        Operation::BEQ => "BEQ",
        Operation::BGE => "BGE",
        Operation::BLT => "BLT",
        Operation::BLTU => "BLTU",
        Operation::BGEU => "BGEU",
        Operation::AUIPC => "AUIPC",
        Operation::LUI => "LUI",
        Operation::C_ADDI16SP => "C.ADDI16SP",
        Operation::C_LUI => "C.LUI",
        Operation::C_ADDI => "C.ADDI",
        Operation::C_SLLI => "C.SLLI",
        Operation::C_LDSP => "C.LDSP",
        Operation::C_LWSP => "C.LWSP",
        Operation::C_LI => "C.LI",
        Operation::C_ADDIW => "C.ADDIW",
        Operation::C_ADDI4SPN => "C.ADDI4SPN",
        Operation::C_J => "C.J",
        Operation::C_ADD => "C.ADD",
        Operation::C_JR => "C.JR",
        Operation::C_MV => "C.MV",
        Operation::C_SDSP => "C.SDSP",
        Operation::C_FSWSP => "C.FSWSP",
    }
}

/// Each operation's mnemonic is its assembler name: the name of the operation, with `_`
/// written as `.` for the compressed ones.
pub proof fn lemma_mnemonics_are_assembler_names()
    ensures
        mnemonic_of(Operation::AND)@ == seq!['A', 'N', 'D'],
        mnemonic_of(Operation::OR)@ == seq!['O', 'R'],
        mnemonic_of(Operation::MUL)@ == seq!['M', 'U', 'L'],
        mnemonic_of(Operation::MULH)@ == seq!['M', 'U', 'L', 'H'],
        mnemonic_of(Operation::CSRRW)@ == seq!['C', 'S', 'R', 'R', 'W'],
        mnemonic_of(Operation::CSRRS)@ == seq!['C', 'S', 'R', 'R', 'S'],
        mnemonic_of(Operation::ADDI)@ == seq!['A', 'D', 'D', 'I'],
        mnemonic_of(Operation::ADDIW)@ == seq!['A', 'D', 'D', 'I', 'W'],
        mnemonic_of(Operation::ORI)@ == seq!['O', 'R', 'I'],
        mnemonic_of(Operation::JALR)@ == seq!['J', 'A', 'L', 'R'],
        mnemonic_of(Operation::SLLI)@ == seq!['S', 'L', 'L', 'I'],
        mnemonic_of(Operation::SLLIW)@ == seq!['S', 'L', 'L', 'I', 'W'],
        mnemonic_of(Operation::LD)@ == seq!['L', 'D'],
        mnemonic_of(Operation::BNE)@ == seq!['B', 'N', 'E'],
        mnemonic_of(Operation::BEQ)@ == seq!['B', 'E', 'Q'],
        mnemonic_of(Operation::BGE)@ == seq!['B', 'G', 'E'],
        mnemonic_of(Operation::BLT)@ == seq!['B', 'L', 'T'],
        mnemonic_of(Operation::BLTU)@ == seq!['B', 'L', 'T', 'U'],
        mnemonic_of(Operation::BGEU)@ == seq!['B', 'G', 'E', 'U'],
        mnemonic_of(Operation::AUIPC)@ == seq!['A', 'U', 'I', 'P', 'C'],
        mnemonic_of(Operation::LUI)@ == seq!['L', 'U', 'I'],
        mnemonic_of(Operation::C_ADDI16SP)@ == seq!['C', '.', 'A', 'D', 'D', 'I', '1', '6', 'S', 'P'],
        mnemonic_of(Operation::C_LUI)@ == seq!['C', '.', 'L', 'U', 'I'],
        mnemonic_of(Operation::C_ADDI)@ == seq!['C', '.', 'A', 'D', 'D', 'I'],
        mnemonic_of(Operation::C_SLLI)@ == seq!['C', '.', 'S', 'L', 'L', 'I'],
        mnemonic_of(Operation::C_LDSP)@ == seq!['C', '.', 'L', 'D', 'S', 'P'],
        mnemonic_of(Operation::C_LWSP)@ == seq!['C', '.', 'L', 'W', 'S', 'P'],
        mnemonic_of(Operation::C_LI)@ == seq!['C', '.', 'L', 'I'],
        mnemonic_of(Operation::C_ADDIW)@ == seq!['C', '.', 'A', 'D', 'D', 'I', 'W'],
        mnemonic_of(Operation::C_ADDI4SPN)@ == seq!['C', '.', 'A', 'D', 'D', 'I', '4', 'S', 'P', 'N'],
        mnemonic_of(Operation::C_J)@ == seq!['C', '.', 'J'],
        mnemonic_of(Operation::C_ADD)@ == seq!['C', '.', 'A', 'D', 'D'],
        mnemonic_of(Operation::C_JR)@ == seq!['C', '.', 'J', 'R'],
        mnemonic_of(Operation::C_MV)@ == seq!['C', '.', 'M', 'V'],
        mnemonic_of(Operation::C_SDSP)@ == seq!['C', '.', 'S', 'D', 'S', 'P'],
        mnemonic_of(Operation::C_FSWSP)@ == seq!['C', '.', 'F', 'S', 'W', 'S', 'P'],
{
    reveal_strlit("AND");
    reveal_strlit("OR");
    reveal_strlit("MUL");
    reveal_strlit("MULH");
    reveal_strlit("CSRRW");
    reveal_strlit("CSRRS");
    reveal_strlit("ADDI");
    reveal_strlit("ADDIW");
    reveal_strlit("ORI");
    reveal_strlit("JALR");
    reveal_strlit("SLLI");
    reveal_strlit("SLLIW");
    reveal_strlit("LD");
    reveal_strlit("BNE");
    reveal_strlit("BEQ");
    reveal_strlit("BGE");
    reveal_strlit("BLT");
    reveal_strlit("BLTU");
    reveal_strlit("BGEU");
    reveal_strlit("AUIPC");
    reveal_strlit("LUI");
    reveal_strlit("C.ADDI16SP");
    reveal_strlit("C.LUI");
    reveal_strlit("C.ADDI");
    reveal_strlit("C.SLLI");
    reveal_strlit("C.LDSP");
    reveal_strlit("C.LWSP");
    reveal_strlit("C.LI");
    reveal_strlit("C.ADDIW");
    reveal_strlit("C.ADDI4SPN");
    reveal_strlit("C.J");
    reveal_strlit("C.ADD");
    reveal_strlit("C.JR");
    reveal_strlit("C.MV");
    reveal_strlit("C.SDSP");
    reveal_strlit("C.FSWSP");
}

impl Operation {
    /// The assembler mnemonic of this operation.
    pub fn mnemonic(&self) -> (s: &'static str)
        ensures
            s == mnemonic_of(*self),
    {
        match self {
            Operation::AND => "AND",
            Operation::OR => "OR",
            Operation::MUL => "MUL",
            Operation::MULH => "MULH",
            Operation::CSRRW => "CSRRW",
            Operation::CSRRS => "CSRRS",
            Operation::ADDI => "ADDI",
            Operation::ADDIW => "ADDIW",
            Operation::ORI => "ORI",
            Operation::JALR => "JALR",
            Operation::SLLI => "SLLI",
            Operation::SLLIW => "SLLIW",
            Operation::LD => "LD",
            Operation::BNE => "BNE",
            Operation::BEQ => "BEQ",
            Operation::BGE => "BGE",
            Operation::BLT => "BLT",
            Operation::BLTU => "BLTU",
            Operation::BGEU => "BGEU",
            Operation::AUIPC => "AUIPC",
            Operation::LUI => "LUI",
            Operation::C_ADDI16SP => "C.ADDI16SP",
            Operation::C_LUI => "C.LUI",
            Operation::C_ADDI => "C.ADDI",
            Operation::C_SLLI => "C.SLLI",
            Operation::C_LDSP => "C.LDSP",
            Operation::C_LWSP => "C.LWSP",
            Operation::C_LI => "C.LI",
            Operation::C_ADDIW => "C.ADDIW",
            Operation::C_ADDI4SPN => "C.ADDI4SPN",
            Operation::C_J => "C.J",
            Operation::C_ADD => "C.ADD",
            Operation::C_JR => "C.JR",
            Operation::C_MV => "C.MV",
            Operation::C_SDSP => "C.SDSP",
            Operation::C_FSWSP => "C.FSWSP",
        }
    }
}

/// An instruction ready to run: its arguments, its mnemonic and the operation it performs.
pub struct Instruction<T> {
    pub args: Option<T>,
    pub mnemonic: &'static str,
    pub funct: Operation,
}

/// The instruction that `op` performs on `args`.
pub open spec fn instruction_of<T>(op: Operation, args: T) -> Instruction<T> {
    Instruction { args: Some(args), mnemonic: mnemonic_of(op), funct: op }
}

/// Chooses the operation that decoded arguments encode.
pub trait InstructionSelector<T> {
    /// The operation the arguments encode, if the executor implements one for them.
    spec fn operation(&self, xlen: Xlen) -> Option<Operation>;

    /// Whether the arguments select an operation the executor implements.
    fn selects(&self, xlen: Xlen) -> (b: bool)
        ensures
            b == self.operation(xlen) is Some,
    ;

    fn select(&self, xlen: Xlen) -> (i: Instruction<T>)
        requires
            self.operation(xlen) is Some,
        ensures
            i.funct == self.operation(xlen).unwrap(),
            i.mnemonic == mnemonic_of(i.funct),
    ;
}

} // verus!
