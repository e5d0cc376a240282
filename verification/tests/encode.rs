use rriscv::cpu::Xlen;
use rriscv::disassembler::Disassembler;
use rriscv::instructions::btype::Btype;
use rriscv::instructions::citype::CItype;
use rriscv::instructions::ciwtype::CIWtype;
use rriscv::instructions::crtype::CRtype;
use rriscv::instructions::functions::{Funct3, OpImm_Funct3, RV32M_Funct3};
use rriscv::instructions::itype::Itype;
use rriscv::instructions::opcodes::{CompressedOpcode, MajorOpcode};
use rriscv::instructions::rtype::Rtype;
use rriscv::instructions::Instruction;

#[test]
fn encode_r() {
    let instruction = Instruction::MUL(Rtype {
        opcode: MajorOpcode::OP,
        rd: 10,
        rs1: 9,
        rs2: 11,
        funct3: Funct3::from_u8(RV32M_Funct3::MUL.value()).unwrap(),
        funct7: 1,
    });
    assert_eq!("MUL x10,x9,x11".to_string(), instruction.to_string());
}

#[test]
fn encode_i() {
    let instruction = Instruction::ADDI(Itype {
        opcode: MajorOpcode::OP_IMM,
        rd: 3,
        rs1: 9,
        imm12: 0x80,
        funct3: OpImm_Funct3::ADDI.value(),
    });
    assert_eq!("ADDI x3,x9,128".to_string(), instruction.to_string());
}

#[test]
fn encode_b_and_compressed() {
    let b = Instruction::BNE(Btype {
        opcode: MajorOpcode::BRANCH,
        rd: 0,
        rs1: 5,
        rs2: 6,
        funct3: 1,
        imm12: 24,
    });
    assert_eq!(b.to_string(), "BNE x5,x6,24");
    let cr = Instruction::C_MV(CRtype {
        opcode: CompressedOpcode::C2,
        rs1_rd: 8,
        rs2: 9,
        funct1: 0,
        funct3: Funct3::B100,
    });
    assert_eq!(cr.to_string(), "C.MV x8,x9");
    let ciw = Instruction::C_ADDI4SPN(CIWtype {
        opcode: CompressedOpcode::C0,
        imm: 16,
        rd: 8,
        funct3: Funct3::B000,
    });
    assert_eq!(ciw.to_string(), "C.ADDI4SPN x8,x2,16");
    let ci = Instruction::C_LI(CItype {
        opcode: CompressedOpcode::C1,
        rs1_rd: 10,
        imm: 7,
        funct3: Funct3::B010,
        word: 0x451d,
    });
    assert_eq!(ci.to_string(), "C.LI x10,7");
}

#[test]
fn disassemble_lays_out_columns() {
    // ADDI x2,x2,2576: a short mnemonic is followed by two tabs.
    assert_eq!(Disassembler::disassemble(0xa1010113, Xlen::Bits64), "ADDI\tx2,x2,2576");
    assert_eq!(Disassembler::disassemble(0x02b48533, Xlen::Bits64), "MUL\t\tx10,x9,x11");
    // C.MV x8,x9 (0x8426): a long mnemonic is followed by one tab.
    assert_eq!(Disassembler::disassemble(0x8426, Xlen::Bits64), "C.MV\tx8,x9");
}
