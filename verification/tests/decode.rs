use rriscv::cpu::Core;
use rriscv::decoder::{CSStype, DecodedInstruction, InstructionDecoder, Itype, Jtype, Stype, Utype};
use rriscv::instructions::decoder::decode_instruction;
use rriscv::opcodes::{CompressedOpcode, MajorOpcode};
use rriscv::pipeline::RawInstruction;

const VBASE: u64 = 0x8000_0000;

fn decoded(word: u32, compressed: bool) -> DecodedInstruction {
    let raw = RawInstruction { compressed, word, pc: VBASE };
    let through_core = Core::create(0).decode_instruction(raw);
    let direct = decode_instruction(raw);
    assert_eq!(through_core, direct);
    direct
}

#[test]
fn decode_lui() {
    assert_eq!(
        decoded(0x02004737, false),
        DecodedInstruction::U(Utype { opcode: MajorOpcode::LUI, rd: 14, imm20: 0x2004 })
    );
    assert_eq!(
        decoded(0x07ff4737, false),
        DecodedInstruction::U(Utype { opcode: MajorOpcode::LUI, rd: 14, imm20: 0x7ff4 })
    );
}

#[test]
fn decode_auipc() {
    assert_eq!(
        decoded(0x00009117, false),
        DecodedInstruction::U(Utype { opcode: MajorOpcode::AUIPC, rd: 2, imm20: 0x09 })
    );
}

#[test]
fn decode_jal() {
    assert_eq!(
        decoded(0x076000ef, false),
        DecodedInstruction::J(Jtype { opcode: MajorOpcode::JAL, imm20: 0x3b, rd: 1 })
    );
}

#[test]
fn decode_addi() {
    assert_eq!(
        decoded(0xa1010113, false),
        DecodedInstruction::I(Itype {
            opcode: MajorOpcode::OP_IMM,
            rd: 2,
            rs1: 2,
            imm12: 2576,
            funct3: 0b000
        })
    );
}

#[test]
fn decode_sd() {
    assert_eq!(
        decoded(0x00113423, false),
        DecodedInstruction::S(Stype { opcode: MajorOpcode::STORE, rs1: 2, rs2: 1, funct3: 0b011, imm12: 8 })
    );
}

#[test]
fn decode_c_sdsp() {
    assert_eq!(
        decoded(0xe406, true),
        DecodedInstruction::CSS(CSStype { opcode: CompressedOpcode::C2, rs2: 1, funct3: 0b111, uimm: 8 })
    );
}

#[test]
fn decode_csrrw() {
    assert_eq!(
        decoded(0x30079073, false),
        DecodedInstruction::I(Itype {
            opcode: MajorOpcode::SYSTEM,
            rd: 0,
            rs1: 15,
            funct3: 0b001,
            imm12: 0x300
        })
    );
    assert_eq!(
        decoded(0x302790f3, false),
        DecodedInstruction::I(Itype {
            opcode: MajorOpcode::SYSTEM,
            rd: 1,
            rs1: 15,
            funct3: 0b001,
            imm12: 0x302
        })
    );
}

#[test]
fn raw_instruction_from_word() {
    let full = RawInstruction::from_word(0xa1010113, 8);
    assert!(!full.compressed);
    assert_eq!(full.word, 0xa1010113);
    assert_eq!(full.size_in_bytes(), 4);
    let short = RawInstruction::from_word(0x1234_e406, 8);
    assert!(short.compressed);
    assert_eq!(short.word, 0xe406);
    assert_eq!(short.size_in_bytes(), 2);
}

#[test]
fn compressed_register_fields_name_x8_to_x15() {
    // C.SD x8, 0(x12): rs1' = inst[9:7] = 0b100.
    assert_eq!(
        decoded(0xe200, true),
        DecodedInstruction::CS(rriscv::decoder::CStype {
            opcode: CompressedOpcode::C0,
            rs1: 12,
            rs2: 8,
            funct: 0,
            funct6: 0x38
        })
    );
    // C.LW x15, 0(x15): both fields at their largest.
    match decoded(0x439c, true) {
        DecodedInstruction::CL(cl) => {
            assert_eq!((cl.rd, cl.rs1, cl.imm), (15, 15, 0));
        }
        other => panic!("not a CL instruction: {:?}", other),
    }
}
