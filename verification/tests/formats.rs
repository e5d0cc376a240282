use rriscv::instructions::opcodes::MajorOpcode;
use rriscv::opcodes::OpCodes;
use rriscv::optypes::{compressed_optype, optype, OpType};

#[test]
fn opcodes_carry_their_function_bits() {
    assert_eq!(OpCodes::LUI.value(), 0x37);
    assert_eq!(OpCodes::SRAI.value(), 0x13 | (0b101 << 7) | (0b0100000 << 11));
    assert_eq!(OpCodes::from_u32(0x37), Some(OpCodes::LUI));
    assert_eq!(OpCodes::from_u32(0x7), None);
    assert_eq!(MajorOpcode::from_u8(0x33), Some(MajorOpcode::OP));
}

#[test]
fn formats_by_opcode() {
    assert_eq!(optype(0x13), OpType::I);
    assert_eq!(optype(0x37), OpType::U);
    assert_eq!(optype(0x6f), OpType::J);
    assert_eq!(optype(0x73), OpType::C);
    assert_eq!(optype(0x7f), OpType::Unknown);
    assert_eq!(compressed_optype(13), OpType::CI);
    assert_eq!(compressed_optype(12), OpType::Unknown);
}
