use std::time::Instant;

use rriscv::cpu::Core;
use rriscv::instructions::opcodes::MajorOpcode;
use rriscv::instructions::utype::Utype;
use rriscv::instructions::Instruction;
use rriscv::memory::Memory;
use rriscv::pipeline::Stage;

const VBASE: u64 = 0x8000_0000;

#[test]
pub fn perf_auipc() {
    let start = Instant::now();

    let utype = Utype { imm20: 9, opcode: MajorOpcode::AUIPC, rd: 2 };
    let utype2 = Utype { imm20: 1, opcode: MajorOpcode::AUIPC, rd: 2 };
    let iterations: u64 = 10000000;

    let _memory = Memory::create(VBASE, 4096);
    let mut core = Core::create(0x0);
    let mut sum: u64 = 0;

    for _i in 0..iterations {
        let instr = Instruction::AUIPC(utype);
        match instr.run(&mut core) {
            Stage::WRITEBACK(wb) => sum = sum.wrapping_add(wb.unwrap().value),
            _ => panic!(),
        }
        let instr = Instruction::AUIPC(utype2);
        match instr.run(&mut core) {
            Stage::WRITEBACK(wb) => sum = sum.wrapping_add(wb.unwrap().value),
            _ => panic!(),
        }
    }

    let duration = start.elapsed();
    println!(
        "sum: {:#x?}  duration: {:?} ({}M/s)",
        sum,
        duration,
        (iterations as f32 / duration.as_secs_f32()) / 1e6
    );
    // At pc 0 each pair of instructions gives (9 << 12) + (1 << 12).
    assert_eq!(sum, iterations * ((9 << 12) + (1 << 12)));
}
