use rriscv::cpu::{CSRRegister, Core, PrivMode, TrapCause, Xlen};
use rriscv::elf::Loader;
use rriscv::instructions::decoder::DecodedInstruction;
use rriscv::instructions::btype::Btype;
use rriscv::instructions::itype::Itype;
use rriscv::instructions::opcodes::MajorOpcode;
use rriscv::instructions::utype::Utype;
use rriscv::instructions::Instruction;
use rriscv::mmu::{MemoryRange, MMU};
use rriscv::pipeline::{MemoryAccess, RawInstruction, Stage, WritebackStage};

const VBASE: u64 = 0x8000_0000;

fn range(name: &str, start: u64, end: u64) -> MemoryRange {
    MemoryRange { name: name.to_string(), start, end }
}

fn machine() -> MMU {
    MMU::from_device_table(vec![
        range("memory", VBASE, VBASE + 0x4000),
        range("uart", 0x1000_0000, 0x1000_0100),
        range("interrupt-controller", 0x0c00_0000, 0x0c40_0000),
        range("clint", 0x0200_0000, 0x0200_1000),
        range("virtio_mmio", 0x1000_1000, 0x1000_2000),
    ])
}

#[test]
fn register_zero_reads_zero() {
    let mut core = Core::create(7);
    assert_eq!(core.read_register(0), 0);
    core.write_register(5, 42);
    assert_eq!(core.read_register(5), 42);
    assert_eq!(core.read_register(6), 0);
    assert_eq!(core.read_register(0), 0);
}

#[test]
fn csr_views_and_fields() {
    let mut core = Core::create(7);
    assert_eq!(core.read_csr(CSRRegister::mhartid), 7);
    core.write_csr(CSRRegister::mstatus, u64::MAX);
    assert_eq!(core.read_csr(CSRRegister::sstatus), 0x80000003000de162);
    core.write_csr(CSRRegister::sstatus, 0);
    assert_eq!(core.read_csr(CSRRegister::mstatus), !0x80000003000de162u64);
    core.write_csr(CSRRegister::sie, 0xffff);
    assert_eq!(core.read_csr(CSRRegister::mie), 0x222);
    assert_eq!(core.read_csr(CSRRegister::sie), 0x222);
    core.write_csr(CSRRegister::fflags, 0xff);
    core.write_csr(CSRRegister::frm, 0xff);
    assert_eq!(core.read_csr(CSRRegister::fflags), 0x1f);
    assert_eq!(core.read_csr(CSRRegister::frm), 0x7);
    assert_eq!(core.read_csr(CSRRegister::fcsr), 0xff);
    core.write_csr(CSRRegister::mideleg, u64::MAX);
    assert_eq!(core.read_csr(CSRRegister::mideleg), 0x666);
    core.write_csr(CSRRegister::mepc, 0x1234);
    assert_eq!(core.read_csr(CSRRegister::mepc), 0x1234);
}

#[test]
fn bit_extend_follows_xlen() {
    let mut core = Core::create(0);
    assert_eq!(core.bit_extend(0x1_8000_0000), 0x1_8000_0000);
    core.xlen = Xlen::Bits32;
    assert_eq!(core.bit_extend(0x8000_0000), -0x8000_0000);
    assert_eq!(core.bit_extend(0x1_7fff_ffff), 0x7fff_ffff);
}

#[test]
fn pmode_and_pc() {
    let mut core = Core::create(0);
    assert_eq!(core.pmode(), PrivMode::Machine);
    assert_eq!(core.set_pmode(PrivMode::Supervisor), PrivMode::Machine);
    assert_eq!(core.pmode(), PrivMode::Supervisor);
    core.reset(0x100);
    assert_eq!(core.pc(), 0x100);
    core.add_pc(4);
    assert_eq!(core.pc(), 0x104);
}

#[test]
fn symbol_trace() {
    let mut core = Core::create(0);
    core.add_symbol(0x100, "start".to_string());
    core.add_symbol(0x200, "main".to_string());
    assert_eq!(core.find_closest_symbol(0x100), Some((0x100, "start".to_string())));
    assert_eq!(core.find_closest_symbol(0x104), None);
    core.set_pc(0x100);
    core.set_pc(0x100);
    core.set_pc(0x104);
    core.set_pc(0x200);
    assert_eq!(core.pc(), 0x200);
    let trace: Vec<(u64, String)> = core.symboltrace.iter().cloned().collect();
    assert_eq!(trace, vec![(0x100, "start".to_string()), (0x200, "main".to_string())]);
}

#[test]
fn addi_sign_extends_its_immediate() {
    let mut core = Core::create(0);
    core.write_register(1, 10);
    let instruction = Instruction::ADDI(Itype { opcode: MajorOpcode::OP_IMM, rd: 2, rs1: 1, funct3: 0, imm12: 0xfff });
    assert_eq!(
        instruction.run(&mut core),
        Stage::WRITEBACK(Some(WritebackStage { register: 2, value: 9 }))
    );
    let lui = Instruction::LUI(Utype { opcode: MajorOpcode::LUI, rd: 3, imm20: 0x12345 });
    assert_eq!(
        lui.run(&mut core),
        Stage::WRITEBACK(Some(WritebackStage { register: 3, value: 0x1234_5000 }))
    );
}

#[test]
fn program_runs_through_the_pipeline() {
    let mut mmu = machine();
    let mut core = Core::create(0);
    // addi x1,x0,5 ; addi x2,x1,-1
    let program: [u8; 8] = [0x93, 0x00, 0x50, 0x00, 0x13, 0x81, 0xf0, 0xff];
    Loader::create(VBASE).load(&mut mmu, VBASE, &program);
    core.reset(VBASE);
    assert_eq!(core.stage, Stage::FETCH);
    core.cycle(&mut mmu);
    assert_eq!(
        core.stage,
        Stage::DECODE(RawInstruction { compressed: false, word: 0x00500093, pc: VBASE })
    );
    assert_eq!(core.pc(), VBASE + 4);
    core.cycle(&mut mmu);
    assert!(matches!(core.stage, Stage::EXECUTE(DecodedInstruction::I(_))));
    core.cycle(&mut mmu);
    assert_eq!(core.stage, Stage::WRITEBACK(Some(WritebackStage { register: 1, value: 5 })));
    core.cycle(&mut mmu);
    assert_eq!(core.stage, Stage::FETCH);
    for _ in 0..4 {
        core.cycle(&mut mmu);
    }
    assert_eq!(core.read_register(1), 5);
    assert_eq!(core.read_register(2), 4);
    assert_eq!(core.read_csr(CSRRegister::minstret), 2);
    assert_eq!(core.pc(), VBASE + 8);
    assert_eq!(core.prev_pc, VBASE + 4);
}

#[test]
fn writeback_counts_retired_instructions_per_mode() {
    let mut core = Core::create(0);
    core.write_csr(CSRRegister::minstret, u64::MAX);
    assert_eq!(core.writeback(None), Stage::FETCH);
    assert_eq!(core.read_csr(CSRRegister::minstret), 0);
    assert_eq!(core.read_csr(CSRRegister::minstreth), 1);
    core.set_pmode(PrivMode::User);
    core.writeback(Some(WritebackStage { register: 4, value: 9 }));
    assert_eq!(core.read_csr(CSRRegister::instret), 1);
    assert_eq!(core.read_register(4), 9);
}

#[test]
fn memory_stage_reads_and_swaps() {
    let mut mmu = machine();
    let mut core = Core::create(0);
    mmu.write32(VBASE + 0x100, 0x89ab_cdef);
    mmu.write32(VBASE + 0x104, 0x0123_4567);
    assert_eq!(
        core.memory(&mut mmu, &MemoryAccess::READ64(VBASE + 0x100, 6)),
        Stage::WRITEBACK(Some(WritebackStage { register: 6, value: 0x0123_4567_89ab_cdef }))
    );
    assert_eq!(
        core.memory(&mut mmu, &MemoryAccess::WRITE64(VBASE + 0x200, 0x1111_2222_3333_4444)),
        Stage::WRITEBACK(None)
    );
    assert_eq!(mmu.read32(VBASE + 0x200), Ok(0x3333_4444));
    assert_eq!(mmu.read32(VBASE + 0x204), Ok(0x1111_2222));
    assert_eq!(
        core.memory(&mut mmu, &MemoryAccess::AMOSWAP_W(VBASE + 0x100, VBASE + 0x104, 7)),
        Stage::WRITEBACK(Some(WritebackStage { register: 7, value: 0x89ab_cdef }))
    );
    assert_eq!(mmu.read32(VBASE + 0x100), Ok(0x0123_4567));
    assert_eq!(mmu.read32(VBASE + 0x104), Ok(0x89ab_cdef));
    assert_eq!(
        core.memory(&mut mmu, &MemoryAccess::READ8(VBASE + 0x104, 8)),
        Stage::WRITEBACK(Some(WritebackStage { register: 8, value: 0xef }))
    );
}

#[test]
fn traps_return_to_fetch() {
    let mut mmu = machine();
    let mut core = Core::create(0);
    core.stage = Stage::ENTER_TRAP(TrapCause::Breakpoint);
    core.cycle(&mut mmu);
    assert_eq!(core.stage, Stage::EXIT_TRAP);
    core.cycle(&mut mmu);
    assert_eq!(core.stage, Stage::FETCH);
}

#[test]
fn branch_offsets_are_signed() {
    let mut core = Core::create(0);
    core.prev_pc = 0x100;
    core.write_register(5, 1);
    let back = Instruction::BNE(Btype { opcode: MajorOpcode::BRANCH, rd: 0, rs1: 5, rs2: 0, funct3: 1, imm12: 0xffc });
    assert_eq!(back.run(&mut core), Stage::WRITEBACK(None));
    assert_eq!(core.pc(), 0xfc);
    let not_taken = Instruction::BEQ(Btype { opcode: MajorOpcode::BRANCH, rd: 0, rs1: 5, rs2: 0, funct3: 0, imm12: 0x10 });
    not_taken.run(&mut core);
    assert_eq!(core.pc(), 0xfc);
}

#[test]
fn doubleword_written_by_the_memory_stage_reads_back() {
    let mut mmu = machine();
    let mut core = Core::create(0);
    let value: u64 = 0xfedc_ba98_7654_3210;
    assert_eq!(core.memory(&mut mmu, &MemoryAccess::WRITE64(VBASE + 0x300, value)), Stage::WRITEBACK(None));
    assert_eq!(
        core.memory(&mut mmu, &MemoryAccess::READ64(VBASE + 0x300, 9)),
        Stage::WRITEBACK(Some(WritebackStage { register: 9, value }))
    );
}

#[test]
fn checked_load_stops_at_the_first_unwritable_byte() {
    let mut mmu = machine();
    let loader = Loader::create(VBASE);
    assert_eq!(loader.try_load(&mut mmu, VBASE + 0x3ffe, &[1, 2, 3, 4]), Err(VBASE + 0x4001));
    // The bytes before it were written.
    assert_eq!(mmu.read8(VBASE + 0x3ffe), Ok(1));
    assert_eq!(mmu.read8(VBASE + 0x3fff), Ok(2));
    assert_eq!(loader.try_load(&mut mmu, VBASE + 0x20, &[0xaa, 0xbb]), Ok(()));
    assert_eq!(mmu.read8(VBASE + 0x21), Ok(0xbb));
}
