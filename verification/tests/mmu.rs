use rriscv::cpu::{PrivMode, TrapCause, Xlen};
use rriscv::mmu::{AddressingMode, MemoryAccessType, MemoryRange, SV39Addr, PTEPermBit, MMU, PTE};
use rriscv::pipeline::Stage;

const VBASE: u64 = 0x8000_0000;

fn range(name: &str, start: u64, end: u64) -> MemoryRange {
    MemoryRange { name: name.to_string(), start, end }
}

fn machine() -> MMU {
    MMU::from_device_table(vec![
        range("memory", VBASE, VBASE + 0x4000),
        range("uart", 0x1000_0000, 0x1000_0100),
        range("interrupt-controller", 0x0c00_0000, 0x0c40_0000),
        range("clint", 0x0200_0000, 0x0200_1000),
        range("virtio_mmio", 0x1000_1000, 0x1000_2000),
    ])
}

#[test]
fn fresh_memory_system() {
    let mmu = machine();
    assert_eq!(mmu.memory.range.name, "memory");
    assert_eq!(mmu.memory.ram.data.len(), 0x4000);
    assert_eq!(mmu.pmode, PrivMode::Machine);
    assert_eq!(mmu.addressing_mode, AddressingMode::Bare);
    assert_eq!(mmu.device_table.len(), 5);
}

#[test]
fn find_named_range_takes_the_first() {
    let table = vec![range("a", 1, 2), range("b", 3, 4), range("a", 5, 6)];
    let found = MemoryRange::find_named_range(&table, "a").unwrap();
    assert_eq!((found.start, found.end), (1, 2));
    assert!(MemoryRange::find_named_range(&table, "c").is_none());
    assert!(found.includes(2));
    assert!(!found.includes(3));
}

#[test]
fn word_written_reads_back() {
    let mut mmu = machine();
    assert_eq!(mmu.write32(VBASE + 0x10, 0xcafe_f00d), None);
    assert_eq!(mmu.read32(VBASE + 0x10), Ok(0xcafe_f00d));
    assert_eq!(mmu.read8(VBASE + 0x10), Ok(0x0d));
    assert_eq!(mmu.write8(VBASE + 0x11, 0x99), None);
    assert_eq!(mmu.read32(VBASE + 0x10), Ok(0xcafe_990d));
    assert_eq!(mmu.fetch(VBASE + 0x10), Ok(0xcafe_990d));
}

#[test]
fn unmapped_accesses_fault() {
    let mut mmu = machine();
    assert_eq!(mmu.read32(0x4000_0000), Err(TrapCause::StoreAccessFault));
    assert_eq!(mmu.write32(0x4000_0000, 1), Some(TrapCause::LoadAccessFault));
    assert_eq!(mmu.read8(0x4000_0000), Err(TrapCause::Breakpoint));
    assert_eq!(mmu.fetch(0x4000_0000), Err(TrapCause::InstructionPageFault));
    // The last address of the range has no word behind it.
    assert_eq!(mmu.write32(VBASE + 0x4000, 1), Some(TrapCause::StoreAccessFault));
    assert_eq!(mmu.fetch(VBASE + 0x3ffe), Err(TrapCause::InstructionAccessFault));
}

#[test]
fn clint_registers() {
    let mut mmu = machine();
    assert_eq!(mmu.write32(0x0200_0008, 77), None);
    assert_eq!(mmu.read32(0x0200_0008), Ok(77));
    assert_eq!(mmu.write8(0x0200_0010, 5), None);
    assert_eq!(mmu.read8(0x0200_0010), Ok(5));
}

#[test]
fn uart_transmits_written_bytes() {
    let mut mmu = machine();
    // Line status register reads zero after reset.
    assert_eq!(mmu.read8(0x1000_0005), Ok(0));
    assert_eq!(mmu.write8(0x1000_0000, b'A'), None);
    assert_eq!(mmu.uart.state.thr, b'A');
    let mut mip = 0;
    for _ in 0..16 {
        mip = mmu.tick(mip);
    }
    assert_eq!(mip, 0);
    assert_eq!(mmu.take_uart_output(), vec![b'A']);
    assert_eq!(mmu.take_uart_output(), Vec::<u8>::new());
    assert_eq!(mmu.uart.state.thr, 0);
}

#[test]
fn plic_priorities_and_tick() {
    let mut mmu = machine();
    assert_eq!(mmu.write32(0x0c00_0010, 3), None);
    // The priority register is indexed by its byte offset.
    assert_eq!(mmu.plic.prios[0x10], 3);
    assert!(mmu.plic.needs_update_irq);
    assert_eq!(mmu.tick(0x8), 0x8);
    assert!(!mmu.plic.needs_update_irq);
    assert_eq!(mmu.plic.clock, 1);
}

#[test]
fn satp_selects_translation() {
    let mut mmu = machine();
    mmu.update_satp(0, Xlen::Bits64);
    assert_eq!(mmu.addressing_mode, AddressingMode::Bare);
    mmu.update_satp((8u64 << 60) | 0x80001, Xlen::Bits64);
    assert_eq!(mmu.addressing_mode, AddressingMode::SV39);
    assert_eq!(mmu.ppn, 0x80001);
    mmu.update_mstatus(0x1800);
    assert_eq!(mmu.mstatus, 0x1800);
}

#[test]
fn sv39_gigapage_translation() {
    let mut mmu = machine();
    // Root table at physical page 0x80001; entry 2 maps the gigapage at 0x8000_0000,
    // readable, writable and executable.
    let pte: u64 = (2 << 28) | 0xf;
    let pte_addr = 0x8000_1000 + 2 * 8;
    mmu.write32(pte_addr, pte as u32);
    mmu.write32(pte_addr + 4, (pte >> 32) as u32);
    mmu.update_satp((8u64 << 60) | 0x80001, Xlen::Bits64);
    mmu.update_privilege_mode(PrivMode::Supervisor);
    assert_eq!(mmu.translate_address(0x8000_0123, MemoryAccessType::READ), Some(0x8000_0123));
    // The walk marked the entry accessed.
    assert_eq!(mmu.memory.ram.read64(pte_addr), Ok(pte | 0x40));
    // A write marks it dirty too.
    assert_eq!(mmu.translate_address(0x8000_0200, MemoryAccessType::WRITE), Some(0x8000_0200));
    assert_eq!(mmu.memory.ram.read64(pte_addr), Ok(pte | 0xc0));
    // A word written through the mapping reads back through it.
    assert_eq!(mmu.write32(0x8000_0300, 0x5a5a_1234), None);
    assert_eq!(mmu.read32(0x8000_0300), Ok(0x5a5a_1234));
    // Entry 1 is empty: a page fault.
    assert_eq!(mmu.translate_address(0x4000_0000, MemoryAccessType::READ), None);
    assert_eq!(mmu.read8(0x4000_0000), Err(TrapCause::LoadAccessFault));
    // Machine mode does not translate.
    mmu.update_privilege_mode(PrivMode::Machine);
    assert_eq!(mmu.translate_address(0x4000_0000, MemoryAccessType::READ), Some(0x4000_0000));
}

#[test]
fn sv39_address_fields() {
    let va: u64 = (3 << 30) | (5 << 21) | (7 << 12) | 0x123;
    assert_eq!(va.level2(), 3);
    assert_eq!(va.level1(), 5);
    assert_eq!(va.level0(), 7);
    assert_eq!(va.offset(), 0x123);
    assert_eq!(va.get_vpns(), [7, 5, 3]);
    assert_eq!(va.address(), va);
    assert_eq!((1u64 << 40).tag(), 2);
}

#[test]
fn pte_permission_bits() {
    let mut pte: u64 = 0x12345 << 10;
    assert_eq!(pte.page_number(), 0x12345);
    assert!(!pte.has_permission_bit(PTEPermBit::READ));
    pte.set_permission_bit(PTEPermBit::READ);
    assert!(pte.has_permission_bit(PTEPermBit::READ));
    pte.set_permission_bit(PTEPermBit::ACCESSED);
    assert_eq!(pte & 0x40, 0x40);
    // Bits from GLOBAL on are never seen.
    assert!(!pte.has_permission_bit(PTEPermBit::ACCESSED));
}

#[test]
fn mmu_virtio_and_stage_helpers() {
    let mut mmu = machine();
    assert!(!mmu.virtio.is_interrupting());
    mmu.virtio_mut().device.interrupt_status = 1;
    assert!(mmu.virtio.is_interrupting());
    assert_eq!(Stage::writeback(3, 4), Stage::WRITEBACK(Some(rriscv::pipeline::WritebackStage { register: 3, value: 4 })));
}

#[test]
fn sv39_pointer_entry_walks_one_level_down() {
    let mut mmu = machine();
    // Root table at page 0x80001: entry 0 points to the table at page 0x80002, whose entry 3
    // maps the megapage at 0x8000_0000 read-only.
    let pointer: u64 = (0x80002 << 10) | 0x1;
    let leaf: u64 = (0x80000 << 10) | 0x3;
    mmu.write32(0x8000_1000, pointer as u32);
    mmu.write32(0x8000_1004, (pointer >> 32) as u32);
    mmu.write32(0x8000_2000 + 3 * 8, leaf as u32);
    mmu.write32(0x8000_2000 + 3 * 8 + 4, (leaf >> 32) as u32);
    mmu.update_satp((8u64 << 60) | 0x80001, Xlen::Bits64);
    mmu.update_privilege_mode(PrivMode::Supervisor);
    let va: u64 = (3 << 21) | 0x456;
    // Nothing is written back when the translation is only looked at.
    assert_eq!(mmu.peek_translation(va, MemoryAccessType::READ), Some(Some(0x8000_0456)));
    assert_eq!(mmu.peek_translation(va, MemoryAccessType::WRITE), Some(None));
    assert_eq!(mmu.memory.ram.read64(0x8000_2018), Ok(leaf));
    assert!(mmu.read32_allowed(va));
    assert!(mmu.write8_allowed(va));
    assert_eq!(mmu.translate_address(va, MemoryAccessType::READ), Some(0x8000_0456));
    // The leaf was marked accessed; the pointer entry was left as it was.
    assert_eq!(mmu.memory.ram.read64(0x8000_2018), Ok(leaf | 0x40));
    assert_eq!(mmu.memory.ram.read64(0x8000_1000), Ok(pointer));
    // An address whose root entry is empty faults.
    assert_eq!(mmu.peek_translation(1 << 30, MemoryAccessType::READ), Some(None));
}
