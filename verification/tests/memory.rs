use rriscv::cpu::TrapCause;
use rriscv::memory::{Memory, MemoryAccessWidth, MemoryOperations, RAM};

#[test]
pub fn zero_initialized() {
    let vbase: u64 = 0x8000_0000;
    let memory = &mut RAM::create(vbase, 4096);

    for i in 0..4095 {
        let r = memory.read8(vbase.wrapping_add(i)).unwrap();
        assert!(r == 0, "0 != {}", r)
    }
}

#[test]
pub fn write_read_single() {
    let vbase: u64 = 0x8000_0000;
    let memory = &mut RAM::create(vbase, 4096);

    for i in 0..4095 {
        memory.write8(vbase.wrapping_add(i), i as u8);
    }

    for i in 0..4095 {
        let ret = memory.read8(vbase.wrapping_add(i)).unwrap();
        assert!(ret == (i & 0xff) as u8, "{} != {}", i, ret);
    }
}

#[test]
fn ram_wider_values_read_back() {
    let vbase: u64 = 0x8000_0000;
    let mut memory = RAM::create(vbase, 64);
    assert_eq!(memory.write16(vbase + 2, 0xbeef), None);
    assert_eq!(memory.read16(vbase + 2), Ok(0xbeef));
    assert_eq!(memory.write32(vbase + 8, 0xdead_beef), None);
    assert_eq!(memory.read32(vbase + 8), Ok(0xdead_beef));
    assert_eq!(memory.write64(vbase + 16, 0x0123_4567_89ab_cdef), None);
    assert_eq!(memory.read64(vbase + 16), Ok(0x0123_4567_89ab_cdef));
    // Little-endian: the lowest byte comes first.
    assert_eq!(memory.read8(vbase + 8), Ok(0xef));
    assert_eq!(memory.read8(vbase + 16), Ok(0xef));
    // Neighbours are untouched.
    assert_eq!(memory.read8(vbase + 1), Ok(0));
    assert_eq!(memory.read8(vbase + 12), Ok(0));
}

#[test]
fn ram_access_outside_faults() {
    let vbase: u64 = 0x8000_0000;
    let mut memory = RAM::create(vbase, 16);
    assert_eq!(memory.read8(vbase - 1), Err(TrapCause::LoadAccessFault));
    assert_eq!(memory.read8(vbase + 16), Err(TrapCause::LoadAccessFault));
    assert_eq!(memory.read32(vbase + 13), Err(TrapCause::LoadAccessFault));
    assert_eq!(memory.read64(vbase + 9), Err(TrapCause::LoadAccessFault));
    assert_eq!(memory.write8(vbase + 16, 1), Some(TrapCause::StoreAccessFault));
    assert_eq!(memory.write32(vbase + 14, 1), Some(TrapCause::StoreAccessFault));
    assert_eq!(memory.read8(vbase + 15), Ok(0));
}

#[test]
fn memory_byte_reads_back() {
    let mut memory = Memory::create(0x1000, 32);
    assert!(memory.write_single(0x1004, 0x1a5, MemoryAccessWidth::BYTE));
    assert_eq!(memory.read_single(0x1004, MemoryAccessWidth::BYTE), Some(0xa5));
    assert_eq!(memory.get_base_address(), 0x1000);
}

#[test]
fn memory_wide_writes_store_most_significant_byte_first() {
    let mut memory = Memory::create(0x1000, 32);
    memory.write_single(0x1000, 0x1234, MemoryAccessWidth::HALFWORD);
    assert_eq!(memory.read_single(0x1000, MemoryAccessWidth::BYTE), Some(0x12));
    assert_eq!(memory.read_single(0x1001, MemoryAccessWidth::BYTE), Some(0x34));
    // Reads assemble the bytes least significant first.
    assert_eq!(memory.read_single(0x1000, MemoryAccessWidth::HALFWORD), Some(0x3412));
    memory.write_single(0x1008, 0x0102_0304, MemoryAccessWidth::WORD);
    assert_eq!(memory.read_single(0x1008, MemoryAccessWidth::WORD), Some(0x0403_0201));
    // A LONG read returns the word at the address.
    assert_eq!(memory.read_single(0x1008, MemoryAccessWidth::LONG), Some(0x0403_0201));
}
