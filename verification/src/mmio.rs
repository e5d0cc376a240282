//! Memory-mapped devices: physical memory, the core-local interruptor, and the interface all
//! devices share.
use vstd::bytes::{
    spec_u32_from_le_bytes, spec_u32_to_le_bytes, spec_u64_from_le_bytes, spec_u64_to_le_bytes,
};
use vstd::prelude::*;

use crate::cpu::TrapCause;
use crate::memory::RAM;
use crate::mmu::MemoryRange;

pub use crate::plic::PLIC;
pub use crate::uart::{UartState, UART};
pub use crate::virtio::VIRTIO;

verus! {

/// A device mapped at a range of physical addresses.
pub trait VirtualDevice {
    /// The range the device is mapped at.
    spec fn device_range(&self) -> MemoryRange;

    /// The device's name.
    fn name(&self) -> (s: &str)
        ensures
            s@ == self.device_range().name@,
    ;

    /// Whether `addr` falls in the device's range.
    fn includes(&self, addr: u64) -> (b: bool)
        ensures
            b == self.device_range().contains(addr),
    ;
}

/// A placeholder for devices that have no model of their own.
pub struct MMIODevice {}

/// The RAM behind a range of physical addresses: `end - start` bytes from `start` on.
pub struct PhysicalMemory {
    pub range: MemoryRange,
    pub ram: RAM,
}

/// Zero-initialised RAM for `range`.
fn ram_for(range: &MemoryRange) -> (r: RAM)
    requires
        range.start <= range.end,
        range.end - range.start <= usize::MAX,
    ensures
        r.base == range.start,
        r.data@ == Seq::new((range.end - range.start) as nat, |i: int| 0u8),
{
    RAM::create(range.start, (range.end - range.start) as usize)
}

impl PhysicalMemory {
    /// Zeroed memory for `range`.
    pub fn create(range: MemoryRange) -> (m: PhysicalMemory)
        requires
            range.start <= range.end,
            range.end - range.start <= usize::MAX,
        ensures
            m.range == range,
            m.ram.base == range.start,
            m.ram.data@ == Seq::new((range.end - range.start) as nat, |i: int| 0u8),
    {
        let ram = ram_for(&range);
        PhysicalMemory { range, ram }
    }

    /// The byte at physical address `addr`.
    pub fn read8(&self, addr: u64) -> (r: Result<u8, TrapCause>)
        ensures
            r == if self.ram.holds(addr, 1) {
                Ok(self.ram.data@[addr - self.ram.base])
            } else {
                Err(TrapCause::LoadAccessFault)
            },
    {
        self.ram.read8(addr)
    }

    /// The little-endian word at physical address `addr`.
    pub fn read32(&self, addr: u64) -> (r: Result<u32, TrapCause>)
        ensures
            r == if self.ram.holds(addr, 4) {
                Ok(spec_u32_from_le_bytes(self.ram.bytes_at(addr, 4)))
            } else {
                Err(TrapCause::LoadAccessFault)
            },
    {
        self.ram.read32(addr)
    }

    /// Stores a byte at physical address `addr`.
    pub fn write8(&mut self, addr: u64, value: u8) -> (r: Option<TrapCause>)
        ensures
            final(self).range == old(self).range,
            final(self).ram.base == old(self).ram.base,
            if old(self).ram.holds(addr, 1) {
                r is None && final(self).ram.data@ == old(self).ram.stored(addr, seq![value])
            } else {
                r == Some(TrapCause::StoreAccessFault) && final(self).ram.data@ == old(self).ram.data@
            },
    {
        self.ram.write8(addr, value)
    }

    /// Stores a word, least significant byte first, at physical address `addr`.
    pub fn write32(&mut self, addr: u64, value: u32) -> (r: Option<TrapCause>)
        ensures
            final(self).range == old(self).range,
            final(self).ram.base == old(self).ram.base,
            if old(self).ram.holds(addr, 4) {
                r is None && final(self).ram.data@ == old(self).ram.stored(
                    addr,
                    spec_u32_to_le_bytes(value),
                )
            } else {
                r == Some(TrapCause::StoreAccessFault) && final(self).ram.data@ == old(self).ram.data@
            },
    {
        self.ram.write32(addr, value)
    }

    /// The little-endian doubleword at physical address `addr`.
    pub fn read64(&self, addr: u64) -> (r: Result<u64, TrapCause>)
        ensures
            r == if self.ram.holds(addr, 8) {
                Ok(spec_u64_from_le_bytes(self.ram.bytes_at(addr, 8)))
            } else {
                Err(TrapCause::LoadAccessFault)
            },
    {
        self.ram.read64(addr)
    }

    /// Stores a doubleword, least significant byte first, at physical address `addr`.
    pub fn write64(&mut self, addr: u64, value: u64) -> (r: Option<TrapCause>)
        ensures
            final(self).range == old(self).range,
            final(self).ram.base == old(self).ram.base,
            if old(self).ram.holds(addr, 8) {
                r is None && final(self).ram.data@ == old(self).ram.stored(
                    addr,
                    spec_u64_to_le_bytes(value),
                )
            } else {
                r == Some(TrapCause::StoreAccessFault) && final(self).ram.data@ == old(self).ram.data@
            },
    {
        self.ram.write64(addr, value)
    }
}

impl VirtualDevice for PhysicalMemory {
    open spec fn device_range(&self) -> MemoryRange {
        self.range
    }

    fn name(&self) -> (s: &str) {
        self.range.name.as_str()
    }

    fn includes(&self, addr: u64) -> (b: bool) {
        self.range.includes(addr)
    }
}

/// The core-local interruptor: registers kept in RAM.
pub struct CLINT {
    pub range: MemoryRange,
    pub ram: RAM,
}

impl CLINT {
    /// Zeroed registers for `range`.
    pub fn create(range: MemoryRange) -> (c: CLINT)
        requires
            range.start <= range.end,
            range.end - range.start <= usize::MAX,
        ensures
            c.range == range,
            c.ram.base == range.start,
            c.ram.data@ == Seq::new((range.end - range.start) as nat, |i: int| 0u8),
    {
        let ram = ram_for(&range);
        CLINT { range, ram }
    }

    /// The byte at physical address `addr`.
    pub fn read8(&self, addr: u64) -> (r: Result<u8, TrapCause>)
        ensures
            r == if self.ram.holds(addr, 1) {
                Ok(self.ram.data@[addr - self.ram.base])
            } else {
                Err(TrapCause::LoadAccessFault)
            },
    {
        self.ram.read8(addr)
    }

    /// The little-endian word at physical address `addr`.
    pub fn read32(&self, addr: u64) -> (r: Result<u32, TrapCause>)
        ensures
            r == if self.ram.holds(addr, 4) {
                Ok(spec_u32_from_le_bytes(self.ram.bytes_at(addr, 4)))
            } else {
                Err(TrapCause::LoadAccessFault)
            },
    {
        self.ram.read32(addr)
    }

    /// Stores a byte at physical address `addr`.
    pub fn write8(&mut self, addr: u64, value: u8) -> (r: Option<TrapCause>)
        ensures
            final(self).range == old(self).range,
            final(self).ram.base == old(self).ram.base,
            if old(self).ram.holds(addr, 1) {
                r is None && final(self).ram.data@ == old(self).ram.stored(addr, seq![value])
            } else {
                r == Some(TrapCause::StoreAccessFault) && final(self).ram.data@ == old(self).ram.data@
            },
    {
        self.ram.write8(addr, value)
    }

    /// Stores a word, least significant byte first, at physical address `addr`.
    pub fn write32(&mut self, addr: u64, value: u32) -> (r: Option<TrapCause>)
        ensures
            final(self).range == old(self).range,
            final(self).ram.base == old(self).ram.base,
            if old(self).ram.holds(addr, 4) {
                r is None && final(self).ram.data@ == old(self).ram.stored(
                    addr,
                    spec_u32_to_le_bytes(value),
                )
            } else {
                r == Some(TrapCause::StoreAccessFault) && final(self).ram.data@ == old(self).ram.data@
            },
    {
        self.ram.write32(addr, value)
    }
}

impl VirtualDevice for CLINT {
    open spec fn device_range(&self) -> MemoryRange {
        self.range
    }

    fn name(&self) -> (s: &str) {
        self.range.name.as_str()
    }

    fn includes(&self, addr: u64) -> (b: bool) {
        self.range.includes(addr)
    }
}

} // verus!
