//! Byte-addressed memory: `Memory`, read and written by access width, and `RAM`, the
//! little-endian memory behind physical memory and memory-mapped device registers.
use vstd::bytes::{
    lemma_auto_spec_u16_to_from_le_bytes, lemma_auto_spec_u32_to_from_le_bytes,
    lemma_auto_spec_u64_to_from_le_bytes, spec_u16_from_le_bytes, spec_u16_to_le_bytes,
    spec_u32_from_le_bytes, spec_u32_to_le_bytes, spec_u64_from_le_bytes, spec_u64_to_le_bytes,
    u16_from_le_bytes, u16_to_le_bytes, u32_from_le_bytes, u32_to_le_bytes, u64_from_le_bytes,
    u64_to_le_bytes,
};
use vstd::prelude::*;
use vstd::slice::slice_subrange;

use crate::cpu::TrapCause;

verus! {

/// The width of a memory access.
#[derive(Debug, Copy, Clone, PartialEq, Eq, Structural)]
pub enum MemoryAccessWidth {
    BYTE,  // 8 bits
    HALFWORD,  // 16 bits
    WORD,  // 32 bits
    LONG,  // 64 bits
}

/// The number of bytes an access of a width touches.
pub open spec fn width_bytes(maw: MemoryAccessWidth) -> nat {
    match maw {
        MemoryAccessWidth::BYTE => 1,
        MemoryAccessWidth::HALFWORD => 2,
        MemoryAccessWidth::WORD => 4,
        MemoryAccessWidth::LONG => 8,
    }
}

/// `data` with `bytes` written over it from offset `off` on.
pub open spec fn splice(data: Seq<u8>, off: int, bytes: Seq<u8>) -> Seq<u8> {
    data.subrange(0, off) + bytes + data.subrange(off + bytes.len(), data.len() as int)
}

/// Writes `bytes` into `data` from offset `off` on.
fn store_bytes(data: &mut Vec<u8>, off: usize, bytes: &Vec<u8>)
    requires
        off + bytes@.len() <= old(data)@.len(),
    ensures
        final(data)@ == splice(old(data)@, off as int, bytes@),
{
    let ghost d0 = data@;
    assert(data@.len() == data.len());
    let mut i: usize = 0;
    while i < bytes.len()
        invariant
            i <= bytes@.len(),
            off + bytes@.len() <= d0.len(),
            d0.len() <= usize::MAX,
            data@.len() == d0.len(),
            forall|j: int| 0 <= j < off ==> data@[j] == d0[j],
            forall|j: int| off <= j < off + i ==> data@[j] == bytes@[j - off],
            forall|j: int| off + i <= j < d0.len() ==> data@[j] == d0[j],
        decreases bytes@.len() - i,
    {
        data.set(off + i, bytes[i]);
        i = i + 1;
    }
    assert(data@ =~= splice(d0, off as int, bytes@));
}

/// Memory of `size` bytes starting at `base_address`. Multi-byte writes store the value's
/// bytes most significant first; multi-byte reads assemble them least significant first, and a
/// LONG read returns only the 32-bit word at the address.
#[derive(Debug)]
pub struct Memory {
    pub base_address: u64,
    pub size: usize,
    pub data: Vec<u8>,
}

/// What a read of width `maw` at offset `off` of `data` returns.
pub open spec fn memory_read(data: Seq<u8>, off: int, maw: MemoryAccessWidth) -> u64 {
    match maw {
        MemoryAccessWidth::BYTE => data[off] as u64,
        MemoryAccessWidth::HALFWORD => spec_u16_from_le_bytes(data.subrange(off, off + 2)) as u64,
        _ => spec_u32_from_le_bytes(data.subrange(off, off + 4)) as u64,
    }
}

/// The bytes a write of width `maw` stores: the low bytes of `value`, most significant first.
pub open spec fn memory_write_bytes(value: u64, maw: MemoryAccessWidth) -> Seq<u8> {
    match maw {
        MemoryAccessWidth::BYTE => seq![value as u8],
        MemoryAccessWidth::HALFWORD => seq![(value >> 8u64) as u8, value as u8],
        MemoryAccessWidth::WORD => seq![
            (value >> 24u64) as u8,
            (value >> 16u64) as u8,
            (value >> 8u64) as u8,
            value as u8,
        ],
        MemoryAccessWidth::LONG => seq![
            (value >> 56u64) as u8,
            (value >> 48u64) as u8,
            (value >> 40u64) as u8,
            (value >> 32u64) as u8,
            (value >> 24u64) as u8,
            (value >> 16u64) as u8,
            (value >> 8u64) as u8,
            value as u8,
        ],
    }
}

/// Memory that can be read and written at a given width.
pub trait MemoryOperations {
    /// Whether an access of width `maw` at `addr` lies within the memory.
    spec fn accessible(&self, addr: u64, maw: MemoryAccessWidth) -> bool;

    fn get_base_address(&self) -> u64;

    fn read_single(&self, addr: u64, memory_access_width: MemoryAccessWidth) -> Option<u64>
        requires
            self.accessible(addr, memory_access_width),
    ;

    fn write_single(&mut self, addr: u64, value: u64, memory_access_width: MemoryAccessWidth) -> bool
        requires
            old(self).accessible(addr, memory_access_width),
    ;
}

impl Memory {
    /// Whether the memory holds exactly `size` bytes and ends within the address space.
    pub open spec fn wf(&self) -> bool {
        &&& self.data@.len() == self.size
        &&& self.base_address + self.size <= usize::MAX
    }

    /// Zero-filled memory of `size` bytes from `base_address` on.
    pub fn create(base_address: u64, size: usize) -> (m: Memory)
        requires
            base_address + size <= usize::MAX,
        ensures
            m.wf(),
            m.base_address == base_address,
            m.size == size,
            m.data@ == Seq::new(size as nat, |i: int| 0u8),
    {
        let mut data: Vec<u8> = Vec::new();
        let mut i: usize = 0;
        while i < size
            invariant
                i <= size,
                data@ == Seq::new(i as nat, |j: int| 0u8),
            decreases size - i,
        {
            data.push(0);
            i = i + 1;
            assert(data@ =~= Seq::new(i as nat, |j: int| 0u8));
        }
        Memory { base_address, size, data }
    }
}

impl MemoryOperations for Memory {
    open spec fn accessible(&self, addr: u64, maw: MemoryAccessWidth) -> bool {
        &&& self.wf()
        &&& self.base_address <= addr
        &&& addr + width_bytes(maw) <= self.base_address + self.size
    }

    fn get_base_address(&self) -> (b: u64)
        ensures
            b == self.base_address,
    {
        self.base_address
    }

    /// Reads at `addr`: a byte, or the little-endian halfword or word there (LONG too reads
    /// the word).
    fn read_single(&self, addr: u64, maw: MemoryAccessWidth) -> (r: Option<u64>)
        ensures
            r == Some(memory_read(self.data@, addr - self.base_address, maw)),
    {
        assert(self.data@.len() == self.data.len());
        let offs = (addr - self.base_address) as usize;
        assert(offs == addr - self.base_address);
        match maw {
            MemoryAccessWidth::BYTE => {
                let b = self.data[offs];
                assert(b as u64 & 0xff == b as u64) by (bit_vector);
                Some(b as u64 & 0xff)
            },
            MemoryAccessWidth::HALFWORD => Some(
                u16_from_le_bytes(slice_subrange(self.data.as_slice(), offs, offs + 2)) as u64,
            ),
            _ => Some(
                u32_from_le_bytes(slice_subrange(self.data.as_slice(), offs, offs + 4)) as u64,
            ),
        }
    }

    /// Writes the low bytes of `value` at `addr`, most significant first.
    fn write_single(&mut self, addr: u64, value: u64, maw: MemoryAccessWidth) -> (ok: bool)
        ensures
            ok,
            final(self).base_address == old(self).base_address,
            final(self).size == old(self).size,
            final(self).data@ == splice(
                old(self).data@,
                addr - old(self).base_address,
                memory_write_bytes(value, maw),
            ),
    {
        assert(self.data@.len() == self.data.len());
        let offs = (addr - self.base_address) as usize;
        assert(offs == addr - self.base_address);
        let bytes: Vec<u8> = match maw {
            MemoryAccessWidth::BYTE => vec![(value & 0xff) as u8],
            MemoryAccessWidth::HALFWORD => vec![(value >> 8) as u8, value as u8],
            MemoryAccessWidth::WORD => vec![
                (value >> 24) as u8,
                (value >> 16) as u8,
                (value >> 8) as u8,
                value as u8,
            ],
            MemoryAccessWidth::LONG => vec![
                (value >> 56) as u8,
                (value >> 48) as u8,
                (value >> 40) as u8,
                (value >> 32) as u8,
                (value >> 24) as u8,
                (value >> 16) as u8,
                (value >> 8) as u8,
                value as u8,
            ],
        };
        assert((value & 0xff) as u8 == value as u8) by (bit_vector);
        assert(bytes@ =~= memory_write_bytes(value, maw));
        store_bytes(&mut self.data, offs, &bytes);
        true
    }
}

/// Whether the `n` bytes from `addr` on lie within memory `data` that starts at `base`.
pub open spec fn spans(base: u64, data: Seq<u8>, addr: u64, n: nat) -> bool {
    base <= addr && addr - base + n <= data.len()
}

/// The `n` bytes from `addr` on of memory `data` that starts at `base`.
pub open spec fn bytes_from(base: u64, data: Seq<u8>, addr: u64, n: nat) -> Seq<u8> {
    data.subrange(addr - base, addr - base + n)
}

/// Storing bytes and then reading the same place gives the bytes back; places that do not
/// overlap them read as before; the memory keeps its size.
pub proof fn lemma_store_then_load(base: u64, data: Seq<u8>, addr: u64, bytes: Seq<u8>, other: u64, n: nat)
    requires
        spans(base, data, addr, bytes.len()),
    ensures
        splice(data, addr - base, bytes).len() == data.len(),
        bytes_from(base, splice(data, addr - base, bytes), addr, bytes.len()) == bytes,
        spans(base, data, other, n) && (other + n <= addr || addr + bytes.len() <= other)
            ==> bytes_from(base, splice(data, addr - base, bytes), other, n) == bytes_from(base, data, other, n),
{
    let after = splice(data, addr - base, bytes);
    assert(bytes_from(base, after, addr, bytes.len()) =~= bytes);
    if spans(base, data, other, n) && (other + n <= addr || addr + bytes.len() <= other) {
        assert(bytes_from(base, after, other, n) =~= bytes_from(base, data, other, n));
    }
}

impl RAM {
    /// A byte written to RAM reads back as written; the bytes around it read as before.
    pub proof fn lemma_write8_read8(before: &RAM, after: &RAM, addr: u64, value: u8, other: u64)
        requires
            before.holds(addr, 1),
            after.base == before.base,
            after.data@ == before.stored(addr, seq![value]),
        ensures
            after.holds(addr, 1),
            after.data@[addr - after.base] == value,
            before.holds(other, 1) && other != addr ==> after.data@[other - after.base]
                == before.data@[other - before.base],
    {
        lemma_store_then_load(before.base, before.data@, addr, seq![value], other, 1);
        assert(bytes_from(after.base, after.data@, addr, 1)[0] == after.data@[addr - after.base]);
        if before.holds(other, 1) && other != addr {
            assert(bytes_from(after.base, after.data@, other, 1)[0] == after.data@[other - after.base]);
        }
    }

    /// A halfword written to RAM reads back as written.
    pub proof fn lemma_write16_read16(before: &RAM, after: &RAM, addr: u64, value: u16)
        requires
            before.holds(addr, 2),
            after.base == before.base,
            after.data@ == before.stored(addr, spec_u16_to_le_bytes(value)),
        ensures
            after.holds(addr, 2),
            spec_u16_from_le_bytes(after.bytes_at(addr, 2)) == value,
    {
        lemma_auto_spec_u16_to_from_le_bytes();
        lemma_store_then_load(before.base, before.data@, addr, spec_u16_to_le_bytes(value), addr, 2);
    }

    /// A word written to RAM reads back as written.
    pub proof fn lemma_write32_read32(before: &RAM, after: &RAM, addr: u64, value: u32)
        requires
            before.holds(addr, 4),
            after.base == before.base,
            after.data@ == before.stored(addr, spec_u32_to_le_bytes(value)),
        ensures
            after.holds(addr, 4),
            spec_u32_from_le_bytes(after.bytes_at(addr, 4)) == value,
    {
        lemma_auto_spec_u32_to_from_le_bytes();
        lemma_store_then_load(before.base, before.data@, addr, spec_u32_to_le_bytes(value), addr, 4);
    }

    /// A doubleword written to RAM reads back as written.
    pub proof fn lemma_write64_read64(before: &RAM, after: &RAM, addr: u64, value: u64)
        requires
            before.holds(addr, 8),
            after.base == before.base,
            after.data@ == before.stored(addr, spec_u64_to_le_bytes(value)),
        ensures
            after.holds(addr, 8),
            spec_u64_from_le_bytes(after.bytes_at(addr, 8)) == value,
    {
        lemma_auto_spec_u64_to_from_le_bytes();
        lemma_store_then_load(before.base, before.data@, addr, spec_u64_to_le_bytes(value), addr, 8);
    }

    /// Fresh RAM reads zero everywhere.
    pub proof fn lemma_created_reads_zero(ram: &RAM, size: nat, addr: u64)
        requires
            ram.data@ == Seq::new(size, |i: int| 0u8),
            ram.holds(addr, 1),
        ensures
            ram.data@[addr - ram.base] == 0,
    {
    }
}

impl Memory {
    /// A byte written with `write_single` reads back with `read_single` as the value's low
    /// byte. (Wider accesses do not read back: writes store the most significant byte first,
    /// reads take the least significant byte first.)
    pub proof fn lemma_byte_write_read(before: &Memory, after: &Memory, addr: u64, value: u64)
        requires
            before.accessible(addr, MemoryAccessWidth::BYTE),
            after.base_address == before.base_address,
            after.size == before.size,
            after.data@ == splice(
                before.data@,
                addr - before.base_address,
                memory_write_bytes(value, MemoryAccessWidth::BYTE),
            ),
        ensures
            after.accessible(addr, MemoryAccessWidth::BYTE),
            memory_read(after.data@, addr - after.base_address, MemoryAccessWidth::BYTE) == value & 0xff,
    {
        let off = addr - before.base_address;
        assert(after.data@[off] == value as u8);
        assert((value as u8) as u64 == value & 0xff) by (bit_vector);
    }
}

/// Zero-initialised, little-endian RAM starting at `base`.
#[derive(Debug)]
pub struct RAM {
    pub base: u64,
    pub data: Vec<u8>,
}

impl RAM {
    /// Whether the `n` bytes from `addr` on lie within the RAM.
    pub open spec fn holds(&self, addr: u64, n: nat) -> bool {
        spans(self.base, self.data@, addr, n)
    }

    /// The `n` bytes stored from `addr` on.
    pub open spec fn bytes_at(&self, addr: u64, n: nat) -> Seq<u8> {
        bytes_from(self.base, self.data@, addr, n)
    }

    /// The RAM's bytes after storing `bytes` from `addr` on.
    pub open spec fn stored(&self, addr: u64, bytes: Seq<u8>) -> Seq<u8> {
        splice(self.data@, addr - self.base, bytes)
    }

    /// `size` zero bytes from `base` on.
    pub fn create(base: u64, size: usize) -> (r: RAM)
        ensures
            r.base == base,
            r.data@ == Seq::new(size as nat, |i: int| 0u8),
    {
        let mut data: Vec<u8> = Vec::new();
        let mut i: usize = 0;
        while i < size
            invariant
                i <= size,
                data@ == Seq::new(i as nat, |j: int| 0u8),
            decreases size - i,
        {
            data.push(0);
            i = i + 1;
            assert(data@ =~= Seq::new(i as nat, |j: int| 0u8));
        }
        RAM { base, data }
    }

    /// Whether the `n` bytes from `addr` on lie within the RAM.
    fn has(&self, addr: u64, n: u64) -> (b: bool)
        ensures
            b == self.holds(addr, n as nat),
    {
        addr >= self.base && n <= self.data.len() as u64 && addr - self.base <= self.data.len()
            as u64 - n
    }

    /// The byte at `addr`, or a load access fault outside the RAM.
    pub fn read8(&self, addr: u64) -> (r: Result<u8, TrapCause>)
        ensures
            r == if self.holds(addr, 1) {
                Ok(self.data@[addr - self.base])
            } else {
                Err(TrapCause::LoadAccessFault)
            },
    {
        if self.has(addr, 1) {
            assert(self.data@.len() == self.data.len());
            let off = (addr - self.base) as usize;
            assert(off == addr - self.base);
            Ok(self.data[off])
        } else {
            Err(TrapCause::LoadAccessFault)
        }
    }

    /// The little-endian halfword at `addr`, or a load access fault outside the RAM.
    pub fn read16(&self, addr: u64) -> (r: Result<u16, TrapCause>)
        ensures
            r == if self.holds(addr, 2) {
                Ok(spec_u16_from_le_bytes(self.bytes_at(addr, 2)))
            } else {
                Err(TrapCause::LoadAccessFault)
            },
    {
        if self.has(addr, 2) {
            assert(self.data@.len() == self.data.len());
            let off = (addr - self.base) as usize;
            assert(off == addr - self.base);
            Ok(u16_from_le_bytes(slice_subrange(self.data.as_slice(), off, off + 2)))
        } else {
            Err(TrapCause::LoadAccessFault)
        }
    }

    /// The little-endian word at `addr`, or a load access fault outside the RAM.
    pub fn read32(&self, addr: u64) -> (r: Result<u32, TrapCause>)
        ensures
            r == if self.holds(addr, 4) {
                Ok(spec_u32_from_le_bytes(self.bytes_at(addr, 4)))
            } else {
                Err(TrapCause::LoadAccessFault)
            },
    {
        if self.has(addr, 4) {
            assert(self.data@.len() == self.data.len());
            let off = (addr - self.base) as usize;
            assert(off == addr - self.base);
            Ok(u32_from_le_bytes(slice_subrange(self.data.as_slice(), off, off + 4)))
        } else {
            Err(TrapCause::LoadAccessFault)
        }
    }

    /// The little-endian doubleword at `addr`, or a load access fault outside the RAM.
    pub fn read64(&self, addr: u64) -> (r: Result<u64, TrapCause>)
        ensures
            r == if self.holds(addr, 8) {
                Ok(spec_u64_from_le_bytes(self.bytes_at(addr, 8)))
            } else {
                Err(TrapCause::LoadAccessFault)
            },
    {
        if self.has(addr, 8) {
            assert(self.data@.len() == self.data.len());
            let off = (addr - self.base) as usize;
            assert(off == addr - self.base);
            Ok(u64_from_le_bytes(slice_subrange(self.data.as_slice(), off, off + 8)))
        } else {
            Err(TrapCause::LoadAccessFault)
        }
    }

    /// Stores a byte at `addr`; outside the RAM nothing changes and a store access fault is
    /// returned.
    pub fn write8(&mut self, addr: u64, value: u8) -> (r: Option<TrapCause>)
        ensures
            final(self).base == old(self).base,
            if old(self).holds(addr, 1) {
                r is None && final(self).data@ == old(self).stored(addr, seq![value])
            } else {
                r == Some(TrapCause::StoreAccessFault) && final(self).data@ == old(self).data@
            },
    {
        if self.has(addr, 1) {
            assert(self.data@.len() == self.data.len());
            let off = (addr - self.base) as usize;
            assert(off == addr - self.base);
            store_bytes(&mut self.data, off, &vec![value]);
            None
        } else {
            Some(TrapCause::StoreAccessFault)
        }
    }

    /// Stores a halfword at `addr`, least significant byte first; outside the RAM nothing
    /// changes and a store access fault is returned.
    pub fn write16(&mut self, addr: u64, value: u16) -> (r: Option<TrapCause>)
        ensures
            final(self).base == old(self).base,
            if old(self).holds(addr, 2) {
                r is None && final(self).data@ == old(self).stored(addr, spec_u16_to_le_bytes(value))
            } else {
                r == Some(TrapCause::StoreAccessFault) && final(self).data@ == old(self).data@
            },
    {
        if self.has(addr, 2) {
            assert(self.data@.len() == self.data.len());
            let off = (addr - self.base) as usize;
            assert(off == addr - self.base);
            store_bytes(&mut self.data, off, &u16_to_le_bytes(value));
            None
        } else {
            Some(TrapCause::StoreAccessFault)
        }
    }

    /// Stores a word at `addr`, least significant byte first; outside the RAM nothing changes
    /// and a store access fault is returned.
    pub fn write32(&mut self, addr: u64, value: u32) -> (r: Option<TrapCause>)
        ensures
            final(self).base == old(self).base,
            if old(self).holds(addr, 4) {
                r is None && final(self).data@ == old(self).stored(addr, spec_u32_to_le_bytes(value))
            } else {
                r == Some(TrapCause::StoreAccessFault) && final(self).data@ == old(self).data@
            },
    {
        if self.has(addr, 4) {
            assert(self.data@.len() == self.data.len());
            let off = (addr - self.base) as usize;
            assert(off == addr - self.base);
            store_bytes(&mut self.data, off, &u32_to_le_bytes(value));
            None
        } else {
            Some(TrapCause::StoreAccessFault)
        }
    }

    /// Stores a doubleword at `addr`, least significant byte first; outside the RAM nothing
    /// changes and a store access fault is returned.
    pub fn write64(&mut self, addr: u64, value: u64) -> (r: Option<TrapCause>)
        ensures
            final(self).base == old(self).base,
            if old(self).holds(addr, 8) {
                r is None && final(self).data@ == old(self).stored(addr, spec_u64_to_le_bytes(value))
            } else {
                r == Some(TrapCause::StoreAccessFault) && final(self).data@ == old(self).data@
            },
    {
        if self.has(addr, 8) {
            assert(self.data@.len() == self.data.len());
            let off = (addr - self.base) as usize;
            assert(off == addr - self.base);
            store_bytes(&mut self.data, off, &u64_to_le_bytes(value));
            None
        } else {
            Some(TrapCause::StoreAccessFault)
        }
    }
}

} // verus!
