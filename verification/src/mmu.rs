//! The memory management unit: the device map, address translation and the accesses of the
//! hart.
use vstd::bytes::{
    lemma_auto_spec_u32_to_from_le_bytes, spec_u32_from_le_bytes, spec_u32_to_le_bytes,
    spec_u64_from_le_bytes, spec_u64_to_le_bytes,
};
use vstd::prelude::*;

use crate::cpu::{PrivMode, RegisterValue, TrapCause, Xlen};
use crate::device_tree::{
    device_table_of, dtb_struct_items, entries, entry_of, read_struct_items, scan_device_table,
    DeviceEntry, DtbItem,
};
use crate::memory::{bytes_from, lemma_store_then_load, spans, splice, RAM};
use crate::paging::lemma_entry_aligned;
use crate::mmio::{PhysicalMemory, VirtualDevice, CLINT};
use crate::plic::PLIC;
use crate::uart::{read_at, ticked, written, UART};
use crate::virtio::VIRTIO;

verus! {

/// A named range of physical addresses, both ends included.
#[derive(Debug)]
pub struct MemoryRange {
    pub name: String,
    pub start: u64,
    pub end: u64,
}

impl Clone for MemoryRange {
    fn clone(&self) -> (r: Self)
        ensures
            r == *self,
    {
        MemoryRange { name: self.name.clone(), start: self.start, end: self.end }
    }
}

impl MemoryRange {
    /// Whether `addr` lies in the range, both ends included.
    pub open spec fn contains(&self, addr: u64) -> bool {
        self.start <= addr && addr <= self.end
    }

    /// Whether `addr` lies in the range, both ends included.
    pub fn includes(&self, addr: u64) -> (b: bool)
        ensures
            b == self.contains(addr),
    {
        self.start <= addr && addr <= self.end
    }

    /// The first range of the table with the given name.
    pub fn find_named_range(device_table: &Vec<MemoryRange>, name: &str) -> (r: Option<MemoryRange>)
        ensures
            r == first_named(device_table@, name@),
    {
        let wanted = name.to_owned();
        let mut i: usize = 0;
        assert(device_table@.skip(0) =~= device_table@);
        while i < device_table.len()
            invariant
                i <= device_table@.len(),
                wanted@ == name@,
                first_named(device_table@, name@) == first_named(device_table@.skip(i as int), name@),
            decreases device_table@.len() - i,
        {
            let ghost rest = device_table@.skip(i as int);
            assert(rest.drop_first() =~= device_table@.skip(i + 1));
            if device_table[i].name.eq(&wanted) {
                return Some(device_table[i].clone());
            }
            i = i + 1;
        }
        None
    }
}

/// The first range of `table` named `name`.
pub open spec fn first_named(table: Seq<MemoryRange>, name: Seq<char>) -> Option<MemoryRange>
    decreases table.len(),
{
    if table.len() == 0 {
        None
    } else if table[0].name@ == name {
        Some(table[0])
    } else {
        first_named(table.drop_first(), name)
    }
}

/// Whether `table` has a range named `name` whose first range of that name can be backed:
/// its end is not below its start, and its length fits in memory.
pub open spec fn has_usable(table: Seq<MemoryRange>, name: Seq<char>) -> bool {
    first_named(table, name) matches Some(r) && r.start <= r.end && r.end - r.start <= usize::MAX
}

/// The first device of a table of triples named `name`.
pub open spec fn first_named_entry(table: Seq<DeviceEntry>, name: Seq<char>) -> Option<DeviceEntry>
    decreases table.len(),
{
    if table.len() == 0 {
        None
    } else if table[0].0 == name {
        Some(table[0])
    } else {
        first_named_entry(table.drop_first(), name)
    }
}

/// Whether a table of triples has a device named `name` whose first device of that name can be
/// backed: its end is not below its start, and its length fits in memory.
pub open spec fn has_usable_entry(table: Seq<DeviceEntry>, name: Seq<char>) -> bool {
    first_named_entry(table, name) matches Some(e) && e.1 <= e.2 && e.2 - e.1 <= usize::MAX
}

/// Whether a table of triples names every device the memory system needs, each usable.
pub open spec fn complete_entries(table: Seq<DeviceEntry>) -> bool {
    &&& has_usable_entry(table, "memory"@)
    &&& has_usable_entry(table, "uart"@)
    &&& has_usable_entry(table, "interrupt-controller"@)
    &&& has_usable_entry(table, "clint"@)
    &&& has_usable_entry(table, "virtio_mmio"@)
}

/// The first range of a table named `name` is the first triple of that name.
proof fn lemma_first_named_entry(table: Seq<MemoryRange>, name: Seq<char>)
    ensures
        first_named_entry(entries(table), name) == match first_named(table, name) {
            Some(r) => Some(entry_of(r)),
            None => None,
        },
    decreases table.len(),
{
    if table.len() > 0 {
        assert(entries(table.drop_first()) =~= entries(table).drop_first());
        lemma_first_named_entry(table.drop_first(), name);
    }
}

/// A table of ranges is complete exactly when its triples are.
proof fn lemma_complete_entries(table: Seq<MemoryRange>)
    ensures
        MMU::complete_table(table) == complete_entries(entries(table)),
{
    lemma_first_named_entry(table, "memory"@);
    lemma_first_named_entry(table, "uart"@);
    lemma_first_named_entry(table, "interrupt-controller"@);
    lemma_first_named_entry(table, "clint"@);
    lemma_first_named_entry(table, "virtio_mmio"@);
}

/// The page number an entry names fits in a page number.
pub proof fn lemma_next_ppn(pte: u64)
    ensures
        (pte >> 10u64) & 0xfffffffffff <= PPN_MASK,
{
    assert((pte >> 10u64) & 0xfffffffffff <= 0xfffffffffff) by (bit_vector);
}

/// Page numbers shifted to bit 12 and above leave the twelve low bits of an address alone.
proof fn lemma_offset_bits(x: u64, y: u64, z: u64, va: u64)
    by (bit_vector)
    ensures
        ((x << 30u64) | (y << 21u64) | (z << 12u64) | (va & 0xfff)) & 0xfff == va & 0xfff,
        ((x << 12u64) | (va & 0xfff)) & 0xfff == va & 0xfff,
{
}

/// How virtual addresses are translated.
#[derive(Debug, Copy, Clone, PartialEq, Eq, Structural)]
pub enum AddressingMode {
    Bare,
    SV32,
    SV39,
}

/// What an access does with the memory it reaches.
#[derive(Debug, Copy, Clone, PartialEq, Eq, Structural)]
pub enum MemoryAccessType {
    READ,
    WRITE,
    EXECUTE,
}

/// The virtual page number of an SV39 address at a level of the page table (0 the lowest).
pub open spec fn vpn(va: u64, level: nat) -> u64 {
    if level == 0 {
        (va >> 12u64) & 0x1ff
    } else if level == 1 {
        (va >> 21u64) & 0x1ff
    } else {
        (va >> 30u64) & 0x1ff
    }
}

/// The fields of an SV39 virtual address.
pub trait SV39Addr {
    /// The address itself.
    spec fn addr_value(&self) -> u64;

    /// The level-0 virtual page number, bits 20:12.
    fn level0(&self) -> (r: u64)
        ensures
            r == vpn(self.addr_value(), 0),
    ;

    /// The level-1 virtual page number, bits 29:21.
    fn level1(&self) -> (r: u64)
        ensures
            r == vpn(self.addr_value(), 1),
    ;

    /// The level-2 virtual page number, bits 38:30.
    fn level2(&self) -> (r: u64)
        ensures
            r == vpn(self.addr_value(), 2),
    ;

    /// The offset in the page, bits 11:0.
    fn offset(&self) -> (r: u64)
        ensures
            r == self.addr_value() & 0xfff,
    ;

    /// The 25 bits above the translated ones, bits 63:39.
    fn tag(&self) -> (r: u32)
        ensures
            r == ((self.addr_value() >> 39u64) & 0x1ffffff) as u32,
    ;

    /// The virtual page numbers, level 0 first.
    fn get_vpns(&self) -> (r: [u64; 3])
        ensures
            r@ == seq![vpn(self.addr_value(), 0), vpn(self.addr_value(), 1), vpn(self.addr_value(), 2)],
    ;

    /// The address itself.
    fn address(&self) -> (r: u64)
        ensures
            r == self.addr_value(),
    ;
}

impl SV39Addr for u64 {
    open spec fn addr_value(&self) -> u64 {
        *self
    }

    fn address(&self) -> (r: u64) {
        *self
    }

    fn tag(&self) -> (r: u32) {
        ((*self >> 39) & 0x1ffffff) as u32
    }

    fn offset(&self) -> (r: u64) {
        *self & 0xfff
    }

    fn level0(&self) -> (r: u64) {
        (*self >> 12) & 0x1ff
    }

    fn level1(&self) -> (r: u64) {
        (*self >> 21) & 0x1ff
    }

    fn level2(&self) -> (r: u64) {
        (*self >> 30) & 0x1ff
    }

    fn get_vpns(&self) -> (r: [u64; 3]) {
        let r = [self.level0(), self.level1(), self.level2()];
        assert(r@ =~= seq![vpn(*self, 0), vpn(*self, 1), vpn(*self, 2)]);
        r
    }
}

/// The fields of an SV39 address put together give its 39 low bits back.
pub proof fn lemma_sv39_fields(va: u64)
    ensures
        (vpn(va, 2) << 30u64) | (vpn(va, 1) << 21u64) | (vpn(va, 0) << 12u64) | (va & 0xfff) == va
            & 0x7f_ffff_ffff,
{
    assert(((((va >> 30u64) & 0x1ff) << 30u64) | (((va >> 21u64) & 0x1ff) << 21u64) | (((va
        >> 12u64) & 0x1ff) << 12u64) | (va & 0xfff)) == va & 0x7f_ffff_ffff) by (bit_vector);
}

/// The permission and status bits of a page table entry.
#[derive(Debug, Copy, Clone, PartialEq, Eq, Structural)]
pub enum PTEPermBit {
    VALID,
    READ,
    WRITE,
    EXECUTE,
    USER,
    GLOBAL,
    ACCESSED,
    DIRTY,
}

/// The bit position of each permission bit.
pub open spec fn perm_bit_index(bit: PTEPermBit) -> u64 {
    match bit {
        PTEPermBit::VALID => 0,
        PTEPermBit::READ => 1,
        PTEPermBit::WRITE => 2,
        PTEPermBit::EXECUTE => 3,
        PTEPermBit::USER => 4,
        PTEPermBit::GLOBAL => 5,
        PTEPermBit::ACCESSED => 6,
        PTEPermBit::DIRTY => 7,
    }
}

impl PTEPermBit {
    /// The bit position of this permission bit.
    pub fn index(&self) -> (i: u64)
        ensures
            i == perm_bit_index(*self),
    {
        match self {
            PTEPermBit::VALID => 0,
            PTEPermBit::READ => 1,
            PTEPermBit::WRITE => 2,
            PTEPermBit::EXECUTE => 3,
            PTEPermBit::USER => 4,
            PTEPermBit::GLOBAL => 5,
            PTEPermBit::ACCESSED => 6,
            PTEPermBit::DIRTY => 7,
        }
    }
}

/// Whether a permission bit reads as set. Only the five low bits are looked at, so GLOBAL,
/// ACCESSED and DIRTY always read as clear.
pub open spec fn pte_has(pte: u64, bit: u64) -> bool {
    ((pte & 0x1f) & (1u64 << bit)) != 0
}

/// A page table entry (SV39: 64 bits).
pub trait PTE {
    /// The entry itself.
    spec fn pte_value(&self) -> u64;

    /// The 44-bit physical page number, bits 53:10.
    fn page_number(&self) -> (r: u64)
        ensures
            r == (self.pte_value() >> 10u64) & 0xfffffffffff,
    ;

    /// Whether a permission bit reads as set (bits 5 and above always read as clear).
    fn has_permission_bit(&self, bit: PTEPermBit) -> (r: bool)
        ensures
            r == pte_has(self.pte_value(), perm_bit_index(bit)),
    ;

    /// Sets a permission bit.
    fn set_permission_bit(&mut self, bit: PTEPermBit)
        ensures
            final(self).pte_value() == old(self).pte_value() | (1u64 << perm_bit_index(bit)),
    ;

    /// Flips every bit but the one below `bit` (the entry is XORed with the complement of
    /// `1 << (bit - 1)`); VALID, bit 0, has no bit below it.
    fn clear_permission_bit(&mut self, bit: PTEPermBit)
        requires
            bit != PTEPermBit::VALID,
        ensures
            final(self).pte_value() == old(self).pte_value() ^ !(1u64 << (perm_bit_index(bit) - 1) as u64),
    ;
}

impl PTE for u64 {
    open spec fn pte_value(&self) -> u64 {
        *self
    }

    fn page_number(&self) -> (r: u64) {
        (*self >> 10) & 0xfffffffffff
    }

    fn has_permission_bit(&self, bit: PTEPermBit) -> (r: bool) {
        ((*self & 0x1f) & (1 << bit.index())) != 0
    }

    fn set_permission_bit(&mut self, bit: PTEPermBit) {
        *self |= 1 << bit.index();
    }

    fn clear_permission_bit(&mut self, bit: PTEPermBit) {
        *self ^= !(1 << bit.index() - 1);
    }
}

/// A permission bit that `has_permission_bit` can see (VALID, READ, WRITE, EXECUTE and USER)
/// reads as set once `set_permission_bit` has set it. The others (GLOBAL, ACCESSED and DIRTY)
/// always read as clear.
pub proof fn lemma_set_then_has(pte: u64, bit: PTEPermBit)
    ensures
        perm_bit_index(bit) < 5 ==> pte_has(pte | (1u64 << perm_bit_index(bit)), perm_bit_index(bit)),
        perm_bit_index(bit) >= 5 ==> !pte_has(pte, perm_bit_index(bit)),
{
    let i = perm_bit_index(bit);
    assert((i < 5 ==> ((pte | (1u64 << i)) & 0x1f) & (1u64 << i) != 0) && (5 <= i < 8 ==> (pte
        & 0x1f) & (1u64 << i) == 0)) by (bit_vector);
}

/// Where an SV39 page table walk ends.
pub enum Walk {
    /// A page table entry lies outside physical memory.
    Unmapped,
    /// An invalid entry, or a pointer entry at level 0.
    Fault,
    /// A leaf entry: its address, its value and its level.
    Leaf(u64, u64, nat),
}

/// The SV39 walk for `va` from the table at physical page `ppn`, starting at `level`, over
/// physical memory `data` that starts at `base`. An entry is invalid when V is clear or when W
/// is set without R; an entry with neither R nor X points to the next table.
pub open spec fn walk(base: u64, data: Seq<u8>, va: u64, level: nat, ppn: u64) -> Walk
    decreases level,
{
    let pte_addr = (ppn * 4096 + vpn(va, level) * 8) as u64;
    if !spans(base, data, pte_addr, 8) {
        Walk::Unmapped
    } else {
        let pte = spec_u64_from_le_bytes(bytes_from(base, data, pte_addr, 8));
        let v = pte_has(pte, 0);
        let r = pte_has(pte, 1);
        let w = pte_has(pte, 2);
        let x = pte_has(pte, 3);
        if !v || (!r && w) {
            Walk::Fault
        } else if !r && !x {
            if level == 0 {
                Walk::Fault
            } else {
                walk(base, data, va, (level - 1) as nat, (pte >> 10u64) & 0xfffffffffff)
            }
        } else {
            Walk::Leaf(pte_addr, pte, level)
        }
    }
}

/// A walk ends at a leaf only after reading its entry, which lies in memory.
pub proof fn lemma_walk_leaf_spans(base: u64, data: Seq<u8>, va: u64, level: nat, ppn: u64)
    ensures
        walk(base, data, va, level, ppn) matches Walk::Leaf(a, _pte, _lvl) ==> spans(base, data, a, 8),
    decreases level,
{
    let pte_addr = (ppn * 4096 + vpn(va, level) * 8) as u64;
    if spans(base, data, pte_addr, 8) && level > 0 {
        let pte = spec_u64_from_le_bytes(bytes_from(base, data, pte_addr, 8));
        lemma_walk_leaf_spans(base, data, va, (level - 1) as nat, (pte >> 10u64) & 0xfffffffffff);
    }
}

/// Whether a leaf entry allows the access.
pub open spec fn permits(pte: u64, access: MemoryAccessType) -> bool {
    match access {
        MemoryAccessType::EXECUTE => pte_has(pte, 3),
        MemoryAccessType::READ => pte_has(pte, 1),
        MemoryAccessType::WRITE => pte_has(pte, 2),
    }
}

/// The physical address a leaf entry at `level` maps `va` to; `None` for a misaligned
/// superpage.
pub open spec fn leaf_address(va: u64, pte: u64, level: nat) -> Option<u64> {
    let ppn0 = (pte >> 10u64) & 0x1ff;
    let ppn1 = (pte >> 19u64) & 0x1ff;
    let ppn2 = (pte >> 28u64) & 0x3ffffff;
    let offset = va & 0xfff;
    if level == 2 {
        if ppn1 != 0 || ppn0 != 0 {
            None
        } else {
            Some((ppn2 << 30u64) | (vpn(va, 1) << 21u64) | (vpn(va, 0) << 12u64) | offset)
        }
    } else if level == 1 {
        if ppn0 != 0 {
            None
        } else {
            Some((ppn2 << 30u64) | (ppn1 << 21u64) | (vpn(va, 0) << 12u64) | offset)
        }
    } else {
        Some((((pte >> 10u64) & 0xfffffffffff) << 12u64) | offset)
    }
}

/// A leaf entry as written back by the walk: ACCESSED set, and DIRTY too for a write.
pub open spec fn touched_pte(pte: u64, access: MemoryAccessType) -> u64 {
    pte | 0x40 | (if access == MemoryAccessType::WRITE {
        0x80u64
    } else {
        0u64
    })
}

/// What a byte read at `pa` gives from memory `data` that starts at `base`: the byte, or a load
/// access fault outside it.
pub open spec fn phys_byte(base: u64, data: Seq<u8>, pa: u64) -> Result<u8, TrapCause> {
    if spans(base, data, pa, 1) {
        Ok(data[pa - base])
    } else {
        Err(TrapCause::LoadAccessFault)
    }
}

/// What a word read at `pa` gives from memory `data` that starts at `base`: the little-endian
/// word, or a load access fault where the four bytes do not all lie in it.
pub open spec fn phys_word(base: u64, data: Seq<u8>, pa: u64) -> Result<u32, TrapCause> {
    if spans(base, data, pa, 4) {
        Ok(spec_u32_from_le_bytes(bytes_from(base, data, pa, 4)))
    } else {
        Err(TrapCause::LoadAccessFault)
    }
}

/// A store of `bytes` at `pa` into memory `data` that starts at `base` answered `r` and left
/// `after`: where the bytes fit, they are written and nothing is reported; elsewhere nothing
/// changes and a store access fault is reported.
pub open spec fn stored(
    base: u64,
    data: Seq<u8>,
    pa: u64,
    bytes: Seq<u8>,
    r: Option<TrapCause>,
    after: Seq<u8>,
) -> bool {
    if spans(base, data, pa, bytes.len()) {
        r is None && after == splice(data, pa - base, bytes)
    } else {
        r == Some(TrapCause::StoreAccessFault) && after == data
    }
}

/// The addressing mode a `satp` value selects: RV32 supports only Bare (MODE bit 31 clear);
/// RV64 supports Bare (MODE 0) and SV39 (MODE 8). `None` for the others (SV32, SV48 and the
/// reserved values).
pub open spec fn satp_mode(satp: u64, xlen: Xlen) -> Option<AddressingMode> {
    match xlen {
        Xlen::Bits32 => if satp & 0x80000000 == 0 {
            Some(AddressingMode::Bare)
        } else {
            None
        },
        Xlen::Bits64 => if satp >> 60u64 == 0 {
            Some(AddressingMode::Bare)
        } else if satp >> 60u64 == 8 {
            Some(AddressingMode::SV39)
        } else {
            None
        },
    }
}

/// The root page number in a `satp` value.
pub open spec fn satp_ppn(satp: u64, xlen: Xlen) -> u64 {
    match xlen {
        Xlen::Bits32 => satp & 0x3fffff,
        Xlen::Bits64 => satp & 0xfffffffffff,
    }
}

/// Bytes per page.
pub const PAGESIZE: u64 = 4096;

/// The largest physical page number (44 bits).
pub const PPN_MASK: u64 = 0xfffffffffff;

/// The memory system of the hart: physical memory, the devices, the device map, and the
/// translation state (privilege mode, `satp`, and the root page table's page number).
pub struct MMU {
    pub memory: PhysicalMemory,
    pub uart: UART,
    pub plic: PLIC,
    pub clint: CLINT,
    pub virtio: VIRTIO,
    pub device_table: Vec<MemoryRange>,
    pub pmode: PrivMode,
    pub mstatus: RegisterValue,
    pub satp: RegisterValue,
    pub ppn: u64,
    pub addressing_mode: AddressingMode,
}

impl MMU {
    /// The bytes of physical memory.
    pub open spec fn ram(&self) -> Seq<u8> {
        self.memory.ram.data@
    }

    /// The first physical address of physical memory.
    pub open spec fn ram_base(&self) -> u64 {
        self.memory.ram.base
    }

    /// Whether accesses go through the page table: in supervisor or user mode with SV39 on.
    pub open spec fn paging(&self) -> bool {
        self.pmode != PrivMode::Machine && self.addressing_mode == AddressingMode::SV39
    }

    /// The page table walk for `va`.
    pub open spec fn walk_for(&self, va: u64) -> Walk {
        walk(self.ram_base(), self.ram(), va, 2, self.ppn)
    }

    /// Whether translating `va` completes: SV32 has no translation, and the walk's entries
    /// must lie in physical memory.
    pub open spec fn translates(&self, va: u64) -> bool {
        if self.pmode == PrivMode::Machine {
            true
        } else {
            match self.addressing_mode {
                AddressingMode::Bare => true,
                AddressingMode::SV32 => false,
                AddressingMode::SV39 => self.ppn <= PPN_MASK && !(self.walk_for(va) is Unmapped),
            }
        }
    }

    /// The physical address `va` translates to for an access, or `None` for a page fault.
    /// Without paging an address translates to itself.
    pub open spec fn translation(&self, va: u64, access: MemoryAccessType) -> Option<u64> {
        if !self.paging() {
            Some(va)
        } else {
            match self.walk_for(va) {
                Walk::Leaf(_a, pte, level) => if permits(pte, access) {
                    leaf_address(va, pte, level)
                } else {
                    None
                },
                _ => None,
            }
        }
    }

    /// Translation keeps the page offset: whenever `va` translates to a physical address, the
    /// twelve low bits of that address are those of `va`; and a leaf entry at level 0 maps
    /// `va` to the page frame the entry names joined with that offset.
    pub proof fn lemma_translation_keeps_page_offset(&self, va: u64, access: MemoryAccessType)
        ensures
            self.translation(va, access) matches Some(pa) ==> pa & 0xfff == va & 0xfff,
            self.paging() ==> match self.walk_for(va) {
                Walk::Leaf(_a, pte, lvl) => lvl == 0 && permits(pte, access) ==> self.translation(
                    va,
                    access,
                ) == Some((((pte >> 10u64) & 0xfffffffffff) << 12u64) | (va & 0xfff)),
                _ => true,
            },
    {
        if self.paging() {
            if let Walk::Leaf(_a, pte, lvl) = self.walk_for(va) {
                let ppn0 = (pte >> 10u64) & 0x1ff;
                let ppn1 = (pte >> 19u64) & 0x1ff;
                let ppn2 = (pte >> 28u64) & 0x3ffffff;
                lemma_offset_bits(ppn2, vpn(va, 1), vpn(va, 0), va);
                lemma_offset_bits(ppn2, ppn1, vpn(va, 0), va);
                lemma_offset_bits((pte >> 10u64) & 0xfffffffffff, 0, 0, va);
            }
        }
    }

    /// Physical memory after translating `va`: a walk that reaches a leaf writes the entry
    /// back with ACCESSED (and, for a write, DIRTY) set, whether or not it permits the access.
    pub open spec fn ram_after_translation(&self, va: u64, access: MemoryAccessType) -> Seq<u8> {
        if !self.paging() {
            self.ram()
        } else {
            match self.walk_for(va) {
                Walk::Leaf(a, pte, _level) => splice(
                    self.ram(),
                    a - self.ram_base(),
                    spec_u64_to_le_bytes(touched_pte(pte, access)),
                ),
                _ => self.ram(),
            }
        }
    }

    /// Everything but the bytes of physical memory is the same in `self` and `other`.
    pub open spec fn same_except_ram(&self, other: &MMU) -> bool {
        &&& self.memory.range == other.memory.range
        &&& self.memory.ram.base == other.memory.ram.base
        &&& self.uart == other.uart
        &&& self.plic == other.plic
        &&& self.clint == other.clint
        &&& self.virtio == other.virtio
        &&& self.device_table == other.device_table
        &&& self.pmode == other.pmode
        &&& self.mstatus == other.mstatus
        &&& self.satp == other.satp
        &&& self.ppn == other.ppn
        &&& self.addressing_mode == other.addressing_mode
    }

    /// What the SV39 walk for `addr` from `level` down, from the table at physical page `ppn`,
    /// answers for an access, and the physical memory it leaves: at a leaf, the physical
    /// address if the entry permits the access, with the entry written back touched; else
    /// no address, and memory as it was.
    pub open spec fn walk_outcome(
        &self,
        addr: u64,
        level: nat,
        ppn: u64,
        access: MemoryAccessType,
    ) -> (Option<u64>, Seq<u8>) {
        match walk(self.ram_base(), self.ram(), addr, level, ppn) {
            Walk::Leaf(a, pte, lvl) => (
                if permits(pte, access) {
                    leaf_address(addr, pte, lvl)
                } else {
                    None
                },
                splice(self.ram(), a - self.ram_base(), spec_u64_to_le_bytes(touched_pte(pte, access))),
            ),
            _ => (None, self.ram()),
        }
    }

    /// Walks the SV39 page table for `addr` from `level` down, starting at the table at
    /// physical page `parent_ppn`.
    fn traverse_pagetable(
        &mut self,
        addr: u64,
        level: usize,
        parent_ppn: u64,
        vpns: &[u64; 3],
        access_type: MemoryAccessType,
    ) -> (r: Option<u64>)
        requires
            level <= 2,
            parent_ppn <= PPN_MASK,
            vpns@ == seq![vpn(addr, 0), vpn(addr, 1), vpn(addr, 2)],
            !(walk(old(self).ram_base(), old(self).ram(), addr, level as nat, parent_ppn) is Unmapped),
        ensures
            final(self).same_except_ram(old(self)),
            (r, final(self).ram()) == old(self).walk_outcome(addr, level as nat, parent_ppn, access_type),
        decreases level,
    {
        let ptesize: u64 = 8;
        assert(vpns@[level as int] < 512) by {
            let a = addr;
            assert((a >> 12u64) & 0x1ff < 512 && (a >> 21u64) & 0x1ff < 512 && (a >> 30u64) & 0x1ff
                < 512) by (bit_vector);
        }
        assert(parent_ppn * 4096 <= 0xfffffffffff * 4096) by (nonlinear_arith)
            requires
                parent_ppn <= 0xfffffffffff,
        ;
        let pte_addr = parent_ppn * PAGESIZE + vpns[level] * ptesize;
        let pte = self.memory.read64(pte_addr).unwrap();
        let ppn = (pte >> 10) & PPN_MASK;
        assert(ppn <= PPN_MASK && !pte_has(pte, 6) && 1u64 << 6u64 == 0x40 && 1u64 << 7u64 == 0x80)
            by (bit_vector)
            requires
                ppn == (pte >> 10u64) & 0xfffffffffff,
        ;
        let a = pte.has_permission_bit(PTEPermBit::ACCESSED);
        let d = pte.has_permission_bit(PTEPermBit::DIRTY);
        let x = pte.has_permission_bit(PTEPermBit::EXECUTE);
        let v = pte.has_permission_bit(PTEPermBit::VALID);
        let w = pte.has_permission_bit(PTEPermBit::WRITE);
        let r = pte.has_permission_bit(PTEPermBit::READ);
        if v == false || (r == false && w == true) {
            return None;
        }
        if r == false && x == false {
            return match level {
                0 => None,
                _ => self.traverse_pagetable(addr, level - 1, ppn, vpns, access_type),
            };
        }
        // Leaf page!
        if a == false || (match access_type {
            MemoryAccessType::WRITE => d == false,
            _ => false,
        }) {
            let new_pte = pte | (1 << PTEPermBit::ACCESSED.index()) | (match access_type {
                MemoryAccessType::WRITE => 1 << 7,
                _ => 0,
            });
            self.memory.write64(pte_addr, new_pte);
        }
        match access_type {
            MemoryAccessType::EXECUTE => {
                if x == false {
                    return None;
                }
            },
            MemoryAccessType::READ => {
                if r == false {
                    return None;
                }
            },
            MemoryAccessType::WRITE => {
                if w == false {
                    return None;
                }
            },
        };
        let ppns = [(pte >> 10) & 0x1ff, (pte >> 19) & 0x1ff, (pte >> 28) & 0x3ffffff];
        let offset = addr.offset();
        let p_address = match level {
            2 => {
                if ppns[1] != 0 || ppns[0] != 0 {
                    return None;
                }
                (ppns[2] << 30) | (vpns[1] << 21) | (vpns[0] << 12) | offset
            },
            1 => {
                if ppns[0] != 0 {
                    return None;
                }
                (ppns[2] << 30) | (ppns[1] << 21) | (vpns[0] << 12) | offset
            },
            _ => (ppn << 12) | offset,
        };
        Some(p_address)
    }

    /// Translates `va` for an access: in machine mode, or with translation off, the address
    /// itself; with SV39, the result of the page table walk.
    pub fn translate_address(&mut self, va: u64, access_type: MemoryAccessType) -> (r: Option<u64>)
        requires
            old(self).translates(va),
        ensures
            r == old(self).translation(va, access_type),
            final(self).ram() == old(self).ram_after_translation(va, access_type),
            final(self).same_except_ram(old(self)),
    {
        match self.pmode {
            PrivMode::Machine => Some(va),
            _ => match self.addressing_mode {
                AddressingMode::Bare => Some(va),
                AddressingMode::SV32 => unreached(),
                AddressingMode::SV39 => {
                    let vpns = va.get_vpns();
                    self.traverse_pagetable(va, 3 - 1, self.ppn, &vpns, access_type)
                },
            },
        }
    }

    /// The walk for `addr` from `level` down, from the table at physical page `ppn`, read
    /// without writing anything back: `Err` where an entry lies outside physical memory,
    /// `Ok(None)` at a fault, and the entry's address, value and level at a leaf.
    fn peek_walk(&self, addr: u64, level: usize, ppn: u64) -> (r: Result<Option<(u64, u64, usize)>, ()>)
        requires
            level <= 2,
            ppn <= PPN_MASK,
        ensures
            match walk(self.ram_base(), self.ram(), addr, level as nat, ppn) {
                Walk::Unmapped => r is Err,
                Walk::Fault => r == Ok::<Option<(u64, u64, usize)>, ()>(None),
                Walk::Leaf(a, pte, lvl) => r == Ok::<Option<(u64, u64, usize)>, ()>(
                    Some((a, pte, lvl as usize)),
                ) && lvl <= 2,
            },
        decreases level,
    {
        let vpns = addr.get_vpns();
        proof {
            lemma_entry_aligned(addr, level as nat, ppn);
        }
        let pte_addr = ppn * PAGESIZE + vpns[level] * 8;
        let pte = match self.memory.read64(pte_addr) {
            Err(_) => return Err(()),
            Ok(pte) => pte,
        };
        let next = (pte >> 10) & PPN_MASK;
        proof {
            lemma_next_ppn(pte);
        }
        let x = pte.has_permission_bit(PTEPermBit::EXECUTE);
        let v = pte.has_permission_bit(PTEPermBit::VALID);
        let w = pte.has_permission_bit(PTEPermBit::WRITE);
        let r = pte.has_permission_bit(PTEPermBit::READ);
        if v == false || (r == false && w == true) {
            Ok(None)
        } else if r == false && x == false {
            if level == 0 {
                Ok(None)
            } else {
                self.peek_walk(addr, level - 1, next)
            }
        } else {
            Ok(Some((pte_addr, pte, level)))
        }
    }

    /// What translating `addr` for an access would give, found without writing anything
    /// back: `None` where the translation does not complete, else the translation.
    pub fn peek_translation(&self, addr: u64, access_type: MemoryAccessType) -> (r: Option<Option<u64>>)
        ensures
            r == if self.translates(addr) {
                Some(self.translation(addr, access_type))
            } else {
                None::<Option<u64>>
            },
    {
        match self.pmode {
            PrivMode::Machine => Some(Some(addr)),
            _ => match self.addressing_mode {
                AddressingMode::Bare => Some(Some(addr)),
                AddressingMode::SV32 => None,
                AddressingMode::SV39 => {
                    if self.ppn > PPN_MASK {
                        return None;
                    }
                    match self.peek_walk(addr, 2, self.ppn) {
                        Err(_) => None,
                        Ok(None) => Some(None),
                        Ok(Some((_a, pte, level))) => {
                            let allowed = match access_type {
                                MemoryAccessType::EXECUTE => pte.has_permission_bit(PTEPermBit::EXECUTE),
                                MemoryAccessType::READ => pte.has_permission_bit(PTEPermBit::READ),
                                MemoryAccessType::WRITE => pte.has_permission_bit(PTEPermBit::WRITE),
                            };
                            if !allowed {
                                return Some(None);
                            }
                            let vpns = addr.get_vpns();
                            let ppn0 = (pte >> 10) & 0x1ff;
                            let ppn1 = (pte >> 19) & 0x1ff;
                            let ppn2 = (pte >> 28) & 0x3ffffff;
                            let offset = addr.offset();
                            Some(
                                if level == 2 {
                                    if ppn1 != 0 || ppn0 != 0 {
                                        None
                                    } else {
                                        Some((ppn2 << 30) | (vpns[1] << 21) | (vpns[0] << 12) | offset)
                                    }
                                } else if level == 1 {
                                    if ppn0 != 0 {
                                        None
                                    } else {
                                        Some((ppn2 << 30) | (ppn1 << 21) | (vpns[0] << 12) | offset)
                                    }
                                } else {
                                    Some((((pte >> 10) & PPN_MASK) << 12) | offset)
                                },
                            )
                        },
                    }
                },
            },
        }
    }

    /// Translating an address never changes how many bytes physical memory has.
    pub proof fn lemma_translation_keeps_len(&self, va: u64, access: MemoryAccessType)
        ensures
            self.ram_after_translation(va, access).len() == self.ram().len(),
    {
        lemma_walk_leaf_spans(self.ram_base(), self.ram(), va, 2, self.ppn);
        vstd::bytes::lemma_auto_spec_u64_to_from_le_bytes();
    }

    /// Without paging an address translates to itself and the translation leaves memory as
    /// it was.
    pub proof fn lemma_untranslated(&self, va: u64, access: MemoryAccessType)
        requires
            !self.paging(),
        ensures
            self.translation(va, access) == Some(va),
            self.ram_after_translation(va, access) == self.ram(),
    {
    }

    /// Without translation, a byte written to physical memory reads back as written.
    pub proof fn lemma_write8_then_read8(
        m0: &MMU,
        va: u64,
        value: u8,
        r1: Option<TrapCause>,
        m1: &MMU,
        r2: Result<u8, TrapCause>,
        m2: &MMU,
    )
        requires
            m0.pmode == PrivMode::Machine || m0.addressing_mode == AddressingMode::Bare,
            m0.memory.range.contains(va),
            spans(m0.ram_base(), m0.ram(), va, 1),
            m0.write8_result(va, value, r1, m1),
            m1.read8_result(va, r2, m2),
        ensures
            r1 is None,
            r2 == Ok::<u8, TrapCause>(value),
            m2.ram() == m1.ram(),
    {
        lemma_store_then_load(m0.ram_base(), m0.ram(), va, seq![value], va, 1);
        assert(bytes_from(m1.ram_base(), m1.ram(), va, 1)[0] == m1.ram()[va - m1.ram_base()]);
    }

    /// Without translation, a word written to physical memory reads back as written.
    pub proof fn lemma_write32_then_read32(
        m0: &MMU,
        va: u64,
        value: u32,
        r1: Option<TrapCause>,
        m1: &MMU,
        r2: Result<u32, TrapCause>,
        m2: &MMU,
    )
        requires
            m0.pmode == PrivMode::Machine || m0.addressing_mode == AddressingMode::Bare,
            m0.memory.range.contains(va),
            spans(m0.ram_base(), m0.ram(), va, 4),
            m0.write32_result(va, value, r1, m1),
            m1.read32_result(va, r2, m2),
        ensures
            r1 is None,
            r2 == Ok::<u32, TrapCause>(value),
            m2.ram() == m1.ram(),
    {
        lemma_auto_spec_u32_to_from_le_bytes();
        lemma_store_then_load(m0.ram_base(), m0.ram(), va, spec_u32_to_le_bytes(value), va, 4);
    }

    /// Whether the device table names every device the memory system needs, each one at a
    /// range that can be backed.
    pub open spec fn complete_table(table: Seq<MemoryRange>) -> bool {
        &&& has_usable(table, "memory"@)
        &&& has_usable(table, "uart"@)
        &&& has_usable(table, "interrupt-controller"@)
        &&& has_usable(table, "clint"@)
        &&& has_usable(table, "virtio_mmio"@)
    }

    /// Whether this is the memory system a device table sets up: zeroed physical memory and
    /// devices in reset at the ranges the table names, in machine mode with translation off.
    pub open spec fn fresh_for(&self, table: Seq<MemoryRange>) -> bool {
        let mem = first_named(table, "memory"@).unwrap();
        let clint = first_named(table, "clint"@).unwrap();
        &&& self.memory.range == mem
        &&& self.ram_base() == mem.start
        &&& self.ram() == Seq::new((mem.end - mem.start) as nat, |i: int| 0u8)
        &&& self.uart.range == first_named(table, "uart"@).unwrap()
        &&& self.uart.is_reset()
        &&& self.plic.range == first_named(table, "interrupt-controller"@).unwrap()
        &&& self.plic.is_reset()
        &&& self.clint.range == clint
        &&& self.clint.ram.base == clint.start
        &&& self.clint.ram.data@ == Seq::new((clint.end - clint.start) as nat, |i: int| 0u8)
        &&& self.virtio.range == first_named(table, "virtio_mmio"@).unwrap()
        &&& self.virtio.is_reset()
        &&& self.device_table@ == table
        &&& self.pmode == PrivMode::Machine
        &&& self.mstatus == 0
        &&& self.satp == 0
        &&& self.ppn == 0
        &&& self.addressing_mode == AddressingMode::Bare
    }

    /// Sets up the memory system for a device table.
    pub fn from_device_table(device_table: Vec<MemoryRange>) -> (m: MMU)
        requires
            MMU::complete_table(device_table@),
        ensures
            m.fresh_for(device_table@),
    {
        let memory = PhysicalMemory::create(
            MemoryRange::find_named_range(&device_table, "memory").unwrap(),
        );
        let uart = UART::create(MemoryRange::find_named_range(&device_table, "uart").unwrap());
        let plic = PLIC::create(
            MemoryRange::find_named_range(&device_table, "interrupt-controller").unwrap(),
        );
        let clint = CLINT::create(MemoryRange::find_named_range(&device_table, "clint").unwrap());
        let virtio = VIRTIO::create(
            MemoryRange::find_named_range(&device_table, "virtio_mmio").unwrap(),
        );
        MMU {
            memory,
            uart,
            plic,
            clint,
            virtio,
            device_table,
            pmode: PrivMode::Machine,
            mstatus: 0,
            satp: 0,
            ppn: 0,
            addressing_mode: AddressingMode::Bare,
        }
    }

    /// The device table of the structure items of a device tree.
    pub fn parse_dtb(items: &Vec<DtbItem>) -> (table: Vec<MemoryRange>)
        requires
            device_table_of(items@) is Some,
        ensures
            entries(table@) == device_table_of(items@).unwrap(),
    {
        scan_device_table(items).unwrap()
    }

    /// Whether the first range of `table` named `name` can be backed.
    fn usable(table: &Vec<MemoryRange>, name: &str) -> (b: bool)
        ensures
            b == has_usable(table@, name@),
    {
        match MemoryRange::find_named_range(table, name) {
            Some(r) => r.start <= r.end && r.end - r.start <= usize::MAX as u64,
            None => false,
        }
    }

    /// Sets up the memory system described by the structure items of a device tree: `None`
    /// when the items give no device table, or when the table lacks a device the memory system
    /// needs (or names one that cannot be backed).
    pub fn from_dtb_items(items: &Vec<DtbItem>) -> (r: Option<MMU>)
        ensures
            match device_table_of(items@) {
                None => r is None,
                Some(t) => {
                    &&& (r is Some <==> complete_entries(t))
                    &&& r matches Some(m) ==> {
                        &&& entries(m.device_table@) == t
                        &&& MMU::complete_table(m.device_table@)
                        &&& m.fresh_for(m.device_table@)
                    }
                },
            },
    {
        let device_table = scan_device_table(items)?;
        proof {
            lemma_complete_entries(device_table@);
        }
        if !(MMU::usable(&device_table, "memory") && MMU::usable(&device_table, "uart")
            && MMU::usable(&device_table, "interrupt-controller") && MMU::usable(
            &device_table,
            "clint",
        ) && MMU::usable(&device_table, "virtio_mmio")) {
            return None;
        }
        Some(MMU::from_device_table(device_table))
    }

    /// Sets up the memory system described by the device tree blob `blob`. `None` when the
    /// blob cannot be read, when its device table cannot be read, or when the table lacks a
    /// device the memory system needs; otherwise what `from_dtb_items` sets up for its items.
    pub fn create(blob: &[u8]) -> (r: Option<MMU>)
        ensures
            device_table_of(dtb_struct_items(blob@)) is None ==> r is None,
            device_table_of(dtb_struct_items(blob@)) matches Some(t) && !complete_entries(t)
                ==> r is None,
            r matches Some(m) ==> {
                &&& device_table_of(dtb_struct_items(blob@)) == Some(entries(m.device_table@))
                &&& complete_entries(entries(m.device_table@))
                &&& MMU::complete_table(m.device_table@)
                &&& m.fresh_for(m.device_table@)
            },
    {
        let items = read_struct_items(blob)?;
        MMU::from_dtb_items(&items)
    }

    /// Everything an access leaves alone: the device map, the translation state, where
    /// physical memory and the devices lie, what the UART has transmitted, and the virtio disk.
    pub open spec fn same_layout(&self, other: &MMU) -> bool {
        &&& self.memory.range == other.memory.range
        &&& self.memory.ram.base == other.memory.ram.base
        &&& self.uart.range == other.uart.range
        &&& self.uart.output@ == other.uart.output@
        &&& self.clint.range == other.clint.range
        &&& self.clint.ram.base == other.clint.ram.base
        &&& self.virtio == other.virtio
        &&& self.device_table == other.device_table
        &&& self.pmode == other.pmode
        &&& self.mstatus == other.mstatus
        &&& self.satp == other.satp
        &&& self.ppn == other.ppn
        &&& self.addressing_mode == other.addressing_mode
    }

    /// Whether a byte read at `va` is defined: the address translates, and its physical
    /// address reaches neither the virtio disk nor the PLIC, whose byte reads are not modelled.
    pub open spec fn read8_defined(&self, va: u64) -> bool {
        &&& self.translates(va)
        &&& match self.translation(va, MemoryAccessType::READ) {
            Some(pa) => !self.memory.range.contains(pa) ==> {
                &&& !self.virtio.range.contains(pa)
                &&& !self.uart.range.contains(pa) && !self.clint.range.contains(pa) ==> !self.plic.range.contains(pa)
            },
            None => true,
        }
    }

    /// What `read8` of `addr` does: it answers `r` and leaves `new`.
    pub open spec fn read8_result(&self, addr: u64, r: Result<u8, TrapCause>, new: &MMU) -> bool {
        &&& new.same_layout(self)
        &&& new.ram() == self.ram_after_translation(addr, MemoryAccessType::READ)
        &&& new.plic == self.plic
        &&& new.clint.ram.data@ == self.clint.ram.data@
        &&& match self.translation(addr, MemoryAccessType::READ) {
            None => r == Err::<u8, TrapCause>(TrapCause::LoadAccessFault) && new.uart.state
                == self.uart.state,
            Some(pa) => if self.memory.range.contains(pa) {
                r == phys_byte(self.ram_base(), new.ram(), pa) && new.uart.state
                    == self.uart.state
            } else if self.uart.range.contains(pa) {
                &&& r == Ok::<u8, TrapCause>(read_at(self.uart.state, (pa - self.uart.range.start) as u64).1)
                &&& new.uart.state == read_at(self.uart.state, (pa - self.uart.range.start) as u64).0
            } else if self.clint.range.contains(pa) {
                r == phys_byte(self.clint.ram.base, self.clint.ram.data@, pa) && new.uart.state
                    == self.uart.state
            } else {
                r == Err::<u8, TrapCause>(TrapCause::Breakpoint) && new.uart.state == self.uart.state
            }
        }
    }

    /// Whether a byte write at `va` is defined, found without writing anything back.
    pub fn write8_allowed(&self, va: u64) -> (b: bool)
        ensures
            b == self.write8_defined(va),
    {
        match self.peek_translation(va, MemoryAccessType::WRITE) {
            None => false,
            Some(None) => true,
            Some(Some(pa)) => self.memory.range.includes(pa) || self.uart.range.includes(pa)
                || self.clint.range.includes(pa),
        }
    }

    /// Whether a word read at `va` is defined, found without writing anything back.
    pub fn read32_allowed(&self, va: u64) -> (b: bool)
        ensures
            b == self.read32_defined(va),
    {
        match self.peek_translation(va, MemoryAccessType::READ) {
            None => false,
            Some(None) => true,
            Some(Some(pa)) => if self.memory.range.includes(pa) {
                self.memory.ram.read32(pa).is_ok()
            } else if self.virtio.range.includes(pa) {
                false
            } else if self.clint.range.includes(pa) {
                self.clint.ram.read32(pa).is_ok()
            } else {
                !self.plic.range.includes(pa)
            },
        }
    }

    /// Reads the byte at virtual address `addr`. The physical address is looked up in
    /// physical memory, the UART and the CLINT, in that order; an unmapped one gives a
    /// breakpoint, a failed translation a load access fault.
    pub fn read8(&mut self, addr: u64) -> (r: Result<u8, TrapCause>)
        requires
            old(self).read8_defined(addr),
        ensures
            old(self).read8_result(addr, r, final(self)),
    {
        let resolved = self.translate_address(addr, MemoryAccessType::READ);
        let addr = match resolved {
            None => return Err(TrapCause::LoadAccessFault),
            Some(val) => val,
        };
        if self.memory.includes(addr) {
            self.memory.read8(addr)
        } else if self.uart.includes(addr) {
            self.uart.read(addr)
        } else if self.clint.includes(addr) {
            self.clint.read8(addr)
        } else {
            Err(TrapCause::Breakpoint)
        }
    }

    /// Whether a byte write at `va` is defined: the address translates, and its physical
    /// address lies in physical memory, the UART or the CLINT.
    pub open spec fn write8_defined(&self, va: u64) -> bool {
        &&& self.translates(va)
        &&& match self.translation(va, MemoryAccessType::WRITE) {
            Some(pa) => self.memory.range.contains(pa) || self.uart.range.contains(pa)
                || self.clint.range.contains(pa),
            None => true,
        }
    }

    /// What `write8` of `addr` does: it answers `r` and leaves `new`.
    pub open spec fn write8_result(&self, addr: u64, value: u8, r: Option<TrapCause>, new: &MMU) -> bool {
        &&& new.same_layout(self)
        &&& new.plic == self.plic
        &&& match self.translation(addr, MemoryAccessType::WRITE) {
            None => {
                &&& r == Some(TrapCause::StoreAccessFault)
                &&& new.ram() == self.ram_after_translation(addr, MemoryAccessType::WRITE)
                &&& new.uart.state == self.uart.state
                &&& new.clint.ram.data@ == self.clint.ram.data@
            },
            Some(pa) => if self.memory.range.contains(pa) {
                &&& stored(self.ram_base(), self.ram_after_translation(addr, MemoryAccessType::WRITE),
                    pa, seq![value], r, new.ram())
                &&& new.uart.state == self.uart.state
                &&& new.clint.ram.data@ == self.clint.ram.data@
            } else if self.uart.range.contains(pa) {
                &&& r is None
                &&& new.uart.state == written(self.uart.state, (pa - self.uart.range.start) as u64, value)
                &&& new.ram() == self.ram_after_translation(addr, MemoryAccessType::WRITE)
                &&& new.clint.ram.data@ == self.clint.ram.data@
            } else {
                &&& stored(self.clint.ram.base, self.clint.ram.data@, pa, seq![value], r,
                    new.clint.ram.data@)
                &&& new.ram() == self.ram_after_translation(addr, MemoryAccessType::WRITE)
                &&& new.uart.state == self.uart.state
            }
        }
    }

    /// Writes the byte `value` at virtual address `addr`, to physical memory, the UART or the
    /// CLINT, looked up in that order. A failed translation gives a store access fault.
    pub fn write8(&mut self, addr: u64, value: u8) -> (r: Option<TrapCause>)
        requires
            old(self).write8_defined(addr),
        ensures
            old(self).write8_result(addr, value, r, final(self)),
    {
        let resolved = self.translate_address(addr, MemoryAccessType::WRITE);
        let addr = match resolved {
            None => return Some(TrapCause::StoreAccessFault),
            Some(val) => val,
        };
        if self.memory.includes(addr) {
            self.memory.write8(addr, value)
        } else if self.uart.includes(addr) {
            self.uart.write(addr, value)
        } else {
            self.clint.write8(addr, value)
        }
    }

    /// Whether a word read at `va` is defined: the address translates, and its physical
    /// address leads to four bytes of physical memory, or else to four bytes of the CLINT, or
    /// to nothing mapped; the virtio disk and the PLIC have no word reads.
    pub open spec fn read32_defined(&self, va: u64) -> bool {
        &&& self.translates(va)
        &&& match self.translation(va, MemoryAccessType::READ) {
            Some(pa) => if self.memory.range.contains(pa) {
                spans(self.ram_base(), self.ram(), pa, 4)
            } else if self.virtio.range.contains(pa) {
                false
            } else if self.clint.range.contains(pa) {
                self.clint.ram.holds(pa, 4)
            } else {
                !self.plic.range.contains(pa)
            },
            None => true,
        }
    }

    /// What `read32` of `addr` does: it answers `r` and leaves `new`.
    pub open spec fn read32_result(&self, addr: u64, r: Result<u32, TrapCause>, new: &MMU) -> bool {
        &&& new.same_layout(self)
        &&& new.ram() == self.ram_after_translation(addr, MemoryAccessType::READ)
        &&& new.plic == self.plic
        &&& new.clint.ram.data@ == self.clint.ram.data@
        &&& new.uart.state == self.uart.state
        &&& r == match self.translation(addr, MemoryAccessType::READ) {
            Some(pa) => if self.memory.range.contains(pa) {
                phys_word(self.ram_base(), new.ram(), pa)
            } else if self.clint.range.contains(pa) {
                phys_word(self.clint.ram.base, self.clint.ram.data@, pa)
            } else {
                Err(TrapCause::StoreAccessFault)
            },
            None => Err(TrapCause::StoreAccessFault)
        }
    }

    /// Reads the little-endian word at virtual address `addr` from physical memory or the
    /// CLINT. A failed translation, or an unmapped physical address, gives a store access
    /// fault.
    pub fn read32(&mut self, addr: u64) -> (r: Result<u32, TrapCause>)
        requires
            old(self).read32_defined(addr),
        ensures
            old(self).read32_result(addr, r, final(self)),
    {
        proof {
            old(self).lemma_translation_keeps_len(addr, MemoryAccessType::READ);
        }
        let resolved = self.translate_address(addr, MemoryAccessType::READ);
        let addr = match resolved {
            None => return Err(TrapCause::StoreAccessFault),
            Some(val) => val,
        };
        let value = if self.memory.includes(addr) {
            self.memory.read32(addr)
        } else if self.clint.includes(addr) {
            self.clint.read32(addr)
        } else {
            return Err(TrapCause::StoreAccessFault);
        };
        Ok(value.unwrap())
    }

    /// Whether a word write of `value` at `va` is defined: the address translates, and its
    /// physical address does not reach the virtio disk, and reaches the PLIC only at a
    /// register the PLIC handles.
    pub open spec fn write32_defined(&self, va: u64, value: u32) -> bool {
        &&& self.translates(va)
        &&& match self.translation(va, MemoryAccessType::WRITE) {
            Some(pa) => !self.memory.range.contains(pa) ==> {
                &&& !self.virtio.range.contains(pa)
                &&& !self.clint.range.contains(pa) && self.plic.range.contains(pa) ==> PLIC::writable(pa, value)
            },
            None => true,
        }
    }

    /// What `write32` of `addr` does: it answers `r` and leaves `new`.
    pub open spec fn write32_result(&self, addr: u64, value: u32, r: Option<TrapCause>, new: &MMU) -> bool {
        &&& new.same_layout(self)
        &&& new.uart.state == self.uart.state
        &&& match self.translation(addr, MemoryAccessType::WRITE) {
            Some(pa) => if self.memory.range.contains(pa) {
                &&& stored(self.ram_base(), self.ram_after_translation(addr, MemoryAccessType::WRITE),
                    pa, spec_u32_to_le_bytes(value), r, new.ram())
                &&& new.clint.ram.data@ == self.clint.ram.data@
                &&& new.plic == self.plic
            } else if self.clint.range.contains(pa) {
                &&& stored(self.clint.ram.base, self.clint.ram.data@, pa,
                    spec_u32_to_le_bytes(value), r, new.clint.ram.data@)
                &&& new.ram() == self.ram_after_translation(addr, MemoryAccessType::WRITE)
                &&& new.plic == self.plic
            } else if self.plic.range.contains(pa) {
                &&& r is None
                &&& self.plic.wrote32(&new.plic, pa, value)
                &&& new.ram() == self.ram_after_translation(addr, MemoryAccessType::WRITE)
                &&& new.clint.ram.data@ == self.clint.ram.data@
            } else {
                &&& r == Some(TrapCause::LoadAccessFault)
                &&& new.ram() == self.ram_after_translation(addr, MemoryAccessType::WRITE)
                &&& new.clint.ram.data@ == self.clint.ram.data@
                &&& new.plic == self.plic
            },
            None => {
                &&& r == Some(TrapCause::StoreAccessFault)
                &&& new.ram() == self.ram_after_translation(addr, MemoryAccessType::WRITE)
                &&& new.clint.ram.data@ == self.clint.ram.data@
                &&& new.plic == self.plic
            }
        }
    }

    /// Writes the word `value` at virtual address `addr`, to physical memory, the CLINT or
    /// the PLIC, looked up in that order. A failed translation gives a store access fault, an
    /// unmapped physical address a load access fault.
    pub fn write32(&mut self, addr: u64, value: u32) -> (r: Option<TrapCause>)
        requires
            old(self).write32_defined(addr, value),
        ensures
            old(self).write32_result(addr, value, r, final(self)),
    {
        proof {
            vstd::bytes::lemma_auto_spec_u32_to_from_le_bytes();
        }
        let resolved = self.translate_address(addr, MemoryAccessType::WRITE);
        let addr = match resolved {
            None => return Some(TrapCause::StoreAccessFault),
            Some(val) => val,
        };
        if self.memory.includes(addr) {
            self.memory.write32(addr, value)
        } else if self.clint.includes(addr) {
            self.clint.write32(addr, value)
        } else if self.plic.includes(addr) {
            self.plic.write32(addr, value)
        } else {
            Some(TrapCause::LoadAccessFault)
        }
    }

    /// What `fetch` of `addr` does: it answers `r` and leaves `new`.
    pub open spec fn fetch_result(&self, addr: u64, r: Result<u32, TrapCause>, new: &MMU) -> bool {
        &&& new.same_layout(self)
        &&& new.ram() == self.ram_after_translation(addr, MemoryAccessType::EXECUTE)
        &&& new.plic == self.plic
        &&& new.clint.ram.data@ == self.clint.ram.data@
        &&& new.uart.state == self.uart.state
        &&& r == match self.translation(addr, MemoryAccessType::EXECUTE) {
            Some(pa) => if self.memory.range.contains(pa) {
                match phys_word(self.ram_base(), new.ram(), pa) {
                    Ok(w) => Ok(w),
                    Err(_) => Err(TrapCause::InstructionAccessFault),
                }
            } else {
                Err(TrapCause::InstructionPageFault)
            },
            None => Err(TrapCause::InstructionPageFault)
        }
    }

    /// Fetches the instruction word at virtual address `addr`: a failed translation, or a
    /// physical address outside physical memory, gives an instruction page fault; a word that
    /// does not fit in physical memory an instruction access fault.
    pub fn fetch(&mut self, addr: u64) -> (r: Result<u32, TrapCause>)
        requires
            old(self).translates(addr),
        ensures
            old(self).fetch_result(addr, r, final(self)),
    {
        let addr = self.translate_address(addr, MemoryAccessType::EXECUTE);
        match addr {
            Some(addr) => {
                if self.memory.includes(addr) {
                    match self.memory.read32(addr) {
                        Ok(value) => Ok(value),
                        Err(_cause) => Err(TrapCause::InstructionAccessFault),
                    }
                } else {
                    Err(TrapCause::InstructionPageFault)
                }
            },
            None => Err(TrapCause::InstructionPageFault),
        }
    }

    /// Takes a new `satp` value; a value equal to the current one changes nothing. Otherwise
    /// the addressing mode comes from its MODE field (bit 31 for RV32, bits 63:60 for RV64)
    /// and the root page number from its PPN field (22 bits for RV32, 44 bits for RV64).
    pub fn update_satp(&mut self, satp: RegisterValue, xlen: Xlen)
        requires
            old(self).satp != satp ==> satp_mode(satp, xlen) is Some,
        ensures
            old(self).satp == satp ==> *final(self) == *old(self),
            old(self).satp != satp ==> {
                &&& final(self).satp == satp
                &&& final(self).addressing_mode == satp_mode(satp, xlen).unwrap()
                &&& final(self).ppn == satp_ppn(satp, xlen)
                &&& *final(self) == (MMU {
                    satp: final(self).satp,
                    addressing_mode: final(self).addressing_mode,
                    ppn: final(self).ppn,
                    ..*old(self)
                })
            },
    {
        if self.satp == satp {
            return;
        }
        self.satp = satp;
        self.addressing_mode = match xlen {
            Xlen::Bits32 => AddressingMode::Bare,
            Xlen::Bits64 => match satp >> 60 {
                0 => AddressingMode::Bare,
                _ => AddressingMode::SV39,
            },
        };
        self.ppn = match xlen {
            Xlen::Bits32 => satp & 0x3fffff,
            Xlen::Bits64 => satp & 0xfffffffffff,
        };
    }

    /// Records the value of `mstatus`.
    pub fn update_mstatus(&mut self, mstatus: RegisterValue)
        ensures
            *final(self) == (MMU { mstatus, ..*old(self) }),
    {
        self.mstatus = mstatus;
    }

    /// Switches to privilege mode `pmode`.
    pub fn update_privilege_mode(&mut self, pmode: PrivMode)
        ensures
            *final(self) == (MMU { pmode, ..*old(self) }),
    {
        if self.pmode != pmode {
            self.pmode = pmode;
        }
    }

    /// The virtio disk, to be changed in place.
    pub fn virtio_mut(&mut self) -> (v: &mut VIRTIO)
        ensures
            *v == old(self).virtio,
            *final(self) == (MMU { virtio: *final(v), ..*old(self) }),
    {
        &mut self.virtio
    }

    /// Advances the devices by one clock tick and returns the new `mip` register value: the
    /// UART transmits, and the PLIC latches the virtio disk's interrupt line and re-evaluates
    /// the interrupt.
    pub fn tick(&mut self, mip: RegisterValue) -> (r: RegisterValue)
        ensures
            final(self).memory == old(self).memory,
            final(self).clint == old(self).clint,
            final(self).virtio == old(self).virtio,
            final(self).device_table == old(self).device_table,
            final(self).pmode == old(self).pmode,
            final(self).mstatus == old(self).mstatus,
            final(self).satp == old(self).satp,
            final(self).ppn == old(self).ppn,
            final(self).addressing_mode == old(self).addressing_mode,
            final(self).uart.range == old(self).uart.range,
            final(self).uart.state == ticked(old(self).uart.state).0,
            final(self).uart.output@ == match ticked(old(self).uart.state).1 {
                Some(b) => old(self).uart.output@.push(b),
                None => old(self).uart.output@,
            },
            old(self).plic.ticked(&final(self).plic, old(self).virtio.device.interrupt_status != 0, mip, r),
    {
        self.uart.tick();
        let virtio_irq = self.virtio.is_interrupting();
        self.plic.tick(virtio_irq, false, mip)
    }

    /// Hands out the bytes the UART transmitted so far.
    pub fn take_uart_output(&mut self) -> (out: Vec<u8>)
        ensures
            out@ == old(self).uart.output@,
            final(self).uart.output@ == Seq::<u8>::empty(),
            final(self).uart.state == old(self).uart.state,
            final(self).uart.range == old(self).uart.range,
            final(self).memory == old(self).memory,
            final(self).clint == old(self).clint,
            final(self).plic == old(self).plic,
            final(self).virtio == old(self).virtio,
            final(self).device_table == old(self).device_table,
            final(self).pmode == old(self).pmode,
            final(self).mstatus == old(self).mstatus,
            final(self).satp == old(self).satp,
            final(self).ppn == old(self).ppn,
            final(self).addressing_mode == old(self).addressing_mode,
    {
        self.uart.take_output()
    }
}

} // verus!
