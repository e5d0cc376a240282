//! How SV39 page-table walks behave when memory changes under them: the accessed and dirty
//! bits a walk writes back change no translation, and a store that misses the entries a walk
//! reads leaves the walk as it was. From these, a word written through a virtual address reads
//! back through it.
use vstd::bytes::{
    lemma_auto_spec_u32_to_from_le_bytes, lemma_auto_spec_u64_to_from_le_bytes,
    spec_u32_to_le_bytes, spec_u64_from_le_bytes, spec_u64_to_le_bytes,
};
use vstd::prelude::*;

use crate::cpu::TrapCause;
use crate::memory::{bytes_from, lemma_store_then_load, spans, splice};
use crate::mmu::{
    leaf_address, lemma_next_ppn, lemma_walk_leaf_spans, permits, pte_has, touched_pte, vpn, walk, MemoryAccessType,
    Walk, MMU, PPN_MASK,
};

verus! {

/// The entry at `e` of memory `data` that starts at `base`.
pub open spec fn entry_at(base: u64, data: Seq<u8>, e: u64) -> u64 {
    spec_u64_from_le_bytes(bytes_from(base, data, e, 8))
}

/// The address of the entry a walk reads at `level` in the table at page `ppn`.
pub open spec fn entry_address(va: u64, level: nat, ppn: u64) -> u64 {
    (ppn * 4096 + vpn(va, level) * 8) as u64
}

/// Whether two walks end alike: at the same kind of end, and at a leaf, at the same entry and
/// level with an entry that differs at most in its accessed and dirty bits.
pub open spec fn same_walk(w1: Walk, w2: Walk) -> bool {
    match (w1, w2) {
        (Walk::Unmapped, Walk::Unmapped) => true,
        (Walk::Fault, Walk::Fault) => true,
        (Walk::Leaf(a1, p1, l1), Walk::Leaf(a2, p2, l2)) => a1 == a2 && l1 == l2 && p1 & !0xc0u64
            == p2 & !0xc0u64,
        _ => false,
    }
}

/// Whether the walk reads an entry that overlaps the `n` bytes from `lo` on.
pub open spec fn walk_reads(
    base: u64,
    data: Seq<u8>,
    va: u64,
    level: nat,
    ppn: u64,
    lo: u64,
    n: nat,
) -> bool
    decreases level,
{
    let e = entry_address(va, level, ppn);
    if !spans(base, data, e, 8) {
        false
    } else if lo < e + 8 && e < lo + n {
        true
    } else {
        let pte = entry_at(base, data, e);
        if !pte_has(pte, 0) || (!pte_has(pte, 1) && pte_has(pte, 2)) {
            false
        } else if !pte_has(pte, 1) && !pte_has(pte, 3) {
            level != 0 && walk_reads(
                base,
                data,
                va,
                (level - 1) as nat,
                (pte >> 10u64) & 0xfffffffffff,
                lo,
                n,
            )
        } else {
            false
        }
    }
}

/// Entries a walk reads from a table at a page number of 44 bits are aligned to 8 bytes.
pub(crate) proof fn lemma_entry_aligned(va: u64, level: nat, ppn: u64)
    requires
        ppn <= PPN_MASK,
    ensures
        entry_address(va, level, ppn) == ppn * 4096 + vpn(va, level) * 8,
        entry_address(va, level, ppn) % 8 == 0,
{
    let v = vpn(va, level);
    assert(v < 512) by {
        assert((va >> 12u64) & 0x1ff < 512 && (va >> 21u64) & 0x1ff < 512 && (va >> 30u64) & 0x1ff
            < 512) by (bit_vector);
    }
    assert(ppn * 4096 + v * 8 <= 0xfffffffffff * 4096 + 511 * 8 && (ppn * 4096 + v * 8) % 8 == 0)
        by (nonlinear_arith)
        requires
            ppn <= 0xfffffffffff,
            v < 512,
    ;
}

/// The bits of an entry a walk looks at: valid, read, write, execute and the page number.
proof fn lemma_entry_bits(p: u64, q: u64)
    requires
        p & !0xc0u64 == q & !0xc0u64,
    ensures
        p & 0x1f == q & 0x1f,
        (p >> 10u64) & 0xfffffffffff == (q >> 10u64) & 0xfffffffffff,
        (p >> 10u64) & 0x1ff == (q >> 10u64) & 0x1ff,
        (p >> 19u64) & 0x1ff == (q >> 19u64) & 0x1ff,
        (p >> 28u64) & 0x3ffffff == (q >> 28u64) & 0x3ffffff,
        forall|i: u64| i < 4 ==> (pte_has(p, i) <==> pte_has(q, i)),
{
    assert({
        &&& p & 0x1f == q & 0x1f
        &&& (p >> 10u64) & 0xfffffffffff == (q >> 10u64) & 0xfffffffffff
        &&& (p >> 10u64) & 0x1ff == (q >> 10u64) & 0x1ff
        &&& (p >> 19u64) & 0x1ff == (q >> 19u64) & 0x1ff
        &&& (p >> 28u64) & 0x3ffffff == (q >> 28u64) & 0x3ffffff
    }) by (bit_vector)
        requires
            p & !0xc0u64 == q & !0xc0u64,
    ;
}

/// Writing an entry back with its accessed (and dirty) bit set changes no other bit.
proof fn lemma_touch_bits(p: u64, access: MemoryAccessType)
    ensures
        touched_pte(p, access) & !0xc0u64 == p & !0xc0u64,
{
    assert((p | 0x40 | 0x80u64) & !0xc0u64 == p & !0xc0u64 && (p | 0x40 | 0u64) & !0xc0u64 == p
        & !0xc0u64) by (bit_vector);
}

/// A store that overlaps no entry a walk reads leaves the walk as it was.
pub proof fn lemma_walk_after_store(
    base: u64,
    data: Seq<u8>,
    va: u64,
    level: nat,
    ppn: u64,
    lo: u64,
    bytes: Seq<u8>,
)
    requires
        spans(base, data, lo, bytes.len()),
        !walk_reads(base, data, va, level, ppn, lo, bytes.len()),
    ensures
        walk(base, splice(data, lo - base, bytes), va, level, ppn) == walk(base, data, va, level, ppn),
        walk(base, data, va, level, ppn) matches Walk::Leaf(a, _p, _l) ==> a + 8 <= lo || lo
            + bytes.len() <= a,
    decreases level,
{
    let e = entry_address(va, level, ppn);
    lemma_store_then_load(base, data, lo, bytes, e, 8);
    if spans(base, data, e, 8) && !(lo < e + 8 && e < lo + bytes.len()) && level > 0 {
        let pte = entry_at(base, data, e);
        if pte_has(pte, 0) && !(!pte_has(pte, 1) && pte_has(pte, 2)) && !pte_has(pte, 1)
            && !pte_has(pte, 3) {
            lemma_walk_after_store(
                base,
                data,
                va,
                (level - 1) as nat,
                (pte >> 10u64) & 0xfffffffffff,
                lo,
                bytes,
            );
        }
    }
}

/// Writing back the accessed and dirty bits of one entry, at an aligned address, leaves every
/// walk ending alike.
pub proof fn lemma_walk_after_touch(
    base: u64,
    data: Seq<u8>,
    va: u64,
    level: nat,
    ppn: u64,
    a: u64,
    pte: u64,
    access: MemoryAccessType,
)
    requires
        spans(base, data, a, 8),
        a % 8 == 0,
        entry_at(base, data, a) == pte,
        ppn <= PPN_MASK,
    ensures
        same_walk(
            walk(base, splice(data, a - base, spec_u64_to_le_bytes(touched_pte(pte, access))), va, level, ppn),
            walk(base, data, va, level, ppn),
        ),
    decreases level,
{
    lemma_auto_spec_u64_to_from_le_bytes();
    let t = touched_pte(pte, access);
    let after = splice(data, a - base, spec_u64_to_le_bytes(t));
    let e = entry_address(va, level, ppn);
    lemma_entry_aligned(va, level, ppn);
    lemma_store_then_load(base, data, a, spec_u64_to_le_bytes(t), e, 8);
    if spans(base, data, e, 8) {
        let old_pte = entry_at(base, data, e);
        let new_pte = entry_at(base, after, e);
        if e == a {
            assert(new_pte == t);
            lemma_touch_bits(pte, access);
        } else {
            assert(e + 8 <= a || a + 8 <= e) by (nonlinear_arith)
                requires
                    e % 8 == 0,
                    a % 8 == 0,
                    e != a,
            ;
            assert(new_pte == old_pte);
        }
        assert(new_pte & !0xc0u64 == old_pte & !0xc0u64);
        lemma_entry_bits(new_pte, old_pte);
        assert(pte_has(new_pte, 0) == pte_has(old_pte, 0));
        assert(pte_has(new_pte, 1) == pte_has(old_pte, 1));
        assert(pte_has(new_pte, 2) == pte_has(old_pte, 2));
        assert(pte_has(new_pte, 3) == pte_has(old_pte, 3));
        if level > 0 {
            let next = (old_pte >> 10u64) & 0xfffffffffff;
            assert(next <= PPN_MASK) by (bit_vector)
                requires
                    next == (old_pte >> 10u64) & 0xfffffffffff,
            ;
            lemma_walk_after_touch(base, data, va, (level - 1) as nat, next, a, pte, access);
        }
    }
}

/// A walk from a table at a page number of 44 bits ends, if at a leaf, at an aligned entry
/// that holds the leaf's value.
proof fn lemma_leaf_entry(base: u64, data: Seq<u8>, va: u64, level: nat, ppn: u64)
    requires
        ppn <= PPN_MASK,
    ensures
        walk(base, data, va, level, ppn) matches Walk::Leaf(a, p, _l) ==> {
            &&& a % 8 == 0
            &&& entry_at(base, data, a) == p
            &&& pte_has(p, 0)
            &&& !(!pte_has(p, 1) && pte_has(p, 2))
            &&& pte_has(p, 1) || pte_has(p, 3)
        },
    decreases level,
{
    lemma_entry_aligned(va, level, ppn);
    let e = entry_address(va, level, ppn);
    if spans(base, data, e, 8) && level > 0 {
        let pte = entry_at(base, data, e);
        let next = (pte >> 10u64) & 0xfffffffffff;
        lemma_next_ppn(pte);
        lemma_leaf_entry(base, data, va, (level - 1) as nat, next);
    }
}

/// One step of the SV39 walk. When the entry read at level 1 or 2 is a valid pointer (V set;
/// R, W and X clear), the walk ends exactly where the walk one level down, from the page that
/// entry names, ends; and the leaf it may reach lies at another entry, so writing that leaf
/// back (with ACCESSED, and DIRTY for a write) leaves the pointer entry as it was.
pub proof fn lemma_walk_pointer_step(
    base: u64,
    data: Seq<u8>,
    va: u64,
    level: nat,
    ppn: u64,
    access: MemoryAccessType,
)
    requires
        1 <= level <= 2,
        ppn <= PPN_MASK,
        spans(base, data, entry_address(va, level, ppn), 8),
        entry_at(base, data, entry_address(va, level, ppn)) & 1 == 1,
        entry_at(base, data, entry_address(va, level, ppn)) & 0b1110 == 0,
    ensures
        ({
            let e = entry_address(va, level, ppn);
            let pte = entry_at(base, data, e);
            &&& walk(base, data, va, level, ppn) == walk(
                base,
                data,
                va,
                (level - 1) as nat,
                (pte >> 10u64) & 0xfffffffffff,
            )
            &&& walk(base, data, va, level, ppn) matches Walk::Leaf(a, p, _l) ==> {
                &&& a != e
                &&& entry_at(
                    base,
                    splice(data, a - base, spec_u64_to_le_bytes(touched_pte(p, access))),
                    e,
                ) == pte
            }
        }),
{
    let e = entry_address(va, level, ppn);
    let pte = entry_at(base, data, e);
    let next = (pte >> 10u64) & 0xfffffffffff;
    assert(pte_has(pte, 0) && !pte_has(pte, 1) && !pte_has(pte, 2) && !pte_has(pte, 3)
        && next <= PPN_MASK) by (bit_vector)
        requires
            pte & 1 == 1,
            pte & 0b1110 == 0,
            next == (pte >> 10u64) & 0xfffffffffff,
    ;
    lemma_entry_aligned(va, level, ppn);
    lemma_leaf_entry(base, data, va, (level - 1) as nat, next);
    lemma_walk_leaf_spans(base, data, va, (level - 1) as nat, next);
    if let Walk::Leaf(a, p, _l) = walk(base, data, va, level, ppn) {
        assert(a != e);
        let bytes = spec_u64_to_le_bytes(touched_pte(p, access));
        lemma_auto_spec_u64_to_from_le_bytes();
        assert(bytes.len() == 8);
        assert(e + 8 <= a || a + 8 <= e) by (nonlinear_arith)
            requires
                a % 8 == 0,
                e % 8 == 0,
                a != e,
        ;
        lemma_store_then_load(base, data, a, bytes, e, 8);
    }
}

impl MMU {
    /// One step of the page table walk as it is performed: from a valid pointer entry (V set;
    /// R, W and X clear) at level 1 or 2, the walk answers and leaves physical memory exactly
    /// as the walk one level down from the page that entry names does, and the pointer entry
    /// itself is left as it was.
    pub proof fn lemma_walk_outcome_pointer_step(
        &self,
        addr: u64,
        level: nat,
        ppn: u64,
        access: MemoryAccessType,
    )
        requires
            1 <= level <= 2,
            ppn <= PPN_MASK,
            spans(self.ram_base(), self.ram(), entry_address(addr, level, ppn), 8),
            entry_at(self.ram_base(), self.ram(), entry_address(addr, level, ppn)) & 1 == 1,
            entry_at(self.ram_base(), self.ram(), entry_address(addr, level, ppn)) & 0b1110 == 0,
        ensures
            ({
                let e = entry_address(addr, level, ppn);
                let pte = entry_at(self.ram_base(), self.ram(), e);
                &&& self.walk_outcome(addr, level, ppn, access) == self.walk_outcome(
                    addr,
                    (level - 1) as nat,
                    (pte >> 10u64) & 0xfffffffffff,
                    access,
                )
                &&& entry_at(self.ram_base(), self.walk_outcome(addr, level, ppn, access).1, e) == pte
            }),
    {
        lemma_walk_pointer_step(self.ram_base(), self.ram(), addr, level, ppn, access);
    }

    /// The accessed and dirty bits a translation writes back change no walk: after translating
    /// one address, the walk for every address ends as before, up to those bits of its leaf.
    pub proof fn lemma_translation_survives_touch(
        &self,
        va: u64,
        access: MemoryAccessType,
        other: u64,
    )
        requires
            self.ppn <= PPN_MASK,
        ensures
            same_walk(
                walk(self.ram_base(), self.ram_after_translation(va, access), other, 2, self.ppn),
                walk(self.ram_base(), self.ram(), other, 2, self.ppn),
            ),
    {
        lemma_walk_leaf_spans(self.ram_base(), self.ram(), va, 2, self.ppn);
        lemma_leaf_entry(self.ram_base(), self.ram(), va, 2, self.ppn);
        if self.paging() {
            match self.walk_for(va) {
                Walk::Leaf(a, pte, _l) => {
                    lemma_walk_after_touch(self.ram_base(), self.ram(), other, 2, self.ppn, a, pte, access);
                },
                _ => {
                    lemma_same_walk_reflexive(walk(self.ram_base(), self.ram(), other, 2, self.ppn));
                },
            }
        } else {
            lemma_same_walk_reflexive(walk(self.ram_base(), self.ram(), other, 2, self.ppn));
        }
    }

    /// With SV39 paging, a word written through a virtual address reads back through it, as
    /// long as the word lands in physical memory and on no entry of the page table that
    /// translates the address.
    pub proof fn lemma_paged_write32_then_read32(
        m0: &MMU,
        va: u64,
        value: u32,
        r1: Option<TrapCause>,
        m1: &MMU,
        r2: Result<u32, TrapCause>,
        m2: &MMU,
    )
        requires
            m0.paging(),
            m0.ppn <= PPN_MASK,
            m0.translation(va, MemoryAccessType::WRITE) matches Some(pa) && {
                &&& m0.memory.range.contains(pa)
                &&& spans(m0.ram_base(), m0.ram(), pa, 4)
                &&& !walk_reads(
                    m0.ram_base(),
                    m0.ram_after_translation(va, MemoryAccessType::WRITE),
                    va,
                    2,
                    m0.ppn,
                    pa,
                    4,
                )
            },
            m0.write32_result(va, value, r1, m1),
            m1.read32_result(va, r2, m2),
        ensures
            r1 is None,
            r2 == Ok::<u32, TrapCause>(value),
    {
        lemma_auto_spec_u32_to_from_le_bytes();
        lemma_auto_spec_u64_to_from_le_bytes();
        let base = m0.ram_base();
        let pa = m0.translation(va, MemoryAccessType::WRITE).unwrap();
        let touched = m0.ram_after_translation(va, MemoryAccessType::WRITE);
        m0.lemma_translation_keeps_len(va, MemoryAccessType::WRITE);
        let bytes = spec_u32_to_le_bytes(value);
        assert(m1.ram() == splice(touched, pa - base, bytes));
        // The walk for `va` in m1 is that in the touched memory, which ends like the first.
        lemma_walk_after_store(base, touched, va, 2, m0.ppn, pa, bytes);
        m0.lemma_translation_survives_touch(va, MemoryAccessType::WRITE, va);
        lemma_leaf_entry(base, m0.ram(), va, 2, m0.ppn);
        lemma_walk_leaf_spans(base, m1.ram(), va, 2, m0.ppn);
        assert(m1.ram_base() == base && m1.ppn == m0.ppn && m1.paging());
        match (m0.walk_for(va), m1.walk_for(va)) {
            (Walk::Leaf(a0, p0, l0), Walk::Leaf(a1, p1, l1)) => {
                lemma_entry_bits(p1, p0);
                assert(m1.translation(va, MemoryAccessType::READ) == Some(pa));
                // Reading writes back the entry at a1, which the stored word does not overlap.
                m1.lemma_translation_keeps_len(va, MemoryAccessType::READ);
                lemma_store_then_load(base, touched, pa, bytes, pa, 4);
                lemma_store_then_load(
                    base,
                    m1.ram(),
                    a1,
                    spec_u64_to_le_bytes(touched_pte(p1, MemoryAccessType::READ)),
                    pa,
                    4,
                );
                assert(spans(base, m1.ram(), pa, 4));
            },
            _ => {
                assert(false);
            },
        }
    }
}

/// Every walk ends like itself.
proof fn lemma_same_walk_reflexive(w: Walk)
    ensures
        same_walk(w, w),
{
}

} // verus!
