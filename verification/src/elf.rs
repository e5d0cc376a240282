//! Loading the segments of an executable into the memory system.
use vstd::prelude::*;

use crate::cpu::TrapCause;
use crate::memory::{lemma_store_then_load, spans, splice};
use crate::mmu::{stored, MMU};
use crate::uart::{written, UartState};

verus! {

/// Loads segments of an executable linked at `vbase`.
pub struct Loader {
    pub vbase: u64,
}

/// What the devices a load writes hold: the bytes of physical memory, the UART's registers and
/// the bytes of the CLINT.
pub type Contents = (Seq<u8>, UartState, Seq<u8>);

/// The contents of `mmu`'s devices.
pub open spec fn contents_of(mmu: &MMU) -> Contents {
    (mmu.ram(), mmu.uart.state, mmu.clint.ram.data@)
}

/// The contents after a byte write of `value` at untranslated address `addr`: physical
/// memory, the UART and the CLINT are looked up in that order; a store that does not fit
/// changes nothing.
pub open spec fn byte_stored(mmu: &MMU, c: Contents, addr: u64, value: u8) -> Contents {
    if mmu.memory.range.contains(addr) {
        if spans(mmu.ram_base(), c.0, addr, 1) {
            (splice(c.0, addr - mmu.ram_base(), seq![value]), c.1, c.2)
        } else {
            c
        }
    } else if mmu.uart.range.contains(addr) {
        (c.0, written(c.1, (addr - mmu.uart.range.start) as u64, value), c.2)
    } else if spans(mmu.clint.ram.base, c.2, addr, 1) {
        (c.0, c.1, splice(c.2, addr - mmu.clint.ram.base, seq![value]))
    } else {
        c
    }
}

/// The contents after the bytes of `region` are written one by one from `base` on.
pub open spec fn loaded(mmu: &MMU, base: u64, region: Seq<u8>) -> Contents
    decreases region.len(),
{
    if region.len() == 0 {
        contents_of(mmu)
    } else {
        byte_stored(
            mmu,
            loaded(mmu, base, region.drop_last()),
            (base + region.len() - 1) as u64,
            region.last(),
        )
    }
}

impl Loader {
    /// A loader for an executable linked at `vbase`.
    pub fn create(vbase: u64) -> (l: Loader)
        ensures
            l.vbase == vbase,
    {
        Loader { vbase }
    }

    /// Copies `region` into the memory system from `base` on, one byte at a time through
    /// `write8`, which translates each address as the memory system then stands. A byte whose
    /// write faults is skipped.
    pub fn load(&self, mmu: &mut MMU, base: u64, region: &[u8])
        requires
            base + region@.len() <= u64::MAX + 1,
            load_defined(*old(mmu), base, region@),
        ensures
            loads(*old(mmu), base, region@, *final(mmu)),
            final(mmu).same_layout(old(mmu)),
            final(mmu).plic == old(mmu).plic,
            !old(mmu).paging() ==> contents_of(final(mmu)) == loaded(old(mmu), base, region@),
    {
        let ghost m0 = *mmu;
        let mut offs: usize = 0;
        assert(region@.take(0) =~= Seq::<u8>::empty());
        while offs < region.len()
            invariant
                offs <= region@.len(),
                base + region@.len() <= u64::MAX + 1,
                load_defined(m0, base, region@),
                loads(m0, base, region@.take(offs as int), *mmu),
                mmu.same_layout(&m0),
                mmu.plic == m0.plic,
                !m0.paging() ==> contents_of(mmu) == loaded(&m0, base, region@.take(offs as int)),
            decreases region@.len() - offs,
        {
            let addr = offs as u64 + base;
            assert(addr == (base + offs) as u64);
            let ghost prefix = region@.take(offs + 1);
            proof {
                lemma_defined_prefix(m0, base, region@, offs + 1);
                assert(prefix.drop_last() =~= region@.take(offs as int));
                assert(prefix.last() == region@[offs as int]);
                assert(addr == (base + prefix.len() - 1) as u64);
                assert(loads(m0, base, prefix.drop_last(), *mmu));
            }
            let ghost before = *mmu;
            let r = mmu.write8(addr, region[offs]);
            proof {
                assert(before.write8_result(addr, prefix.last(), r, mmu));
                assert(loads(m0, base, prefix, *mmu));
            }
            offs = offs + 1;
        }
        assert(region@.take(region@.len() as int) =~= region@);
    }

    /// Loads `region` as `load` does, testing each byte write first: at the first byte whose
    /// write is not defined (its address does not translate, or leads to no device a byte can
    /// be written to), stops and answers that byte's address. A defined load always succeeds.
    pub fn try_load(&self, mmu: &mut MMU, base: u64, region: &[u8]) -> (r: Result<(), u64>)
        requires
            base + region@.len() <= u64::MAX + 1,
        ensures
            load_defined(*old(mmu), base, region@) ==> r is Ok,
            r is Ok ==> loads(*old(mmu), base, region@, *final(mmu)),
            r is Ok && !old(mmu).paging() ==> contents_of(final(mmu)) == loaded(
                old(mmu),
                base,
                region@,
            ),
            r matches Err(a) ==> exists|k: int|
                0 <= k < region@.len() && a == base + k && #[trigger] loads(
                    *old(mmu),
                    base,
                    region@.take(k),
                    *final(mmu),
                ) && !final(mmu).write8_defined(a),
            final(mmu).same_layout(old(mmu)),
            final(mmu).plic == old(mmu).plic,
    {
        let ghost m0 = *mmu;
        let mut offs: usize = 0;
        assert(region@.take(0) =~= Seq::<u8>::empty());
        while offs < region.len()
            invariant
                m0 == *old(mmu),
                offs <= region@.len(),
                base + region@.len() <= u64::MAX + 1,
                loads(m0, base, region@.take(offs as int), *mmu),
                mmu.same_layout(&m0),
                mmu.plic == m0.plic,
                !m0.paging() ==> contents_of(mmu) == loaded(&m0, base, region@.take(offs as int)),
            decreases region@.len() - offs,
        {
            let addr = offs as u64 + base;
            assert(addr == (base + offs) as u64);
            let ghost prefix = region@.take(offs + 1);
            proof {
                assert(prefix.drop_last() =~= region@.take(offs as int));
                assert(prefix.last() == region@[offs as int]);
                assert(addr == (base + prefix.len() - 1) as u64);
                if load_defined(m0, base, region@) {
                    lemma_defined_prefix(m0, base, region@, offs + 1);
                    assert(loads(m0, base, prefix.drop_last(), *mmu));
                }
            }
            if !mmu.write8_allowed(addr) {
                assert(loads(m0, base, region@.take(offs as int), *mmu));
                return Err(addr);
            }
            let ghost before = *mmu;
            let r = mmu.write8(addr, region[offs]);
            proof {
                assert(before.write8_result(addr, prefix.last(), r, mmu));
                assert(loads(m0, base, prefix, *mmu));
            }
            offs = offs + 1;
        }
        assert(region@.take(region@.len() as int) =~= region@);
        Ok(())
    }
}

/// The memory systems that writing the bytes of `region` one by one through `write8`, from
/// `base` on, can leave when started from `mmu`.
pub open spec fn loads(mmu: MMU, base: u64, region: Seq<u8>, new: MMU) -> bool
    decreases region.len(),
{
    if region.len() == 0 {
        new == mmu
    } else {
        exists|r: Option<TrapCause>, mid: MMU|
            #![trigger mid.write8_result((base + region.len() - 1) as u64, region.last(), r, &new)]
            loads(mmu, base, region.drop_last(), mid) && mid.write8_result(
                (base + region.len() - 1) as u64,
                region.last(),
                r,
                &new,
            )
    }
}

/// Whether writing the bytes of `region` one by one from `base` on, started from `mmu`, is
/// defined: each byte write is, on every memory system the earlier writes can leave.
pub open spec fn load_defined(mmu: MMU, base: u64, region: Seq<u8>) -> bool
    decreases region.len(),
{
    region.len() == 0 || {
        &&& load_defined(mmu, base, region.drop_last())
        &&& forall|mid: MMU|
            #[trigger] loads(mmu, base, region.drop_last(), mid) ==> mid.write8_defined(
                (base + region.len() - 1) as u64,
            )
    }
}

/// A load that is defined is defined on each prefix of its region.
proof fn lemma_defined_prefix(mmu: MMU, base: u64, region: Seq<u8>, k: int)
    requires
        0 <= k <= region.len(),
        load_defined(mmu, base, region),
    ensures
        load_defined(mmu, base, region.take(k)),
    decreases region.len(),
{
    if k == region.len() {
        assert(region.take(k) =~= region);
    } else {
        lemma_defined_prefix(mmu, base, region.drop_last(), k);
        assert(region.drop_last().take(k) =~= region.take(k));
    }
}

/// Loading into physical memory alone: when every byte lands in physical memory and fits,
/// the load writes the region there and leaves the UART and the CLINT as they were.
pub proof fn lemma_loaded_into_memory(mmu: &MMU, base: u64, region: Seq<u8>)
    requires
        base + region.len() <= u64::MAX,
        spans(mmu.ram_base(), mmu.ram(), base, region.len()),
        forall|i: int| 0 <= i < region.len() ==> #[trigger] mmu.memory.range.contains((base + i) as u64),
    ensures
        loaded(mmu, base, region) == (
            splice(mmu.ram(), base - mmu.ram_base(), region),
            mmu.uart.state,
            mmu.clint.ram.data@,
        ),
    decreases region.len(),
{
    let rb = mmu.ram_base();
    if region.len() == 0 {
        assert(splice(mmu.ram(), base - rb, region) =~= mmu.ram());
    } else {
        let prev = region.drop_last();
        lemma_loaded_into_memory(mmu, base, prev);
        let addr = (base + region.len() - 1) as u64;
        assert(mmu.memory.range.contains(addr));
        let partial = splice(mmu.ram(), base - rb, prev);
        lemma_store_then_load(rb, mmu.ram(), base, prev, base, 0);
        assert(spans(rb, partial, addr, 1));
        assert(splice(partial, addr - rb, seq![region.last()]) =~= splice(mmu.ram(), base - rb, region));
    }
}

} // verus!
