//! The platform-level interrupt controller, with the virtio disk and the UART wired to it.
use vstd::prelude::*;

use crate::cpu::TrapCause;
use crate::mmio::VirtualDevice;
use crate::mmu::MemoryRange;

verus! {

/// Number of interrupt sources.
pub const NIPS: usize = 1024;

/// The interrupt source of the virtio disk.
pub const VIRTIO_IRQ: u32 = 4;

/// The interrupt source of the UART.
pub const UART_IRQ: u32 = 40;

/// The supervisor external interrupt pending bit of `mip`.
pub const MIP_SEIP: u64 = 0x200;

/// The interrupt controller mapped at `range`.
pub struct PLIC {
    pub range: MemoryRange,
    pub clock: u64,
    pub irq: u32,
    pub enabled: u64,
    pub threshold: u32,
    pub ips: [u8; 1024],
    pub prios: [u32; 1024],
    pub needs_update_irq: bool,
    pub virtio_ip_cache: bool,
}

/// The interrupt the controller signals: of the virtio disk (1) and the UART (10), the one that
/// is pending, enabled and above the threshold with the higher priority, the UART winning ties
/// only when its priority is strictly higher; 0 when there is none.
pub open spec fn selected_irq(p: &PLIC) -> u32 {
    let virtio_ip = ((p.ips@[0] >> 4u8) & 1) == 1;
    let uart_ip = (p.ips@[5] & 1) == 1;
    let virtio_priority = p.prios@[4];
    let uart_priority = p.prios@[40];
    let virtio_enabled = ((p.enabled >> 1u64) & 1) == 1;
    let uart_enabled = ((p.enabled >> 10u64) & 1) == 1;
    let v = virtio_ip && virtio_enabled && virtio_priority > p.threshold && virtio_priority > 0;
    let vp: u32 = if v {
        virtio_priority
    } else {
        0
    };
    let u = uart_ip && uart_enabled && uart_priority > p.threshold && uart_priority > vp;
    if u {
        10
    } else if v {
        1
    } else {
        0
    }
}

impl PLIC {
    /// Whether nothing is pending, enabled or prioritised, and the clock is at zero.
    pub open spec fn is_reset(&self) -> bool {
        &&& self.clock == 0
        &&& self.irq == 0
        &&& self.enabled == 0
        &&& self.threshold == 0
        &&& forall|i: int| 0 <= i < NIPS ==> self.ips@[i] == 0 && self.prios@[i] == 0
        &&& !self.needs_update_irq
        &&& !self.virtio_ip_cache
    }

    /// A controller at `range` with nothing pending, enabled or prioritised.
    pub fn create(range: MemoryRange) -> (p: PLIC)
        ensures
            p.range == range,
            p.is_reset(),
    {
        PLIC {
            range,
            clock: 0,
            irq: 0,
            enabled: 0,
            threshold: 0,
            ips: [0; 1024],
            prios: [0; 1024],
            needs_update_irq: false,
            virtio_ip_cache: false,
        }
    }

    /// Whether `new` and the `mip` value `r` are what a tick of this controller gives: the
    /// clock advances, a rising edge of the virtio interrupt line is latched, and when
    /// something changed the interrupt is chosen anew and SEIP set in `mip` when there is one.
    pub open spec fn ticked(&self, new: &PLIC, virtio_irq: bool, mip: u64, r: u64) -> bool {
        let rising = self.virtio_ip_cache != virtio_irq && virtio_irq;
        &&& new.clock == vstd::wrapping::u64_specs::wrapping_add(self.clock, 1)
        &&& new.virtio_ip_cache == virtio_irq
        &&& new.ips@ == if rising {
            self.ips@.update(0, self.ips@[0] | 0x10)
        } else {
            self.ips@
        }
        &&& !new.needs_update_irq
        &&& new.range == self.range
        &&& new.prios@ == self.prios@
        &&& new.enabled == self.enabled
        &&& new.threshold == self.threshold
        &&& if self.needs_update_irq || rising {
            &&& new.irq == selected_irq(new)
            &&& r == mip | (if new.irq != 0 {
                MIP_SEIP
            } else {
                0
            })
        } else {
            new.irq == self.irq && r == mip
        }
    }

    /// A tick leaves every bit of `mip` as it was and at most sets SEIP.
    pub proof fn lemma_tick_only_sets_seip(&self, new: &PLIC, virtio_irq: bool, mip: u64, r: u64)
        requires
            self.ticked(new, virtio_irq, mip, r),
        ensures
            r == mip || r == mip | MIP_SEIP,
            r & !MIP_SEIP == mip & !MIP_SEIP,
    {
        assert((mip | 0x200u64) & !0x200u64 == mip & !0x200u64 && (mip | 0u64) == mip) by (bit_vector);
    }

    /// Advances the clock, latches a rising edge of the virtio interrupt line, and when
    /// something changed re-evaluates the interrupt. Returns the new `mip` register value.
    /// A UART interrupt cannot be latched: its source number does not fit the pending bits.
    pub fn tick(&mut self, virtio_irq: bool, uart_irq: bool, mip: u64) -> (r: u64)
        requires
            !uart_irq,
        ensures
            old(self).ticked(&*final(self), virtio_irq, mip, r),
    {
        self.clock = self.clock.wrapping_add(1);
        // Detect rising edge of virtio irq
        if self.virtio_ip_cache != virtio_irq {
            if virtio_irq {
                assert(1u8 << 4u32 == 0x10) by (bit_vector);
                self.set_ip(VIRTIO_IRQ);
            }
            self.virtio_ip_cache = virtio_irq;
        }
        if self.needs_update_irq {
            self.needs_update_irq = false;
            self.update_irq(mip)
        } else {
            mip
        }
    }

    /// Chooses the interrupt to signal; returns `mip` with SEIP set when there is one.
    fn update_irq(&mut self, mip: u64) -> (r: u64)
        ensures
            final(self).irq == selected_irq(old(self)),
            r == mip | (if final(self).irq != 0 {
                MIP_SEIP
            } else {
                0
            }),
            final(self).range == old(self).range,
            final(self).clock == old(self).clock,
            final(self).enabled == old(self).enabled,
            final(self).threshold == old(self).threshold,
            final(self).ips@ == old(self).ips@,
            final(self).prios@ == old(self).prios@,
            final(self).needs_update_irq == old(self).needs_update_irq,
            final(self).virtio_ip_cache == old(self).virtio_ip_cache,
    {
        // Hardcoded VirtIO and UART
        assert(4u32 >> 3u32 == 0 && 4u32 & 7 == 4 && 40u32 >> 3u32 == 5 && 40u32 & 7 == 0
            && 4u32 >> 2u32 == 1 && 40u32 >> 2u32 == 10) by (bit_vector);
        let virtio_ip = ((self.ips[(VIRTIO_IRQ >> 3) as usize] >> (VIRTIO_IRQ & 7)) & 1) == 1;
        let uart_ip = ((self.ips[(UART_IRQ >> 3) as usize] >> (UART_IRQ & 7)) & 1) == 1;
        let virtio_priority = self.prios[VIRTIO_IRQ as usize];
        let uart_priority = self.prios[UART_IRQ as usize];
        let virtio_enabled = ((self.enabled >> (VIRTIO_IRQ >> 2)) & 1) == 1;
        let uart_enabled = ((self.enabled >> (UART_IRQ >> 2)) & 1) == 1;
        let ips = [virtio_ip, uart_ip];
        let enables = [virtio_enabled, uart_enabled];
        let priorities = [virtio_priority, uart_priority];
        let irqs = [VIRTIO_IRQ, UART_IRQ];
        let b0 = self.ips[0];
        let b5 = self.ips[5];
        assert((b5 >> 0u32) & 1 == b5 & 1 && (b0 >> 4u32) == (b0 >> 4u8)) by (bit_vector);

        let mut irq: u32 = 0;
        let mut priority: u32 = 0;
        let mut i: usize = 0;
        while i < 2
            invariant
                i <= 2,
                VIRTIO_IRQ >> 2u32 == 1,
                UART_IRQ >> 2u32 == 10,
                ips@ == seq![virtio_ip, uart_ip],
                enables@ == seq![virtio_enabled, uart_enabled],
                priorities@ == seq![virtio_priority, uart_priority],
                irqs@ == seq![VIRTIO_IRQ, UART_IRQ],
                i == 1 ==> {
                    let v = virtio_ip && virtio_enabled && virtio_priority > self.threshold
                        && virtio_priority > 0;
                    &&& irq == (if v {
                        1u32
                    } else {
                        0u32
                    })
                    &&& priority == (if v {
                        virtio_priority
                    } else {
                        0u32
                    })
                },
                i == 0 ==> irq == 0 && priority == 0,
                i == 2 ==> irq == selected_irq(self),
                virtio_ip == (((self.ips@[0] >> 4u8) & 1) == 1),
                uart_ip == ((self.ips@[5] & 1) == 1),
                virtio_priority == self.prios@[4],
                uart_priority == self.prios@[40],
                virtio_enabled == (((self.enabled >> 1u64) & 1) == 1),
                uart_enabled == (((self.enabled >> 10u64) & 1) == 1),
            decreases 2 - i,
        {
            if ips[i] && enables[i] && priorities[i] > self.threshold && priorities[i] > priority {
                irq = irqs[i] >> 2;
                priority = priorities[i];
            }
            i = i + 1;
        }
        self.irq = irq;
        mip | (if irq != 0 {
            MIP_SEIP
        } else {
            0
        })
    }

    /// Marks source `irq` pending. Only sources below 8 fit the pending bit arithmetic.
    fn set_ip(&mut self, irq: u32)
        requires
            irq < 8,
        ensures
            final(self).ips@ == old(self).ips@.update(0, old(self).ips@[0] | (1u8 << irq)),
            final(self).needs_update_irq,
            final(self).range == old(self).range,
            final(self).clock == old(self).clock,
            final(self).irq == old(self).irq,
            final(self).enabled == old(self).enabled,
            final(self).threshold == old(self).threshold,
            final(self).prios@ == old(self).prios@,
            final(self).virtio_ip_cache == old(self).virtio_ip_cache,
    {
        let index = (irq >> 3) as usize;
        assert(irq >> 3 == 0) by (bit_vector)
            requires
                irq < 8,
        ;
        self.ips[index] = self.ips[index] | (1 << irq);
        self.needs_update_irq = true;
    }

    /// Clears the pending mark of source `irq`. Only sources below 8 fit the pending bit
    /// arithmetic.
    fn clear_ip(&mut self, irq: u32)
        requires
            irq < 8,
        ensures
            final(self).ips@ == old(self).ips@.update(0, old(self).ips@[0] & !(1u8 << irq)),
            final(self).needs_update_irq,
            final(self).range == old(self).range,
            final(self).clock == old(self).clock,
            final(self).irq == old(self).irq,
            final(self).enabled == old(self).enabled,
            final(self).threshold == old(self).threshold,
            final(self).prios@ == old(self).prios@,
            final(self).virtio_ip_cache == old(self).virtio_ip_cache,
    {
        let index = (irq >> 3) as usize;
        assert(irq >> 3 == 0) by (bit_vector)
            requires
                irq < 8,
        ;
        self.ips[index] = self.ips[index] & !(1 << irq);
        self.needs_update_irq = true;
    }

    /// Whether a 32-bit write at `address` is one the controller handles: a priority of the
    /// first 1024 sources, the two enable words, the threshold, or the claim/complete register
    /// with a source below 8.
    pub open spec fn writable(address: u64, value: u32) -> bool {
        ||| 0x0c000000 <= address < 0x0c000400
        ||| address == 0x0c002080
        ||| address == 0x0c002084
        ||| address == 0x0c201000
        ||| (address == 0x0c201004 && value < 8)
    }

    /// Whether `new` is this controller after the guest writes the 32-bit `value` at
    /// `address`: a source's priority, the low or high enable word, the threshold, or
    /// (claim/complete) the source whose pending mark to clear.
    pub open spec fn wrote32(&self, new: &PLIC, address: u64, value: u32) -> bool {
        &&& new.range == self.range
        &&& new.clock == self.clock
        &&& new.irq == self.irq
        &&& new.virtio_ip_cache == self.virtio_ip_cache
        &&& 0x0c000000 <= address < 0x0c000400 ==> {
            &&& new.prios@ == self.prios@.update(address - 0x0c000000, value)
            &&& new.needs_update_irq
            &&& new.ips@ == self.ips@
            &&& new.enabled == self.enabled
            &&& new.threshold == self.threshold
        }
        &&& address == 0x0c002080 ==> {
            &&& new.enabled == (self.enabled & !0xffffffffu64) | (value as u64)
            &&& new.needs_update_irq
            &&& new.ips@ == self.ips@
            &&& new.prios@ == self.prios@
            &&& new.threshold == self.threshold
        }
        &&& address == 0x0c002084 ==> {
            &&& new.enabled == (self.enabled & !(0xffffffffu64 << 32u64)) | ((value as u64)
                << 32u64)
            &&& new.needs_update_irq == self.needs_update_irq
            &&& new.ips@ == self.ips@
            &&& new.prios@ == self.prios@
            &&& new.threshold == self.threshold
        }
        &&& address == 0x0c201000 ==> {
            &&& new.threshold == value
            &&& new.needs_update_irq
            &&& new.ips@ == self.ips@
            &&& new.prios@ == self.prios@
            &&& new.enabled == self.enabled
        }
        &&& address == 0x0c201004 ==> {
            &&& new.ips@ == self.ips@.update(0, self.ips@[0] & !(1u8 << value))
            &&& new.needs_update_irq
            &&& new.prios@ == self.prios@
            &&& new.enabled == self.enabled
            &&& new.threshold == self.threshold
        }
    }

    /// The guest writes the 32-bit `value` at `address`.
    pub fn write32(&mut self, address: u64, value: u32) -> (r: Option<TrapCause>)
        requires
            PLIC::writable(address, value),
        ensures
            r is None,
            old(self).wrote32(&*final(self), address, value),
    {
        if 0x0c000000 <= address && address <= 0x0c000fff {
            let index = (address - 0xc000000) as usize;
            self.prios[index] = value;
            self.needs_update_irq = true;
        } else if address == 0x0c002080 {
            self.enabled = (self.enabled & !0xffffffff) | (value as u64);
            self.needs_update_irq = true;
        } else if address == 0x0c002084 {
            self.enabled = (self.enabled & !(0xffffffff << 32)) | ((value as u64) << 32);
        } else if address == 0x0c201000 {
            self.threshold = value;
            self.needs_update_irq = true;
        } else {
            self.clear_ip(value);
        }
        None
    }
}

impl VirtualDevice for PLIC {
    open spec fn device_range(&self) -> MemoryRange {
        self.range
    }

    fn includes(&self, addr: u64) -> (b: bool) {
        self.range.includes(addr)
    }

    fn name(&self) -> (s: &str) {
        self.range.name.as_str()
    }
}

} // verus!
