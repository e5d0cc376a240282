//! A 16550-style UART: its registers, its interrupt identification and its transmitter.
use vstd::prelude::*;

use crate::cpu::TrapCause;
use crate::mmio::VirtualDevice;
use crate::mmu::MemoryRange;

verus! {

/// The interrupt identification register's values.
#[derive(Copy, Clone, Debug, PartialEq, Eq, Structural)]
pub enum UartIirMask {
    Zero,
    ThrEmpty,
    RdAvail,
    NoIrq,
}

/// The register value of each interrupt identification.
pub open spec fn iir_value(m: UartIirMask) -> u8 {
    match m {
        UartIirMask::Zero => 0,
        UartIirMask::ThrEmpty => 0x2,
        UartIirMask::RdAvail => 0x4,
        UartIirMask::NoIrq => 0x7,
    }
}

impl UartIirMask {
    /// The register value of this identification.
    pub fn value(&self) -> (v: u8)
        ensures
            v == iir_value(*self),
    {
        match self {
            UartIirMask::Zero => 0,
            UartIirMask::ThrEmpty => 0x2,
            UartIirMask::RdAvail => 0x4,
            UartIirMask::NoIrq => 0x7,
        }
    }
}

/// The registers of the UART.
#[derive(Copy, Clone, Debug, PartialEq, Eq, Structural)]
pub struct UartState {
    pub clock: u64,
    pub rbr: u8,  // receiver buffer register
    pub thr: u8,  // transmitter holding register
    pub ier: u8,  // interrupt enable register
    pub iir: UartIirMask,  // interrupt identification register
    pub lcr: u8,  // line control register
    pub mcr: u8,  // modem control register
    pub lsr: u8,  // line status register
    pub scr: u8,  // scratch
    pub thre_ip: bool,
    pub interrupting: bool,
}

pub const IER_RX_ENABLE_BIT: u8 = 0x1;

pub const IER_TX_ENABLE_BIT: u8 = 0x2;

pub const LSR_TX_IDLE: u8 = 0x20;

/// The registers after an interrupt identification update, with the old receiver buffer and
/// whether a receive interrupt is pending. A load empties the receiver buffer and clears
/// "data available"; a receive interrupt takes precedence over a transmitter-empty one.
pub open spec fn iir_updated(s: UartState, is_load: bool) -> (UartState, u8, bool) {
    let s1 = if is_load {
        UartState { rbr: 0, lsr: s.lsr & !1u8, ..s }
    } else {
        s
    };
    let rx_ip = (s1.ier & IER_RX_ENABLE_BIT) != 0 && s1.rbr != 0;
    let thre_ip = (s1.ier & IER_TX_ENABLE_BIT) != 0 && s1.thr == 0;
    let iir = if rx_ip {
        UartIirMask::RdAvail
    } else if thre_ip {
        UartIirMask::ThrEmpty
    } else {
        UartIirMask::NoIrq
    };
    (UartState { iir, ..s1 }, s.rbr, rx_ip)
}

/// The registers after a clock tick, and the byte transmitted in it: every sixteenth tick a
/// non-empty holding register is sent and emptied.
pub open spec fn ticked(s: UartState) -> (UartState, Option<u8>) {
    let clock = vstd::wrapping::u64_specs::wrapping_add(s.clock, 1);
    let s0 = UartState { clock, ..s };
    let (s1, out, rx_ip) = if clock % 0x10 == 0 && s0.thr != 0 {
        let (u, _rbr, rx) = iir_updated(UartState { thr: 0, ..s0 }, false);
        let u2 = UartState { lsr: u.lsr | LSR_TX_IDLE, ..u };
        let u3 = if (u2.ier & IER_TX_ENABLE_BIT) != 0 {
            UartState { thre_ip: true, ..u2 }
        } else {
            u2
        };
        (u3, Some(s0.thr), rx)
    } else {
        (s0, None, false)
    };
    if s1.thre_ip || rx_ip {
        (UartState { interrupting: true, thre_ip: false, ..s1 }, out)
    } else {
        (UartState { interrupting: false, ..s1 }, out)
    }
}

/// The registers after the guest writes `value` at offset `offs` of the device. With the
/// divisor latch bit (LCR bit 7) clear, offset 0 fills the holding register and offset
/// 0x10000001 the interrupt enable register; 0x10000003, 0x10000004 and 0x10000007 write the
/// line control, modem control and scratch registers.
pub open spec fn written(s: UartState, offs: u64, value: u8) -> UartState {
    let dlab_clear = s.lcr >> 7u8 == 0;
    if offs == 0 {
        if dlab_clear {
            let u = iir_updated(UartState { thr: value, ..s }, false).0;
            UartState { lsr: u.lsr & !LSR_TX_IDLE, ..u }
        } else {
            s
        }
    } else if offs == 0x10000001 {
        if dlab_clear {
            let thre = if (s.ier & IER_TX_ENABLE_BIT) == 0 && (value & IER_TX_ENABLE_BIT) != 0
                && s.thr == 0 {
                true
            } else {
                s.thre_ip
            };
            let u = iir_updated(UartState { thre_ip: thre, ier: value, ..s }, false).0;
            UartState { lsr: u.lsr & !LSR_TX_IDLE, ..u }
        } else {
            s
        }
    } else if offs == 0x10000003 {
        UartState { lcr: value, ..s }
    } else if offs == 0x10000004 {
        UartState { mcr: value, ..s }
    } else if offs == 0x10000007 {
        UartState { scr: value, ..s }
    } else {
        s
    }
}

/// The registers after the guest reads offset `offs`, and the value read.
pub open spec fn read_at(s: UartState, offs: u64) -> (UartState, u8) {
    let dlab_clear = s.lcr >> 7u8 == 0;
    if offs == 0 {
        if dlab_clear {
            let (u, rbr, _) = iir_updated(s, true);
            (u, rbr)
        } else {
            (s, 0)
        }
    } else if offs == 1 {
        (s, if dlab_clear {
            s.ier
        } else {
            0
        })
    } else if offs == 2 {
        (s, iir_value(s.iir))
    } else if offs == 3 {
        (s, s.lcr)
    } else if offs == 4 {
        (s, s.mcr)
    } else if offs == 5 {
        (s, s.lsr)
    } else if offs == 7 {
        (s, s.scr)
    } else {
        (s, 0)
    }
}

/// The line status register reads as it stands, and reading it changes nothing; after a
/// tick that transmits a byte, it reads with the transmitter-idle bit set.
pub proof fn lemma_line_status_read(s: UartState)
    ensures
        read_at(s, 5) == (s, s.lsr),
        ticked(s).1 is Some ==> read_at(ticked(s).0, 5).1 & LSR_TX_IDLE == LSR_TX_IDLE,
{
    let lsr = ticked(s).0.lsr;
    if ticked(s).1 is Some {
        let clock = vstd::wrapping::u64_specs::wrapping_add(s.clock, 1);
        let l = iir_updated(UartState { thr: 0, clock, ..s }, false).0.lsr;
        assert(lsr == l | 0x20u8);
        assert((l | 0x20u8) & 0x20u8 == 0x20u8) by (bit_vector);
    }
}

/// The UART mapped at `range`, with the bytes it has transmitted and not yet handed out.
pub struct UART {
    pub range: MemoryRange,
    pub state: UartState,
    pub output: Vec<u8>,
}

impl UART {
    /// Whether every register is zero and nothing has been transmitted.
    pub open spec fn is_reset(&self) -> bool {
        &&& self.state == (UartState {
            clock: 0,
            rbr: 0,
            thr: 0,
            ier: 0,
            iir: UartIirMask::Zero,
            lcr: 0,
            mcr: 0,
            lsr: 0,
            scr: 0,
            thre_ip: false,
            interrupting: false,
        })
        &&& self.output@ == Seq::<u8>::empty()
    }

    /// A UART at `range` with every register zero.
    pub fn create(range: MemoryRange) -> (u: UART)
        ensures
            u.range == range,
            u.is_reset(),
    {
        UART {
            range,
            state: UartState {
                clock: 0,
                rbr: 0,
                thr: 0,
                ier: 0,
                iir: UartIirMask::Zero,
                lcr: 0,
                mcr: 0,
                lsr: 0,
                scr: 0,
                thre_ip: false,
                interrupting: false,
            },
            output: Vec::new(),
        }
    }

    /// Advances the UART's clock, appending a transmitted byte to `output`.
    pub fn tick(&mut self)
        ensures
            final(self).range == old(self).range,
            final(self).state == ticked(old(self).state).0,
            final(self).output@ == match ticked(old(self).state).1 {
                Some(b) => old(self).output@.push(b),
                None => old(self).output@,
            },
    {
        let state = &mut self.state;
        state.clock = state.clock.wrapping_add(1);
        let mut rx_ip = false;
        if (state.clock % 0x10) == 0 && state.thr != 0 {
            self.output.push(state.thr);
            state.thr = 0;
            let (_, rx) = UART::update_iir(false, state);
            rx_ip = rx;
            state.lsr |= LSR_TX_IDLE;
            if (state.ier & IER_TX_ENABLE_BIT) != 0 {
                state.thre_ip = true;
            }
        }
        if state.thre_ip || rx_ip {
            state.interrupting = true;
            state.thre_ip = false;
        } else {
            state.interrupting = false;
        }
    }

    /// Updates the interrupt identification register; returns the receiver buffer as it was
    /// and whether a receive interrupt is pending.
    fn update_iir(is_load: bool, state: &mut UartState) -> (r: (u8, bool))
        ensures
            (*final(state), r.0, r.1) == iir_updated(*old(state), is_load),
    {
        let rbr = state.rbr;
        if is_load {
            state.rbr = 0;
            state.lsr &= !0x1;  // Data Available
        }
        let rx_ip = (state.ier & IER_RX_ENABLE_BIT) != 0 && state.rbr != 0;
        let thre_ip = (state.ier & IER_TX_ENABLE_BIT) != 0 && state.thr == 0;
        // Which should be prioritized? RX or THRE interrupt?
        if rx_ip {
            state.iir = UartIirMask::RdAvail;
        } else if thre_ip {
            state.iir = UartIirMask::ThrEmpty;
        } else {
            state.iir = UartIirMask::NoIrq;
        }
        (rbr, rx_ip)
    }

    /// The guest writes `value` at `addr`.
    pub fn write(&mut self, addr: u64, value: u8) -> (r: Option<TrapCause>)
        requires
            old(self).range.start <= addr,
        ensures
            r is None,
            final(self).range == old(self).range,
            final(self).output@ == old(self).output@,
            final(self).state == written(old(self).state, (addr - old(self).range.start) as u64, value),
    {
        let state = &mut self.state;
        let lcr = state.lcr >> 7;
        let offs = addr - self.range.start;
        match offs {
            0 => match lcr == 0 {
                true => {
                    state.thr = value;
                    UART::update_iir(false, state);
                    state.lsr &= !LSR_TX_IDLE;
                },
                false => {},
            },
            0x10000001 => match lcr == 0 {
                true => {
                    // This bahavior isn't written in the data sheet
                    // but some drivers seem to rely on it.
                    if (state.ier & IER_TX_ENABLE_BIT) == 0 && (value & IER_TX_ENABLE_BIT) != 0
                        && state.thr == 0 {
                        state.thre_ip = true;
                    }
                    state.ier = value;
                    UART::update_iir(false, state);
                    state.lsr &= !LSR_TX_IDLE;
                },
                false => {},
            },
            0x10000003 => {
                state.lcr = value;
            },
            0x10000004 => {
                state.mcr = value;
            },
            0x10000007 => {
                state.scr = value;
            },
            _ => {},
        }
        None
    }

    /// The guest reads `addr`.
    pub fn read(&mut self, addr: u64) -> (r: Result<u8, TrapCause>)
        requires
            old(self).range.start <= addr,
        ensures
            r == Ok::<u8, TrapCause>(read_at(old(self).state, (addr - old(self).range.start) as u64).1),
            final(self).state == read_at(old(self).state, (addr - old(self).range.start) as u64).0,
            final(self).range == old(self).range,
            final(self).output@ == old(self).output@,
    {
        let state = &mut self.state;
        let lcr = state.lcr;
        let offs = addr - self.range.start;
        Ok(
            match offs {
                0 => match (lcr >> 7) == 0 {
                    true => UART::update_iir(true, state).0,
                    false => 0,
                },
                1 => match (lcr >> 7) == 0 {
                    true => state.ier,
                    false => 0,
                },
                2 => state.iir.value(),
                3 => state.lcr,
                4 => state.mcr,
                5 => state.lsr,
                7 => state.scr,
                _ => 0,
            },
        )
    }

    /// Hands out the bytes transmitted so far, emptying `output`.
    pub fn take_output(&mut self) -> (out: Vec<u8>)
        ensures
            out@ == old(self).output@,
            final(self).output@ == Seq::<u8>::empty(),
            final(self).state == old(self).state,
            final(self).range == old(self).range,
    {
        let mut out: Vec<u8> = Vec::new();
        std::mem::swap(&mut out, &mut self.output);
        out
    }
}

impl VirtualDevice for UART {
    open spec fn device_range(&self) -> MemoryRange {
        self.range
    }

    fn includes(&self, addr: u64) -> (b: bool) {
        self.range.includes(addr)
    }

    fn name(&self) -> (s: &str) {
        self.range.name.as_str()
    }
}

} // verus!
