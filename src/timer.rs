use vstd::prelude::*;

use crate::cpu::{Cpu, CpuState};
use crate::interrupt::Interrupt;
use crate::interrupts::with_request;
use crate::memory::{
    lemma_raw_write_keeps_video, lemma_write_keeps_video, video_kept, DIV, TAC, TIMA, TMA,
};

verus! {

broadcast use {lemma_write_keeps_video, lemma_raw_write_keeps_video};

/// Machine clocks per DIV increment (1048576 / 16384).
pub const DIVIDER_CLOCKS: u32 = 64;

/// Machine clocks per TIMA increment for TAC[1:0] = 00, 01, 10, 11.
pub open spec fn tima_period(tac: u8) -> u32 {
    let m = tac % 4;
    if m == 0 {
        256
    } else if m == 1 {
        4
    } else if m == 2 {
        16
    } else {
        64
    }
}

/// TAC bit 2 enables TIMA.
pub open spec fn tima_enabled(tac: u8) -> bool {
    (tac / 4) % 2 == 1
}

/// One clock of the divider.
pub open spec fn divider_step(s: CpuState) -> CpuState {
    if s.clock_counter_divider + 1 >= DIVIDER_CLOCKS {
        CpuState {
            clock_counter_divider: 0,
            mem: s.mem.raw_write(DIV, ((s.read(DIV) + 1) % 256) as u8),
            ..s
        }
    } else {
        CpuState { clock_counter_divider: (s.clock_counter_divider + 1) as u32, ..s }
    }
}

/// One clock of TIMA: on overflow it is reloaded from TMA and Timer is requested.
pub open spec fn tima_step(s: CpuState) -> CpuState {
    let tac = s.read(TAC);
    if !tima_enabled(tac) {
        s
    } else if s.clock_counter + 1 >= tima_period(tac) {
        if s.read(TIMA) == 255 {
            CpuState {
                clock_counter: 0,
                mem: with_request(s.mem.raw_write(TIMA, s.read(TMA)), Interrupt::TimerOverflow),
                ..s
            }
        } else {
            CpuState {
                clock_counter: 0,
                mem: s.mem.raw_write(TIMA, (s.read(TIMA) + 1) as u8),
                ..s
            }
        }
    } else {
        CpuState { clock_counter: (s.clock_counter + 1) as u32, ..s }
    }
}

pub open spec fn timer_spec(s: CpuState) -> CpuState {
    tima_step(divider_step(s))
}

impl Cpu {
    /// Machine clocks per TIMA increment, from TAC.
    pub fn timer_tick_count(&self) -> (r: u32)
        requires
            self.wf(),
        ensures
            r == tima_period(self@.read(TAC)),
    {
        let tac = self.mmu.read_8(TAC);
        let m = tac % 4;
        if m == 0 {
            256
        } else if m == 1 {
            4
        } else if m == 2 {
            16
        } else {
            64
        }
    }

    /// Whether TAC enables TIMA.
    pub fn timer_enabled(&self) -> (r: bool)
        requires
            self.wf(),
        ensures
            r == tima_enabled(self@.read(TAC)),
    {
        (self.mmu.read_8(TAC) / 4) % 2 == 1
    }

    /// Increment TIMA, reloading it from TMA on overflow. Returns whether it overflowed.
    pub fn timer_increase(&mut self) -> (r: bool)
        requires
            old(self).wf(),
        ensures
            final(self).wf(),
            video_kept(old(self)@.mem, final(self)@.mem),
            r == (old(self)@.read(TIMA) == 255),
            final(self)@ == (CpuState {
                mem: old(self)@.mem.raw_write(
                    TIMA,
                    if r {
                        old(self)@.read(TMA)
                    } else {
                        (old(self)@.read(TIMA) + 1) as u8
                    },
                ),
                ..old(self)@
            }),
    {
        let tima = self.mmu.read_8(TIMA);
        if tima == 255 {
            let m = self.mmu.read_8(TMA);
            self.mmu.raw_write_8(TIMA, m);
            true
        } else {
            self.mmu.raw_write_8(TIMA, tima + 1);
            false
        }
    }

    /// Increment DIV, wrapping. Returns whether it wrapped.
    pub fn divider_increase(&mut self) -> (r: bool)
        requires
            old(self).wf(),
        ensures
            final(self).wf(),
            video_kept(old(self)@.mem, final(self)@.mem),
            r == (old(self)@.read(DIV) == 255),
            final(self)@ == (CpuState {
                mem: old(self)@.mem.raw_write(DIV, ((old(self)@.read(DIV) + 1) % 256) as u8),
                ..old(self)@
            }),
    {
        let div = self.mmu.read_8(DIV);
        self.mmu.raw_write_8(DIV, div.wrapping_add(1));
        div == 255
    }

    /// Advance the divider and the timer by one machine clock.
    pub fn timer_clock_cycle(&mut self)
        requires
            old(self).wf(),
        ensures
            final(self).wf(),
            video_kept(old(self)@.mem, final(self)@.mem),
            final(self)@ == timer_spec(old(self)@),
    {
        if self.clock_counter_divider >= DIVIDER_CLOCKS - 1 {
            self.clock_counter_divider = 0;
            let _ = self.divider_increase();
        } else {
            self.clock_counter_divider = self.clock_counter_divider + 1;
        }
        if self.timer_enabled() {
            let period = self.timer_tick_count();
            if self.clock_counter >= period - 1 {
                self.clock_counter = 0;
                if self.timer_increase() {
                    self.request_interrupt(Interrupt::TimerOverflow);
                }
            } else {
                self.clock_counter = self.clock_counter + 1;
            }
        }
    }
}

} // verus!
