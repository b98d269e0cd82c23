use vstd::prelude::*;

use crate::cpu::{Cpu, CpuState};
use crate::instructions::call_spec;
use crate::interrupt::Interrupt;
use crate::bits::bit_set;
use crate::memory::{
    if_with, if_without, lemma_raw_write_keeps_video, lemma_write_keeps_video, video_kept, MemView,
    IE, IF,
};

verus! {

broadcast use {lemma_write_keeps_video, lemma_raw_write_keeps_video};

/// The source is enabled in IE and requested in IF.
pub open spec fn requested(m: MemView, i: Interrupt) -> bool {
    bit_set(m.read(IE), i.bit_spec()) && bit_set(m.read(IF), i.bit_spec())
}

/// Some source is both enabled and requested.
pub open spec fn any_requested(m: MemView) -> bool {
    requested(m, Interrupt::VBlank) || requested(m, Interrupt::LcdcStatus) || requested(
        m,
        Interrupt::TimerOverflow,
    ) || requested(m, Interrupt::SerialTransferCompletion) || requested(m, Interrupt::Input)
}

/// The requested source of highest priority (meaningful when `any_requested`).
pub open spec fn highest_requested(m: MemView) -> Interrupt {
    if requested(m, Interrupt::VBlank) {
        Interrupt::VBlank
    } else if requested(m, Interrupt::LcdcStatus) {
        Interrupt::LcdcStatus
    } else if requested(m, Interrupt::TimerOverflow) {
        Interrupt::TimerOverflow
    } else if requested(m, Interrupt::SerialTransferCompletion) {
        Interrupt::SerialTransferCompletion
    } else {
        Interrupt::Input
    }
}

/// The bus with `i` requested in IF.
pub open spec fn with_request(m: MemView, i: Interrupt) -> MemView {
    m.raw_write(IF, if_with(m.read(IF), i))
}

/// Servicing `i`: its IF bit cleared, IME off, HALT left, PC pushed, PC = vector.
pub open spec fn dispatch_spec(s: CpuState, i: Interrupt) -> CpuState {
    let s1 = CpuState {
        ime: false,
        ime_pending: false,
        halted: false,
        mem: s.mem.raw_write(IF, if_without(s.read(IF), i)),
        ..s
    };
    call_spec(s1, i.vector_spec())
}

impl Cpu {
    /// Request an interrupt: set its IF bit.
    pub fn request_interrupt(&mut self, interrupt: Interrupt)
        requires
            old(self).wf(),
        ensures
            final(self).wf(),
            video_kept(old(self)@.mem, final(self)@.mem),
            final(self)@ == (CpuState { mem: with_request(old(self)@.mem, interrupt), ..old(self)@ }),
    {
        self.mmu.request_interrupt(interrupt);
    }

    /// Mark a requested interrupt as handled: clear its IF bit.
    pub fn reset_requested_interrupt(&mut self, interrupt: Interrupt)
        requires
            old(self).wf(),
        ensures
            final(self).wf(),
            video_kept(old(self)@.mem, final(self)@.mem),
            final(self)@ == (CpuState {
                mem: old(self)@.mem.raw_write(IF, if_without(old(self)@.read(IF), interrupt)),
                ..old(self)@
            }),
    {
        self.mmu.reset_requested_interrupt(interrupt);
    }

    /// Whether the source is enabled in IE.
    pub fn interrupt_enabled(&self, interrupt: Interrupt) -> (r: bool)
        requires
            self.wf(),
        ensures
            r == bit_set(self@.read(IE), interrupt.bit_spec()),
    {
        self.mmu.interrupt_enabled(interrupt)
    }

    /// Whether the source is enabled and requested.
    pub fn interrupt_requested(&self, interrupt: Interrupt) -> (r: bool)
        requires
            self.wf(),
        ensures
            r == requested(self@.mem, interrupt),
    {
        self.mmu.interrupt_requested(interrupt)
    }

    /// Whether any source is enabled and requested.
    pub fn any_interrupt_requested(&self) -> (r: bool)
        requires
            self.wf(),
        ensures
            r == any_requested(self@.mem),
    {
        self.interrupt_requested(Interrupt::VBlank) || self.interrupt_requested(Interrupt::LcdcStatus)
            || self.interrupt_requested(Interrupt::TimerOverflow) || self.interrupt_requested(
            Interrupt::SerialTransferCompletion,
        ) || self.interrupt_requested(Interrupt::Input)
    }

    /// Service `interrupt` if it is enabled and requested.
    pub fn execute_interrupt(&mut self, interrupt: Interrupt) -> (r: bool)
        requires
            old(self).wf(),
        ensures
            final(self).wf(),
            video_kept(old(self)@.mem, final(self)@.mem),
            r == requested(old(self)@.mem, interrupt),
            r ==> final(self)@ == dispatch_spec(old(self)@, interrupt),
            !r ==> final(self)@ == old(self)@,
    {
        if self.interrupt_requested(interrupt) {
            self.interrupts_enabled = false;
            self.ime_pending = false;
            self.halted = false;
            self.reset_requested_interrupt(interrupt);
            let _ = self.call(interrupt.jump_address());
            true
        } else {
            false
        }
    }

    /// At an instruction boundary: when IME is on, service the requested source of
    /// highest priority (V-Blank, LCD-STAT, Timer, Serial, Joypad). Returns whether one was
    /// serviced.
    pub fn handle_interrupts(&mut self) -> (r: bool)
        requires
            old(self).wf(),
        ensures
            final(self).wf(),
            video_kept(old(self)@.mem, final(self)@.mem),
            r == (old(self)@.ime && any_requested(old(self)@.mem)),
            r ==> final(self)@ == dispatch_spec(old(self)@, highest_requested(old(self)@.mem)),
            !r ==> final(self)@ == old(self)@,
    {
        if !self.interrupts_enabled {
            return false;
        }
        if self.execute_interrupt(Interrupt::VBlank) {
            return true;
        }
        if self.execute_interrupt(Interrupt::LcdcStatus) {
            return true;
        }
        if self.execute_interrupt(Interrupt::TimerOverflow) {
            return true;
        }
        if self.execute_interrupt(Interrupt::SerialTransferCompletion) {
            return true;
        }
        if self.execute_interrupt(Interrupt::Input) {
            return true;
        }
        false
    }
}

} // verus!
