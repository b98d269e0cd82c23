use vstd::prelude::*;

use crate::bits::{bit_set, lemma_clear_bit, lemma_replace_low_two_bits, lemma_set_bit};
use crate::cpu::{Cpu, CpuError, CpuState};
use crate::debug::DebugStackInfo;
use crate::exec::{tick_error_state, tick_outcome};
use crate::interrupts::{any_requested, dispatch_spec, highest_requested, with_request};
use crate::interrupt::Interrupt;
use crate::memory::{
    lemma_raw_write_keeps_video, lemma_write_keeps_video, video_kept, if_with, MemError, MemView, MMU, IF, LY, LYC, STAT,
};
use crate::ppu::{pixel_spec, PIXEL_COUNT, PPU};
use crate::rom::{header_ok, Rom, RomError};
use crate::timer::timer_spec;
use crate::video_regs::{LcdStatusBit, VideoMode};

verus! {

broadcast use {lemma_write_keeps_video, lemma_raw_write_keeps_video};

/// Why emulation could not start or go on.
#[derive(Clone, Copy, PartialEq, Eq, Debug, Structural)]
pub enum GBRSError {
    MemError(MemError),
    RomError(RomError),
    CpuError(CpuError),
}

/// What the scheduler knows about the instruction at a clock.
#[derive(Clone, Copy, Debug)]
pub struct InstructionInformation {
    pub instruction: u8,
    pub data: [Option<u8>; 4],
    pub stack_info: DebugStackInfo,
    pub is_new: bool,
    pub clocks_left: u32,
}

impl InstructionInformation {
    pub fn instruction(&self) -> (r: u8)
        ensures
            r == self.instruction,
    {
        self.instruction
    }

    pub fn data(&self) -> (r: [Option<u8>; 4])
        ensures
            r == self.data,
    {
        self.data
    }

    pub fn stack_info(&self) -> (r: DebugStackInfo)
        ensures
            r == self.stack_info,
    {
        self.stack_info
    }

    pub fn is_new(&self) -> (r: bool)
        ensures
            r == self.is_new,
    {
        self.is_new
    }

    pub fn clocks_left(&self) -> (r: u32)
        ensures
            r == self.clocks_left,
    {
        self.clocks_left
    }
}

/// The outcome of one machine clock.
#[derive(Clone, Copy, Debug)]
pub struct ClockInformation {
    pub instruction: InstructionInformation,
    pub frame_done: bool,
}

impl ClockInformation {
    pub fn instruction(&self) -> (r: InstructionInformation)
        ensures
            r == self.instruction,
    {
        self.instruction
    }

    pub fn frame_done(&self) -> (r: bool)
        ensures
            r == self.frame_done,
    {
        self.frame_done
    }

    pub fn new(
        instruction: u8,
        data: [Option<u8>; 4],
        stack_info: DebugStackInfo,
        is_new_instruction: bool,
        clocks_left: u32,
        frame_done: bool,
    ) -> (r: ClockInformation)
        ensures
            r.instruction.instruction == instruction,
            r.instruction.data == data,
            r.instruction.stack_info == stack_info,
            r.instruction.is_new == is_new_instruction,
            r.instruction.clocks_left == clocks_left,
            r.frame_done == frame_done,
    {
        ClockInformation {
            instruction: InstructionInformation {
                instruction,
                data,
                stack_info,
                is_new: is_new_instruction,
                clocks_left,
            },
            frame_done,
        }
    }
}

pub const OAM_SEARCH_CLOCKS: u32 = 20;
pub const PIXEL_TRANSFER_CLOCKS: u32 = 43;
pub const H_BLANK_CLOCKS: u32 = 51;
pub const CLOCKS_PER_LINE: u32 = 114;
pub const DRAW_LINES: u32 = 144;
pub const V_BLANK_LINES: u32 = 10;
pub const LINES: u32 = 154;
pub const CLOCKS: u32 = 17556;
pub const V_BLANK_INTERRUPT_CLOCK: u32 = 16416;
/// Clocks taken by servicing an interrupt.
pub const INTERRUPT_DISPATCH_CLOCKS: u32 = 5;

/// The PPU mode at a clock of the frame: lines 0..=143 go OAM (dots 0..20), pixel
/// transfer (dots 20..43), H-Blank (the rest); lines 144..=153 are V-Blank.
pub open spec fn mode_at(counter: int) -> VideoMode {
    let line = counter / (CLOCKS_PER_LINE as int);
    let dot = counter % (CLOCKS_PER_LINE as int);
    if line < DRAW_LINES {
        if dot < OAM_SEARCH_CLOCKS {
            VideoMode::OAM
        } else if dot < PIXEL_TRANSFER_CLOCKS {
            VideoMode::PixelTransfer
        } else {
            VideoMode::HBlank
        }
    } else {
        VideoMode::VBlank
    }
}

/// The STAT interrupt line: LYC=LY with its enable (bit 6), or the enable of the current
/// mode (OAM bit 5, H-Blank bit 3, V-Blank bit 4).
pub open spec fn stat_line_spec(stat: u8, mode: VideoMode) -> bool {
    (bit_set(stat, 2) && bit_set(stat, 6)) || (mode == VideoMode::OAM && bit_set(stat, 5)) || (
    mode == VideoMode::HBlank && bit_set(stat, 3)) || (mode == VideoMode::VBlank && bit_set(stat, 4))
}

/// The console as the contracts see it.
pub struct GbState {
    pub cpu: CpuState,
    pub cycles_left: u32,
    pub counter: u32,
    pub stat_line: bool,
}

/// IF after the requests of one clock: V-Blank and/or LCD-STAT.
pub open spec fn requested_if(f: u8, vblank: bool, stat: bool) -> u8 {
    let f1 = if vblank {
        if_with(f, Interrupt::VBlank)
    } else {
        f
    };
    if stat {
        if_with(f1, Interrupt::LcdcStatus)
    } else {
        f1
    }
}

/// The register part of a clock at `counter`, with `prev` the STAT line of the previous
/// clock: LY, the LYC=LY flag, the STAT mode, V-Blank at its clock, LCD-STAT on a rising
/// STAT line. Gives the new state and the new STAT line.
#[verifier::opaque]
pub open spec fn registers_spec(s: CpuState, counter: u32, prev: bool) -> (CpuState, bool) {
    let mode = mode_at(counter as int);
    let m1 = s.mem.raw_write(LY, (counter / CLOCKS_PER_LINE) as u8);
    let st0 = m1.read(STAT);
    let st1 = if m1.read(LY) == m1.read(LYC) {
        st0 | (1u8 << 2u8)
    } else {
        st0 & !(1u8 << 2u8)
    };
    let m2 = m1.raw_write(STAT, st1);
    let m3 = m2.raw_write(STAT, (m2.read(STAT) / 4 * 4 + mode.code()) as u8);
    let line = stat_line_spec(m3.read(STAT), mode);
    let m4 = if counter == V_BLANK_INTERRUPT_CLOCK {
        with_request(m3, Interrupt::VBlank)
    } else {
        m3
    };
    let m5 = if !prev && line {
        with_request(m4, Interrupt::LcdcStatus)
    } else {
        m4
    };
    (CpuState { mem: m5, ..s }, line)
}

/// One clock of the processor and timer with `cycles_left` clocks of the current
/// instruction still to go: continue it, or service an interrupt (5 clocks), or tick.
/// Gives the new state, the clocks left, and whether something new started (or the error).
#[verifier::opaque]
pub open spec fn cpu_clock_spec(s: CpuState, cycles_left: u32) -> (CpuState, u32, Result<bool, CpuError>) {
    if cycles_left > 0 {
        (timer_spec(s), (cycles_left - 1) as u32, Ok(false))
    } else if s.ime && any_requested(s.mem) {
        (
            timer_spec(dispatch_spec(s, highest_requested(s.mem))),
            (INTERRUPT_DISPATCH_CLOCKS - 1) as u32,
            Ok(true),
        )
    } else {
        match tick_outcome(s) {
            Ok((s2, c)) => (timer_spec(s2), (c - 1) as u32, Ok(true)),
            Err(e) => (timer_spec(tick_error_state(s)), 0, Err(e)),
        }
    }
}

/// The framebuffer with line `ly` rendered from the bus `m`.
pub open spec fn rendered(m: MemView, ly: int, buf: Seq<u8>) -> Seq<u8> {
    Seq::new(
        PIXEL_COUNT as nat,
        |i: int|
            if ly * 160 <= i < ly * 160 + 160 {
                pixel_spec(m, i - ly * 160, ly)
            } else {
                buf[i]
            },
    )
}

/// One machine clock: registers, processor and timer, then the line is rendered at the
/// last dot of a visible line. Gives the new console, framebuffer and result.
#[verifier::opaque]
pub open spec fn clock_spec(g: GbState, buf: Seq<u8>) -> (GbState, Seq<u8>, Result<bool, GBRSError>) {
    let c = g.counter;
    let line = c / CLOCKS_PER_LINE;
    let dot = c % CLOCKS_PER_LINE;
    let (s1, stat) = registers_spec(g.cpu, c, g.stat_line);
    let (s2, cyc, res) = cpu_clock_spec(s1, g.cycles_left);
    let buf2 = if line < DRAW_LINES && dot + 1 == CLOCKS_PER_LINE {
        rendered(s2.mem, line as int, buf)
    } else {
        buf
    };
    let next = if c + 1 == CLOCKS {
        0
    } else {
        c + 1
    };
    (
        GbState { cpu: s2, cycles_left: cyc, counter: next as u32, stat_line: stat },
        buf2,
        match res {
            Ok(_) => Ok(c + 1 == CLOCKS),
            Err(e) => Err(GBRSError::CpuError(e)),
        },
    )
}

/// Clocking from `g` until the frame completes or a clock fails, with at most `fuel`
/// clocks.
pub open spec fn frame_spec(g: GbState, buf: Seq<u8>, fuel: nat) -> (GbState, Seq<u8>, Result<(), GBRSError>)
    decreases fuel,
{
    let (g2, b2, r) = clock_spec(g, buf);
    match r {
        Err(e) => (g2, b2, Err(e)),
        Ok(true) => (g2, b2, Ok(())),
        Ok(false) => if fuel <= 1 {
            (g2, b2, Ok(()))
        } else {
            frame_spec(g2, b2, (fuel - 1) as nat)
        },
    }
}

/// The console: the processor (which owns the bus) and the frame clock.
pub struct GameBoy {
    pub cpu: Cpu,
    /// Clocks left in the instruction (or interrupt dispatch) under way
    pub cycles_left_in_instruction: u32,
    /// 0..17556, the clock within the frame
    pub clock_number_in_current_frame: u32,
    /// The STAT interrupt line at the previous clock
    pub old_stat_interrupt_state: bool,
}

impl View for GameBoy {
    type V = GbState;

    open spec fn view(&self) -> GbState {
        GbState {
            cpu: self.cpu@,
            cycles_left: self.cycles_left_in_instruction,
            counter: self.clock_number_in_current_frame,
            stat_line: self.old_stat_interrupt_state,
        }
    }
}

impl GameBoy {
    pub open spec fn wf(&self) -> bool {
        &&& self.cpu.wf()
        &&& self.clock_number_in_current_frame < CLOCKS
    }

    /// A console around a bus, at the first clock of a frame.
    pub fn new(mmu: MMU) -> (r: GameBoy)
        requires
            mmu.wf(),
        ensures
            r.wf(),
            r.cpu@.mem == mmu@,
            r.cpu@.pc == 0,
            r.clock_number_in_current_frame == 0,
            r.cycles_left_in_instruction == 0,
    {
        GameBoy {
            cpu: Cpu::new(mmu),
            cycles_left_in_instruction: 0,
            clock_number_in_current_frame: 0,
            old_stat_interrupt_state: false,
        }
    }

    /// A console for a cartridge image, without boot overlay.
    pub fn load(bytes: Vec<u8>) -> (r: Result<GameBoy, GBRSError>)
        ensures
            r matches Ok(gb) ==> gb.wf() && gb.cpu@.mem.rom == bytes@ && !gb.cpu@.mem.boot_on
                && gb.clock_number_in_current_frame == 0,
            r matches Err(e) ==> e is RomError,
            r is Ok <==> header_ok(bytes@),
    {
        match Rom::load_from_bytes(bytes) {
            Ok(rom) => Ok(GameBoy::new(MMU::new(rom))),
            Err(e) => Err(GBRSError::RomError(e)),
        }
    }

    /// The bus.
    pub fn memory(&self) -> (r: &MMU)
        ensures
            r == &self.cpu.mmu,
    {
        self.cpu.memory()
    }

    /// The processor.
    pub fn cpu(&self) -> (r: &Cpu)
        ensures
            r == &self.cpu,
    {
        &self.cpu
    }

    /// One machine clock: set LY and the STAT mode from the frame clock, raise V-Blank
    /// and (on a rising STAT line) LCD-STAT, step the processor and the timer, and at the
    /// last dot of a visible line render it. Returns whether the frame is complete.
    pub fn clock(&mut self, buffer: &mut Vec<u8>) -> (r: Result<bool, GBRSError>)
        requires
            old(self).wf(),
            old(buffer)@.len() == PIXEL_COUNT,
        ensures
            final(self).wf(),
            final(buffer)@.len() == PIXEL_COUNT,
            final(self).clock_number_in_current_frame == (old(self).clock_number_in_current_frame
                + 1) % (CLOCKS as int),
            (final(self)@, final(buffer)@, r) == clock_spec(old(self)@, old(buffer)@),
            r matches Ok(done) ==> done == (old(self).clock_number_in_current_frame == CLOCKS - 1),
            old(self).cycles_left_in_instruction > 0 ==> r is Ok,
            final(self).cpu@.read(LY) == old(self).clock_number_in_current_frame / CLOCKS_PER_LINE,
            final(self).cpu@.read(LY) <= 153,
            final(self).cpu@.read(STAT) % 4 == mode_at(
                old(self).clock_number_in_current_frame as int,
            ).code(),
    {
        let ghost g_old = self@;
        let ghost b_old = buffer@;
        let counter = self.clock_number_in_current_frame;
        let line = counter / CLOCKS_PER_LINE;
        let dot = counter % CLOCKS_PER_LINE;
        self.update_video_registers();
        let ghost after_regs = self.cpu@.mem;
        let ghost s1 = self.cpu@;
        let ghost stat1 = self.old_stat_interrupt_state;
        let step = self.cpu_clock();
        let ghost buf0 = buffer@;
        if line < DRAW_LINES && dot + 1 == CLOCKS_PER_LINE {
            PPU::write_line(&self.cpu.mmu, buffer);
            assert(buffer@ =~= rendered(self.cpu@.mem, line as int, buf0));
        }
        proof {
            lemma_mod4_of_mod8(after_regs.read(STAT), self.cpu@.mem.read(STAT));
        }
        self.clock_number_in_current_frame = counter + 1;
        let new_frame = self.clock_number_in_current_frame == CLOCKS;
        if new_frame {
            self.clock_number_in_current_frame = 0;
        }
        let res = match step {
            Ok(_) => Ok(new_frame),
            Err(e) => Err(GBRSError::CpuError(e)),
        };
        proof {
            lemma_clock_spec(g_old, b_old, s1, stat1, step, self@, buffer@, res);
        }
        res
    }

    /// The register part of a clock: LY from the frame clock, the LYC=LY flag, the STAT
    /// mode, V-Blank requested at its clock, and LCD-STAT requested on a rising STAT line.
    pub fn update_video_registers(&mut self)
        requires
            old(self).wf(),
        ensures
            final(self).wf(),
            final(self).clock_number_in_current_frame == old(self).clock_number_in_current_frame,
            final(self).cycles_left_in_instruction == old(self).cycles_left_in_instruction,
            (final(self).cpu@, final(self).old_stat_interrupt_state) == registers_spec(
                old(self).cpu@,
                old(self).clock_number_in_current_frame,
                old(self).old_stat_interrupt_state,
            ),
            final(self).cpu@.read(IF) == requested_if(
                old(self).cpu@.read(IF),
                old(self).clock_number_in_current_frame == V_BLANK_INTERRUPT_CLOCK,
                !old(self).old_stat_interrupt_state && final(self).old_stat_interrupt_state,
            ),
            final(self).cpu@ == (CpuState { mem: final(self).cpu@.mem, ..old(self).cpu@ }),
            final(self).cpu@.read(LY) == old(self).clock_number_in_current_frame / CLOCKS_PER_LINE,
            final(self).cpu@.read(LYC) == old(self).cpu@.read(LYC),
            final(self).cpu@.read(STAT) % 4 == mode_at(
                old(self).clock_number_in_current_frame as int,
            ).code(),
            bit_set(final(self).cpu@.read(STAT), 2)
                == (final(self).cpu@.read(LY) == final(self).cpu@.read(LYC)),
            final(self).old_stat_interrupt_state == stat_line_spec(
                final(self).cpu@.read(STAT),
                mode_at(old(self).clock_number_in_current_frame as int),
            ),
            old(self).clock_number_in_current_frame == V_BLANK_INTERRUPT_CLOCK ==> bit_set(
                final(self).cpu@.read(IF),
                0,
            ),
            !old(self).old_stat_interrupt_state && final(self).old_stat_interrupt_state ==> bit_set(
                final(self).cpu@.read(IF),
                1,
            ),
    {
        proof {
            reveal(registers_spec);
        }
        let counter = self.clock_number_in_current_frame;
        let line = counter / CLOCKS_PER_LINE;
        let dot = counter % CLOCKS_PER_LINE;
        self.cpu.mmu.set_ly(line as u8);
        let ghost s0 = self.cpu@.read(STAT);
        self.cpu.mmu.update_lyc_ly_cmp();
        let ghost s1 = self.cpu@.read(STAT);
        let mode = if line < DRAW_LINES {
            if dot < OAM_SEARCH_CLOCKS {
                VideoMode::OAM
            } else if dot < PIXEL_TRANSFER_CLOCKS {
                VideoMode::PixelTransfer
            } else {
                VideoMode::HBlank
            }
        } else {
            VideoMode::VBlank
        };
        self.cpu.mmu.set_video_mode(mode);
        let ghost s2 = self.cpu@.read(STAT);
        proof {
            if self.cpu@.read(LY) == self.cpu@.read(LYC) {
                lemma_set_bit(s0, 2, 2);
            } else {
                lemma_clear_bit(s0, 2, 2);
            }
            lemma_replace_low_two_bits(s1, mode.code(), 2);
        }
        let mut stat_line = self.cpu.mmu.get_lcd_status(LcdStatusBit::LycLyCmp)
            && self.cpu.mmu.get_lcd_status(LcdStatusBit::LycStatInterrupt);
        match mode {
            VideoMode::OAM => {
                stat_line = stat_line || self.cpu.mmu.get_lcd_status(
                    LcdStatusBit::OamStatInterrupt,
                );
            },
            VideoMode::HBlank => {
                stat_line = stat_line || self.cpu.mmu.get_lcd_status(
                    LcdStatusBit::HBlankStatInterrupt,
                );
            },
            VideoMode::VBlank => {
                stat_line = stat_line || self.cpu.mmu.get_lcd_status(
                    LcdStatusBit::VBlankStatInterrupt,
                );
            },
            VideoMode::PixelTransfer => {},
        }
        let ghost i0 = self.cpu@.read(IF);
        if counter == V_BLANK_INTERRUPT_CLOCK {
            self.cpu.request_interrupt(Interrupt::VBlank);
            proof {
                lemma_set_bit(i0, 0, 0);
            }
        }
        let ghost i1 = self.cpu@.read(IF);
        if !self.old_stat_interrupt_state && stat_line {
            self.cpu.request_interrupt(Interrupt::LcdcStatus);
            proof {
                lemma_set_bit(i1, 1, 0);
                lemma_set_bit(i1, 1, 1);
            }
        }
        self.old_stat_interrupt_state = stat_line;
    }

    /// Advance the processor by one clock: continue the instruction under way, or
    /// service an interrupt (5 clocks), or fetch and execute the next instruction; then
    /// advance the timer. Returns whether a new instruction or dispatch started.
    fn cpu_clock(&mut self) -> (r: Result<bool, CpuError>)
        requires
            old(self).wf(),
        ensures
            final(self).wf(),
            video_kept(old(self).cpu@.mem, final(self).cpu@.mem),
            final(self).clock_number_in_current_frame == old(self).clock_number_in_current_frame,
            final(self).old_stat_interrupt_state == old(self).old_stat_interrupt_state,
            (final(self).cpu@, final(self).cycles_left_in_instruction, r) == cpu_clock_spec(
                old(self).cpu@,
                old(self).cycles_left_in_instruction,
            ),
            old(self).cycles_left_in_instruction > 0 ==> r == Ok::<bool, CpuError>(false),
    {
        proof {
            reveal(cpu_clock_spec);
        }
        let mut r: Result<bool, CpuError> = Ok(false);
        if self.cycles_left_in_instruction == 0 {
            if self.cpu.handle_interrupts() {
                self.cycles_left_in_instruction = INTERRUPT_DISPATCH_CLOCKS - 1;
                r = Ok(true);
            } else {
                match self.cpu.tick() {
                    Ok(c) => {
                        self.cycles_left_in_instruction = c - 1;
                        r = Ok(true);
                    },
                    Err(e) => {
                        r = Err(e);
                    },
                }
            }
        } else {
            self.cycles_left_in_instruction = self.cycles_left_in_instruction - 1;
        }
        self.cpu.timer_clock_cycle();
        r
    }

    /// Clock until the frame completes (at most one frame of clocks).
    pub fn frame(&mut self, buffer: &mut Vec<u8>) -> (r: Result<(), GBRSError>)
        requires
            old(self).wf(),
            old(buffer)@.len() == PIXEL_COUNT,
        ensures
            final(self).wf(),
            final(buffer)@.len() == PIXEL_COUNT,
            r is Ok ==> final(self).clock_number_in_current_frame == 0,
            (final(self)@, final(buffer)@, r) == frame_spec(
                old(self)@,
                old(buffer)@,
                (CLOCKS - old(self).clock_number_in_current_frame) as nat,
            ),
    {
        loop
            invariant
                self.wf(),
                buffer@.len() == PIXEL_COUNT,
                frame_spec(
                    old(self)@,
                    old(buffer)@,
                    (CLOCKS - old(self).clock_number_in_current_frame) as nat,
                ) == frame_spec(self@, buffer@, (CLOCKS - self.clock_number_in_current_frame) as nat),
            decreases CLOCKS - self.clock_number_in_current_frame,
        {
            let before = self.clock_number_in_current_frame;
            let ghost g0 = self@;
            let ghost b0 = buffer@;
            match self.clock(buffer) {
                Ok(true) => {
                    return Ok(());
                },
                Ok(false) => {
                    assert(self.clock_number_in_current_frame == before + 1);
                    assert(frame_spec(g0, b0, (CLOCKS - before) as nat) == frame_spec(
                        self@,
                        buffer@,
                        (CLOCKS - self.clock_number_in_current_frame) as nat,
                    ));
                },
                Err(e) => {
                    return Err(e);
                },
            }
        }
    }
}

proof fn lemma_clock_spec(
    g: GbState,
    b: Seq<u8>,
    s1: CpuState,
    stat: bool,
    step: Result<bool, CpuError>,
    g2: GbState,
    b2: Seq<u8>,
    res: Result<bool, GBRSError>,
)
    requires
        (s1, stat) == registers_spec(g.cpu, g.counter, g.stat_line),
        (g2.cpu, g2.cycles_left, step) == cpu_clock_spec(s1, g.cycles_left),
        g2.stat_line == stat,
        g2.counter == (if g.counter + 1 == CLOCKS {
            0
        } else {
            g.counter + 1
        }),
        b2 == (if g.counter / CLOCKS_PER_LINE < DRAW_LINES && g.counter % CLOCKS_PER_LINE + 1
            == CLOCKS_PER_LINE {
            rendered(g2.cpu.mem, (g.counter / CLOCKS_PER_LINE) as int, b)
        } else {
            b
        }),
        res == (match step {
            Ok(_) => Ok(g.counter + 1 == CLOCKS),
            Err(e) => Err(GBRSError::CpuError(e)),
        }),
    ensures
        (g2, b2, res) == clock_spec(g, b),
{
    reveal(clock_spec);
}

proof fn lemma_mod4_of_mod8(a: u8, b: u8)
    requires
        a % 8 == b % 8,
    ensures
        a % 4 == b % 4,
{
}

/// LY stays within 0..=153: the clock of a frame is below 154 lines of 114 clocks.
pub proof fn law_ly_in_range(counter: u32)
    requires
        counter < CLOCKS,
    ensures
        counter / CLOCKS_PER_LINE <= 153,
        (counter / CLOCKS_PER_LINE >= DRAW_LINES) == (mode_at(counter as int) == VideoMode::VBlank),
{
}

} // verus!
