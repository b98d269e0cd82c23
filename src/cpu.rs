use vstd::prelude::*;

use crate::alu::{flags_of_byte, flags_to_byte, Flags};
use crate::memory::{MemError, MemView, MMU};

verus! {

/// Why the processor stopped.
#[derive(Clone, Copy, PartialEq, Eq, Debug, Structural)]
pub enum CpuError {
    /// The opcode byte is not an instruction; the program stream is corrupt.
    UnknownOpcode(u8),
    /// A 16-bit operand fetch failed.
    Memory(MemError),
}

/// The eight 8-bit registers, in the order of the register file.
#[derive(Clone, Copy, PartialEq, Eq, Debug, Structural)]
pub enum Register8 {
    A,
    F,
    B,
    C,
    D,
    E,
    H,
    L,
}

impl Register8 {
    pub open spec fn index(self) -> int {
        match self {
            Register8::A => 0,
            Register8::F => 1,
            Register8::B => 2,
            Register8::C => 3,
            Register8::D => 4,
            Register8::E => 5,
            Register8::H => 6,
            Register8::L => 7,
        }
    }

    /// Position of the register in the register file.
    pub fn idx(&self) -> (r: usize)
        ensures
            r == self.index(),
            r < 8,
    {
        match self {
            Register8::A => 0,
            Register8::F => 1,
            Register8::B => 2,
            Register8::C => 3,
            Register8::D => 4,
            Register8::E => 5,
            Register8::H => 6,
            Register8::L => 7,
        }
    }
}

/// The register pairs BC, DE and HL.
#[derive(Clone, Copy, PartialEq, Eq, Debug, Structural)]
pub enum Register16 {
    BC,
    DE,
    HL,
}

impl Register16 {
    pub open spec fn low(self) -> Register8 {
        match self {
            Register16::BC => Register8::C,
            Register16::DE => Register8::E,
            Register16::HL => Register8::L,
        }
    }

    pub open spec fn high(self) -> Register8 {
        match self {
            Register16::BC => Register8::B,
            Register16::DE => Register8::D,
            Register16::HL => Register8::H,
        }
    }

    /// The pair as `(low, high)` 8-bit registers.
    pub fn split(&self) -> (r: (Register8, Register8))
        ensures
            r == (self.low(), self.high()),
    {
        match self {
            Register16::BC => (Register8::C, Register8::B),
            Register16::DE => (Register8::E, Register8::D),
            Register16::HL => (Register8::L, Register8::H),
        }
    }
}

/// Branch conditions.
#[derive(Clone, Copy, PartialEq, Eq, Debug, Structural)]
pub enum Condition {
    ZSet,
    ZNotSet,
    CSet,
    CNotSet,
}

impl Condition {
    pub open spec fn holds(self, f: Flags) -> bool {
        match self {
            Condition::ZSet => f.z,
            Condition::ZNotSet => !f.z,
            Condition::CSet => f.c,
            Condition::CNotSet => !f.c,
        }
    }
}

/// The eight RST targets 0x00, 0x08, ..., 0x38.
#[derive(Clone, Copy, PartialEq, Eq, Debug, Structural)]
pub enum ResetVec {
    Vec1,
    Vec2,
    Vec3,
    Vec4,
    Vec5,
    Vec6,
    Vec7,
    Vec8,
}

impl ResetVec {
    pub open spec fn address(self) -> u16 {
        match self {
            ResetVec::Vec1 => 0x00,
            ResetVec::Vec2 => 0x08,
            ResetVec::Vec3 => 0x10,
            ResetVec::Vec4 => 0x18,
            ResetVec::Vec5 => 0x20,
            ResetVec::Vec6 => 0x28,
            ResetVec::Vec7 => 0x30,
            ResetVec::Vec8 => 0x38,
        }
    }
}

/// The processor as the contracts see it.
pub struct CpuState {
    pub regs: Seq<u8>,
    pub pc: u16,
    pub sp: u16,
    pub mem: MemView,
    /// Interrupt master enable
    pub ime: bool,
    /// EI was executed; IME turns on after the next instruction
    pub ime_pending: bool,
    pub halted: bool,
    pub stopped: bool,
    pub clock_counter_divider: u32,
    pub clock_counter: u32,
}

pub open spec fn wrap16(x: int) -> u16 {
    ((x + 0x20000) % 0x10000) as u16
}

impl CpuState {
    pub open spec fn wf(self) -> bool {
        &&& self.regs.len() == 8
        &&& self.regs[1] % 16 == 0
        &&& self.mem.wf()
    }

    pub open spec fn reg(self, r: Register8) -> u8 {
        self.regs[r.index()]
    }

    pub open spec fn with_reg(self, r: Register8, v: u8) -> CpuState {
        CpuState { regs: self.regs.update(r.index(), v), ..self }
    }

    pub open spec fn flags(self) -> Flags {
        flags_of_byte(self.regs[1])
    }

    pub open spec fn with_flags(self, f: Flags) -> CpuState {
        self.with_reg(Register8::F, flags_to_byte(f))
    }

    pub open spec fn r16(self, rr: Register16) -> u16 {
        (256 * self.reg(rr.high()) + self.reg(rr.low())) as u16
    }

    pub open spec fn with_r16(self, rr: Register16, v: u16) -> CpuState {
        self.with_reg(rr.low(), (v % 256) as u8).with_reg(rr.high(), (v / 256) as u8)
    }

    pub open spec fn hl(self) -> u16 {
        self.r16(Register16::HL)
    }

    pub open spec fn read(self, a: u16) -> u8 {
        self.mem.read(a)
    }

    pub open spec fn write(self, a: u16, v: u8) -> CpuState {
        CpuState { mem: self.mem.write(a, v), ..self }
    }

    pub open spec fn with_pc(self, pc: u16) -> CpuState {
        CpuState { pc, ..self }
    }

    pub open spec fn with_sp(self, sp: u16) -> CpuState {
        CpuState { sp, ..self }
    }

    /// Push a halfword: high byte at SP-1, low byte at SP-2, SP decreases by two.
    pub open spec fn push16(self, v: u16) -> CpuState {
        let s1 = wrap16(self.sp - 1);
        let s2 = wrap16(self.sp - 2);
        self.write(s1, (v / 256) as u8).write(s2, (v % 256) as u8).with_sp(s2)
    }

    /// The halfword on top of the stack (low byte at SP).
    pub open spec fn top16(self) -> u16 {
        (self.read(self.sp) + 256 * self.read(wrap16(self.sp + 1))) as u16
    }

    /// Pop a halfword: SP increases by two.
    pub open spec fn pop16(self) -> CpuState {
        self.with_sp(wrap16(self.sp + 2))
    }
}

/// In every well-formed state the low nibble of F is zero.
pub proof fn law_flags_low_nibble_zero(s: CpuState)
    requires
        s.wf(),
    ensures
        s.reg(Register8::F) & 0x0F == 0,
{
    let f = s.reg(Register8::F);
    assert(f % 16 == 0 ==> f & 0x0F == 0) by (bit_vector);
}

/// The SM83 processor together with the bus it owns.
pub struct Cpu {
    pub registers: [u8; 8],
    pub pc: u16,
    pub sp: u16,
    pub mmu: MMU,
    pub interrupts_enabled: bool,
    pub ime_pending: bool,
    pub halted: bool,
    pub stopped: bool,
    pub clock_counter_divider: u32,
    pub clock_counter: u32,
}

impl View for Cpu {
    type V = CpuState;

    open spec fn view(&self) -> CpuState {
        CpuState {
            regs: self.registers@,
            pc: self.pc,
            sp: self.sp,
            mem: self.mmu@,
            ime: self.interrupts_enabled,
            ime_pending: self.ime_pending,
            halted: self.halted,
            stopped: self.stopped,
            clock_counter_divider: self.clock_counter_divider,
            clock_counter: self.clock_counter,
        }
    }
}

impl Cpu {
    pub open spec fn wf(&self) -> bool {
        self@.wf()
    }

    /// A processor at PC = 0x0000, SP = 0xFFFE, all registers zero, interrupts off.
    pub fn new(mmu: MMU) -> (r: Cpu)
        requires
            mmu.wf(),
        ensures
            r.wf(),
            r@.mem == mmu@,
            r@.pc == 0,
            r@.sp == 0xFFFE,
            r@.regs == seq![0u8, 0, 0, 0, 0, 0, 0, 0],
            !r@.ime && !r@.ime_pending && !r@.halted && !r@.stopped,
            r@.clock_counter == 0 && r@.clock_counter_divider == 0,
    {
        let r = Cpu {
            registers: [0u8; 8],
            pc: 0x0,
            sp: 0xFFFE,
            mmu,
            interrupts_enabled: false,
            ime_pending: false,
            halted: false,
            stopped: false,
            clock_counter_divider: 0,
            clock_counter: 0,
        };
        assert(r@.regs =~= seq![0u8, 0, 0, 0, 0, 0, 0, 0]);
        r
    }

    /// The bus.
    pub fn memory(&self) -> (r: &MMU)
        ensures
            r == &self.mmu,
    {
        &self.mmu
    }

    /// The bus, for writing.
    pub fn memory_mut(&mut self) -> (r: &mut MMU)
        ensures
            *r == old(self).mmu,
            final(self).mmu == *final(r),
            final(self).registers == old(self).registers,
            final(self).pc == old(self).pc,
            final(self).sp == old(self).sp,
            final(self).interrupts_enabled == old(self).interrupts_enabled,
            final(self).ime_pending == old(self).ime_pending,
            final(self).halted == old(self).halted,
            final(self).stopped == old(self).stopped,
            final(self).clock_counter_divider == old(self).clock_counter_divider,
            final(self).clock_counter == old(self).clock_counter,
    {
        &mut self.mmu
    }

    pub fn reg(&self, register: Register8) -> (r: u8)
        ensures
            r == self@.reg(register),
    {
        self.registers[register.idx()]
    }

    /// Set an 8-bit register other than F.
    pub fn set_reg(&mut self, register: Register8, val: u8)
        requires
            old(self).wf(),
            register != Register8::F,
        ensures
            final(self).wf(),
            final(self)@ == old(self)@.with_reg(register, val),
    {
        let i = register.idx();
        self.registers[i] = val;
        assert(self@.regs =~= old(self)@.with_reg(register, val).regs);
    }

    pub fn a_reg(&self) -> (r: u8)
        ensures
            r == self@.reg(Register8::A),
    {
        self.reg(Register8::A)
    }

    pub fn f_reg(&self) -> (r: u8)
        ensures
            r == self@.reg(Register8::F),
    {
        self.reg(Register8::F)
    }

    pub fn b_reg(&self) -> (r: u8)
        ensures
            r == self@.reg(Register8::B),
    {
        self.reg(Register8::B)
    }

    pub fn c_reg(&self) -> (r: u8)
        ensures
            r == self@.reg(Register8::C),
    {
        self.reg(Register8::C)
    }

    pub fn d_reg(&self) -> (r: u8)
        ensures
            r == self@.reg(Register8::D),
    {
        self.reg(Register8::D)
    }

    pub fn e_reg(&self) -> (r: u8)
        ensures
            r == self@.reg(Register8::E),
    {
        self.reg(Register8::E)
    }

    pub fn h_reg(&self) -> (r: u8)
        ensures
            r == self@.reg(Register8::H),
    {
        self.reg(Register8::H)
    }

    pub fn l_reg(&self) -> (r: u8)
        ensures
            r == self@.reg(Register8::L),
    {
        self.reg(Register8::L)
    }

    /// The value of a register pair (high byte first register).
    pub fn reg16(&self, reg: Register16) -> (r: u16)
        ensures
            r == self@.r16(reg),
    {
        let (low, high) = reg.split();
        256 * (self.reg(high) as u16) + self.reg(low) as u16
    }

    pub fn write_reg16(&mut self, reg: Register16, val: u16)
        requires
            old(self).wf(),
        ensures
            final(self).wf(),
            final(self)@ == old(self)@.with_r16(reg, val),
    {
        let (low, high) = reg.split();
        self.set_reg(low, (val % 256) as u8);
        self.set_reg(high, (val / 256) as u8);
    }

    /// The flags held in F.
    pub fn flags(&self) -> (r: Flags)
        ensures
            r == self@.flags(),
    {
        Flags::from_byte(self.f_reg())
    }

    /// Store all four flags in F.
    pub fn set_flags(&mut self, f: Flags)
        requires
            old(self).wf(),
        ensures
            final(self).wf(),
            final(self)@ == old(self)@.with_flags(f),
    {
        let b = f.to_byte();
        self.registers[1] = b;
        assert(self@.regs =~= old(self)@.with_flags(f).regs);
    }

    /// Load F from a byte; its low nibble is dropped.
    pub fn set_flags_from_byte(&mut self, byte: u8)
        requires
            old(self).wf(),
        ensures
            final(self).wf(),
            final(self)@ == old(self)@.with_reg(Register8::F, (byte / 16 * 16) as u8),
    {
        self.registers[1] = byte / 16 * 16;
        assert(self@.regs =~= old(self)@.with_reg(Register8::F, (byte / 16 * 16) as u8).regs);
    }

    pub fn zero_bit(&self) -> (r: bool)
        ensures
            r == self@.flags().z,
    {
        self.flags().z
    }

    pub fn set_zero_bit(&mut self, high: bool)
        requires
            old(self).wf(),
        ensures
            final(self).wf(),
            final(self)@ == old(self)@.with_flags(Flags { z: high, ..old(self)@.flags() }),
    {
        let f = self.flags();
        self.set_flags(Flags { z: high, ..f });
    }

    pub fn negative_bit(&self) -> (r: bool)
        ensures
            r == self@.flags().n,
    {
        self.flags().n
    }

    pub fn set_negative_bit(&mut self, high: bool)
        requires
            old(self).wf(),
        ensures
            final(self).wf(),
            final(self)@ == old(self)@.with_flags(Flags { n: high, ..old(self)@.flags() }),
    {
        let f = self.flags();
        self.set_flags(Flags { n: high, ..f });
    }

    pub fn half_carry_bit(&self) -> (r: bool)
        ensures
            r == self@.flags().h,
    {
        self.flags().h
    }

    pub fn set_half_carry_bit(&mut self, high: bool)
        requires
            old(self).wf(),
        ensures
            final(self).wf(),
            final(self)@ == old(self)@.with_flags(Flags { h: high, ..old(self)@.flags() }),
    {
        let f = self.flags();
        self.set_flags(Flags { h: high, ..f });
    }

    pub fn carry_bit(&self) -> (r: bool)
        ensures
            r == self@.flags().c,
    {
        self.flags().c
    }

    pub fn set_carry_bit(&mut self, high: bool)
        requires
            old(self).wf(),
        ensures
            final(self).wf(),
            final(self)@ == old(self)@.with_flags(Flags { c: high, ..old(self)@.flags() }),
    {
        let f = self.flags();
        self.set_flags(Flags { c: high, ..f });
    }

    pub fn check_condition(&self, cond: Condition) -> (r: bool)
        ensures
            r == cond.holds(self@.flags()),
    {
        let f = self.flags();
        match cond {
            Condition::ZSet => f.z,
            Condition::ZNotSet => !f.z,
            Condition::CSet => f.c,
            Condition::CNotSet => !f.c,
        }
    }

    /// Neither halted nor stopped.
    pub fn is_running(&self) -> (r: bool)
        ensures
            r == (!self@.halted && !self@.stopped),
    {
        !self.halted && !self.stopped
    }

    /// Read a byte from the bus.
    pub fn read_mem(&self, address: u16) -> (r: u8)
        requires
            self.wf(),
        ensures
            r == self@.read(address),
    {
        self.mmu.read_8(address)
    }

    /// Write a byte to the bus as the program does; a refused ROM write changes nothing.
    pub fn write_mem(&mut self, address: u16, val: u8)
        requires
            old(self).wf(),
        ensures
            final(self).wf(),
            final(self)@ == old(self)@.write(address, val),
    {
        let _ = self.mmu.write_8(address, val);
    }

    /// The byte at PC.
    pub fn peek_u8(&self) -> (r: u8)
        requires
            self.wf(),
        ensures
            r == self@.read(self@.pc),
    {
        self.mmu.read_8(self.pc)
    }

    /// Fetch the byte at PC and advance PC.
    pub fn read_u8(&mut self) -> (r: u8)
        requires
            old(self).wf(),
        ensures
            final(self).wf(),
            r == old(self)@.read(old(self)@.pc),
            final(self)@ == old(self)@.with_pc(wrap16(old(self)@.pc + 1)),
    {
        let ret = self.peek_u8();
        self.pc = self.pc.wrapping_add(1);
        ret
    }

    /// Fetch the little-endian halfword at PC and advance PC by two.
    pub fn read_u16(&mut self) -> (r: Result<u16, CpuError>)
        requires
            old(self).wf(),
        ensures
            final(self).wf(),
            match old(self)@.mem.read16(old(self)@.pc) {
                Ok(v) => r == Ok::<u16, CpuError>(v) && final(self)@ == old(self)@.with_pc(
                    wrap16(old(self)@.pc + 2),
                ),
                Err(e) => r == Err::<u16, CpuError>(CpuError::Memory(e)) && final(self)@ == old(
                    self,
                )@,
            },
    {
        match self.mmu.read_16(self.pc) {
            Ok(v) => {
                self.pc = self.pc.wrapping_add(2);
                Ok(v)
            },
            Err(e) => Err(CpuError::Memory(e)),
        }
    }

    /// Fetch the byte at PC as a signed offset and advance PC.
    pub fn read_i8(&mut self) -> (r: i8)
        requires
            old(self).wf(),
        ensures
            final(self).wf(),
            r == (old(self)@.read(old(self)@.pc) as i8),
            final(self)@ == old(self)@.with_pc(wrap16(old(self)@.pc + 1)),
    {
        self.read_u8() as i8
    }

    /// Push a halfword onto the stack: high byte first, SP decreasing.
    pub fn push_n16(&mut self, n16: u16)
        requires
            old(self).wf(),
        ensures
            final(self).wf(),
            final(self)@ == old(self)@.push16(n16),
    {
        self.sp = self.sp.wrapping_sub(1);
        self.write_mem(self.sp, (n16 / 256) as u8);
        self.sp = self.sp.wrapping_sub(1);
        self.write_mem(self.sp, (n16 % 256) as u8);
    }

    /// Pop a halfword from the stack: low byte first, SP increasing.
    pub fn pop_n16(&mut self) -> (r: u16)
        requires
            old(self).wf(),
        ensures
            final(self).wf(),
            r == old(self)@.top16(),
            final(self)@ == old(self)@.pop16(),
    {
        let lo = self.read_mem(self.sp) as u16;
        let hi = self.read_mem(self.sp.wrapping_add(1)) as u16;
        self.sp = self.sp.wrapping_add(2);
        lo + 256 * hi
    }
}

} // verus!
