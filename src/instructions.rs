use vstd::prelude::*;

use crate::alu::{
    add16, add16_spec, add_sp_e8, add_sp_e8_spec, alu, alu_spec, daa_spec, dec8, dec8_spec, inc8,
    inc8_spec, rotate_a_spec, shift, shift_spec, AluOp, Flags, ShiftOp,
};
use crate::cpu::{wrap16, Condition, Cpu, CpuState, Register16, Register8, ResetVec};
use crate::memory::{
    is_ram_address, lemma_raw_write_keeps_video, lemma_write_keeps_video, ram_index, video_kept,
    BOOT_OFF, DIV, DMA, LY, STAT,
};

verus! {

broadcast use {lemma_write_keeps_video, lemma_raw_write_keeps_video};

/// A after `op` with operand `v`, and the resulting flags.
pub open spec fn alu_a(s: CpuState, op: AluOp, v: u8) -> CpuState {
    let (r, f) = alu_spec(op, s.reg(Register8::A), v, s.flags());
    s.with_reg(Register8::A, r).with_flags(f)
}

/// A rotate/shift/swap of register `r`, with flags.
pub open spec fn shift_reg(s: CpuState, op: ShiftOp, r: Register8) -> CpuState {
    let (v, f) = shift_spec(op, s.reg(r), s.flags().c);
    s.with_reg(r, v).with_flags(f)
}

/// A rotate/shift/swap of the byte at HL, with flags.
pub open spec fn shift_hl(s: CpuState, op: ShiftOp) -> CpuState {
    let (v, f) = shift_spec(op, s.read(s.hl()), s.flags().c);
    s.write(s.hl(), v).with_flags(f)
}

/// RLCA/RRCA/RLA/RRA: Z forced to 0.
pub open spec fn rotate_a(s: CpuState, op: ShiftOp) -> CpuState {
    let (v, f) = rotate_a_spec(op, s.reg(Register8::A), s.flags().c);
    s.with_reg(Register8::A, v).with_flags(f)
}

/// BIT n: Z = bit clear, N = 0, H = 1, C kept.
pub open spec fn bit_flags(s: CpuState, v: u8, bit: u8) -> CpuState {
    s.with_flags(Flags { z: (v >> bit) & 1 == 0, n: false, h: true, c: s.flags().c })
}

/// CALL: push the address of the next instruction and jump.
pub open spec fn call_spec(s: CpuState, n16: u16) -> CpuState {
    s.push16(s.pc).with_pc(n16)
}

/// RET: pop PC.
pub open spec fn ret_spec(s: CpuState) -> CpuState {
    s.pop16().with_pc(s.top16())
}

/// PUSH AF: A at SP-1, F at SP-2.
pub open spec fn push_af_spec(s: CpuState) -> CpuState {
    s.push16((256 * s.reg(Register8::A) + s.reg(Register8::F)) as u16)
}

/// POP AF: F from SP with its low nibble cleared, A from SP+1.
pub open spec fn pop_af_spec(s: CpuState) -> CpuState {
    s.pop16().with_reg(Register8::A, (s.top16() / 256) as u8).with_reg(
        Register8::F,
        ((s.top16() % 256) / 16 * 16) as u8,
    )
}

/// JR: PC moves by the signed offset from the address after the operand.
pub open spec fn jr_target(pc: u16, e8: i8) -> u16 {
    wrap16(pc + e8)
}

/// An address where a written byte reads back and no other byte changes.
pub open spec fn plain_ram(a: u16) -> bool {
    is_ram_address(a) && a != DIV && a != STAT && a != LY && a != DMA && a != BOOT_OFF
}

proof fn lemma_adjacent_distinct(a: u16, b: u16)
    requires
        is_ram_address(a),
        is_ram_address(b),
        b == wrap16(a - 1),
    ensures
        ram_index(a) != ram_index(b),
{
}

/// CALL followed at once by RET lands on the instruction after the CALL and restores SP,
/// when the two stack bytes below SP are plain RAM.
pub proof fn law_call_then_ret(s: CpuState, target: u16)
    requires
        s.wf(),
        plain_ram(wrap16(s.sp - 1)),
        plain_ram(wrap16(s.sp - 2)),
    ensures
        ret_spec(call_spec(s, target)).pc == s.pc,
        ret_spec(call_spec(s, target)).sp == s.sp,
{
    lemma_adjacent_distinct(wrap16(s.sp - 1), wrap16(s.sp - 2));
    let c = call_spec(s, target);
    assert(c.sp == wrap16(s.sp - 2));
    assert(wrap16(c.sp + 1) == wrap16(s.sp - 1));
    assert(c.read(c.sp) == (s.pc % 256) as u8);
    assert(c.read(wrap16(c.sp + 1)) == (s.pc / 256) as u8);
}

/// POP AF, PUSH AF, POP AF: the second POP gives the A and F of the first, and the low
/// nibble of F is zero, when the two stack bytes at SP are plain RAM.
pub proof fn law_pop_push_pop_af(s: CpuState)
    requires
        s.wf(),
        plain_ram(s.sp),
        plain_ram(wrap16(s.sp + 1)),
    ensures
        pop_af_spec(push_af_spec(pop_af_spec(s))).reg(Register8::A) == pop_af_spec(s).reg(
            Register8::A,
        ),
        pop_af_spec(push_af_spec(pop_af_spec(s))).reg(Register8::F) == pop_af_spec(s).reg(
            Register8::F,
        ),
        pop_af_spec(push_af_spec(pop_af_spec(s))).reg(Register8::F) % 16 == 0,
        pop_af_spec(push_af_spec(pop_af_spec(s))).sp == pop_af_spec(s).sp,
{
    lemma_adjacent_distinct(wrap16(s.sp + 1), s.sp);
    let p1 = pop_af_spec(s);
    let q = push_af_spec(p1);
    assert(wrap16(p1.sp - 1) == wrap16(s.sp + 1));
    assert(wrap16(p1.sp - 2) == s.sp);
    assert(q.sp == s.sp);
    assert(q.read(q.sp) == p1.reg(Register8::F));
    assert(q.read(wrap16(q.sp + 1)) == p1.reg(Register8::A));
}

impl Cpu {
    /// Apply an 8-bit ALU operation to A and the operand.
    pub fn alu_a_op(&mut self, op: AluOp, v: u8)
        requires
            old(self).wf(),
        ensures
            final(self).wf(),
            video_kept(old(self)@.mem, final(self)@.mem),
            final(self)@ == alu_a(old(self)@, op, v),
    {
        let (r, f) = alu(op, self.a_reg(), v, self.flags());
        self.set_reg(Register8::A, r);
        self.set_flags(f);
    }

    /// Add the operand plus the carry flag to A (register operand). 1 cycle.
    pub fn adc_r8(&mut self, reg: Register8) -> (r: u32)
        requires
            old(self).wf(),
        ensures
            final(self).wf(),
            video_kept(old(self)@.mem, final(self)@.mem),
            r == 1,
            final(self)@ == alu_a(old(self)@, AluOp::Adc, old(self)@.reg(reg)),
    {
        let v = self.reg(reg);
        self.alu_a_op(AluOp::Adc, v);
        1
    }

    /// Add the operand plus the carry flag to A (byte at HL). 2 cycles.
    pub fn adc_hl(&mut self) -> (r: u32)
        requires
            old(self).wf(),
        ensures
            final(self).wf(),
            video_kept(old(self)@.mem, final(self)@.mem),
            r == 2,
            final(self)@ == alu_a(old(self)@, AluOp::Adc, old(self)@.read(old(self)@.hl())),
    {
        let v = self.read_mem(self.reg16(Register16::HL));
        self.alu_a_op(AluOp::Adc, v);
        2
    }

    /// Add the operand plus the carry flag to A (immediate). 2 cycles.
    pub fn adc(&mut self, n8: u8) -> (r: u32)
        requires
            old(self).wf(),
        ensures
            final(self).wf(),
            video_kept(old(self)@.mem, final(self)@.mem),
            r == 2,
            final(self)@ == alu_a(old(self)@, AluOp::Adc, n8),
    {
        self.alu_a_op(AluOp::Adc, n8);
        2
    }

    /// Add the operand to A (register operand). 1 cycle.
    pub fn add_r8(&mut self, reg: Register8) -> (r: u32)
        requires
            old(self).wf(),
        ensures
            final(self).wf(),
            video_kept(old(self)@.mem, final(self)@.mem),
            r == 1,
            final(self)@ == alu_a(old(self)@, AluOp::Add, old(self)@.reg(reg)),
    {
        let v = self.reg(reg);
        self.alu_a_op(AluOp::Add, v);
        1
    }

    /// Add the operand to A (byte at HL). 2 cycles.
    pub fn add_hl(&mut self) -> (r: u32)
        requires
            old(self).wf(),
        ensures
            final(self).wf(),
            video_kept(old(self)@.mem, final(self)@.mem),
            r == 2,
            final(self)@ == alu_a(old(self)@, AluOp::Add, old(self)@.read(old(self)@.hl())),
    {
        let v = self.read_mem(self.reg16(Register16::HL));
        self.alu_a_op(AluOp::Add, v);
        2
    }

    /// Add the operand to A (immediate). 2 cycles.
    pub fn add(&mut self, n8: u8) -> (r: u32)
        requires
            old(self).wf(),
        ensures
            final(self).wf(),
            video_kept(old(self)@.mem, final(self)@.mem),
            r == 2,
            final(self)@ == alu_a(old(self)@, AluOp::Add, n8),
    {
        self.alu_a_op(AluOp::Add, n8);
        2
    }

    /// Subtract the operand from A (register operand). 1 cycle.
    pub fn sub_r8(&mut self, reg: Register8) -> (r: u32)
        requires
            old(self).wf(),
        ensures
            final(self).wf(),
            video_kept(old(self)@.mem, final(self)@.mem),
            r == 1,
            final(self)@ == alu_a(old(self)@, AluOp::Sub, old(self)@.reg(reg)),
    {
        let v = self.reg(reg);
        self.alu_a_op(AluOp::Sub, v);
        1
    }

    /// Subtract the operand from A (byte at HL). 2 cycles.
    pub fn sub_hl(&mut self) -> (r: u32)
        requires
            old(self).wf(),
        ensures
            final(self).wf(),
            video_kept(old(self)@.mem, final(self)@.mem),
            r == 2,
            final(self)@ == alu_a(old(self)@, AluOp::Sub, old(self)@.read(old(self)@.hl())),
    {
        let v = self.read_mem(self.reg16(Register16::HL));
        self.alu_a_op(AluOp::Sub, v);
        2
    }

    /// Subtract the operand from A (immediate). 2 cycles.
    pub fn sub(&mut self, n8: u8) -> (r: u32)
        requires
            old(self).wf(),
        ensures
            final(self).wf(),
            video_kept(old(self)@.mem, final(self)@.mem),
            r == 2,
            final(self)@ == alu_a(old(self)@, AluOp::Sub, n8),
    {
        self.alu_a_op(AluOp::Sub, n8);
        2
    }

    /// Subtract the operand and the carry flag from A (register operand). 1 cycle.
    pub fn sbc_r8(&mut self, reg: Register8) -> (r: u32)
        requires
            old(self).wf(),
        ensures
            final(self).wf(),
            video_kept(old(self)@.mem, final(self)@.mem),
            r == 1,
            final(self)@ == alu_a(old(self)@, AluOp::Sbc, old(self)@.reg(reg)),
    {
        let v = self.reg(reg);
        self.alu_a_op(AluOp::Sbc, v);
        1
    }

    /// Subtract the operand and the carry flag from A (byte at HL). 2 cycles.
    pub fn sbc_hl(&mut self) -> (r: u32)
        requires
            old(self).wf(),
        ensures
            final(self).wf(),
            video_kept(old(self)@.mem, final(self)@.mem),
            r == 2,
            final(self)@ == alu_a(old(self)@, AluOp::Sbc, old(self)@.read(old(self)@.hl())),
    {
        let v = self.read_mem(self.reg16(Register16::HL));
        self.alu_a_op(AluOp::Sbc, v);
        2
    }

    /// Subtract the operand and the carry flag from A (immediate). 2 cycles.
    pub fn sbc(&mut self, n8: u8) -> (r: u32)
        requires
            old(self).wf(),
        ensures
            final(self).wf(),
            video_kept(old(self)@.mem, final(self)@.mem),
            r == 2,
            final(self)@ == alu_a(old(self)@, AluOp::Sbc, n8),
    {
        self.alu_a_op(AluOp::Sbc, n8);
        2
    }

    /// Bitwise AND of A and the operand, into A (register operand). 1 cycle.
    pub fn and_r8(&mut self, reg: Register8) -> (r: u32)
        requires
            old(self).wf(),
        ensures
            final(self).wf(),
            video_kept(old(self)@.mem, final(self)@.mem),
            r == 1,
            final(self)@ == alu_a(old(self)@, AluOp::And, old(self)@.reg(reg)),
    {
        let v = self.reg(reg);
        self.alu_a_op(AluOp::And, v);
        1
    }

    /// Bitwise AND of A and the operand, into A (byte at HL). 2 cycles.
    pub fn and_hl(&mut self) -> (r: u32)
        requires
            old(self).wf(),
        ensures
            final(self).wf(),
            video_kept(old(self)@.mem, final(self)@.mem),
            r == 2,
            final(self)@ == alu_a(old(self)@, AluOp::And, old(self)@.read(old(self)@.hl())),
    {
        let v = self.read_mem(self.reg16(Register16::HL));
        self.alu_a_op(AluOp::And, v);
        2
    }

    /// Bitwise AND of A and the operand, into A (immediate). 2 cycles.
    pub fn and(&mut self, n8: u8) -> (r: u32)
        requires
            old(self).wf(),
        ensures
            final(self).wf(),
            video_kept(old(self)@.mem, final(self)@.mem),
            r == 2,
            final(self)@ == alu_a(old(self)@, AluOp::And, n8),
    {
        self.alu_a_op(AluOp::And, n8);
        2
    }

    /// Bitwise XOR of A and the operand, into A (register operand). 1 cycle.
    pub fn xor_r8(&mut self, reg: Register8) -> (r: u32)
        requires
            old(self).wf(),
        ensures
            final(self).wf(),
            video_kept(old(self)@.mem, final(self)@.mem),
            r == 1,
            final(self)@ == alu_a(old(self)@, AluOp::Xor, old(self)@.reg(reg)),
    {
        let v = self.reg(reg);
        self.alu_a_op(AluOp::Xor, v);
        1
    }

    /// Bitwise XOR of A and the operand, into A (byte at HL). 2 cycles.
    pub fn xor_hl(&mut self) -> (r: u32)
        requires
            old(self).wf(),
        ensures
            final(self).wf(),
            video_kept(old(self)@.mem, final(self)@.mem),
            r == 2,
            final(self)@ == alu_a(old(self)@, AluOp::Xor, old(self)@.read(old(self)@.hl())),
    {
        let v = self.read_mem(self.reg16(Register16::HL));
        self.alu_a_op(AluOp::Xor, v);
        2
    }

    /// Bitwise XOR of A and the operand, into A (immediate). 2 cycles.
    pub fn xor(&mut self, n8: u8) -> (r: u32)
        requires
            old(self).wf(),
        ensures
            final(self).wf(),
            video_kept(old(self)@.mem, final(self)@.mem),
            r == 2,
            final(self)@ == alu_a(old(self)@, AluOp::Xor, n8),
    {
        self.alu_a_op(AluOp::Xor, n8);
        2
    }

    /// Bitwise OR of A and the operand, into A (register operand). 1 cycle.
    pub fn or_r8(&mut self, reg: Register8) -> (r: u32)
        requires
            old(self).wf(),
        ensures
            final(self).wf(),
            video_kept(old(self)@.mem, final(self)@.mem),
            r == 1,
            final(self)@ == alu_a(old(self)@, AluOp::Or, old(self)@.reg(reg)),
    {
        let v = self.reg(reg);
        self.alu_a_op(AluOp::Or, v);
        1
    }

    /// Bitwise OR of A and the operand, into A (byte at HL). 2 cycles.
    pub fn or_hl(&mut self) -> (r: u32)
        requires
            old(self).wf(),
        ensures
            final(self).wf(),
            video_kept(old(self)@.mem, final(self)@.mem),
            r == 2,
            final(self)@ == alu_a(old(self)@, AluOp::Or, old(self)@.read(old(self)@.hl())),
    {
        let v = self.read_mem(self.reg16(Register16::HL));
        self.alu_a_op(AluOp::Or, v);
        2
    }

    /// Bitwise OR of A and the operand, into A (immediate). 2 cycles.
    pub fn or(&mut self, n8: u8) -> (r: u32)
        requires
            old(self).wf(),
        ensures
            final(self).wf(),
            video_kept(old(self)@.mem, final(self)@.mem),
            r == 2,
            final(self)@ == alu_a(old(self)@, AluOp::Or, n8),
    {
        self.alu_a_op(AluOp::Or, n8);
        2
    }

    /// Compare A with the operand: flags of SUB, A kept (register operand). 1 cycle.
    pub fn cp_r8(&mut self, reg: Register8) -> (r: u32)
        requires
            old(self).wf(),
        ensures
            final(self).wf(),
            video_kept(old(self)@.mem, final(self)@.mem),
            r == 1,
            final(self)@ == alu_a(old(self)@, AluOp::Cp, old(self)@.reg(reg)),
    {
        let v = self.reg(reg);
        self.alu_a_op(AluOp::Cp, v);
        1
    }

    /// Compare A with the operand: flags of SUB, A kept (byte at HL). 2 cycles.
    pub fn cp_hl(&mut self) -> (r: u32)
        requires
            old(self).wf(),
        ensures
            final(self).wf(),
            video_kept(old(self)@.mem, final(self)@.mem),
            r == 2,
            final(self)@ == alu_a(old(self)@, AluOp::Cp, old(self)@.read(old(self)@.hl())),
    {
        let v = self.read_mem(self.reg16(Register16::HL));
        self.alu_a_op(AluOp::Cp, v);
        2
    }

    /// Compare A with the operand: flags of SUB, A kept (immediate). 2 cycles.
    pub fn cp(&mut self, n8: u8) -> (r: u32)
        requires
            old(self).wf(),
        ensures
            final(self).wf(),
            video_kept(old(self)@.mem, final(self)@.mem),
            r == 2,
            final(self)@ == alu_a(old(self)@, AluOp::Cp, n8),
    {
        self.alu_a_op(AluOp::Cp, n8);
        2
    }

    /// Add a halfword to HL: Z kept, N = 0, H from bit 11, C from bit 15.
    pub fn add_n16_to_hl(&mut self, n16: u16)
        requires
            old(self).wf(),
        ensures
            final(self).wf(),
            video_kept(old(self)@.mem, final(self)@.mem),
            final(self)@ == old(self)@.with_r16(Register16::HL, add16_spec(old(self)@.hl(), n16, old(self)@.flags()).0).with_flags(add16_spec(old(self)@.hl(), n16, old(self)@.flags()).1),
    {
        let (v, f) = add16(self.reg16(Register16::HL), n16, self.flags());
        self.write_reg16(Register16::HL, v);
        self.set_flags(f);
    }

    /// ADD HL,rr. 2 cycles.
    pub fn add_r16_to_hl(&mut self, reg: Register16) -> (r: u32)
        requires
            old(self).wf(),
        ensures
            final(self).wf(),
            video_kept(old(self)@.mem, final(self)@.mem),
            r == 2,
            final(self)@ == old(self)@.with_r16(Register16::HL, add16_spec(old(self)@.hl(), old(self)@.r16(reg), old(self)@.flags()).0).with_flags(add16_spec(old(self)@.hl(), old(self)@.r16(reg), old(self)@.flags()).1),
    {
        let v = self.reg16(reg);
        self.add_n16_to_hl(v);
        2
    }

    /// ADD HL,SP. 2 cycles.
    pub fn add_sp_to_hl(&mut self) -> (r: u32)
        requires
            old(self).wf(),
        ensures
            final(self).wf(),
            video_kept(old(self)@.mem, final(self)@.mem),
            r == 2,
            final(self)@ == old(self)@.with_r16(Register16::HL, add16_spec(old(self)@.hl(), old(self)@.sp, old(self)@.flags()).0).with_flags(add16_spec(old(self)@.hl(), old(self)@.sp, old(self)@.flags()).1),
    {
        let v = self.sp;
        self.add_n16_to_hl(v);
        2
    }

    /// ADD SP,e8. 4 cycles.
    pub fn add_e8_to_sp(&mut self, e8: i8) -> (r: u32)
        requires
            old(self).wf(),
        ensures
            final(self).wf(),
            video_kept(old(self)@.mem, final(self)@.mem),
            r == 4,
            final(self)@ == old(self)@.with_sp(add_sp_e8_spec(old(self)@.sp, e8).0).with_flags(add_sp_e8_spec(old(self)@.sp, e8).1),
    {
        let (v, f) = add_sp_e8(self.sp, e8);
        self.sp = v;
        self.set_flags(f);
        4
    }

    /// LD HL,SP+e8. 3 cycles.
    pub fn ld_sp_plus_e8_to_hl(&mut self, e8: i8) -> (r: u32)
        requires
            old(self).wf(),
        ensures
            final(self).wf(),
            video_kept(old(self)@.mem, final(self)@.mem),
            r == 3,
            final(self)@ == old(self)@.with_r16(Register16::HL, add_sp_e8_spec(old(self)@.sp, e8).0).with_flags(add_sp_e8_spec(old(self)@.sp, e8).1),
    {
        let (v, f) = add_sp_e8(self.sp, e8);
        self.write_reg16(Register16::HL, v);
        self.set_flags(f);
        3
    }

    /// Test a bit: Z set when the bit is clear; N = 0, H = 1, C kept.
    pub fn bit(&mut self, to_test: u8, bit: u8)
        requires
            old(self).wf(),
            bit < 8,
        ensures
            final(self).wf(),
            video_kept(old(self)@.mem, final(self)@.mem),
            final(self)@ == bit_flags(old(self)@, to_test, bit),
    {
        let f = self.flags();
        self.set_flags(Flags { z: (to_test >> bit) & 1 == 0, n: false, h: true, c: f.c });
    }

    /// BIT n,r. 2 cycles.
    pub fn bit_r8(&mut self, reg: Register8, bit: u8) -> (r: u32)
        requires
            old(self).wf(),
            bit < 8,
        ensures
            final(self).wf(),
            video_kept(old(self)@.mem, final(self)@.mem),
            r == 2,
            final(self)@ == bit_flags(old(self)@, old(self)@.reg(reg), bit),
    {
        let v = self.reg(reg);
        self.bit(v, bit);
        2
    }

    /// BIT n,[HL]. 3 cycles.
    pub fn bit_hl(&mut self, bit: u8) -> (r: u32)
        requires
            old(self).wf(),
            bit < 8,
        ensures
            final(self).wf(),
            video_kept(old(self)@.mem, final(self)@.mem),
            r == 3,
            final(self)@ == bit_flags(old(self)@, old(self)@.read(old(self)@.hl()), bit),
    {
        let v = self.read_mem(self.reg16(Register16::HL));
        self.bit(v, bit);
        3
    }

    /// CALL n16: push the address of the next instruction, then jump. 6 cycles.
    pub fn call(&mut self, n16: u16) -> (r: u32)
        requires
            old(self).wf(),
        ensures
            final(self).wf(),
            video_kept(old(self)@.mem, final(self)@.mem),
            r == 6,
            final(self)@ == call_spec(old(self)@, n16),
    {
        let pc = self.pc;
        self.push_n16(pc);
        self.pc = n16;
        6
    }

    /// CALL cc,n16. 6 cycles taken, 3 untaken.
    pub fn call_cc(&mut self, cc: Condition, n16: u16) -> (r: u32)
        requires
            old(self).wf(),
        ensures
            final(self).wf(),
            video_kept(old(self)@.mem, final(self)@.mem),
            cc.holds(old(self)@.flags()) ==> r == 6 && final(self)@ == call_spec(old(self)@, n16),
            !cc.holds(old(self)@.flags()) ==> r == 3 && final(self)@ == old(self)@,
    {
        if self.check_condition(cc) {
            self.call(n16);
            6
        } else {
            3
        }
    }

    /// CCF: complement the carry flag. 1 cycle.
    pub fn ccf(&mut self) -> (r: u32)
        requires
            old(self).wf(),
        ensures
            final(self).wf(),
            video_kept(old(self)@.mem, final(self)@.mem),
            r == 1,
            final(self)@ == old(self)@.with_flags(Flags { z: old(self)@.flags().z, n: false, h: false, c: !old(self)@.flags().c }),
    {
        let f = self.flags();
        self.set_flags(Flags { z: f.z, n: false, h: false, c: !f.c });
        1
    }

    /// CPL: A = !A; N = H = 1. 1 cycle.
    pub fn cpl(&mut self) -> (r: u32)
        requires
            old(self).wf(),
        ensures
            final(self).wf(),
            video_kept(old(self)@.mem, final(self)@.mem),
            r == 1,
            final(self)@ == old(self)@.with_reg(Register8::A, !old(self)@.reg(Register8::A)).with_flags(Flags { n: true, h: true, ..old(self)@.flags() }),
    {
        let a = self.a_reg();
        self.set_reg(Register8::A, !a);
        let f = self.flags();
        self.set_flags(Flags { n: true, h: true, ..f });
        1
    }

    /// DAA: decimal adjust A. 1 cycle.
    pub fn daa(&mut self) -> (r: u32)
        requires
            old(self).wf(),
        ensures
            final(self).wf(),
            video_kept(old(self)@.mem, final(self)@.mem),
            r == 1,
            final(self)@ == old(self)@.with_reg(Register8::A, daa_spec(old(self)@.reg(Register8::A), old(self)@.flags()).0).with_flags(daa_spec(old(self)@.reg(Register8::A), old(self)@.flags()).1),
    {
        let (v, f) = crate::alu::daa(self.a_reg(), self.flags());
        self.set_reg(Register8::A, v);
        self.set_flags(f);
        1
    }

    /// Increment a register; C kept. 1 cycle.
    pub fn inc_r8(&mut self, reg: Register8) -> (r: u32)
        requires
            old(self).wf(),
            reg != Register8::F,
        ensures
            final(self).wf(),
            video_kept(old(self)@.mem, final(self)@.mem),
            r == 1,
            final(self)@ == old(self)@.with_reg(reg, inc8_spec(old(self)@.reg(reg), old(self)@.flags()).0).with_flags(inc8_spec(old(self)@.reg(reg), old(self)@.flags()).1),
    {
        let (v, f) = inc8(self.reg(reg), self.flags());
        self.set_reg(reg, v);
        self.set_flags(f);
        1
    }

    /// Increment the byte at HL; C kept. 3 cycles.
    pub fn inc_hl(&mut self) -> (r: u32)
        requires
            old(self).wf(),
        ensures
            final(self).wf(),
            video_kept(old(self)@.mem, final(self)@.mem),
            r == 3,
            final(self)@ == old(self)@.write(old(self)@.hl(), inc8_spec(old(self)@.read(old(self)@.hl()), old(self)@.flags()).0).with_flags(inc8_spec(old(self)@.read(old(self)@.hl()), old(self)@.flags()).1),
    {
        let hl = self.reg16(Register16::HL);
        let (v, f) = inc8(self.read_mem(hl), self.flags());
        self.write_mem(hl, v);
        self.set_flags(f);
        3
    }

    /// Decrement a register; C kept. 1 cycle.
    pub fn dec_r8(&mut self, reg: Register8) -> (r: u32)
        requires
            old(self).wf(),
            reg != Register8::F,
        ensures
            final(self).wf(),
            video_kept(old(self)@.mem, final(self)@.mem),
            r == 1,
            final(self)@ == old(self)@.with_reg(reg, dec8_spec(old(self)@.reg(reg), old(self)@.flags()).0).with_flags(dec8_spec(old(self)@.reg(reg), old(self)@.flags()).1),
    {
        let (v, f) = dec8(self.reg(reg), self.flags());
        self.set_reg(reg, v);
        self.set_flags(f);
        1
    }

    /// Decrement the byte at HL; C kept. 3 cycles.
    pub fn dec_hl(&mut self) -> (r: u32)
        requires
            old(self).wf(),
        ensures
            final(self).wf(),
            video_kept(old(self)@.mem, final(self)@.mem),
            r == 3,
            final(self)@ == old(self)@.write(old(self)@.hl(), dec8_spec(old(self)@.read(old(self)@.hl()), old(self)@.flags()).0).with_flags(dec8_spec(old(self)@.read(old(self)@.hl()), old(self)@.flags()).1),
    {
        let hl = self.reg16(Register16::HL);
        let (v, f) = dec8(self.read_mem(hl), self.flags());
        self.write_mem(hl, v);
        self.set_flags(f);
        3
    }

    /// DEC rr, wrapping. 2 cycles.
    pub fn dec_r16(&mut self, reg: Register16) -> (r: u32)
        requires
            old(self).wf(),
        ensures
            final(self).wf(),
            video_kept(old(self)@.mem, final(self)@.mem),
            r == 2,
            final(self)@ == old(self)@.with_r16(reg, wrap16(old(self)@.r16(reg) - 1)),
    {
        let v = self.reg16(reg).wrapping_sub(1);
        self.write_reg16(reg, v);
        2
    }

    /// INC rr, wrapping. 2 cycles.
    pub fn inc_r16(&mut self, reg: Register16) -> (r: u32)
        requires
            old(self).wf(),
        ensures
            final(self).wf(),
            video_kept(old(self)@.mem, final(self)@.mem),
            r == 2,
            final(self)@ == old(self)@.with_r16(reg, wrap16(old(self)@.r16(reg) + 1)),
    {
        let v = self.reg16(reg).wrapping_add(1);
        self.write_reg16(reg, v);
        2
    }

    /// DEC SP, wrapping. 2 cycles.
    pub fn dec_sp(&mut self) -> (r: u32)
        requires
            old(self).wf(),
        ensures
            final(self).wf(),
            video_kept(old(self)@.mem, final(self)@.mem),
            r == 2,
            final(self)@ == old(self)@.with_sp(wrap16(old(self)@.sp - 1)),
    {
        self.sp = self.sp.wrapping_sub(1);
        2
    }

    /// INC SP, wrapping. 2 cycles.
    pub fn inc_sp(&mut self) -> (r: u32)
        requires
            old(self).wf(),
        ensures
            final(self).wf(),
            video_kept(old(self)@.mem, final(self)@.mem),
            r == 2,
            final(self)@ == old(self)@.with_sp(wrap16(old(self)@.sp + 1)),
    {
        self.sp = self.sp.wrapping_add(1);
        2
    }

    /// DI: clear IME (and cancel a pending EI). 1 cycle.
    pub fn di(&mut self) -> (r: u32)
        requires
            old(self).wf(),
        ensures
            final(self).wf(),
            video_kept(old(self)@.mem, final(self)@.mem),
            r == 1,
            final(self)@ == (CpuState { ime: false, ime_pending: false, ..old(self)@ }),
    {
        self.interrupts_enabled = false;
        self.ime_pending = false;
        1
    }

    /// EI: IME turns on after the next instruction. 1 cycle.
    pub fn ei(&mut self) -> (r: u32)
        requires
            old(self).wf(),
        ensures
            final(self).wf(),
            video_kept(old(self)@.mem, final(self)@.mem),
            r == 1,
            final(self)@ == (CpuState { ime_pending: true, ..old(self)@ }),
    {
        self.ime_pending = true;
        1
    }

    /// HALT: stop fetching until an enabled interrupt is requested. 1 cycle.
    pub fn halt(&mut self) -> (r: u32)
        requires
            old(self).wf(),
        ensures
            final(self).wf(),
            video_kept(old(self)@.mem, final(self)@.mem),
            r == 1,
            final(self)@ == (CpuState { halted: true, ..old(self)@ }),
    {
        self.halted = true;
        1
    }

    /// STOP: enter very-low-power mode. 1 cycle.
    pub fn stop(&mut self) -> (r: u32)
        requires
            old(self).wf(),
        ensures
            final(self).wf(),
            video_kept(old(self)@.mem, final(self)@.mem),
            r == 1,
            final(self)@ == (CpuState { stopped: true, ..old(self)@ }),
    {
        self.stopped = true;
        1
    }

    /// JP n16. 4 cycles.
    pub fn jp(&mut self, n16: u16) -> (r: u32)
        requires
            old(self).wf(),
        ensures
            final(self).wf(),
            video_kept(old(self)@.mem, final(self)@.mem),
            r == 4,
            final(self)@ == old(self)@.with_pc(n16),
    {
        self.pc = n16;
        4
    }

    /// JP cc,n16. 4 cycles taken, 3 untaken.
    pub fn jp_cc(&mut self, cc: Condition, n16: u16) -> (r: u32)
        requires
            old(self).wf(),
        ensures
            final(self).wf(),
            video_kept(old(self)@.mem, final(self)@.mem),
            cc.holds(old(self)@.flags()) ==> r == 4 && final(self)@ == old(self)@.with_pc(n16),
            !cc.holds(old(self)@.flags()) ==> r == 3 && final(self)@ == old(self)@,
    {
        if self.check_condition(cc) {
            self.pc = n16;
            4
        } else {
            3
        }
    }

    /// JP HL. 1 cycle.
    pub fn jp_hl(&mut self) -> (r: u32)
        requires
            old(self).wf(),
        ensures
            final(self).wf(),
            video_kept(old(self)@.mem, final(self)@.mem),
            r == 1,
            final(self)@ == old(self)@.with_pc(old(self)@.hl()),
    {
        self.pc = self.reg16(Register16::HL);
        1
    }

    /// JR e8: jump relative to the address after the operand. 3 cycles.
    pub fn jr(&mut self, e8: i8) -> (r: u32)
        requires
            old(self).wf(),
        ensures
            final(self).wf(),
            video_kept(old(self)@.mem, final(self)@.mem),
            r == 3,
            final(self)@ == old(self)@.with_pc(jr_target(old(self)@.pc, e8)),
    {
        self.pc = ((self.pc as i32 + e8 as i32 + 0x20000) % 0x10000) as u16;
        3
    }

    /// JR cc,e8. 3 cycles taken, 2 untaken.
    pub fn jr_cc(&mut self, cc: Condition, e8: i8) -> (r: u32)
        requires
            old(self).wf(),
        ensures
            final(self).wf(),
            video_kept(old(self)@.mem, final(self)@.mem),
            cc.holds(old(self)@.flags()) ==> r == 3 && final(self)@ == old(self)@.with_pc(jr_target(old(self)@.pc, e8)),
            !cc.holds(old(self)@.flags()) ==> r == 2 && final(self)@ == old(self)@,
    {
        if self.check_condition(cc) {
            self.jr(e8);
            3
        } else {
            2
        }
    }

    /// LD r,r'. 1 cycle.
    pub fn ld_r8_to_r8(&mut self, to: Register8, from: Register8) -> (r: u32)
        requires
            old(self).wf(),
            to != Register8::F,
        ensures
            final(self).wf(),
            video_kept(old(self)@.mem, final(self)@.mem),
            r == 1,
            final(self)@ == old(self)@.with_reg(to, old(self)@.reg(from)),
    {
        let v = self.reg(from);
        self.ld_const8_to_r8(to, v);
        1
    }

    /// LD r,n8. 2 cycles.
    pub fn ld_const8_to_r8(&mut self, to: Register8, n8: u8) -> (r: u32)
        requires
            old(self).wf(),
            to != Register8::F,
        ensures
            final(self).wf(),
            video_kept(old(self)@.mem, final(self)@.mem),
            r == 2,
            final(self)@ == old(self)@.with_reg(to, n8),
    {
        self.set_reg(to, n8);
        2
    }

    /// LD rr,n16. 3 cycles.
    pub fn ld_const16_to_r16(&mut self, to: Register16, n16: u16) -> (r: u32)
        requires
            old(self).wf(),
        ensures
            final(self).wf(),
            video_kept(old(self)@.mem, final(self)@.mem),
            r == 3,
            final(self)@ == old(self)@.with_r16(to, n16),
    {
        self.write_reg16(to, n16);
        3
    }

    /// LD [HL],r. 2 cycles.
    pub fn ld_r8_to_hl(&mut self, from: Register8) -> (r: u32)
        requires
            old(self).wf(),
        ensures
            final(self).wf(),
            video_kept(old(self)@.mem, final(self)@.mem),
            r == 2,
            final(self)@ == old(self)@.write(old(self)@.hl(), old(self)@.reg(from)),
    {
        let v = self.reg(from);
        self.ld_const8_to_hl(v);
        2
    }

    /// LD [HL],n8. 3 cycles.
    pub fn ld_const8_to_hl(&mut self, n8: u8) -> (r: u32)
        requires
            old(self).wf(),
        ensures
            final(self).wf(),
            video_kept(old(self)@.mem, final(self)@.mem),
            r == 3,
            final(self)@ == old(self)@.write(old(self)@.hl(), n8),
    {
        let hl = self.reg16(Register16::HL);
        self.ld_const8_to_const16addr(n8, hl);
        3
    }

    /// Store a byte at an address.
    pub fn ld_const8_to_const16addr(&mut self, n8: u8, n16: u16)
        requires
            old(self).wf(),
        ensures
            final(self).wf(),
            video_kept(old(self)@.mem, final(self)@.mem),
            final(self)@ == old(self)@.write(n16, n8),
    {
        self.write_mem(n16, n8);
    }

    /// LD r,[HL]. 2 cycles.
    pub fn ld_hl_to_r8(&mut self, to: Register8) -> (r: u32)
        requires
            old(self).wf(),
            to != Register8::F,
        ensures
            final(self).wf(),
            video_kept(old(self)@.mem, final(self)@.mem),
            r == 2,
            final(self)@ == old(self)@.with_reg(to, old(self)@.read(old(self)@.hl())),
    {
        let v = self.read_mem(self.reg16(Register16::HL));
        self.set_reg(to, v);
        2
    }

    /// LD [rr],A. 2 cycles.
    pub fn ld_a_to_r16addr(&mut self, reg: Register16) -> (r: u32)
        requires
            old(self).wf(),
        ensures
            final(self).wf(),
            video_kept(old(self)@.mem, final(self)@.mem),
            r == 2,
            final(self)@ == old(self)@.write(old(self)@.r16(reg), old(self)@.reg(Register8::A)),
    {
        let a = self.reg16(reg);
        self.ld_a_to_const16addr(a);
        2
    }

    /// LD [n16],A. 4 cycles.
    pub fn ld_a_to_const16addr(&mut self, n16: u16) -> (r: u32)
        requires
            old(self).wf(),
        ensures
            final(self).wf(),
            video_kept(old(self)@.mem, final(self)@.mem),
            r == 4,
            final(self)@ == old(self)@.write(n16, old(self)@.reg(Register8::A)),
    {
        let a = self.a_reg();
        self.write_mem(n16, a);
        4
    }

    /// LDH [n16],A for an address in 0xFF00..=0xFFFF. 3 cycles.
    pub fn ldh_a_to_const16addr(&mut self, n16: u16) -> (r: u32)
        requires
            old(self).wf(),
            n16 >= 0xFF00,
        ensures
            final(self).wf(),
            video_kept(old(self)@.mem, final(self)@.mem),
            r == 3,
            final(self)@ == old(self)@.write(n16, old(self)@.reg(Register8::A)),
    {
        self.ld_a_to_const16addr(n16);
        3
    }

    /// LDH [0xFF00+C],A. 2 cycles.
    pub fn ldh_a_to_ff00_plus_c(&mut self) -> (r: u32)
        requires
            old(self).wf(),
        ensures
            final(self).wf(),
            video_kept(old(self)@.mem, final(self)@.mem),
            r == 2,
            final(self)@ == old(self)@.write((0xFF00 + old(self)@.reg(Register8::C)) as u16, old(self)@.reg(Register8::A)),
    {
        let a = 0xFF00 + self.c_reg() as u16;
        self.ldh_a_to_const16addr(a);
        2
    }

    /// LD A,[rr]. 2 cycles.
    pub fn ld_r16addr_to_a(&mut self, reg: Register16) -> (r: u32)
        requires
            old(self).wf(),
        ensures
            final(self).wf(),
            video_kept(old(self)@.mem, final(self)@.mem),
            r == 2,
            final(self)@ == old(self)@.with_reg(Register8::A, old(self)@.read(old(self)@.r16(reg))),
    {
        let a = self.reg16(reg);
        self.ld_const16addr_to_a(a);
        2
    }

    /// LD A,[n16]. 4 cycles.
    pub fn ld_const16addr_to_a(&mut self, n16: u16) -> (r: u32)
        requires
            old(self).wf(),
        ensures
            final(self).wf(),
            video_kept(old(self)@.mem, final(self)@.mem),
            r == 4,
            final(self)@ == old(self)@.with_reg(Register8::A, old(self)@.read(n16)),
    {
        self.ld_const16addr_to_r8(n16, Register8::A);
        4
    }

    /// Load a register from an address.
    pub fn ld_const16addr_to_r8(&mut self, n16: u16, to: Register8)
        requires
            old(self).wf(),
            to != Register8::F,
        ensures
            final(self).wf(),
            video_kept(old(self)@.mem, final(self)@.mem),
            final(self)@ == old(self)@.with_reg(to, old(self)@.read(n16)),
    {
        let v = self.read_mem(n16);
        self.set_reg(to, v);
    }

    /// Store a register at an address.
    pub fn ld_r8_to_const16addr(&mut self, from: Register8, n16: u16)
        requires
            old(self).wf(),
        ensures
            final(self).wf(),
            video_kept(old(self)@.mem, final(self)@.mem),
            final(self)@ == old(self)@.write(n16, old(self)@.reg(from)),
    {
        let v = self.reg(from);
        self.write_mem(n16, v);
    }

    /// LDH A,[n16] for an address in 0xFF00..=0xFFFF. 3 cycles.
    pub fn ldh_const16addr_to_a(&mut self, n16: u16) -> (r: u32)
        requires
            old(self).wf(),
            n16 >= 0xFF00,
        ensures
            final(self).wf(),
            video_kept(old(self)@.mem, final(self)@.mem),
            r == 3,
            final(self)@ == old(self)@.with_reg(Register8::A, old(self)@.read(n16)),
    {
        self.ld_const16addr_to_a(n16);
        3
    }

    /// LDH A,[0xFF00+C]. 2 cycles.
    pub fn ldh_ff00_plus_c_to_a(&mut self) -> (r: u32)
        requires
            old(self).wf(),
        ensures
            final(self).wf(),
            video_kept(old(self)@.mem, final(self)@.mem),
            r == 2,
            final(self)@ == old(self)@.with_reg(Register8::A, old(self)@.read((0xFF00 + old(self)@.reg(Register8::C)) as u16)),
    {
        let a = 0xFF00 + self.c_reg() as u16;
        self.ldh_const16addr_to_a(a);
        2
    }

    /// LD [HL+],A: store A at HL, then increment HL. 2 cycles.
    pub fn ld_a_to_hl_and_inc(&mut self) -> (r: u32)
        requires
            old(self).wf(),
        ensures
            final(self).wf(),
            video_kept(old(self)@.mem, final(self)@.mem),
            r == 2,
            final(self)@ == old(self)@.write(old(self)@.hl(), old(self)@.reg(Register8::A)).with_r16(Register16::HL, wrap16(old(self)@.hl() + 1)),
    {
        self.ld_r8_to_hl(Register8::A);
        self.inc_r16(Register16::HL);
        2
    }

    /// LD A,[HL+]: load A from HL, then increment HL. 2 cycles.
    pub fn ld_hl_to_a_and_inc(&mut self) -> (r: u32)
        requires
            old(self).wf(),
        ensures
            final(self).wf(),
            video_kept(old(self)@.mem, final(self)@.mem),
            r == 2,
            final(self)@ == old(self)@.with_reg(Register8::A, old(self)@.read(old(self)@.hl())).with_r16(Register16::HL, wrap16(old(self)@.hl() + 1)),
    {
        self.ld_hl_to_r8(Register8::A);
        self.inc_r16(Register16::HL);
        2
    }

    /// LD [HL-],A: store A at HL, then decrement HL. 2 cycles.
    pub fn ld_a_to_hl_and_dec(&mut self) -> (r: u32)
        requires
            old(self).wf(),
        ensures
            final(self).wf(),
            video_kept(old(self)@.mem, final(self)@.mem),
            r == 2,
            final(self)@ == old(self)@.write(old(self)@.hl(), old(self)@.reg(Register8::A)).with_r16(Register16::HL, wrap16(old(self)@.hl() - 1)),
    {
        self.ld_r8_to_hl(Register8::A);
        self.dec_r16(Register16::HL);
        2
    }

    /// LD A,[HL-]: load A from HL, then decrement HL. 2 cycles.
    pub fn ld_hl_to_a_and_dec(&mut self) -> (r: u32)
        requires
            old(self).wf(),
        ensures
            final(self).wf(),
            video_kept(old(self)@.mem, final(self)@.mem),
            r == 2,
            final(self)@ == old(self)@.with_reg(Register8::A, old(self)@.read(old(self)@.hl())).with_r16(Register16::HL, wrap16(old(self)@.hl() - 1)),
    {
        self.ld_hl_to_r8(Register8::A);
        self.dec_r16(Register16::HL);
        2
    }

    /// LD SP,n16. 3 cycles.
    pub fn ld_const16_to_sp(&mut self, n16: u16) -> (r: u32)
        requires
            old(self).wf(),
        ensures
            final(self).wf(),
            video_kept(old(self)@.mem, final(self)@.mem),
            r == 3,
            final(self)@ == old(self)@.with_sp(n16),
    {
        self.sp = n16;
        3
    }

    /// LD [n16],SP: low byte at n16, high byte at n16 + 1. 5 cycles.
    pub fn ld_sp_to_const16addr(&mut self, n16: u16) -> (r: u32)
        requires
            old(self).wf(),
        ensures
            final(self).wf(),
            video_kept(old(self)@.mem, final(self)@.mem),
            r == 5,
            final(self)@ == old(self)@.write(n16, (old(self)@.sp % 256) as u8).write(wrap16(n16 + 1), (old(self)@.sp / 256) as u8),
    {
        let sp = self.sp;
        self.write_mem(n16, (sp % 256) as u8);
        self.write_mem(n16.wrapping_add(1), (sp / 256) as u8);
        5
    }

    /// LD SP,HL. 2 cycles.
    pub fn ld_hl_to_sp(&mut self) -> (r: u32)
        requires
            old(self).wf(),
        ensures
            final(self).wf(),
            video_kept(old(self)@.mem, final(self)@.mem),
            r == 2,
            final(self)@ == old(self)@.with_sp(old(self)@.hl()),
    {
        self.sp = self.reg16(Register16::HL);
        2
    }

    /// NOP. 1 cycle.
    pub fn nop(&mut self) -> (r: u32)
        requires
            old(self).wf(),
        ensures
            final(self).wf(),
            video_kept(old(self)@.mem, final(self)@.mem),
            r == 1,
            final(self)@ == old(self)@,
    {
        1
    }

    /// POP AF: the low nibble of F is cleared. 3 cycles.
    pub fn pop_af(&mut self) -> (r: u32)
        requires
            old(self).wf(),
        ensures
            final(self).wf(),
            video_kept(old(self)@.mem, final(self)@.mem),
            r == 3,
            final(self)@ == pop_af_spec(old(self)@),
    {
        let v = self.pop_n16();
        self.set_reg(Register8::A, (v / 256) as u8);
        self.set_flags_from_byte((v % 256) as u8);
        3
    }

    /// POP rr. 3 cycles.
    pub fn pop_r16(&mut self, reg: Register16) -> (r: u32)
        requires
            old(self).wf(),
        ensures
            final(self).wf(),
            video_kept(old(self)@.mem, final(self)@.mem),
            r == 3,
            final(self)@ == old(self)@.pop16().with_r16(reg, old(self)@.top16()),
    {
        let v = self.pop_n16();
        self.write_reg16(reg, v);
        3
    }

    /// PUSH AF. 4 cycles.
    pub fn push_af(&mut self) -> (r: u32)
        requires
            old(self).wf(),
        ensures
            final(self).wf(),
            video_kept(old(self)@.mem, final(self)@.mem),
            r == 4,
            final(self)@ == push_af_spec(old(self)@),
    {
        let v = 256 * (self.a_reg() as u16) + self.f_reg() as u16;
        self.push_n16(v);
        4
    }

    /// PUSH rr. 4 cycles.
    pub fn push_r16(&mut self, reg: Register16) -> (r: u32)
        requires
            old(self).wf(),
        ensures
            final(self).wf(),
            video_kept(old(self)@.mem, final(self)@.mem),
            r == 4,
            final(self)@ == old(self)@.push16(old(self)@.r16(reg)),
    {
        let v = self.reg16(reg);
        self.push_n16(v);
        4
    }

    /// RES n,r: clear a bit. 2 cycles.
    pub fn res_r8(&mut self, reg: Register8, bit: u8) -> (r: u32)
        requires
            old(self).wf(),
            reg != Register8::F,
            bit < 8,
        ensures
            final(self).wf(),
            video_kept(old(self)@.mem, final(self)@.mem),
            r == 2,
            final(self)@ == old(self)@.with_reg(reg, old(self)@.reg(reg) & !(1u8 << bit)),
    {
        let v = self.reg(reg) & !(1u8 << bit);
        self.set_reg(reg, v);
        2
    }

    /// RES n,[HL]. 4 cycles.
    pub fn res_hl(&mut self, bit: u8) -> (r: u32)
        requires
            old(self).wf(),
            bit < 8,
        ensures
            final(self).wf(),
            video_kept(old(self)@.mem, final(self)@.mem),
            r == 4,
            final(self)@ == old(self)@.write(old(self)@.hl(), old(self)@.read(old(self)@.hl()) & !(1u8 << bit)),
    {
        let hl = self.reg16(Register16::HL);
        let v = self.read_mem(hl) & !(1u8 << bit);
        self.write_mem(hl, v);
        4
    }

    /// SET n,r: set a bit. 2 cycles.
    pub fn set_r8(&mut self, reg: Register8, bit: u8) -> (r: u32)
        requires
            old(self).wf(),
            reg != Register8::F,
            bit < 8,
        ensures
            final(self).wf(),
            video_kept(old(self)@.mem, final(self)@.mem),
            r == 2,
            final(self)@ == old(self)@.with_reg(reg, old(self)@.reg(reg) | (1u8 << bit)),
    {
        let v = self.reg(reg) | (1u8 << bit);
        self.set_reg(reg, v);
        2
    }

    /// SET n,[HL]. 4 cycles.
    pub fn set_hl(&mut self, bit: u8) -> (r: u32)
        requires
            old(self).wf(),
            bit < 8,
        ensures
            final(self).wf(),
            video_kept(old(self)@.mem, final(self)@.mem),
            r == 4,
            final(self)@ == old(self)@.write(old(self)@.hl(), old(self)@.read(old(self)@.hl()) | (1u8 << bit)),
    {
        let hl = self.reg16(Register16::HL);
        let v = self.read_mem(hl) | (1u8 << bit);
        self.write_mem(hl, v);
        4
    }

    /// RET: pop PC. 4 cycles.
    pub fn ret(&mut self) -> (r: u32)
        requires
            old(self).wf(),
        ensures
            final(self).wf(),
            video_kept(old(self)@.mem, final(self)@.mem),
            r == 4,
            final(self)@ == ret_spec(old(self)@),
    {
        self.pc = self.pop_n16();
        4
    }

    /// RET cc. 5 cycles taken, 2 untaken.
    pub fn ret_cc(&mut self, cc: Condition) -> (r: u32)
        requires
            old(self).wf(),
        ensures
            final(self).wf(),
            video_kept(old(self)@.mem, final(self)@.mem),
            cc.holds(old(self)@.flags()) ==> r == 5 && final(self)@ == ret_spec(old(self)@),
            !cc.holds(old(self)@.flags()) ==> r == 2 && final(self)@ == old(self)@,
    {
        if self.check_condition(cc) {
            self.ret();
            5
        } else {
            2
        }
    }

    /// RETI: return and enable interrupts at once. 4 cycles.
    pub fn reti(&mut self) -> (r: u32)
        requires
            old(self).wf(),
        ensures
            final(self).wf(),
            video_kept(old(self)@.mem, final(self)@.mem),
            r == 4,
            final(self)@ == (CpuState { ime: true, ..ret_spec(old(self)@) }),
    {
        self.ret();
        self.interrupts_enabled = true;
        4
    }

    /// RST: call one of the eight fixed vectors. 4 cycles.
    pub fn rst(&mut self, vec: ResetVec) -> (r: u32)
        requires
            old(self).wf(),
        ensures
            final(self).wf(),
            video_kept(old(self)@.mem, final(self)@.mem),
            r == 4,
            final(self)@ == call_spec(old(self)@, vec.address()),
    {
        let pc = self.pc;
        self.push_n16(pc);
        self.pc = match vec {
            ResetVec::Vec1 => 0x00,
            ResetVec::Vec2 => 0x08,
            ResetVec::Vec3 => 0x10,
            ResetVec::Vec4 => 0x18,
            ResetVec::Vec5 => 0x20,
            ResetVec::Vec6 => 0x28,
            ResetVec::Vec7 => 0x30,
            ResetVec::Vec8 => 0x38,
        };
        4
    }

    /// SCF: set the carry flag. 1 cycle.
    pub fn scf(&mut self) -> (r: u32)
        requires
            old(self).wf(),
        ensures
            final(self).wf(),
            video_kept(old(self)@.mem, final(self)@.mem),
            r == 1,
            final(self)@ == old(self)@.with_flags(Flags { z: old(self)@.flags().z, n: false, h: false, c: true }),
    {
        let f = self.flags();
        self.set_flags(Flags { z: f.z, n: false, h: false, c: true });
        1
    }

    /// Rotate/shift/swap a register.
    pub fn shift_r8(&mut self, op: ShiftOp, reg: Register8)
        requires
            old(self).wf(),
            reg != Register8::F,
        ensures
            final(self).wf(),
            video_kept(old(self)@.mem, final(self)@.mem),
            final(self)@ == shift_reg(old(self)@, op, reg),
    {
        let (v, f) = shift(op, self.reg(reg), self.carry_bit());
        self.set_reg(reg, v);
        self.set_flags(f);
    }

    /// Rotate/shift/swap the byte at HL.
    pub fn shift_at_hl(&mut self, op: ShiftOp)
        requires
            old(self).wf(),
        ensures
            final(self).wf(),
            video_kept(old(self)@.mem, final(self)@.mem),
            final(self)@ == shift_hl(old(self)@, op),
    {
        let hl = self.reg16(Register16::HL);
        let (v, f) = shift(op, self.read_mem(hl), self.carry_bit());
        self.write_mem(hl, v);
        self.set_flags(f);
    }

    /// Rotate left through carry a register. 2 cycles.
    pub fn rl(&mut self, reg: Register8) -> (r: u32)
        requires
            old(self).wf(),
            reg != Register8::F,
        ensures
            final(self).wf(),
            video_kept(old(self)@.mem, final(self)@.mem),
            r == 2,
            final(self)@ == shift_reg(old(self)@, ShiftOp::Rl, reg),
    {
        self.shift_r8(ShiftOp::Rl, reg);
        2
    }

    /// Rotate left through carry the byte at HL. 4 cycles.
    pub fn rl_hl(&mut self) -> (r: u32)
        requires
            old(self).wf(),
        ensures
            final(self).wf(),
            video_kept(old(self)@.mem, final(self)@.mem),
            r == 4,
            final(self)@ == shift_hl(old(self)@, ShiftOp::Rl),
    {
        self.shift_at_hl(ShiftOp::Rl);
        4
    }

    /// Rotate left a register. 2 cycles.
    pub fn rlc(&mut self, reg: Register8) -> (r: u32)
        requires
            old(self).wf(),
            reg != Register8::F,
        ensures
            final(self).wf(),
            video_kept(old(self)@.mem, final(self)@.mem),
            r == 2,
            final(self)@ == shift_reg(old(self)@, ShiftOp::Rlc, reg),
    {
        self.shift_r8(ShiftOp::Rlc, reg);
        2
    }

    /// Rotate left the byte at HL. 4 cycles.
    pub fn rlc_hl(&mut self) -> (r: u32)
        requires
            old(self).wf(),
        ensures
            final(self).wf(),
            video_kept(old(self)@.mem, final(self)@.mem),
            r == 4,
            final(self)@ == shift_hl(old(self)@, ShiftOp::Rlc),
    {
        self.shift_at_hl(ShiftOp::Rlc);
        4
    }

    /// Rotate right through carry a register. 2 cycles.
    pub fn rr(&mut self, reg: Register8) -> (r: u32)
        requires
            old(self).wf(),
            reg != Register8::F,
        ensures
            final(self).wf(),
            video_kept(old(self)@.mem, final(self)@.mem),
            r == 2,
            final(self)@ == shift_reg(old(self)@, ShiftOp::Rr, reg),
    {
        self.shift_r8(ShiftOp::Rr, reg);
        2
    }

    /// Rotate right through carry the byte at HL. 4 cycles.
    pub fn rr_hl(&mut self) -> (r: u32)
        requires
            old(self).wf(),
        ensures
            final(self).wf(),
            video_kept(old(self)@.mem, final(self)@.mem),
            r == 4,
            final(self)@ == shift_hl(old(self)@, ShiftOp::Rr),
    {
        self.shift_at_hl(ShiftOp::Rr);
        4
    }

    /// Rotate right a register. 2 cycles.
    pub fn rrc(&mut self, reg: Register8) -> (r: u32)
        requires
            old(self).wf(),
            reg != Register8::F,
        ensures
            final(self).wf(),
            video_kept(old(self)@.mem, final(self)@.mem),
            r == 2,
            final(self)@ == shift_reg(old(self)@, ShiftOp::Rrc, reg),
    {
        self.shift_r8(ShiftOp::Rrc, reg);
        2
    }

    /// Rotate right the byte at HL. 4 cycles.
    pub fn rrc_hl(&mut self) -> (r: u32)
        requires
            old(self).wf(),
        ensures
            final(self).wf(),
            video_kept(old(self)@.mem, final(self)@.mem),
            r == 4,
            final(self)@ == shift_hl(old(self)@, ShiftOp::Rrc),
    {
        self.shift_at_hl(ShiftOp::Rrc);
        4
    }

    /// Shift left arithmetically a register. 2 cycles.
    pub fn sla(&mut self, reg: Register8) -> (r: u32)
        requires
            old(self).wf(),
            reg != Register8::F,
        ensures
            final(self).wf(),
            video_kept(old(self)@.mem, final(self)@.mem),
            r == 2,
            final(self)@ == shift_reg(old(self)@, ShiftOp::Sla, reg),
    {
        self.shift_r8(ShiftOp::Sla, reg);
        2
    }

    /// Shift left arithmetically the byte at HL. 4 cycles.
    pub fn sla_hl(&mut self) -> (r: u32)
        requires
            old(self).wf(),
        ensures
            final(self).wf(),
            video_kept(old(self)@.mem, final(self)@.mem),
            r == 4,
            final(self)@ == shift_hl(old(self)@, ShiftOp::Sla),
    {
        self.shift_at_hl(ShiftOp::Sla);
        4
    }

    /// Shift right arithmetically a register. 2 cycles.
    pub fn sra(&mut self, reg: Register8) -> (r: u32)
        requires
            old(self).wf(),
            reg != Register8::F,
        ensures
            final(self).wf(),
            video_kept(old(self)@.mem, final(self)@.mem),
            r == 2,
            final(self)@ == shift_reg(old(self)@, ShiftOp::Sra, reg),
    {
        self.shift_r8(ShiftOp::Sra, reg);
        2
    }

    /// Shift right arithmetically the byte at HL. 4 cycles.
    pub fn sra_hl(&mut self) -> (r: u32)
        requires
            old(self).wf(),
        ensures
            final(self).wf(),
            video_kept(old(self)@.mem, final(self)@.mem),
            r == 4,
            final(self)@ == shift_hl(old(self)@, ShiftOp::Sra),
    {
        self.shift_at_hl(ShiftOp::Sra);
        4
    }

    /// Shift right logically a register. 2 cycles.
    pub fn srl(&mut self, reg: Register8) -> (r: u32)
        requires
            old(self).wf(),
            reg != Register8::F,
        ensures
            final(self).wf(),
            video_kept(old(self)@.mem, final(self)@.mem),
            r == 2,
            final(self)@ == shift_reg(old(self)@, ShiftOp::Srl, reg),
    {
        self.shift_r8(ShiftOp::Srl, reg);
        2
    }

    /// Shift right logically the byte at HL. 4 cycles.
    pub fn srl_hl(&mut self) -> (r: u32)
        requires
            old(self).wf(),
        ensures
            final(self).wf(),
            video_kept(old(self)@.mem, final(self)@.mem),
            r == 4,
            final(self)@ == shift_hl(old(self)@, ShiftOp::Srl),
    {
        self.shift_at_hl(ShiftOp::Srl);
        4
    }

    /// Swap the nibbles of a register. 2 cycles.
    pub fn swap(&mut self, reg: Register8) -> (r: u32)
        requires
            old(self).wf(),
            reg != Register8::F,
        ensures
            final(self).wf(),
            video_kept(old(self)@.mem, final(self)@.mem),
            r == 2,
            final(self)@ == shift_reg(old(self)@, ShiftOp::Swap, reg),
    {
        self.shift_r8(ShiftOp::Swap, reg);
        2
    }

    /// Swap the nibbles of the byte at HL. 4 cycles.
    pub fn swap_hl(&mut self) -> (r: u32)
        requires
            old(self).wf(),
        ensures
            final(self).wf(),
            video_kept(old(self)@.mem, final(self)@.mem),
            r == 4,
            final(self)@ == shift_hl(old(self)@, ShiftOp::Swap),
    {
        self.shift_at_hl(ShiftOp::Swap);
        4
    }

    /// Rotate A left through carry; Z is forced to 0. 1 cycle.
    pub fn rla(&mut self) -> (r: u32)
        requires
            old(self).wf(),
        ensures
            final(self).wf(),
            video_kept(old(self)@.mem, final(self)@.mem),
            r == 1,
            final(self)@ == rotate_a(old(self)@, ShiftOp::Rl),
    {
        let (v, f) = shift(ShiftOp::Rl, self.a_reg(), self.carry_bit());
        self.set_reg(Register8::A, v);
        self.set_flags(Flags { z: false, ..f });
        1
    }

    /// Rotate A left; Z is forced to 0. 1 cycle.
    pub fn rlca(&mut self) -> (r: u32)
        requires
            old(self).wf(),
        ensures
            final(self).wf(),
            video_kept(old(self)@.mem, final(self)@.mem),
            r == 1,
            final(self)@ == rotate_a(old(self)@, ShiftOp::Rlc),
    {
        let (v, f) = shift(ShiftOp::Rlc, self.a_reg(), self.carry_bit());
        self.set_reg(Register8::A, v);
        self.set_flags(Flags { z: false, ..f });
        1
    }

    /// Rotate A right through carry; Z is forced to 0. 1 cycle.
    pub fn rra(&mut self) -> (r: u32)
        requires
            old(self).wf(),
        ensures
            final(self).wf(),
            video_kept(old(self)@.mem, final(self)@.mem),
            r == 1,
            final(self)@ == rotate_a(old(self)@, ShiftOp::Rr),
    {
        let (v, f) = shift(ShiftOp::Rr, self.a_reg(), self.carry_bit());
        self.set_reg(Register8::A, v);
        self.set_flags(Flags { z: false, ..f });
        1
    }

    /// Rotate A right; Z is forced to 0. 1 cycle.
    pub fn rrca(&mut self) -> (r: u32)
        requires
            old(self).wf(),
        ensures
            final(self).wf(),
            video_kept(old(self)@.mem, final(self)@.mem),
            r == 1,
            final(self)@ == rotate_a(old(self)@, ShiftOp::Rrc),
    {
        let (v, f) = shift(ShiftOp::Rrc, self.a_reg(), self.carry_bit());
        self.set_reg(Register8::A, v);
        self.set_flags(Flags { z: false, ..f });
        1
    }
}

} // verus!
