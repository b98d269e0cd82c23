use vstd::prelude::*;

use crate::alu::{
    add16_spec, add_sp_e8_spec, daa_spec, dec8_spec, inc8_spec, AluOp, Flags, ShiftOp,
};
use crate::cpu::{wrap16, Condition, Cpu, CpuError, CpuState, Register16, Register8, ResetVec};
use crate::instructions::{
    alu_a, bit_flags, call_spec, jr_target, pop_af_spec, push_af_spec, ret_spec, rotate_a,
    shift_hl, shift_reg,
};
use crate::interrupts::any_requested;
use crate::memory::video_kept;

verus! {

/// The eleven byte values that are not instructions.
pub open spec fn is_unknown_opcode(op: u8) -> bool {
    op == 0xD3 || op == 0xDB || op == 0xDD || op == 0xE3 || op == 0xE4 || op == 0xEB || op == 0xEC
        || op == 0xED || op == 0xF4 || op == 0xFC || op == 0xFD
}

/// Opcodes that read a 16-bit immediate operand.
pub open spec fn has_u16_operand(op: u8) -> bool {
    op == 0x01 || op == 0x11 || op == 0x21 || op == 0x31 || op == 0x08 || op == 0xC2 || op == 0xC3
        || op == 0xC4 || op == 0xCA || op == 0xCC || op == 0xCD || op == 0xD2 || op == 0xD4
        || op == 0xDA || op == 0xDC || op == 0xEA || op == 0xFA
}

/// The error executing `op` from `s` (PC already past the opcode) ends in, if any: the
/// opcode is not an instruction, or its 16-bit operand cannot be read.
pub open spec fn execute_error(s: CpuState, op: u8) -> Option<CpuError> {
    if is_unknown_opcode(op) {
        Some(CpuError::UnknownOpcode(op))
    } else if has_u16_operand(op) && s.mem.read16(s.pc) is Err {
        Some(CpuError::Memory(s.mem.read16(s.pc)->Err_0))
    } else {
        None
    }
}

/// The state after a step that failed: the opcode was fetched, nothing else happened.
pub open spec fn tick_error_state(s: CpuState) -> CpuState {
    CpuState { ime_pending: false, ..s }.with_pc(wrap16(s.pc + 1))
}

/// How one tick from `s` ends: the new state and cycles, or the error.
/// Stopped: nothing changes. Halted: wakes once an enabled interrupt is requested.
pub open spec fn tick_outcome(s: CpuState) -> Result<(CpuState, u32), CpuError> {
    if s.stopped {
        Ok((s, 1))
    } else if s.halted {
        Ok((CpuState { halted: !any_requested(s.mem), ..s }, 1))
    } else {
        match execute_error(tick_error_state(s), s.read(s.pc)) {
            Some(e) => Err(e),
            None => Ok(tick_spec(s)),
        }
    }
}

/// Neither halted nor stopped: the next tick fetches an instruction.
pub open spec fn fetching(s: CpuState) -> bool {
    !s.halted && !s.stopped
}


/// The state after executing opcode `op` (PC already past the opcode) and its cycles,
/// when its operands could be fetched.
pub open spec fn execute_spec(s: CpuState, op: u8) -> (CpuState, u32) {
    if op < 0x40 {
        spec_00_3f(s, op)
    } else if op < 0x80 {
        spec_40_7f(s, op)
    } else if op < 0xC0 {
        spec_80_bf(s, op)
    } else if op < 0xD0 {
        spec_c0_cf(s, op)
    } else if op < 0xE0 {
        spec_d0_df(s, op)
    } else {
        spec_e0_ff(s, op)
    }
}

/// The state after executing the 0xCB-prefixed opcode `op` and its cycles.
pub open spec fn cb_spec(s: CpuState, op: u8) -> (CpuState, u32) {
    if op < 0x40 {
        spec_cb_00_3f(s, op)
    } else if op < 0x60 {
        spec_cb_40_5f(s, op)
    } else if op < 0x80 {
        spec_cb_60_7f(s, op)
    } else if op < 0xC0 {
        spec_cb_80_bf(s, op)
    } else {
        spec_cb_c0_ff(s, op)
    }
}

/// One fetch-and-execute step from `s`: the opcode at PC is fetched, a pending EI is
/// applied after the instruction (unless it is DI).
pub open spec fn tick_spec(s: CpuState) -> (CpuState, u32) {
    let op = s.read(s.pc);
    let s0 = CpuState { ime_pending: false, ..s }.with_pc(wrap16(s.pc + 1));
    let (s1, c) = execute_spec(s0, op);
    (
        CpuState {
            ime: if s.ime_pending && op != 0xF3 {
                true
            } else {
                s1.ime
            },
            ..s1
        },
        c,
    )
}

/// Effect and cycles of an opcode of 0x00..=0x3F, fetched from `s`.
pub open spec fn spec_00_3f(s: CpuState, op: u8) -> (CpuState, u32) {
    match op {
        0x00 => (s, 1),
        0x01 => {
            let p = s.mem.read16(s.pc)->Ok_0;
            let s1 = s.with_pc(wrap16(s.pc + 2));
            (s1.with_r16(Register16::BC, p), 3)
        },
        0x02 => (s.write(s.r16(Register16::BC), s.reg(Register8::A)), 2),
        0x03 => (s.with_r16(Register16::BC, wrap16(s.r16(Register16::BC) + 1)), 2),
        0x04 => (s.with_reg(Register8::B, inc8_spec(s.reg(Register8::B), s.flags()).0).with_flags(inc8_spec(s.reg(Register8::B), s.flags()).1), 1),
        0x05 => (s.with_reg(Register8::B, dec8_spec(s.reg(Register8::B), s.flags()).0).with_flags(dec8_spec(s.reg(Register8::B), s.flags()).1), 1),
        0x06 => {
            let p = s.read(s.pc);
            let s1 = s.with_pc(wrap16(s.pc + 1));
            (s1.with_reg(Register8::B, p), 2)
        },
        0x07 => (rotate_a(s, ShiftOp::Rlc), 1),
        0x08 => {
            let p = s.mem.read16(s.pc)->Ok_0;
            let s1 = s.with_pc(wrap16(s.pc + 2));
            (s1.write(p, (s1.sp % 256) as u8).write(wrap16(p + 1), (s1.sp / 256) as u8), 5)
        },
        0x09 => (s.with_r16(Register16::HL, add16_spec(s.hl(), s.r16(Register16::BC), s.flags()).0).with_flags(add16_spec(s.hl(), s.r16(Register16::BC), s.flags()).1), 2),
        0x0A => (s.with_reg(Register8::A, s.read(s.r16(Register16::BC))), 2),
        0x0B => (s.with_r16(Register16::BC, wrap16(s.r16(Register16::BC) - 1)), 2),
        0x0C => (s.with_reg(Register8::C, inc8_spec(s.reg(Register8::C), s.flags()).0).with_flags(inc8_spec(s.reg(Register8::C), s.flags()).1), 1),
        0x0D => (s.with_reg(Register8::C, dec8_spec(s.reg(Register8::C), s.flags()).0).with_flags(dec8_spec(s.reg(Register8::C), s.flags()).1), 1),
        0x0E => {
            let p = s.read(s.pc);
            let s1 = s.with_pc(wrap16(s.pc + 1));
            (s1.with_reg(Register8::C, p), 2)
        },
        0x0F => (rotate_a(s, ShiftOp::Rrc), 1),
        0x10 => (CpuState { stopped: true, ..s.with_pc(wrap16(s.pc + 1)) }, 1),
        0x11 => {
            let p = s.mem.read16(s.pc)->Ok_0;
            let s1 = s.with_pc(wrap16(s.pc + 2));
            (s1.with_r16(Register16::DE, p), 3)
        },
        0x12 => (s.write(s.r16(Register16::DE), s.reg(Register8::A)), 2),
        0x13 => (s.with_r16(Register16::DE, wrap16(s.r16(Register16::DE) + 1)), 2),
        0x14 => (s.with_reg(Register8::D, inc8_spec(s.reg(Register8::D), s.flags()).0).with_flags(inc8_spec(s.reg(Register8::D), s.flags()).1), 1),
        0x15 => (s.with_reg(Register8::D, dec8_spec(s.reg(Register8::D), s.flags()).0).with_flags(dec8_spec(s.reg(Register8::D), s.flags()).1), 1),
        0x16 => {
            let p = s.read(s.pc);
            let s1 = s.with_pc(wrap16(s.pc + 1));
            (s1.with_reg(Register8::D, p), 2)
        },
        0x17 => (rotate_a(s, ShiftOp::Rl), 1),
        0x18 => {
            let p = s.read(s.pc) as i8;
            let s1 = s.with_pc(wrap16(s.pc + 1));
            (s1.with_pc(jr_target(s1.pc, p)), 3)
        },
        0x19 => (s.with_r16(Register16::HL, add16_spec(s.hl(), s.r16(Register16::DE), s.flags()).0).with_flags(add16_spec(s.hl(), s.r16(Register16::DE), s.flags()).1), 2),
        0x1A => (s.with_reg(Register8::A, s.read(s.r16(Register16::DE))), 2),
        0x1B => (s.with_r16(Register16::DE, wrap16(s.r16(Register16::DE) - 1)), 2),
        0x1C => (s.with_reg(Register8::E, inc8_spec(s.reg(Register8::E), s.flags()).0).with_flags(inc8_spec(s.reg(Register8::E), s.flags()).1), 1),
        0x1D => (s.with_reg(Register8::E, dec8_spec(s.reg(Register8::E), s.flags()).0).with_flags(dec8_spec(s.reg(Register8::E), s.flags()).1), 1),
        0x1E => {
            let p = s.read(s.pc);
            let s1 = s.with_pc(wrap16(s.pc + 1));
            (s1.with_reg(Register8::E, p), 2)
        },
        0x1F => (rotate_a(s, ShiftOp::Rr), 1),
        0x20 => {
            let p = s.read(s.pc) as i8;
            let s1 = s.with_pc(wrap16(s.pc + 1));
            if Condition::ZNotSet.holds(s1.flags()) {
                (s1.with_pc(jr_target(s1.pc, p)), 3)
            } else {
                (s1, 2)
            }
        },
        0x21 => {
            let p = s.mem.read16(s.pc)->Ok_0;
            let s1 = s.with_pc(wrap16(s.pc + 2));
            (s1.with_r16(Register16::HL, p), 3)
        },
        0x22 => (s.write(s.hl(), s.reg(Register8::A)).with_r16(Register16::HL, wrap16(s.hl() + 1)), 2),
        0x23 => (s.with_r16(Register16::HL, wrap16(s.r16(Register16::HL) + 1)), 2),
        0x24 => (s.with_reg(Register8::H, inc8_spec(s.reg(Register8::H), s.flags()).0).with_flags(inc8_spec(s.reg(Register8::H), s.flags()).1), 1),
        0x25 => (s.with_reg(Register8::H, dec8_spec(s.reg(Register8::H), s.flags()).0).with_flags(dec8_spec(s.reg(Register8::H), s.flags()).1), 1),
        0x26 => {
            let p = s.read(s.pc);
            let s1 = s.with_pc(wrap16(s.pc + 1));
            (s1.with_reg(Register8::H, p), 2)
        },
        0x27 => (s.with_reg(Register8::A, daa_spec(s.reg(Register8::A), s.flags()).0).with_flags(daa_spec(s.reg(Register8::A), s.flags()).1), 1),
        0x28 => {
            let p = s.read(s.pc) as i8;
            let s1 = s.with_pc(wrap16(s.pc + 1));
            if Condition::ZSet.holds(s1.flags()) {
                (s1.with_pc(jr_target(s1.pc, p)), 3)
            } else {
                (s1, 2)
            }
        },
        0x29 => (s.with_r16(Register16::HL, add16_spec(s.hl(), s.r16(Register16::HL), s.flags()).0).with_flags(add16_spec(s.hl(), s.r16(Register16::HL), s.flags()).1), 2),
        0x2A => (s.with_reg(Register8::A, s.read(s.hl())).with_r16(Register16::HL, wrap16(s.hl() + 1)), 2),
        0x2B => (s.with_r16(Register16::HL, wrap16(s.r16(Register16::HL) - 1)), 2),
        0x2C => (s.with_reg(Register8::L, inc8_spec(s.reg(Register8::L), s.flags()).0).with_flags(inc8_spec(s.reg(Register8::L), s.flags()).1), 1),
        0x2D => (s.with_reg(Register8::L, dec8_spec(s.reg(Register8::L), s.flags()).0).with_flags(dec8_spec(s.reg(Register8::L), s.flags()).1), 1),
        0x2E => {
            let p = s.read(s.pc);
            let s1 = s.with_pc(wrap16(s.pc + 1));
            (s1.with_reg(Register8::L, p), 2)
        },
        0x2F => (s.with_reg(Register8::A, !s.reg(Register8::A)).with_flags(Flags { n: true, h: true, ..s.flags() }), 1),
        0x30 => {
            let p = s.read(s.pc) as i8;
            let s1 = s.with_pc(wrap16(s.pc + 1));
            if Condition::CNotSet.holds(s1.flags()) {
                (s1.with_pc(jr_target(s1.pc, p)), 3)
            } else {
                (s1, 2)
            }
        },
        0x31 => {
            let p = s.mem.read16(s.pc)->Ok_0;
            let s1 = s.with_pc(wrap16(s.pc + 2));
            (s1.with_sp(p), 3)
        },
        0x32 => (s.write(s.hl(), s.reg(Register8::A)).with_r16(Register16::HL, wrap16(s.hl() - 1)), 2),
        0x33 => (s.with_sp(wrap16(s.sp + 1)), 2),
        0x34 => (s.write(s.hl(), inc8_spec(s.read(s.hl()), s.flags()).0).with_flags(inc8_spec(s.read(s.hl()), s.flags()).1), 3),
        0x35 => (s.write(s.hl(), dec8_spec(s.read(s.hl()), s.flags()).0).with_flags(dec8_spec(s.read(s.hl()), s.flags()).1), 3),
        0x36 => {
            let p = s.read(s.pc);
            let s1 = s.with_pc(wrap16(s.pc + 1));
            (s1.write(s1.hl(), p), 3)
        },
        0x37 => (s.with_flags(Flags { z: s.flags().z, n: false, h: false, c: true }), 1),
        0x38 => {
            let p = s.read(s.pc) as i8;
            let s1 = s.with_pc(wrap16(s.pc + 1));
            if Condition::CSet.holds(s1.flags()) {
                (s1.with_pc(jr_target(s1.pc, p)), 3)
            } else {
                (s1, 2)
            }
        },
        0x39 => (s.with_r16(Register16::HL, add16_spec(s.hl(), s.sp, s.flags()).0).with_flags(add16_spec(s.hl(), s.sp, s.flags()).1), 2),
        0x3A => (s.with_reg(Register8::A, s.read(s.hl())).with_r16(Register16::HL, wrap16(s.hl() - 1)), 2),
        0x3B => (s.with_sp(wrap16(s.sp - 1)), 2),
        0x3C => (s.with_reg(Register8::A, inc8_spec(s.reg(Register8::A), s.flags()).0).with_flags(inc8_spec(s.reg(Register8::A), s.flags()).1), 1),
        0x3D => (s.with_reg(Register8::A, dec8_spec(s.reg(Register8::A), s.flags()).0).with_flags(dec8_spec(s.reg(Register8::A), s.flags()).1), 1),
        0x3E => {
            let p = s.read(s.pc);
            let s1 = s.with_pc(wrap16(s.pc + 1));
            (s1.with_reg(Register8::A, p), 2)
        },
        0x3F => (s.with_flags(Flags { z: s.flags().z, n: false, h: false, c: !s.flags().c }), 1),
        _ => (s, 0),
    }
}

/// Effect and cycles of an opcode of 0x40..=0x7F.
pub open spec fn spec_40_7f(s: CpuState, op: u8) -> (CpuState, u32) {
    match op {
        0x40 => (s.with_reg(Register8::B, s.reg(Register8::B)), 1),
        0x41 => (s.with_reg(Register8::B, s.reg(Register8::C)), 1),
        0x42 => (s.with_reg(Register8::B, s.reg(Register8::D)), 1),
        0x43 => (s.with_reg(Register8::B, s.reg(Register8::E)), 1),
        0x44 => (s.with_reg(Register8::B, s.reg(Register8::H)), 1),
        0x45 => (s.with_reg(Register8::B, s.reg(Register8::L)), 1),
        0x46 => (s.with_reg(Register8::B, s.read(s.hl())), 2),
        0x47 => (s.with_reg(Register8::B, s.reg(Register8::A)), 1),
        0x48 => (s.with_reg(Register8::C, s.reg(Register8::B)), 1),
        0x49 => (s.with_reg(Register8::C, s.reg(Register8::C)), 1),
        0x4A => (s.with_reg(Register8::C, s.reg(Register8::D)), 1),
        0x4B => (s.with_reg(Register8::C, s.reg(Register8::E)), 1),
        0x4C => (s.with_reg(Register8::C, s.reg(Register8::H)), 1),
        0x4D => (s.with_reg(Register8::C, s.reg(Register8::L)), 1),
        0x4E => (s.with_reg(Register8::C, s.read(s.hl())), 2),
        0x4F => (s.with_reg(Register8::C, s.reg(Register8::A)), 1),
        0x50 => (s.with_reg(Register8::D, s.reg(Register8::B)), 1),
        0x51 => (s.with_reg(Register8::D, s.reg(Register8::C)), 1),
        0x52 => (s.with_reg(Register8::D, s.reg(Register8::D)), 1),
        0x53 => (s.with_reg(Register8::D, s.reg(Register8::E)), 1),
        0x54 => (s.with_reg(Register8::D, s.reg(Register8::H)), 1),
        0x55 => (s.with_reg(Register8::D, s.reg(Register8::L)), 1),
        0x56 => (s.with_reg(Register8::D, s.read(s.hl())), 2),
        0x57 => (s.with_reg(Register8::D, s.reg(Register8::A)), 1),
        0x58 => (s.with_reg(Register8::E, s.reg(Register8::B)), 1),
        0x59 => (s.with_reg(Register8::E, s.reg(Register8::C)), 1),
        0x5A => (s.with_reg(Register8::E, s.reg(Register8::D)), 1),
        0x5B => (s.with_reg(Register8::E, s.reg(Register8::E)), 1),
        0x5C => (s.with_reg(Register8::E, s.reg(Register8::H)), 1),
        0x5D => (s.with_reg(Register8::E, s.reg(Register8::L)), 1),
        0x5E => (s.with_reg(Register8::E, s.read(s.hl())), 2),
        0x5F => (s.with_reg(Register8::E, s.reg(Register8::A)), 1),
        0x60 => (s.with_reg(Register8::H, s.reg(Register8::B)), 1),
        0x61 => (s.with_reg(Register8::H, s.reg(Register8::C)), 1),
        0x62 => (s.with_reg(Register8::H, s.reg(Register8::D)), 1),
        0x63 => (s.with_reg(Register8::H, s.reg(Register8::E)), 1),
        0x64 => (s.with_reg(Register8::H, s.reg(Register8::H)), 1),
        0x65 => (s.with_reg(Register8::H, s.reg(Register8::L)), 1),
        0x66 => (s.with_reg(Register8::H, s.read(s.hl())), 2),
        0x67 => (s.with_reg(Register8::H, s.reg(Register8::A)), 1),
        0x68 => (s.with_reg(Register8::L, s.reg(Register8::B)), 1),
        0x69 => (s.with_reg(Register8::L, s.reg(Register8::C)), 1),
        0x6A => (s.with_reg(Register8::L, s.reg(Register8::D)), 1),
        0x6B => (s.with_reg(Register8::L, s.reg(Register8::E)), 1),
        0x6C => (s.with_reg(Register8::L, s.reg(Register8::H)), 1),
        0x6D => (s.with_reg(Register8::L, s.reg(Register8::L)), 1),
        0x6E => (s.with_reg(Register8::L, s.read(s.hl())), 2),
        0x6F => (s.with_reg(Register8::L, s.reg(Register8::A)), 1),
        0x70 => (s.write(s.hl(), s.reg(Register8::B)), 2),
        0x71 => (s.write(s.hl(), s.reg(Register8::C)), 2),
        0x72 => (s.write(s.hl(), s.reg(Register8::D)), 2),
        0x73 => (s.write(s.hl(), s.reg(Register8::E)), 2),
        0x74 => (s.write(s.hl(), s.reg(Register8::H)), 2),
        0x75 => (s.write(s.hl(), s.reg(Register8::L)), 2),
        0x76 => ((CpuState { halted: true, ..s }), 1),
        0x77 => (s.write(s.hl(), s.reg(Register8::A)), 2),
        0x78 => (s.with_reg(Register8::A, s.reg(Register8::B)), 1),
        0x79 => (s.with_reg(Register8::A, s.reg(Register8::C)), 1),
        0x7A => (s.with_reg(Register8::A, s.reg(Register8::D)), 1),
        0x7B => (s.with_reg(Register8::A, s.reg(Register8::E)), 1),
        0x7C => (s.with_reg(Register8::A, s.reg(Register8::H)), 1),
        0x7D => (s.with_reg(Register8::A, s.reg(Register8::L)), 1),
        0x7E => (s.with_reg(Register8::A, s.read(s.hl())), 2),
        0x7F => (s.with_reg(Register8::A, s.reg(Register8::A)), 1),
        _ => (s, 0),
    }
}

/// Effect and cycles of an opcode of 0x80..=0xBF.
pub open spec fn spec_80_bf(s: CpuState, op: u8) -> (CpuState, u32) {
    match op {
        0x80 => (alu_a(s, AluOp::Add, s.reg(Register8::B)), 1),
        0x81 => (alu_a(s, AluOp::Add, s.reg(Register8::C)), 1),
        0x82 => (alu_a(s, AluOp::Add, s.reg(Register8::D)), 1),
        0x83 => (alu_a(s, AluOp::Add, s.reg(Register8::E)), 1),
        0x84 => (alu_a(s, AluOp::Add, s.reg(Register8::H)), 1),
        0x85 => (alu_a(s, AluOp::Add, s.reg(Register8::L)), 1),
        0x86 => (alu_a(s, AluOp::Add, s.read(s.hl())), 2),
        0x87 => (alu_a(s, AluOp::Add, s.reg(Register8::A)), 1),
        0x88 => (alu_a(s, AluOp::Adc, s.reg(Register8::B)), 1),
        0x89 => (alu_a(s, AluOp::Adc, s.reg(Register8::C)), 1),
        0x8A => (alu_a(s, AluOp::Adc, s.reg(Register8::D)), 1),
        0x8B => (alu_a(s, AluOp::Adc, s.reg(Register8::E)), 1),
        0x8C => (alu_a(s, AluOp::Adc, s.reg(Register8::H)), 1),
        0x8D => (alu_a(s, AluOp::Adc, s.reg(Register8::L)), 1),
        0x8E => (alu_a(s, AluOp::Adc, s.read(s.hl())), 2),
        0x8F => (alu_a(s, AluOp::Adc, s.reg(Register8::A)), 1),
        0x90 => (alu_a(s, AluOp::Sub, s.reg(Register8::B)), 1),
        0x91 => (alu_a(s, AluOp::Sub, s.reg(Register8::C)), 1),
        0x92 => (alu_a(s, AluOp::Sub, s.reg(Register8::D)), 1),
        0x93 => (alu_a(s, AluOp::Sub, s.reg(Register8::E)), 1),
        0x94 => (alu_a(s, AluOp::Sub, s.reg(Register8::H)), 1),
        0x95 => (alu_a(s, AluOp::Sub, s.reg(Register8::L)), 1),
        0x96 => (alu_a(s, AluOp::Sub, s.read(s.hl())), 2),
        0x97 => (alu_a(s, AluOp::Sub, s.reg(Register8::A)), 1),
        0x98 => (alu_a(s, AluOp::Sbc, s.reg(Register8::B)), 1),
        0x99 => (alu_a(s, AluOp::Sbc, s.reg(Register8::C)), 1),
        0x9A => (alu_a(s, AluOp::Sbc, s.reg(Register8::D)), 1),
        0x9B => (alu_a(s, AluOp::Sbc, s.reg(Register8::E)), 1),
        0x9C => (alu_a(s, AluOp::Sbc, s.reg(Register8::H)), 1),
        0x9D => (alu_a(s, AluOp::Sbc, s.reg(Register8::L)), 1),
        0x9E => (alu_a(s, AluOp::Sbc, s.read(s.hl())), 2),
        0x9F => (alu_a(s, AluOp::Sbc, s.reg(Register8::A)), 1),
        0xA0 => (alu_a(s, AluOp::And, s.reg(Register8::B)), 1),
        0xA1 => (alu_a(s, AluOp::And, s.reg(Register8::C)), 1),
        0xA2 => (alu_a(s, AluOp::And, s.reg(Register8::D)), 1),
        0xA3 => (alu_a(s, AluOp::And, s.reg(Register8::E)), 1),
        0xA4 => (alu_a(s, AluOp::And, s.reg(Register8::H)), 1),
        0xA5 => (alu_a(s, AluOp::And, s.reg(Register8::L)), 1),
        0xA6 => (alu_a(s, AluOp::And, s.read(s.hl())), 2),
        0xA7 => (alu_a(s, AluOp::And, s.reg(Register8::A)), 1),
        0xA8 => (alu_a(s, AluOp::Xor, s.reg(Register8::B)), 1),
        0xA9 => (alu_a(s, AluOp::Xor, s.reg(Register8::C)), 1),
        0xAA => (alu_a(s, AluOp::Xor, s.reg(Register8::D)), 1),
        0xAB => (alu_a(s, AluOp::Xor, s.reg(Register8::E)), 1),
        0xAC => (alu_a(s, AluOp::Xor, s.reg(Register8::H)), 1),
        0xAD => (alu_a(s, AluOp::Xor, s.reg(Register8::L)), 1),
        0xAE => (alu_a(s, AluOp::Xor, s.read(s.hl())), 2),
        0xAF => (alu_a(s, AluOp::Xor, s.reg(Register8::A)), 1),
        0xB0 => (alu_a(s, AluOp::Or, s.reg(Register8::B)), 1),
        0xB1 => (alu_a(s, AluOp::Or, s.reg(Register8::C)), 1),
        0xB2 => (alu_a(s, AluOp::Or, s.reg(Register8::D)), 1),
        0xB3 => (alu_a(s, AluOp::Or, s.reg(Register8::E)), 1),
        0xB4 => (alu_a(s, AluOp::Or, s.reg(Register8::H)), 1),
        0xB5 => (alu_a(s, AluOp::Or, s.reg(Register8::L)), 1),
        0xB6 => (alu_a(s, AluOp::Or, s.read(s.hl())), 2),
        0xB7 => (alu_a(s, AluOp::Or, s.reg(Register8::A)), 1),
        0xB8 => (alu_a(s, AluOp::Cp, s.reg(Register8::B)), 1),
        0xB9 => (alu_a(s, AluOp::Cp, s.reg(Register8::C)), 1),
        0xBA => (alu_a(s, AluOp::Cp, s.reg(Register8::D)), 1),
        0xBB => (alu_a(s, AluOp::Cp, s.reg(Register8::E)), 1),
        0xBC => (alu_a(s, AluOp::Cp, s.reg(Register8::H)), 1),
        0xBD => (alu_a(s, AluOp::Cp, s.reg(Register8::L)), 1),
        0xBE => (alu_a(s, AluOp::Cp, s.read(s.hl())), 2),
        0xBF => (alu_a(s, AluOp::Cp, s.reg(Register8::A)), 1),
        _ => (s, 0),
    }
}

/// Effect and cycles of an opcode of 0xC0..=0xCF.
pub open spec fn spec_c0_cf(s: CpuState, op: u8) -> (CpuState, u32) {
    match op {
        0xC0 => if Condition::ZNotSet.holds(s.flags()) {
            (ret_spec(s), 5)
        } else {
            (s, 2)
        },
        0xC1 => (s.pop16().with_r16(Register16::BC, s.top16()), 3),
        0xC2 => {
            let p = s.mem.read16(s.pc)->Ok_0;
            let s1 = s.with_pc(wrap16(s.pc + 2));
            if Condition::ZNotSet.holds(s1.flags()) {
                (s1.with_pc(p), 4)
            } else {
                (s1, 3)
            }
        },
        0xC3 => {
            let p = s.mem.read16(s.pc)->Ok_0;
            let s1 = s.with_pc(wrap16(s.pc + 2));
            (s1.with_pc(p), 4)
        },
        0xC4 => {
            let p = s.mem.read16(s.pc)->Ok_0;
            let s1 = s.with_pc(wrap16(s.pc + 2));
            if Condition::ZNotSet.holds(s1.flags()) {
                (call_spec(s1, p), 6)
            } else {
                (s1, 3)
            }
        },
        0xC5 => (s.push16(s.r16(Register16::BC)), 4),
        0xC6 => {
            let p = s.read(s.pc);
            let s1 = s.with_pc(wrap16(s.pc + 1));
            (alu_a(s1, AluOp::Add, p), 2)
        },
        0xC7 => (call_spec(s, ResetVec::Vec1.address()), 4),
        0xC8 => if Condition::ZSet.holds(s.flags()) {
            (ret_spec(s), 5)
        } else {
            (s, 2)
        },
        0xC9 => (ret_spec(s), 4),
        0xCA => {
            let p = s.mem.read16(s.pc)->Ok_0;
            let s1 = s.with_pc(wrap16(s.pc + 2));
            if Condition::ZSet.holds(s1.flags()) {
                (s1.with_pc(p), 4)
            } else {
                (s1, 3)
            }
        },
        0xCB => cb_spec(s.with_pc(wrap16(s.pc + 1)), s.read(s.pc)),
        0xCC => {
            let p = s.mem.read16(s.pc)->Ok_0;
            let s1 = s.with_pc(wrap16(s.pc + 2));
            if Condition::ZSet.holds(s1.flags()) {
                (call_spec(s1, p), 6)
            } else {
                (s1, 3)
            }
        },
        0xCD => {
            let p = s.mem.read16(s.pc)->Ok_0;
            let s1 = s.with_pc(wrap16(s.pc + 2));
            (call_spec(s1, p), 6)
        },
        0xCE => {
            let p = s.read(s.pc);
            let s1 = s.with_pc(wrap16(s.pc + 1));
            (alu_a(s1, AluOp::Adc, p), 2)
        },
        0xCF => (call_spec(s, ResetVec::Vec2.address()), 4),
        _ => (s, 0),
    }
}

/// Effect and cycles of an opcode of 0xD0..=0xDF.
pub open spec fn spec_d0_df(s: CpuState, op: u8) -> (CpuState, u32) {
    match op {
        0xD0 => if Condition::CNotSet.holds(s.flags()) {
            (ret_spec(s), 5)
        } else {
            (s, 2)
        },
        0xD1 => (s.pop16().with_r16(Register16::DE, s.top16()), 3),
        0xD2 => {
            let p = s.mem.read16(s.pc)->Ok_0;
            let s1 = s.with_pc(wrap16(s.pc + 2));
            if Condition::CNotSet.holds(s1.flags()) {
                (s1.with_pc(p), 4)
            } else {
                (s1, 3)
            }
        },
        0xD4 => {
            let p = s.mem.read16(s.pc)->Ok_0;
            let s1 = s.with_pc(wrap16(s.pc + 2));
            if Condition::CNotSet.holds(s1.flags()) {
                (call_spec(s1, p), 6)
            } else {
                (s1, 3)
            }
        },
        0xD5 => (s.push16(s.r16(Register16::DE)), 4),
        0xD6 => {
            let p = s.read(s.pc);
            let s1 = s.with_pc(wrap16(s.pc + 1));
            (alu_a(s1, AluOp::Sub, p), 2)
        },
        0xD7 => (call_spec(s, ResetVec::Vec3.address()), 4),
        0xD8 => if Condition::CSet.holds(s.flags()) {
            (ret_spec(s), 5)
        } else {
            (s, 2)
        },
        0xD9 => ((CpuState { ime: true, ..ret_spec(s) }), 4),
        0xDA => {
            let p = s.mem.read16(s.pc)->Ok_0;
            let s1 = s.with_pc(wrap16(s.pc + 2));
            if Condition::CSet.holds(s1.flags()) {
                (s1.with_pc(p), 4)
            } else {
                (s1, 3)
            }
        },
        0xDC => {
            let p = s.mem.read16(s.pc)->Ok_0;
            let s1 = s.with_pc(wrap16(s.pc + 2));
            if Condition::CSet.holds(s1.flags()) {
                (call_spec(s1, p), 6)
            } else {
                (s1, 3)
            }
        },
        0xDE => {
            let p = s.read(s.pc);
            let s1 = s.with_pc(wrap16(s.pc + 1));
            (alu_a(s1, AluOp::Sbc, p), 2)
        },
        0xDF => (call_spec(s, ResetVec::Vec4.address()), 4),
        _ => (s, 0),
    }
}

/// Effect and cycles of an opcode of 0xE0..=0xFF.
pub open spec fn spec_e0_ff(s: CpuState, op: u8) -> (CpuState, u32) {
    match op {
        0xE0 => {
            let p = s.read(s.pc);
            let s1 = s.with_pc(wrap16(s.pc + 1));
            (s1.write(((0xFF00 + p) as u16), s1.reg(Register8::A)), 3)
        },
        0xE1 => (s.pop16().with_r16(Register16::HL, s.top16()), 3),
        0xE2 => (s.write((0xFF00 + s.reg(Register8::C)) as u16, s.reg(Register8::A)), 2),
        0xE5 => (s.push16(s.r16(Register16::HL)), 4),
        0xE6 => {
            let p = s.read(s.pc);
            let s1 = s.with_pc(wrap16(s.pc + 1));
            (alu_a(s1, AluOp::And, p), 2)
        },
        0xE7 => (call_spec(s, ResetVec::Vec5.address()), 4),
        0xE8 => {
            let p = s.read(s.pc) as i8;
            let s1 = s.with_pc(wrap16(s.pc + 1));
            (s1.with_sp(add_sp_e8_spec(s1.sp, p).0).with_flags(add_sp_e8_spec(s1.sp, p).1), 4)
        },
        0xE9 => (s.with_pc(s.hl()), 1),
        0xEA => {
            let p = s.mem.read16(s.pc)->Ok_0;
            let s1 = s.with_pc(wrap16(s.pc + 2));
            (s1.write(p, s1.reg(Register8::A)), 4)
        },
        0xEE => {
            let p = s.read(s.pc);
            let s1 = s.with_pc(wrap16(s.pc + 1));
            (alu_a(s1, AluOp::Xor, p), 2)
        },
        0xEF => (call_spec(s, ResetVec::Vec6.address()), 4),
        0xF0 => {
            let p = s.read(s.pc);
            let s1 = s.with_pc(wrap16(s.pc + 1));
            (s1.with_reg(Register8::A, s1.read(((0xFF00 + p) as u16))), 3)
        },
        0xF1 => (pop_af_spec(s), 3),
        0xF2 => (s.with_reg(Register8::A, s.read((0xFF00 + s.reg(Register8::C)) as u16)), 2),
        0xF3 => ((CpuState { ime: false, ime_pending: false, ..s }), 1),
        0xF5 => (push_af_spec(s), 4),
        0xF6 => {
            let p = s.read(s.pc);
            let s1 = s.with_pc(wrap16(s.pc + 1));
            (alu_a(s1, AluOp::Or, p), 2)
        },
        0xF7 => (call_spec(s, ResetVec::Vec7.address()), 4),
        0xF8 => {
            let p = s.read(s.pc) as i8;
            let s1 = s.with_pc(wrap16(s.pc + 1));
            (s1.with_r16(Register16::HL, add_sp_e8_spec(s1.sp, p).0).with_flags(add_sp_e8_spec(s1.sp, p).1), 3)
        },
        0xF9 => (s.with_sp(s.hl()), 2),
        0xFA => {
            let p = s.mem.read16(s.pc)->Ok_0;
            let s1 = s.with_pc(wrap16(s.pc + 2));
            (s1.with_reg(Register8::A, s1.read(p)), 4)
        },
        0xFB => ((CpuState { ime_pending: true, ..s }), 1),
        0xFE => {
            let p = s.read(s.pc);
            let s1 = s.with_pc(wrap16(s.pc + 1));
            (alu_a(s1, AluOp::Cp, p), 2)
        },
        0xFF => (call_spec(s, ResetVec::Vec8.address()), 4),
        _ => (s, 0),
    }
}

/// Effect and cycles of a 0xCB rotate/shift/swap.
pub open spec fn spec_cb_00_3f(s: CpuState, op: u8) -> (CpuState, u32) {
    match op {
        0x00 => (shift_reg(s, ShiftOp::Rlc, Register8::B), 2),
        0x01 => (shift_reg(s, ShiftOp::Rlc, Register8::C), 2),
        0x02 => (shift_reg(s, ShiftOp::Rlc, Register8::D), 2),
        0x03 => (shift_reg(s, ShiftOp::Rlc, Register8::E), 2),
        0x04 => (shift_reg(s, ShiftOp::Rlc, Register8::H), 2),
        0x05 => (shift_reg(s, ShiftOp::Rlc, Register8::L), 2),
        0x06 => (shift_hl(s, ShiftOp::Rlc), 4),
        0x07 => (shift_reg(s, ShiftOp::Rlc, Register8::A), 2),
        0x08 => (shift_reg(s, ShiftOp::Rrc, Register8::B), 2),
        0x09 => (shift_reg(s, ShiftOp::Rrc, Register8::C), 2),
        0x0A => (shift_reg(s, ShiftOp::Rrc, Register8::D), 2),
        0x0B => (shift_reg(s, ShiftOp::Rrc, Register8::E), 2),
        0x0C => (shift_reg(s, ShiftOp::Rrc, Register8::H), 2),
        0x0D => (shift_reg(s, ShiftOp::Rrc, Register8::L), 2),
        0x0E => (shift_hl(s, ShiftOp::Rrc), 4),
        0x0F => (shift_reg(s, ShiftOp::Rrc, Register8::A), 2),
        0x10 => (shift_reg(s, ShiftOp::Rl, Register8::B), 2),
        0x11 => (shift_reg(s, ShiftOp::Rl, Register8::C), 2),
        0x12 => (shift_reg(s, ShiftOp::Rl, Register8::D), 2),
        0x13 => (shift_reg(s, ShiftOp::Rl, Register8::E), 2),
        0x14 => (shift_reg(s, ShiftOp::Rl, Register8::H), 2),
        0x15 => (shift_reg(s, ShiftOp::Rl, Register8::L), 2),
        0x16 => (shift_hl(s, ShiftOp::Rl), 4),
        0x17 => (shift_reg(s, ShiftOp::Rl, Register8::A), 2),
        0x18 => (shift_reg(s, ShiftOp::Rr, Register8::B), 2),
        0x19 => (shift_reg(s, ShiftOp::Rr, Register8::C), 2),
        0x1A => (shift_reg(s, ShiftOp::Rr, Register8::D), 2),
        0x1B => (shift_reg(s, ShiftOp::Rr, Register8::E), 2),
        0x1C => (shift_reg(s, ShiftOp::Rr, Register8::H), 2),
        0x1D => (shift_reg(s, ShiftOp::Rr, Register8::L), 2),
        0x1E => (shift_hl(s, ShiftOp::Rr), 4),
        0x1F => (shift_reg(s, ShiftOp::Rr, Register8::A), 2),
        0x20 => (shift_reg(s, ShiftOp::Sla, Register8::B), 2),
        0x21 => (shift_reg(s, ShiftOp::Sla, Register8::C), 2),
        0x22 => (shift_reg(s, ShiftOp::Sla, Register8::D), 2),
        0x23 => (shift_reg(s, ShiftOp::Sla, Register8::E), 2),
        0x24 => (shift_reg(s, ShiftOp::Sla, Register8::H), 2),
        0x25 => (shift_reg(s, ShiftOp::Sla, Register8::L), 2),
        0x26 => (shift_hl(s, ShiftOp::Sla), 4),
        0x27 => (shift_reg(s, ShiftOp::Sla, Register8::A), 2),
        0x28 => (shift_reg(s, ShiftOp::Sra, Register8::B), 2),
        0x29 => (shift_reg(s, ShiftOp::Sra, Register8::C), 2),
        0x2A => (shift_reg(s, ShiftOp::Sra, Register8::D), 2),
        0x2B => (shift_reg(s, ShiftOp::Sra, Register8::E), 2),
        0x2C => (shift_reg(s, ShiftOp::Sra, Register8::H), 2),
        0x2D => (shift_reg(s, ShiftOp::Sra, Register8::L), 2),
        0x2E => (shift_hl(s, ShiftOp::Sra), 4),
        0x2F => (shift_reg(s, ShiftOp::Sra, Register8::A), 2),
        0x30 => (shift_reg(s, ShiftOp::Swap, Register8::B), 2),
        0x31 => (shift_reg(s, ShiftOp::Swap, Register8::C), 2),
        0x32 => (shift_reg(s, ShiftOp::Swap, Register8::D), 2),
        0x33 => (shift_reg(s, ShiftOp::Swap, Register8::E), 2),
        0x34 => (shift_reg(s, ShiftOp::Swap, Register8::H), 2),
        0x35 => (shift_reg(s, ShiftOp::Swap, Register8::L), 2),
        0x36 => (shift_hl(s, ShiftOp::Swap), 4),
        0x37 => (shift_reg(s, ShiftOp::Swap, Register8::A), 2),
        0x38 => (shift_reg(s, ShiftOp::Srl, Register8::B), 2),
        0x39 => (shift_reg(s, ShiftOp::Srl, Register8::C), 2),
        0x3A => (shift_reg(s, ShiftOp::Srl, Register8::D), 2),
        0x3B => (shift_reg(s, ShiftOp::Srl, Register8::E), 2),
        0x3C => (shift_reg(s, ShiftOp::Srl, Register8::H), 2),
        0x3D => (shift_reg(s, ShiftOp::Srl, Register8::L), 2),
        0x3E => (shift_hl(s, ShiftOp::Srl), 4),
        0x3F => (shift_reg(s, ShiftOp::Srl, Register8::A), 2),
        _ => (s, 0),
    }
}

/// Effect and cycles of a 0xCB BIT 0..=3.
pub open spec fn spec_cb_40_5f(s: CpuState, op: u8) -> (CpuState, u32) {
    match op {
        0x40 => (bit_flags(s, s.reg(Register8::B), 0), 2),
        0x41 => (bit_flags(s, s.reg(Register8::C), 0), 2),
        0x42 => (bit_flags(s, s.reg(Register8::D), 0), 2),
        0x43 => (bit_flags(s, s.reg(Register8::E), 0), 2),
        0x44 => (bit_flags(s, s.reg(Register8::H), 0), 2),
        0x45 => (bit_flags(s, s.reg(Register8::L), 0), 2),
        0x46 => (bit_flags(s, s.read(s.hl()), 0), 3),
        0x47 => (bit_flags(s, s.reg(Register8::A), 0), 2),
        0x48 => (bit_flags(s, s.reg(Register8::B), 1), 2),
        0x49 => (bit_flags(s, s.reg(Register8::C), 1), 2),
        0x4A => (bit_flags(s, s.reg(Register8::D), 1), 2),
        0x4B => (bit_flags(s, s.reg(Register8::E), 1), 2),
        0x4C => (bit_flags(s, s.reg(Register8::H), 1), 2),
        0x4D => (bit_flags(s, s.reg(Register8::L), 1), 2),
        0x4E => (bit_flags(s, s.read(s.hl()), 1), 3),
        0x4F => (bit_flags(s, s.reg(Register8::A), 1), 2),
        0x50 => (bit_flags(s, s.reg(Register8::B), 2), 2),
        0x51 => (bit_flags(s, s.reg(Register8::C), 2), 2),
        0x52 => (bit_flags(s, s.reg(Register8::D), 2), 2),
        0x53 => (bit_flags(s, s.reg(Register8::E), 2), 2),
        0x54 => (bit_flags(s, s.reg(Register8::H), 2), 2),
        0x55 => (bit_flags(s, s.reg(Register8::L), 2), 2),
        0x56 => (bit_flags(s, s.read(s.hl()), 2), 3),
        0x57 => (bit_flags(s, s.reg(Register8::A), 2), 2),
        0x58 => (bit_flags(s, s.reg(Register8::B), 3), 2),
        0x59 => (bit_flags(s, s.reg(Register8::C), 3), 2),
        0x5A => (bit_flags(s, s.reg(Register8::D), 3), 2),
        0x5B => (bit_flags(s, s.reg(Register8::E), 3), 2),
        0x5C => (bit_flags(s, s.reg(Register8::H), 3), 2),
        0x5D => (bit_flags(s, s.reg(Register8::L), 3), 2),
        0x5E => (bit_flags(s, s.read(s.hl()), 3), 3),
        0x5F => (bit_flags(s, s.reg(Register8::A), 3), 2),
        _ => (s, 0),
    }
}

/// Effect and cycles of a 0xCB BIT 4..=7.
pub open spec fn spec_cb_60_7f(s: CpuState, op: u8) -> (CpuState, u32) {
    match op {
        0x60 => (bit_flags(s, s.reg(Register8::B), 4), 2),
        0x61 => (bit_flags(s, s.reg(Register8::C), 4), 2),
        0x62 => (bit_flags(s, s.reg(Register8::D), 4), 2),
        0x63 => (bit_flags(s, s.reg(Register8::E), 4), 2),
        0x64 => (bit_flags(s, s.reg(Register8::H), 4), 2),
        0x65 => (bit_flags(s, s.reg(Register8::L), 4), 2),
        0x66 => (bit_flags(s, s.read(s.hl()), 4), 3),
        0x67 => (bit_flags(s, s.reg(Register8::A), 4), 2),
        0x68 => (bit_flags(s, s.reg(Register8::B), 5), 2),
        0x69 => (bit_flags(s, s.reg(Register8::C), 5), 2),
        0x6A => (bit_flags(s, s.reg(Register8::D), 5), 2),
        0x6B => (bit_flags(s, s.reg(Register8::E), 5), 2),
        0x6C => (bit_flags(s, s.reg(Register8::H), 5), 2),
        0x6D => (bit_flags(s, s.reg(Register8::L), 5), 2),
        0x6E => (bit_flags(s, s.read(s.hl()), 5), 3),
        0x6F => (bit_flags(s, s.reg(Register8::A), 5), 2),
        0x70 => (bit_flags(s, s.reg(Register8::B), 6), 2),
        0x71 => (bit_flags(s, s.reg(Register8::C), 6), 2),
        0x72 => (bit_flags(s, s.reg(Register8::D), 6), 2),
        0x73 => (bit_flags(s, s.reg(Register8::E), 6), 2),
        0x74 => (bit_flags(s, s.reg(Register8::H), 6), 2),
        0x75 => (bit_flags(s, s.reg(Register8::L), 6), 2),
        0x76 => (bit_flags(s, s.read(s.hl()), 6), 3),
        0x77 => (bit_flags(s, s.reg(Register8::A), 6), 2),
        0x78 => (bit_flags(s, s.reg(Register8::B), 7), 2),
        0x79 => (bit_flags(s, s.reg(Register8::C), 7), 2),
        0x7A => (bit_flags(s, s.reg(Register8::D), 7), 2),
        0x7B => (bit_flags(s, s.reg(Register8::E), 7), 2),
        0x7C => (bit_flags(s, s.reg(Register8::H), 7), 2),
        0x7D => (bit_flags(s, s.reg(Register8::L), 7), 2),
        0x7E => (bit_flags(s, s.read(s.hl()), 7), 3),
        0x7F => (bit_flags(s, s.reg(Register8::A), 7), 2),
        _ => (s, 0),
    }
}

/// Effect and cycles of a 0xCB RES.
pub open spec fn spec_cb_80_bf(s: CpuState, op: u8) -> (CpuState, u32) {
    match op {
        0x80 => (s.with_reg(Register8::B, s.reg(Register8::B) & !(1u8 << 0)), 2),
        0x81 => (s.with_reg(Register8::C, s.reg(Register8::C) & !(1u8 << 0)), 2),
        0x82 => (s.with_reg(Register8::D, s.reg(Register8::D) & !(1u8 << 0)), 2),
        0x83 => (s.with_reg(Register8::E, s.reg(Register8::E) & !(1u8 << 0)), 2),
        0x84 => (s.with_reg(Register8::H, s.reg(Register8::H) & !(1u8 << 0)), 2),
        0x85 => (s.with_reg(Register8::L, s.reg(Register8::L) & !(1u8 << 0)), 2),
        0x86 => (s.write(s.hl(), s.read(s.hl()) & !(1u8 << 0)), 4),
        0x87 => (s.with_reg(Register8::A, s.reg(Register8::A) & !(1u8 << 0)), 2),
        0x88 => (s.with_reg(Register8::B, s.reg(Register8::B) & !(1u8 << 1)), 2),
        0x89 => (s.with_reg(Register8::C, s.reg(Register8::C) & !(1u8 << 1)), 2),
        0x8A => (s.with_reg(Register8::D, s.reg(Register8::D) & !(1u8 << 1)), 2),
        0x8B => (s.with_reg(Register8::E, s.reg(Register8::E) & !(1u8 << 1)), 2),
        0x8C => (s.with_reg(Register8::H, s.reg(Register8::H) & !(1u8 << 1)), 2),
        0x8D => (s.with_reg(Register8::L, s.reg(Register8::L) & !(1u8 << 1)), 2),
        0x8E => (s.write(s.hl(), s.read(s.hl()) & !(1u8 << 1)), 4),
        0x8F => (s.with_reg(Register8::A, s.reg(Register8::A) & !(1u8 << 1)), 2),
        0x90 => (s.with_reg(Register8::B, s.reg(Register8::B) & !(1u8 << 2)), 2),
        0x91 => (s.with_reg(Register8::C, s.reg(Register8::C) & !(1u8 << 2)), 2),
        0x92 => (s.with_reg(Register8::D, s.reg(Register8::D) & !(1u8 << 2)), 2),
        0x93 => (s.with_reg(Register8::E, s.reg(Register8::E) & !(1u8 << 2)), 2),
        0x94 => (s.with_reg(Register8::H, s.reg(Register8::H) & !(1u8 << 2)), 2),
        0x95 => (s.with_reg(Register8::L, s.reg(Register8::L) & !(1u8 << 2)), 2),
        0x96 => (s.write(s.hl(), s.read(s.hl()) & !(1u8 << 2)), 4),
        0x97 => (s.with_reg(Register8::A, s.reg(Register8::A) & !(1u8 << 2)), 2),
        0x98 => (s.with_reg(Register8::B, s.reg(Register8::B) & !(1u8 << 3)), 2),
        0x99 => (s.with_reg(Register8::C, s.reg(Register8::C) & !(1u8 << 3)), 2),
        0x9A => (s.with_reg(Register8::D, s.reg(Register8::D) & !(1u8 << 3)), 2),
        0x9B => (s.with_reg(Register8::E, s.reg(Register8::E) & !(1u8 << 3)), 2),
        0x9C => (s.with_reg(Register8::H, s.reg(Register8::H) & !(1u8 << 3)), 2),
        0x9D => (s.with_reg(Register8::L, s.reg(Register8::L) & !(1u8 << 3)), 2),
        0x9E => (s.write(s.hl(), s.read(s.hl()) & !(1u8 << 3)), 4),
        0x9F => (s.with_reg(Register8::A, s.reg(Register8::A) & !(1u8 << 3)), 2),
        0xA0 => (s.with_reg(Register8::B, s.reg(Register8::B) & !(1u8 << 4)), 2),
        0xA1 => (s.with_reg(Register8::C, s.reg(Register8::C) & !(1u8 << 4)), 2),
        0xA2 => (s.with_reg(Register8::D, s.reg(Register8::D) & !(1u8 << 4)), 2),
        0xA3 => (s.with_reg(Register8::E, s.reg(Register8::E) & !(1u8 << 4)), 2),
        0xA4 => (s.with_reg(Register8::H, s.reg(Register8::H) & !(1u8 << 4)), 2),
        0xA5 => (s.with_reg(Register8::L, s.reg(Register8::L) & !(1u8 << 4)), 2),
        0xA6 => (s.write(s.hl(), s.read(s.hl()) & !(1u8 << 4)), 4),
        0xA7 => (s.with_reg(Register8::A, s.reg(Register8::A) & !(1u8 << 4)), 2),
        0xA8 => (s.with_reg(Register8::B, s.reg(Register8::B) & !(1u8 << 5)), 2),
        0xA9 => (s.with_reg(Register8::C, s.reg(Register8::C) & !(1u8 << 5)), 2),
        0xAA => (s.with_reg(Register8::D, s.reg(Register8::D) & !(1u8 << 5)), 2),
        0xAB => (s.with_reg(Register8::E, s.reg(Register8::E) & !(1u8 << 5)), 2),
        0xAC => (s.with_reg(Register8::H, s.reg(Register8::H) & !(1u8 << 5)), 2),
        0xAD => (s.with_reg(Register8::L, s.reg(Register8::L) & !(1u8 << 5)), 2),
        0xAE => (s.write(s.hl(), s.read(s.hl()) & !(1u8 << 5)), 4),
        0xAF => (s.with_reg(Register8::A, s.reg(Register8::A) & !(1u8 << 5)), 2),
        0xB0 => (s.with_reg(Register8::B, s.reg(Register8::B) & !(1u8 << 6)), 2),
        0xB1 => (s.with_reg(Register8::C, s.reg(Register8::C) & !(1u8 << 6)), 2),
        0xB2 => (s.with_reg(Register8::D, s.reg(Register8::D) & !(1u8 << 6)), 2),
        0xB3 => (s.with_reg(Register8::E, s.reg(Register8::E) & !(1u8 << 6)), 2),
        0xB4 => (s.with_reg(Register8::H, s.reg(Register8::H) & !(1u8 << 6)), 2),
        0xB5 => (s.with_reg(Register8::L, s.reg(Register8::L) & !(1u8 << 6)), 2),
        0xB6 => (s.write(s.hl(), s.read(s.hl()) & !(1u8 << 6)), 4),
        0xB7 => (s.with_reg(Register8::A, s.reg(Register8::A) & !(1u8 << 6)), 2),
        0xB8 => (s.with_reg(Register8::B, s.reg(Register8::B) & !(1u8 << 7)), 2),
        0xB9 => (s.with_reg(Register8::C, s.reg(Register8::C) & !(1u8 << 7)), 2),
        0xBA => (s.with_reg(Register8::D, s.reg(Register8::D) & !(1u8 << 7)), 2),
        0xBB => (s.with_reg(Register8::E, s.reg(Register8::E) & !(1u8 << 7)), 2),
        0xBC => (s.with_reg(Register8::H, s.reg(Register8::H) & !(1u8 << 7)), 2),
        0xBD => (s.with_reg(Register8::L, s.reg(Register8::L) & !(1u8 << 7)), 2),
        0xBE => (s.write(s.hl(), s.read(s.hl()) & !(1u8 << 7)), 4),
        0xBF => (s.with_reg(Register8::A, s.reg(Register8::A) & !(1u8 << 7)), 2),
        _ => (s, 0),
    }
}

/// Effect and cycles of a 0xCB SET.
pub open spec fn spec_cb_c0_ff(s: CpuState, op: u8) -> (CpuState, u32) {
    match op {
        0xC0 => (s.with_reg(Register8::B, s.reg(Register8::B) | (1u8 << 0)), 2),
        0xC1 => (s.with_reg(Register8::C, s.reg(Register8::C) | (1u8 << 0)), 2),
        0xC2 => (s.with_reg(Register8::D, s.reg(Register8::D) | (1u8 << 0)), 2),
        0xC3 => (s.with_reg(Register8::E, s.reg(Register8::E) | (1u8 << 0)), 2),
        0xC4 => (s.with_reg(Register8::H, s.reg(Register8::H) | (1u8 << 0)), 2),
        0xC5 => (s.with_reg(Register8::L, s.reg(Register8::L) | (1u8 << 0)), 2),
        0xC6 => (s.write(s.hl(), s.read(s.hl()) | (1u8 << 0)), 4),
        0xC7 => (s.with_reg(Register8::A, s.reg(Register8::A) | (1u8 << 0)), 2),
        0xC8 => (s.with_reg(Register8::B, s.reg(Register8::B) | (1u8 << 1)), 2),
        0xC9 => (s.with_reg(Register8::C, s.reg(Register8::C) | (1u8 << 1)), 2),
        0xCA => (s.with_reg(Register8::D, s.reg(Register8::D) | (1u8 << 1)), 2),
        0xCB => (s.with_reg(Register8::E, s.reg(Register8::E) | (1u8 << 1)), 2),
        0xCC => (s.with_reg(Register8::H, s.reg(Register8::H) | (1u8 << 1)), 2),
        0xCD => (s.with_reg(Register8::L, s.reg(Register8::L) | (1u8 << 1)), 2),
        0xCE => (s.write(s.hl(), s.read(s.hl()) | (1u8 << 1)), 4),
        0xCF => (s.with_reg(Register8::A, s.reg(Register8::A) | (1u8 << 1)), 2),
        0xD0 => (s.with_reg(Register8::B, s.reg(Register8::B) | (1u8 << 2)), 2),
        0xD1 => (s.with_reg(Register8::C, s.reg(Register8::C) | (1u8 << 2)), 2),
        0xD2 => (s.with_reg(Register8::D, s.reg(Register8::D) | (1u8 << 2)), 2),
        0xD3 => (s.with_reg(Register8::E, s.reg(Register8::E) | (1u8 << 2)), 2),
        0xD4 => (s.with_reg(Register8::H, s.reg(Register8::H) | (1u8 << 2)), 2),
        0xD5 => (s.with_reg(Register8::L, s.reg(Register8::L) | (1u8 << 2)), 2),
        0xD6 => (s.write(s.hl(), s.read(s.hl()) | (1u8 << 2)), 4),
        0xD7 => (s.with_reg(Register8::A, s.reg(Register8::A) | (1u8 << 2)), 2),
        0xD8 => (s.with_reg(Register8::B, s.reg(Register8::B) | (1u8 << 3)), 2),
        0xD9 => (s.with_reg(Register8::C, s.reg(Register8::C) | (1u8 << 3)), 2),
        0xDA => (s.with_reg(Register8::D, s.reg(Register8::D) | (1u8 << 3)), 2),
        0xDB => (s.with_reg(Register8::E, s.reg(Register8::E) | (1u8 << 3)), 2),
        0xDC => (s.with_reg(Register8::H, s.reg(Register8::H) | (1u8 << 3)), 2),
        0xDD => (s.with_reg(Register8::L, s.reg(Register8::L) | (1u8 << 3)), 2),
        0xDE => (s.write(s.hl(), s.read(s.hl()) | (1u8 << 3)), 4),
        0xDF => (s.with_reg(Register8::A, s.reg(Register8::A) | (1u8 << 3)), 2),
        0xE0 => (s.with_reg(Register8::B, s.reg(Register8::B) | (1u8 << 4)), 2),
        0xE1 => (s.with_reg(Register8::C, s.reg(Register8::C) | (1u8 << 4)), 2),
        0xE2 => (s.with_reg(Register8::D, s.reg(Register8::D) | (1u8 << 4)), 2),
        0xE3 => (s.with_reg(Register8::E, s.reg(Register8::E) | (1u8 << 4)), 2),
        0xE4 => (s.with_reg(Register8::H, s.reg(Register8::H) | (1u8 << 4)), 2),
        0xE5 => (s.with_reg(Register8::L, s.reg(Register8::L) | (1u8 << 4)), 2),
        0xE6 => (s.write(s.hl(), s.read(s.hl()) | (1u8 << 4)), 4),
        0xE7 => (s.with_reg(Register8::A, s.reg(Register8::A) | (1u8 << 4)), 2),
        0xE8 => (s.with_reg(Register8::B, s.reg(Register8::B) | (1u8 << 5)), 2),
        0xE9 => (s.with_reg(Register8::C, s.reg(Register8::C) | (1u8 << 5)), 2),
        0xEA => (s.with_reg(Register8::D, s.reg(Register8::D) | (1u8 << 5)), 2),
        0xEB => (s.with_reg(Register8::E, s.reg(Register8::E) | (1u8 << 5)), 2),
        0xEC => (s.with_reg(Register8::H, s.reg(Register8::H) | (1u8 << 5)), 2),
        0xED => (s.with_reg(Register8::L, s.reg(Register8::L) | (1u8 << 5)), 2),
        0xEE => (s.write(s.hl(), s.read(s.hl()) | (1u8 << 5)), 4),
        0xEF => (s.with_reg(Register8::A, s.reg(Register8::A) | (1u8 << 5)), 2),
        0xF0 => (s.with_reg(Register8::B, s.reg(Register8::B) | (1u8 << 6)), 2),
        0xF1 => (s.with_reg(Register8::C, s.reg(Register8::C) | (1u8 << 6)), 2),
        0xF2 => (s.with_reg(Register8::D, s.reg(Register8::D) | (1u8 << 6)), 2),
        0xF3 => (s.with_reg(Register8::E, s.reg(Register8::E) | (1u8 << 6)), 2),
        0xF4 => (s.with_reg(Register8::H, s.reg(Register8::H) | (1u8 << 6)), 2),
        0xF5 => (s.with_reg(Register8::L, s.reg(Register8::L) | (1u8 << 6)), 2),
        0xF6 => (s.write(s.hl(), s.read(s.hl()) | (1u8 << 6)), 4),
        0xF7 => (s.with_reg(Register8::A, s.reg(Register8::A) | (1u8 << 6)), 2),
        0xF8 => (s.with_reg(Register8::B, s.reg(Register8::B) | (1u8 << 7)), 2),
        0xF9 => (s.with_reg(Register8::C, s.reg(Register8::C) | (1u8 << 7)), 2),
        0xFA => (s.with_reg(Register8::D, s.reg(Register8::D) | (1u8 << 7)), 2),
        0xFB => (s.with_reg(Register8::E, s.reg(Register8::E) | (1u8 << 7)), 2),
        0xFC => (s.with_reg(Register8::H, s.reg(Register8::H) | (1u8 << 7)), 2),
        0xFD => (s.with_reg(Register8::L, s.reg(Register8::L) | (1u8 << 7)), 2),
        0xFE => (s.write(s.hl(), s.read(s.hl()) | (1u8 << 7)), 4),
        0xFF => (s.with_reg(Register8::A, s.reg(Register8::A) | (1u8 << 7)), 2),
        _ => (s, 0),
    }
}


impl Cpu {
    /// Fetch one opcode at PC and execute it; returns the machine cycles it took.
    /// Halted: wakes (without executing) once an enabled interrupt is requested.
    /// Stopped: stays stopped. EI takes effect after the instruction that follows it.
    pub fn tick(&mut self) -> (r: Result<u32, CpuError>)
        requires
            old(self).wf(),
        ensures
            final(self).wf(),
            video_kept(old(self)@.mem, final(self)@.mem),
            r matches Ok(c) ==> 1 <= c <= 6,
            match tick_outcome(old(self)@) {
                Ok((s2, c)) => r == Ok::<u32, CpuError>(c) && final(self)@ == s2,
                Err(e) => r == Err::<u32, CpuError>(e) && final(self)@ == tick_error_state(old(self)@),
            },
            fetching(old(self)@) && old(self)@.ime_pending && r is Ok
                && old(self)@.read(old(self)@.pc) != 0xF3 ==> final(self)@.ime,
            fetching(old(self)@) && !old(self)@.ime_pending && old(self)@.read(old(self)@.pc)
                != 0xD9 ==> (final(self)@.ime ==> old(self)@.ime),
    {
        if self.stopped {
            return Ok(1);
        }
        if self.halted {
            if self.any_interrupt_requested() {
                self.halted = false;
            }
            return Ok(1);
        }
        let enable_after = self.ime_pending;
        self.ime_pending = false;
        let instruction = self.read_u8();
        let r = self.execute(instruction);
        if enable_after && instruction != 0xF3 {
            if let Ok(_) = r {
                self.interrupts_enabled = true;
            }
        }
        r
    }

    /// Execute an opcode whose byte has already been fetched.
    pub fn execute(&mut self, instruction: u8) -> (r: Result<u32, CpuError>)
        requires
            old(self).wf(),
        ensures
            final(self).wf(),
            video_kept(old(self)@.mem, final(self)@.mem),
            r matches Ok(c) ==> 1 <= c <= 6,
            r is Err <==> execute_error(old(self)@, instruction) is Some,
            r matches Err(e) ==> execute_error(old(self)@, instruction) == Some(e) && final(self)@
                == old(self)@,
            instruction != 0xD9 && instruction != 0xF3 ==> final(self)@.ime == old(self)@.ime,
            instruction == 0xD9 && r is Ok ==> final(self)@.ime,
            instruction == 0xF3 ==> !final(self)@.ime,
            r matches Ok(c) ==> final(self)@ == execute_spec(old(self)@, instruction).0 && c == execute_spec(
                old(self)@,
                instruction,
            ).1,
    {
        if instruction < 0x40 {
            self.execute_00_3f(instruction)
        } else if instruction < 0x80 {
            self.execute_40_7f(instruction)
        } else if instruction < 0xC0 {
            self.execute_80_bf(instruction)
        } else if instruction < 0xD0 {
            self.execute_c0_cf(instruction)
        } else if instruction < 0xE0 {
            self.execute_d0_df(instruction)
        } else {
            self.execute_e0_ff(instruction)
        }
    }

    /// Fetch the second byte of a 0xCB-prefixed instruction and execute it.
    pub fn execute_cb(&mut self) -> (r: u32)
        requires
            old(self).wf(),
        ensures
            final(self).wf(),
            video_kept(old(self)@.mem, final(self)@.mem),
            2 <= r <= 4,
            final(self)@.ime == old(self)@.ime,
            final(self)@ == cb_spec(old(self)@.with_pc(wrap16(old(self)@.pc + 1)), old(self)@.read(old(self)@.pc)).0,
            r == cb_spec(old(self)@.with_pc(wrap16(old(self)@.pc + 1)), old(self)@.read(old(self)@.pc)).1,
    {
        let instruction: u8 = self.read_u8();
        if instruction < 0x40 {
            self.execute_cb_00_3f(instruction)
        } else if instruction < 0x60 {
            self.execute_cb_40_5f(instruction)
        } else if instruction < 0x80 {
            self.execute_cb_60_7f(instruction)
        } else if instruction < 0xC0 {
            self.execute_cb_80_bf(instruction)
        } else {
            self.execute_cb_c0_ff(instruction)
        }
    }

    /// Execute an opcode of 0x00..=0x3F (operands are fetched here).
    fn execute_00_3f(&mut self, instruction: u8) -> (r: Result<u32, CpuError>)
        requires
            old(self).wf(),
            0x00 <= instruction <= 0x3F,
        ensures
            final(self).wf(),
            video_kept(old(self)@.mem, final(self)@.mem),
            r matches Ok(c) ==> 1 <= c <= 6,
            r is Err <==> execute_error(old(self)@, instruction) is Some,
            r matches Err(e) ==> execute_error(old(self)@, instruction) == Some(e) && final(self)@
                == old(self)@,
            instruction != 0xD9 && instruction != 0xF3 ==> final(self)@.ime == old(self)@.ime,
            instruction == 0xD9 && r is Ok ==> final(self)@.ime,
            instruction == 0xF3 ==> !final(self)@.ime,
            r matches Ok(c) ==> final(self)@ == spec_00_3f(old(self)@, instruction).0 && c == spec_00_3f(
                old(self)@,
                instruction,
            ).1,
    {
        match instruction {
            0x00 => Ok(self.nop()),
            0x01 => match self.read_u16() {
                Ok(p) => Ok(self.ld_const16_to_r16(Register16::BC, p)),
                Err(e) => Err(e),
            },
            0x02 => Ok(self.ld_a_to_r16addr(Register16::BC)),
            0x03 => Ok(self.inc_r16(Register16::BC)),
            0x04 => Ok(self.inc_r8(Register8::B)),
            0x05 => Ok(self.dec_r8(Register8::B)),
            0x06 => {
                let p = self.read_u8();
                Ok(self.ld_const8_to_r8(Register8::B, p))
            },
            0x07 => Ok(self.rlca()),
            0x08 => match self.read_u16() {
                Ok(p) => Ok(self.ld_sp_to_const16addr(p)),
                Err(e) => Err(e),
            },
            0x09 => Ok(self.add_r16_to_hl(Register16::BC)),
            0x0A => Ok(self.ld_r16addr_to_a(Register16::BC)),
            0x0B => Ok(self.dec_r16(Register16::BC)),
            0x0C => Ok(self.inc_r8(Register8::C)),
            0x0D => Ok(self.dec_r8(Register8::C)),
            0x0E => {
                let p = self.read_u8();
                Ok(self.ld_const8_to_r8(Register8::C, p))
            },
            0x0F => Ok(self.rrca()),
            0x10 => {
                let _ = self.read_u8();
                Ok(self.stop())
            },
            0x11 => match self.read_u16() {
                Ok(p) => Ok(self.ld_const16_to_r16(Register16::DE, p)),
                Err(e) => Err(e),
            },
            0x12 => Ok(self.ld_a_to_r16addr(Register16::DE)),
            0x13 => Ok(self.inc_r16(Register16::DE)),
            0x14 => Ok(self.inc_r8(Register8::D)),
            0x15 => Ok(self.dec_r8(Register8::D)),
            0x16 => {
                let p = self.read_u8();
                Ok(self.ld_const8_to_r8(Register8::D, p))
            },
            0x17 => Ok(self.rla()),
            0x18 => {
                let p = self.read_i8();
                Ok(self.jr(p))
            },
            0x19 => Ok(self.add_r16_to_hl(Register16::DE)),
            0x1A => Ok(self.ld_r16addr_to_a(Register16::DE)),
            0x1B => Ok(self.dec_r16(Register16::DE)),
            0x1C => Ok(self.inc_r8(Register8::E)),
            0x1D => Ok(self.dec_r8(Register8::E)),
            0x1E => {
                let p = self.read_u8();
                Ok(self.ld_const8_to_r8(Register8::E, p))
            },
            0x1F => Ok(self.rra()),
            0x20 => {
                let p = self.read_i8();
                Ok(self.jr_cc(Condition::ZNotSet, p))
            },
            0x21 => match self.read_u16() {
                Ok(p) => Ok(self.ld_const16_to_r16(Register16::HL, p)),
                Err(e) => Err(e),
            },
            0x22 => Ok(self.ld_a_to_hl_and_inc()),
            0x23 => Ok(self.inc_r16(Register16::HL)),
            0x24 => Ok(self.inc_r8(Register8::H)),
            0x25 => Ok(self.dec_r8(Register8::H)),
            0x26 => {
                let p = self.read_u8();
                Ok(self.ld_const8_to_r8(Register8::H, p))
            },
            0x27 => Ok(self.daa()),
            0x28 => {
                let p = self.read_i8();
                Ok(self.jr_cc(Condition::ZSet, p))
            },
            0x29 => Ok(self.add_r16_to_hl(Register16::HL)),
            0x2A => Ok(self.ld_hl_to_a_and_inc()),
            0x2B => Ok(self.dec_r16(Register16::HL)),
            0x2C => Ok(self.inc_r8(Register8::L)),
            0x2D => Ok(self.dec_r8(Register8::L)),
            0x2E => {
                let p = self.read_u8();
                Ok(self.ld_const8_to_r8(Register8::L, p))
            },
            0x2F => Ok(self.cpl()),
            0x30 => {
                let p = self.read_i8();
                Ok(self.jr_cc(Condition::CNotSet, p))
            },
            0x31 => match self.read_u16() {
                Ok(p) => Ok(self.ld_const16_to_sp(p)),
                Err(e) => Err(e),
            },
            0x32 => Ok(self.ld_a_to_hl_and_dec()),
            0x33 => Ok(self.inc_sp()),
            0x34 => Ok(self.inc_hl()),
            0x35 => Ok(self.dec_hl()),
            0x36 => {
                let p = self.read_u8();
                Ok(self.ld_const8_to_hl(p))
            },
            0x37 => Ok(self.scf()),
            0x38 => {
                let p = self.read_i8();
                Ok(self.jr_cc(Condition::CSet, p))
            },
            0x39 => Ok(self.add_sp_to_hl()),
            0x3A => Ok(self.ld_hl_to_a_and_dec()),
            0x3B => Ok(self.dec_sp()),
            0x3C => Ok(self.inc_r8(Register8::A)),
            0x3D => Ok(self.dec_r8(Register8::A)),
            0x3E => {
                let p = self.read_u8();
                Ok(self.ld_const8_to_r8(Register8::A, p))
            },
            0x3F => Ok(self.ccf()),
            _ => Err(CpuError::UnknownOpcode(instruction)),
        }
    }

    /// Execute an opcode of 0x40..=0x7F: register loads and HALT.
    fn execute_40_7f(&mut self, instruction: u8) -> (r: Result<u32, CpuError>)
        requires
            old(self).wf(),
            0x40 <= instruction <= 0x7F,
        ensures
            final(self).wf(),
            video_kept(old(self)@.mem, final(self)@.mem),
            r matches Ok(c) ==> 1 <= c <= 6,
            r is Err <==> execute_error(old(self)@, instruction) is Some,
            r matches Err(e) ==> execute_error(old(self)@, instruction) == Some(e) && final(self)@
                == old(self)@,
            instruction != 0xD9 && instruction != 0xF3 ==> final(self)@.ime == old(self)@.ime,
            instruction == 0xD9 && r is Ok ==> final(self)@.ime,
            instruction == 0xF3 ==> !final(self)@.ime,
            r matches Ok(c) ==> final(self)@ == spec_40_7f(old(self)@, instruction).0 && c == spec_40_7f(
                old(self)@,
                instruction,
            ).1,
    {
        match instruction {
            0x40 => Ok(self.ld_r8_to_r8(Register8::B, Register8::B)),
            0x41 => Ok(self.ld_r8_to_r8(Register8::B, Register8::C)),
            0x42 => Ok(self.ld_r8_to_r8(Register8::B, Register8::D)),
            0x43 => Ok(self.ld_r8_to_r8(Register8::B, Register8::E)),
            0x44 => Ok(self.ld_r8_to_r8(Register8::B, Register8::H)),
            0x45 => Ok(self.ld_r8_to_r8(Register8::B, Register8::L)),
            0x46 => Ok(self.ld_hl_to_r8(Register8::B)),
            0x47 => Ok(self.ld_r8_to_r8(Register8::B, Register8::A)),
            0x48 => Ok(self.ld_r8_to_r8(Register8::C, Register8::B)),
            0x49 => Ok(self.ld_r8_to_r8(Register8::C, Register8::C)),
            0x4A => Ok(self.ld_r8_to_r8(Register8::C, Register8::D)),
            0x4B => Ok(self.ld_r8_to_r8(Register8::C, Register8::E)),
            0x4C => Ok(self.ld_r8_to_r8(Register8::C, Register8::H)),
            0x4D => Ok(self.ld_r8_to_r8(Register8::C, Register8::L)),
            0x4E => Ok(self.ld_hl_to_r8(Register8::C)),
            0x4F => Ok(self.ld_r8_to_r8(Register8::C, Register8::A)),
            0x50 => Ok(self.ld_r8_to_r8(Register8::D, Register8::B)),
            0x51 => Ok(self.ld_r8_to_r8(Register8::D, Register8::C)),
            0x52 => Ok(self.ld_r8_to_r8(Register8::D, Register8::D)),
            0x53 => Ok(self.ld_r8_to_r8(Register8::D, Register8::E)),
            0x54 => Ok(self.ld_r8_to_r8(Register8::D, Register8::H)),
            0x55 => Ok(self.ld_r8_to_r8(Register8::D, Register8::L)),
            0x56 => Ok(self.ld_hl_to_r8(Register8::D)),
            0x57 => Ok(self.ld_r8_to_r8(Register8::D, Register8::A)),
            0x58 => Ok(self.ld_r8_to_r8(Register8::E, Register8::B)),
            0x59 => Ok(self.ld_r8_to_r8(Register8::E, Register8::C)),
            0x5A => Ok(self.ld_r8_to_r8(Register8::E, Register8::D)),
            0x5B => Ok(self.ld_r8_to_r8(Register8::E, Register8::E)),
            0x5C => Ok(self.ld_r8_to_r8(Register8::E, Register8::H)),
            0x5D => Ok(self.ld_r8_to_r8(Register8::E, Register8::L)),
            0x5E => Ok(self.ld_hl_to_r8(Register8::E)),
            0x5F => Ok(self.ld_r8_to_r8(Register8::E, Register8::A)),
            0x60 => Ok(self.ld_r8_to_r8(Register8::H, Register8::B)),
            0x61 => Ok(self.ld_r8_to_r8(Register8::H, Register8::C)),
            0x62 => Ok(self.ld_r8_to_r8(Register8::H, Register8::D)),
            0x63 => Ok(self.ld_r8_to_r8(Register8::H, Register8::E)),
            0x64 => Ok(self.ld_r8_to_r8(Register8::H, Register8::H)),
            0x65 => Ok(self.ld_r8_to_r8(Register8::H, Register8::L)),
            0x66 => Ok(self.ld_hl_to_r8(Register8::H)),
            0x67 => Ok(self.ld_r8_to_r8(Register8::H, Register8::A)),
            0x68 => Ok(self.ld_r8_to_r8(Register8::L, Register8::B)),
            0x69 => Ok(self.ld_r8_to_r8(Register8::L, Register8::C)),
            0x6A => Ok(self.ld_r8_to_r8(Register8::L, Register8::D)),
            0x6B => Ok(self.ld_r8_to_r8(Register8::L, Register8::E)),
            0x6C => Ok(self.ld_r8_to_r8(Register8::L, Register8::H)),
            0x6D => Ok(self.ld_r8_to_r8(Register8::L, Register8::L)),
            0x6E => Ok(self.ld_hl_to_r8(Register8::L)),
            0x6F => Ok(self.ld_r8_to_r8(Register8::L, Register8::A)),
            0x70 => Ok(self.ld_r8_to_hl(Register8::B)),
            0x71 => Ok(self.ld_r8_to_hl(Register8::C)),
            0x72 => Ok(self.ld_r8_to_hl(Register8::D)),
            0x73 => Ok(self.ld_r8_to_hl(Register8::E)),
            0x74 => Ok(self.ld_r8_to_hl(Register8::H)),
            0x75 => Ok(self.ld_r8_to_hl(Register8::L)),
            0x76 => Ok(self.halt()),
            0x77 => Ok(self.ld_r8_to_hl(Register8::A)),
            0x78 => Ok(self.ld_r8_to_r8(Register8::A, Register8::B)),
            0x79 => Ok(self.ld_r8_to_r8(Register8::A, Register8::C)),
            0x7A => Ok(self.ld_r8_to_r8(Register8::A, Register8::D)),
            0x7B => Ok(self.ld_r8_to_r8(Register8::A, Register8::E)),
            0x7C => Ok(self.ld_r8_to_r8(Register8::A, Register8::H)),
            0x7D => Ok(self.ld_r8_to_r8(Register8::A, Register8::L)),
            0x7E => Ok(self.ld_hl_to_r8(Register8::A)),
            0x7F => Ok(self.ld_r8_to_r8(Register8::A, Register8::A)),
            _ => Err(CpuError::UnknownOpcode(instruction)),
        }
    }

    /// Execute an opcode of 0x80..=0xBF: the ALU block.
    fn execute_80_bf(&mut self, instruction: u8) -> (r: Result<u32, CpuError>)
        requires
            old(self).wf(),
            0x80 <= instruction <= 0xBF,
        ensures
            final(self).wf(),
            video_kept(old(self)@.mem, final(self)@.mem),
            r matches Ok(c) ==> 1 <= c <= 6,
            r is Err <==> execute_error(old(self)@, instruction) is Some,
            r matches Err(e) ==> execute_error(old(self)@, instruction) == Some(e) && final(self)@
                == old(self)@,
            instruction != 0xD9 && instruction != 0xF3 ==> final(self)@.ime == old(self)@.ime,
            instruction == 0xD9 && r is Ok ==> final(self)@.ime,
            instruction == 0xF3 ==> !final(self)@.ime,
            r matches Ok(c) ==> final(self)@ == spec_80_bf(old(self)@, instruction).0 && c == spec_80_bf(
                old(self)@,
                instruction,
            ).1,
    {
        match instruction {
            0x80 => Ok(self.add_r8(Register8::B)),
            0x81 => Ok(self.add_r8(Register8::C)),
            0x82 => Ok(self.add_r8(Register8::D)),
            0x83 => Ok(self.add_r8(Register8::E)),
            0x84 => Ok(self.add_r8(Register8::H)),
            0x85 => Ok(self.add_r8(Register8::L)),
            0x86 => Ok(self.add_hl()),
            0x87 => Ok(self.add_r8(Register8::A)),
            0x88 => Ok(self.adc_r8(Register8::B)),
            0x89 => Ok(self.adc_r8(Register8::C)),
            0x8A => Ok(self.adc_r8(Register8::D)),
            0x8B => Ok(self.adc_r8(Register8::E)),
            0x8C => Ok(self.adc_r8(Register8::H)),
            0x8D => Ok(self.adc_r8(Register8::L)),
            0x8E => Ok(self.adc_hl()),
            0x8F => Ok(self.adc_r8(Register8::A)),
            0x90 => Ok(self.sub_r8(Register8::B)),
            0x91 => Ok(self.sub_r8(Register8::C)),
            0x92 => Ok(self.sub_r8(Register8::D)),
            0x93 => Ok(self.sub_r8(Register8::E)),
            0x94 => Ok(self.sub_r8(Register8::H)),
            0x95 => Ok(self.sub_r8(Register8::L)),
            0x96 => Ok(self.sub_hl()),
            0x97 => Ok(self.sub_r8(Register8::A)),
            0x98 => Ok(self.sbc_r8(Register8::B)),
            0x99 => Ok(self.sbc_r8(Register8::C)),
            0x9A => Ok(self.sbc_r8(Register8::D)),
            0x9B => Ok(self.sbc_r8(Register8::E)),
            0x9C => Ok(self.sbc_r8(Register8::H)),
            0x9D => Ok(self.sbc_r8(Register8::L)),
            0x9E => Ok(self.sbc_hl()),
            0x9F => Ok(self.sbc_r8(Register8::A)),
            0xA0 => Ok(self.and_r8(Register8::B)),
            0xA1 => Ok(self.and_r8(Register8::C)),
            0xA2 => Ok(self.and_r8(Register8::D)),
            0xA3 => Ok(self.and_r8(Register8::E)),
            0xA4 => Ok(self.and_r8(Register8::H)),
            0xA5 => Ok(self.and_r8(Register8::L)),
            0xA6 => Ok(self.and_hl()),
            0xA7 => Ok(self.and_r8(Register8::A)),
            0xA8 => Ok(self.xor_r8(Register8::B)),
            0xA9 => Ok(self.xor_r8(Register8::C)),
            0xAA => Ok(self.xor_r8(Register8::D)),
            0xAB => Ok(self.xor_r8(Register8::E)),
            0xAC => Ok(self.xor_r8(Register8::H)),
            0xAD => Ok(self.xor_r8(Register8::L)),
            0xAE => Ok(self.xor_hl()),
            0xAF => Ok(self.xor_r8(Register8::A)),
            0xB0 => Ok(self.or_r8(Register8::B)),
            0xB1 => Ok(self.or_r8(Register8::C)),
            0xB2 => Ok(self.or_r8(Register8::D)),
            0xB3 => Ok(self.or_r8(Register8::E)),
            0xB4 => Ok(self.or_r8(Register8::H)),
            0xB5 => Ok(self.or_r8(Register8::L)),
            0xB6 => Ok(self.or_hl()),
            0xB7 => Ok(self.or_r8(Register8::A)),
            0xB8 => Ok(self.cp_r8(Register8::B)),
            0xB9 => Ok(self.cp_r8(Register8::C)),
            0xBA => Ok(self.cp_r8(Register8::D)),
            0xBB => Ok(self.cp_r8(Register8::E)),
            0xBC => Ok(self.cp_r8(Register8::H)),
            0xBD => Ok(self.cp_r8(Register8::L)),
            0xBE => Ok(self.cp_hl()),
            0xBF => Ok(self.cp_r8(Register8::A)),
            _ => Err(CpuError::UnknownOpcode(instruction)),
        }
    }

    /// Execute an opcode of 0xC0..=0xCF (operands are fetched here).
    fn execute_c0_cf(&mut self, instruction: u8) -> (r: Result<u32, CpuError>)
        requires
            old(self).wf(),
            0xC0 <= instruction <= 0xCF,
        ensures
            final(self).wf(),
            video_kept(old(self)@.mem, final(self)@.mem),
            r matches Ok(c) ==> 1 <= c <= 6,
            r is Err <==> execute_error(old(self)@, instruction) is Some,
            r matches Err(e) ==> execute_error(old(self)@, instruction) == Some(e) && final(self)@
                == old(self)@,
            instruction != 0xD9 && instruction != 0xF3 ==> final(self)@.ime == old(self)@.ime,
            instruction == 0xD9 && r is Ok ==> final(self)@.ime,
            instruction == 0xF3 ==> !final(self)@.ime,
            r matches Ok(c) ==> final(self)@ == spec_c0_cf(old(self)@, instruction).0 && c == spec_c0_cf(
                old(self)@,
                instruction,
            ).1,
    {
        match instruction {
            0xC0 => Ok(self.ret_cc(Condition::ZNotSet)),
            0xC1 => Ok(self.pop_r16(Register16::BC)),
            0xC2 => match self.read_u16() {
                Ok(p) => Ok(self.jp_cc(Condition::ZNotSet, p)),
                Err(e) => Err(e),
            },
            0xC3 => match self.read_u16() {
                Ok(p) => Ok(self.jp(p)),
                Err(e) => Err(e),
            },
            0xC4 => match self.read_u16() {
                Ok(p) => Ok(self.call_cc(Condition::ZNotSet, p)),
                Err(e) => Err(e),
            },
            0xC5 => Ok(self.push_r16(Register16::BC)),
            0xC6 => {
                let p = self.read_u8();
                Ok(self.add(p))
            },
            0xC7 => Ok(self.rst(ResetVec::Vec1)),
            0xC8 => Ok(self.ret_cc(Condition::ZSet)),
            0xC9 => Ok(self.ret()),
            0xCA => match self.read_u16() {
                Ok(p) => Ok(self.jp_cc(Condition::ZSet, p)),
                Err(e) => Err(e),
            },
            0xCB => Ok(self.execute_cb()),
            0xCC => match self.read_u16() {
                Ok(p) => Ok(self.call_cc(Condition::ZSet, p)),
                Err(e) => Err(e),
            },
            0xCD => match self.read_u16() {
                Ok(p) => Ok(self.call(p)),
                Err(e) => Err(e),
            },
            0xCE => {
                let p = self.read_u8();
                Ok(self.adc(p))
            },
            0xCF => Ok(self.rst(ResetVec::Vec2)),
            _ => Err(CpuError::UnknownOpcode(instruction)),
        }
    }



    /// Execute an opcode of 0xD0..=0xDF (operands are fetched here).
    fn execute_d0_df(&mut self, instruction: u8) -> (r: Result<u32, CpuError>)
        requires
            old(self).wf(),
            0xD0 <= instruction <= 0xDF,
        ensures
            final(self).wf(),
            video_kept(old(self)@.mem, final(self)@.mem),
            r matches Ok(c) ==> 1 <= c <= 6,
            r is Err <==> execute_error(old(self)@, instruction) is Some,
            r matches Err(e) ==> execute_error(old(self)@, instruction) == Some(e) && final(self)@
                == old(self)@,
            instruction != 0xD9 && instruction != 0xF3 ==> final(self)@.ime == old(self)@.ime,
            instruction == 0xD9 && r is Ok ==> final(self)@.ime,
            instruction == 0xF3 ==> !final(self)@.ime,
            r matches Ok(c) ==> final(self)@ == spec_d0_df(old(self)@, instruction).0 && c == spec_d0_df(
                old(self)@,
                instruction,
            ).1,
    {
        match instruction {
            0xD0 => Ok(self.ret_cc(Condition::CNotSet)),
            0xD1 => Ok(self.pop_r16(Register16::DE)),
            0xD2 => match self.read_u16() {
                Ok(p) => Ok(self.jp_cc(Condition::CNotSet, p)),
                Err(e) => Err(e),
            },
            0xD3 => Err(CpuError::UnknownOpcode(instruction)),
            0xD4 => match self.read_u16() {
                Ok(p) => Ok(self.call_cc(Condition::CNotSet, p)),
                Err(e) => Err(e),
            },
            0xD5 => Ok(self.push_r16(Register16::DE)),
            0xD6 => {
                let p = self.read_u8();
                Ok(self.sub(p))
            },
            0xD7 => Ok(self.rst(ResetVec::Vec3)),
            0xD8 => Ok(self.ret_cc(Condition::CSet)),
            0xD9 => Ok(self.reti()),
            0xDA => match self.read_u16() {
                Ok(p) => Ok(self.jp_cc(Condition::CSet, p)),
                Err(e) => Err(e),
            },
            0xDB => Err(CpuError::UnknownOpcode(instruction)),
            0xDC => match self.read_u16() {
                Ok(p) => Ok(self.call_cc(Condition::CSet, p)),
                Err(e) => Err(e),
            },
            0xDD => Err(CpuError::UnknownOpcode(instruction)),
            0xDE => {
                let p = self.read_u8();
                Ok(self.sbc(p))
            },
            0xDF => Ok(self.rst(ResetVec::Vec4)),
            _ => Err(CpuError::UnknownOpcode(instruction)),
        }
    }



    /// Execute an opcode of 0xE0..=0xFF (operands are fetched here).
    fn execute_e0_ff(&mut self, instruction: u8) -> (r: Result<u32, CpuError>)
        requires
            old(self).wf(),
            0xE0 <= instruction <= 0xFF,
        ensures
            final(self).wf(),
            video_kept(old(self)@.mem, final(self)@.mem),
            r matches Ok(c) ==> 1 <= c <= 6,
            r is Err <==> execute_error(old(self)@, instruction) is Some,
            r matches Err(e) ==> execute_error(old(self)@, instruction) == Some(e) && final(self)@
                == old(self)@,
            instruction != 0xD9 && instruction != 0xF3 ==> final(self)@.ime == old(self)@.ime,
            instruction == 0xD9 && r is Ok ==> final(self)@.ime,
            instruction == 0xF3 ==> !final(self)@.ime,
            r matches Ok(c) ==> final(self)@ == spec_e0_ff(old(self)@, instruction).0 && c == spec_e0_ff(
                old(self)@,
                instruction,
            ).1,
    {
        match instruction {
            0xE0 => {
                let p = self.read_u8();
                Ok(self.ldh_a_to_const16addr(0xFF00 + p as u16))
            },
            0xE1 => Ok(self.pop_r16(Register16::HL)),
            0xE2 => Ok(self.ldh_a_to_ff00_plus_c()),
            0xE3 => Err(CpuError::UnknownOpcode(instruction)),
            0xE4 => Err(CpuError::UnknownOpcode(instruction)),
            0xE5 => Ok(self.push_r16(Register16::HL)),
            0xE6 => {
                let p = self.read_u8();
                Ok(self.and(p))
            },
            0xE7 => Ok(self.rst(ResetVec::Vec5)),
            0xE8 => {
                let p = self.read_i8();
                Ok(self.add_e8_to_sp(p))
            },
            0xE9 => Ok(self.jp_hl()),
            0xEA => match self.read_u16() {
                Ok(p) => Ok(self.ld_a_to_const16addr(p)),
                Err(e) => Err(e),
            },
            0xEB => Err(CpuError::UnknownOpcode(instruction)),
            0xEC => Err(CpuError::UnknownOpcode(instruction)),
            0xED => Err(CpuError::UnknownOpcode(instruction)),
            0xEE => {
                let p = self.read_u8();
                Ok(self.xor(p))
            },
            0xEF => Ok(self.rst(ResetVec::Vec6)),
            0xF0 => {
                let p = self.read_u8();
                Ok(self.ldh_const16addr_to_a(0xFF00 + p as u16))
            },
            0xF1 => Ok(self.pop_af()),
            0xF2 => Ok(self.ldh_ff00_plus_c_to_a()),
            0xF3 => Ok(self.di()),
            0xF4 => Err(CpuError::UnknownOpcode(instruction)),
            0xF5 => Ok(self.push_af()),
            0xF6 => {
                let p = self.read_u8();
                Ok(self.or(p))
            },
            0xF7 => Ok(self.rst(ResetVec::Vec7)),
            0xF8 => {
                let p = self.read_i8();
                Ok(self.ld_sp_plus_e8_to_hl(p))
            },
            0xF9 => Ok(self.ld_hl_to_sp()),
            0xFA => match self.read_u16() {
                Ok(p) => Ok(self.ld_const16addr_to_a(p)),
                Err(e) => Err(e),
            },
            0xFB => Ok(self.ei()),
            0xFC => Err(CpuError::UnknownOpcode(instruction)),
            0xFD => Err(CpuError::UnknownOpcode(instruction)),
            0xFE => {
                let p = self.read_u8();
                Ok(self.cp(p))
            },
            0xFF => Ok(self.rst(ResetVec::Vec8)),
            _ => Err(CpuError::UnknownOpcode(instruction)),
        }
    }


    /// Rotates, shifts and swaps of the 0xCB table.
    fn execute_cb_00_3f(&mut self, instruction: u8) -> (r: u32)
        requires
            old(self).wf(),
            0x00 <= instruction <= 0x3F,
        ensures
            final(self).wf(),
            video_kept(old(self)@.mem, final(self)@.mem),
            2 <= r <= 4,
            final(self)@.ime == old(self)@.ime,
            final(self)@ == spec_cb_00_3f(old(self)@, instruction).0,
            r == spec_cb_00_3f(old(self)@, instruction).1,
    {
        match instruction {
            0x00 => self.rlc(Register8::B),
            0x01 => self.rlc(Register8::C),
            0x02 => self.rlc(Register8::D),
            0x03 => self.rlc(Register8::E),
            0x04 => self.rlc(Register8::H),
            0x05 => self.rlc(Register8::L),
            0x06 => self.rlc_hl(),
            0x07 => self.rlc(Register8::A),
            0x08 => self.rrc(Register8::B),
            0x09 => self.rrc(Register8::C),
            0x0A => self.rrc(Register8::D),
            0x0B => self.rrc(Register8::E),
            0x0C => self.rrc(Register8::H),
            0x0D => self.rrc(Register8::L),
            0x0E => self.rrc_hl(),
            0x0F => self.rrc(Register8::A),
            0x10 => self.rl(Register8::B),
            0x11 => self.rl(Register8::C),
            0x12 => self.rl(Register8::D),
            0x13 => self.rl(Register8::E),
            0x14 => self.rl(Register8::H),
            0x15 => self.rl(Register8::L),
            0x16 => self.rl_hl(),
            0x17 => self.rl(Register8::A),
            0x18 => self.rr(Register8::B),
            0x19 => self.rr(Register8::C),
            0x1A => self.rr(Register8::D),
            0x1B => self.rr(Register8::E),
            0x1C => self.rr(Register8::H),
            0x1D => self.rr(Register8::L),
            0x1E => self.rr_hl(),
            0x1F => self.rr(Register8::A),
            0x20 => self.sla(Register8::B),
            0x21 => self.sla(Register8::C),
            0x22 => self.sla(Register8::D),
            0x23 => self.sla(Register8::E),
            0x24 => self.sla(Register8::H),
            0x25 => self.sla(Register8::L),
            0x26 => self.sla_hl(),
            0x27 => self.sla(Register8::A),
            0x28 => self.sra(Register8::B),
            0x29 => self.sra(Register8::C),
            0x2A => self.sra(Register8::D),
            0x2B => self.sra(Register8::E),
            0x2C => self.sra(Register8::H),
            0x2D => self.sra(Register8::L),
            0x2E => self.sra_hl(),
            0x2F => self.sra(Register8::A),
            0x30 => self.swap(Register8::B),
            0x31 => self.swap(Register8::C),
            0x32 => self.swap(Register8::D),
            0x33 => self.swap(Register8::E),
            0x34 => self.swap(Register8::H),
            0x35 => self.swap(Register8::L),
            0x36 => self.swap_hl(),
            0x37 => self.swap(Register8::A),
            0x38 => self.srl(Register8::B),
            0x39 => self.srl(Register8::C),
            0x3A => self.srl(Register8::D),
            0x3B => self.srl(Register8::E),
            0x3C => self.srl(Register8::H),
            0x3D => self.srl(Register8::L),
            0x3E => self.srl_hl(),
            0x3F => self.srl(Register8::A),
            _ => self.srl(Register8::A),
        }
    }

    /// BIT 0..=3 of the 0xCB table.
    fn execute_cb_40_5f(&mut self, instruction: u8) -> (r: u32)
        requires
            old(self).wf(),
            0x40 <= instruction <= 0x5F,
        ensures
            final(self).wf(),
            video_kept(old(self)@.mem, final(self)@.mem),
            2 <= r <= 4,
            final(self)@.ime == old(self)@.ime,
            final(self)@ == spec_cb_40_5f(old(self)@, instruction).0,
            r == spec_cb_40_5f(old(self)@, instruction).1,
    {
        match instruction {
            0x40 => self.bit_r8(Register8::B, 0),
            0x41 => self.bit_r8(Register8::C, 0),
            0x42 => self.bit_r8(Register8::D, 0),
            0x43 => self.bit_r8(Register8::E, 0),
            0x44 => self.bit_r8(Register8::H, 0),
            0x45 => self.bit_r8(Register8::L, 0),
            0x46 => self.bit_hl(0),
            0x47 => self.bit_r8(Register8::A, 0),
            0x48 => self.bit_r8(Register8::B, 1),
            0x49 => self.bit_r8(Register8::C, 1),
            0x4A => self.bit_r8(Register8::D, 1),
            0x4B => self.bit_r8(Register8::E, 1),
            0x4C => self.bit_r8(Register8::H, 1),
            0x4D => self.bit_r8(Register8::L, 1),
            0x4E => self.bit_hl(1),
            0x4F => self.bit_r8(Register8::A, 1),
            0x50 => self.bit_r8(Register8::B, 2),
            0x51 => self.bit_r8(Register8::C, 2),
            0x52 => self.bit_r8(Register8::D, 2),
            0x53 => self.bit_r8(Register8::E, 2),
            0x54 => self.bit_r8(Register8::H, 2),
            0x55 => self.bit_r8(Register8::L, 2),
            0x56 => self.bit_hl(2),
            0x57 => self.bit_r8(Register8::A, 2),
            0x58 => self.bit_r8(Register8::B, 3),
            0x59 => self.bit_r8(Register8::C, 3),
            0x5A => self.bit_r8(Register8::D, 3),
            0x5B => self.bit_r8(Register8::E, 3),
            0x5C => self.bit_r8(Register8::H, 3),
            0x5D => self.bit_r8(Register8::L, 3),
            0x5E => self.bit_hl(3),
            0x5F => self.bit_r8(Register8::A, 3),
            _ => self.bit_r8(Register8::A, 3),
        }
    }

    /// BIT 4..=7 of the 0xCB table.
    fn execute_cb_60_7f(&mut self, instruction: u8) -> (r: u32)
        requires
            old(self).wf(),
            0x60 <= instruction <= 0x7F,
        ensures
            final(self).wf(),
            video_kept(old(self)@.mem, final(self)@.mem),
            2 <= r <= 4,
            final(self)@.ime == old(self)@.ime,
            final(self)@ == spec_cb_60_7f(old(self)@, instruction).0,
            r == spec_cb_60_7f(old(self)@, instruction).1,
    {
        match instruction {
            0x60 => self.bit_r8(Register8::B, 4),
            0x61 => self.bit_r8(Register8::C, 4),
            0x62 => self.bit_r8(Register8::D, 4),
            0x63 => self.bit_r8(Register8::E, 4),
            0x64 => self.bit_r8(Register8::H, 4),
            0x65 => self.bit_r8(Register8::L, 4),
            0x66 => self.bit_hl(4),
            0x67 => self.bit_r8(Register8::A, 4),
            0x68 => self.bit_r8(Register8::B, 5),
            0x69 => self.bit_r8(Register8::C, 5),
            0x6A => self.bit_r8(Register8::D, 5),
            0x6B => self.bit_r8(Register8::E, 5),
            0x6C => self.bit_r8(Register8::H, 5),
            0x6D => self.bit_r8(Register8::L, 5),
            0x6E => self.bit_hl(5),
            0x6F => self.bit_r8(Register8::A, 5),
            0x70 => self.bit_r8(Register8::B, 6),
            0x71 => self.bit_r8(Register8::C, 6),
            0x72 => self.bit_r8(Register8::D, 6),
            0x73 => self.bit_r8(Register8::E, 6),
            0x74 => self.bit_r8(Register8::H, 6),
            0x75 => self.bit_r8(Register8::L, 6),
            0x76 => self.bit_hl(6),
            0x77 => self.bit_r8(Register8::A, 6),
            0x78 => self.bit_r8(Register8::B, 7),
            0x79 => self.bit_r8(Register8::C, 7),
            0x7A => self.bit_r8(Register8::D, 7),
            0x7B => self.bit_r8(Register8::E, 7),
            0x7C => self.bit_r8(Register8::H, 7),
            0x7D => self.bit_r8(Register8::L, 7),
            0x7E => self.bit_hl(7),
            0x7F => self.bit_r8(Register8::A, 7),
            _ => self.bit_r8(Register8::A, 7),
        }
    }

    /// RES of the 0xCB table.
    fn execute_cb_80_bf(&mut self, instruction: u8) -> (r: u32)
        requires
            old(self).wf(),
            0x80 <= instruction <= 0xBF,
        ensures
            final(self).wf(),
            video_kept(old(self)@.mem, final(self)@.mem),
            2 <= r <= 4,
            final(self)@.ime == old(self)@.ime,
            final(self)@ == spec_cb_80_bf(old(self)@, instruction).0,
            r == spec_cb_80_bf(old(self)@, instruction).1,
    {
        match instruction {
            0x80 => self.res_r8(Register8::B, 0),
            0x81 => self.res_r8(Register8::C, 0),
            0x82 => self.res_r8(Register8::D, 0),
            0x83 => self.res_r8(Register8::E, 0),
            0x84 => self.res_r8(Register8::H, 0),
            0x85 => self.res_r8(Register8::L, 0),
            0x86 => self.res_hl(0),
            0x87 => self.res_r8(Register8::A, 0),
            0x88 => self.res_r8(Register8::B, 1),
            0x89 => self.res_r8(Register8::C, 1),
            0x8A => self.res_r8(Register8::D, 1),
            0x8B => self.res_r8(Register8::E, 1),
            0x8C => self.res_r8(Register8::H, 1),
            0x8D => self.res_r8(Register8::L, 1),
            0x8E => self.res_hl(1),
            0x8F => self.res_r8(Register8::A, 1),
            0x90 => self.res_r8(Register8::B, 2),
            0x91 => self.res_r8(Register8::C, 2),
            0x92 => self.res_r8(Register8::D, 2),
            0x93 => self.res_r8(Register8::E, 2),
            0x94 => self.res_r8(Register8::H, 2),
            0x95 => self.res_r8(Register8::L, 2),
            0x96 => self.res_hl(2),
            0x97 => self.res_r8(Register8::A, 2),
            0x98 => self.res_r8(Register8::B, 3),
            0x99 => self.res_r8(Register8::C, 3),
            0x9A => self.res_r8(Register8::D, 3),
            0x9B => self.res_r8(Register8::E, 3),
            0x9C => self.res_r8(Register8::H, 3),
            0x9D => self.res_r8(Register8::L, 3),
            0x9E => self.res_hl(3),
            0x9F => self.res_r8(Register8::A, 3),
            0xA0 => self.res_r8(Register8::B, 4),
            0xA1 => self.res_r8(Register8::C, 4),
            0xA2 => self.res_r8(Register8::D, 4),
            0xA3 => self.res_r8(Register8::E, 4),
            0xA4 => self.res_r8(Register8::H, 4),
            0xA5 => self.res_r8(Register8::L, 4),
            0xA6 => self.res_hl(4),
            0xA7 => self.res_r8(Register8::A, 4),
            0xA8 => self.res_r8(Register8::B, 5),
            0xA9 => self.res_r8(Register8::C, 5),
            0xAA => self.res_r8(Register8::D, 5),
            0xAB => self.res_r8(Register8::E, 5),
            0xAC => self.res_r8(Register8::H, 5),
            0xAD => self.res_r8(Register8::L, 5),
            0xAE => self.res_hl(5),
            0xAF => self.res_r8(Register8::A, 5),
            0xB0 => self.res_r8(Register8::B, 6),
            0xB1 => self.res_r8(Register8::C, 6),
            0xB2 => self.res_r8(Register8::D, 6),
            0xB3 => self.res_r8(Register8::E, 6),
            0xB4 => self.res_r8(Register8::H, 6),
            0xB5 => self.res_r8(Register8::L, 6),
            0xB6 => self.res_hl(6),
            0xB7 => self.res_r8(Register8::A, 6),
            0xB8 => self.res_r8(Register8::B, 7),
            0xB9 => self.res_r8(Register8::C, 7),
            0xBA => self.res_r8(Register8::D, 7),
            0xBB => self.res_r8(Register8::E, 7),
            0xBC => self.res_r8(Register8::H, 7),
            0xBD => self.res_r8(Register8::L, 7),
            0xBE => self.res_hl(7),
            0xBF => self.res_r8(Register8::A, 7),
            _ => self.res_r8(Register8::A, 7),
        }
    }

    /// SET of the 0xCB table.
    fn execute_cb_c0_ff(&mut self, instruction: u8) -> (r: u32)
        requires
            old(self).wf(),
            0xC0 <= instruction <= 0xFF,
        ensures
            final(self).wf(),
            video_kept(old(self)@.mem, final(self)@.mem),
            2 <= r <= 4,
            final(self)@.ime == old(self)@.ime,
            final(self)@ == spec_cb_c0_ff(old(self)@, instruction).0,
            r == spec_cb_c0_ff(old(self)@, instruction).1,
    {
        match instruction {
            0xC0 => self.set_r8(Register8::B, 0),
            0xC1 => self.set_r8(Register8::C, 0),
            0xC2 => self.set_r8(Register8::D, 0),
            0xC3 => self.set_r8(Register8::E, 0),
            0xC4 => self.set_r8(Register8::H, 0),
            0xC5 => self.set_r8(Register8::L, 0),
            0xC6 => self.set_hl(0),
            0xC7 => self.set_r8(Register8::A, 0),
            0xC8 => self.set_r8(Register8::B, 1),
            0xC9 => self.set_r8(Register8::C, 1),
            0xCA => self.set_r8(Register8::D, 1),
            0xCB => self.set_r8(Register8::E, 1),
            0xCC => self.set_r8(Register8::H, 1),
            0xCD => self.set_r8(Register8::L, 1),
            0xCE => self.set_hl(1),
            0xCF => self.set_r8(Register8::A, 1),
            0xD0 => self.set_r8(Register8::B, 2),
            0xD1 => self.set_r8(Register8::C, 2),
            0xD2 => self.set_r8(Register8::D, 2),
            0xD3 => self.set_r8(Register8::E, 2),
            0xD4 => self.set_r8(Register8::H, 2),
            0xD5 => self.set_r8(Register8::L, 2),
            0xD6 => self.set_hl(2),
            0xD7 => self.set_r8(Register8::A, 2),
            0xD8 => self.set_r8(Register8::B, 3),
            0xD9 => self.set_r8(Register8::C, 3),
            0xDA => self.set_r8(Register8::D, 3),
            0xDB => self.set_r8(Register8::E, 3),
            0xDC => self.set_r8(Register8::H, 3),
            0xDD => self.set_r8(Register8::L, 3),
            0xDE => self.set_hl(3),
            0xDF => self.set_r8(Register8::A, 3),
            0xE0 => self.set_r8(Register8::B, 4),
            0xE1 => self.set_r8(Register8::C, 4),
            0xE2 => self.set_r8(Register8::D, 4),
            0xE3 => self.set_r8(Register8::E, 4),
            0xE4 => self.set_r8(Register8::H, 4),
            0xE5 => self.set_r8(Register8::L, 4),
            0xE6 => self.set_hl(4),
            0xE7 => self.set_r8(Register8::A, 4),
            0xE8 => self.set_r8(Register8::B, 5),
            0xE9 => self.set_r8(Register8::C, 5),
            0xEA => self.set_r8(Register8::D, 5),
            0xEB => self.set_r8(Register8::E, 5),
            0xEC => self.set_r8(Register8::H, 5),
            0xED => self.set_r8(Register8::L, 5),
            0xEE => self.set_hl(5),
            0xEF => self.set_r8(Register8::A, 5),
            0xF0 => self.set_r8(Register8::B, 6),
            0xF1 => self.set_r8(Register8::C, 6),
            0xF2 => self.set_r8(Register8::D, 6),
            0xF3 => self.set_r8(Register8::E, 6),
            0xF4 => self.set_r8(Register8::H, 6),
            0xF5 => self.set_r8(Register8::L, 6),
            0xF6 => self.set_hl(6),
            0xF7 => self.set_r8(Register8::A, 6),
            0xF8 => self.set_r8(Register8::B, 7),
            0xF9 => self.set_r8(Register8::C, 7),
            0xFA => self.set_r8(Register8::D, 7),
            0xFB => self.set_r8(Register8::E, 7),
            0xFC => self.set_r8(Register8::H, 7),
            0xFD => self.set_r8(Register8::L, 7),
            0xFE => self.set_hl(7),
            0xFF => self.set_r8(Register8::A, 7),
            _ => self.set_r8(Register8::A, 7),
        }
    }
}

} // verus!
