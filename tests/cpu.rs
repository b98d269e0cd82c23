use gbrs::alu::Flags;
use gbrs::cpu::{Cpu, CpuError, Register8};
use gbrs::debug::{ins_name, prefixed};
use gbrs::memory::MMU;
use gbrs::rom::Rom;

fn cpu_with_program(program: &[u8]) -> Cpu {
    let mut bytes = vec![0u8; 0x8000];
    bytes[..program.len()].copy_from_slice(program);
    let rom = Rom::load_from_bytes(bytes).unwrap();
    Cpu::new(MMU::new(rom))
}

fn run(cpu: &mut Cpu, instructions: usize) {
    for _ in 0..instructions {
        cpu.tick().unwrap();
    }
}

fn flags(cpu: &Cpu) -> (bool, bool, bool, bool) {
    let f: Flags = cpu.flags();
    (f.z, f.n, f.h, f.c)
}

#[test]
fn add_a_b_sets_half_carry() {
    // LD A,0x0F; LD B,0x01; ADD A,B
    let mut cpu = cpu_with_program(&[0x3E, 0x0F, 0x06, 0x01, 0x80]);
    run(&mut cpu, 3);
    assert_eq!(cpu.reg(Register8::A), 0x10);
    assert_eq!(flags(&cpu), (false, false, true, false));
}

#[test]
fn inc_b_overflow_keeps_carry() {
    // LD B,0xFF; INC B
    let mut cpu = cpu_with_program(&[0x06, 0xFF, 0x04]);
    run(&mut cpu, 2);
    assert_eq!(cpu.reg(Register8::B), 0x00);
    assert_eq!(flags(&cpu), (true, false, true, false));
    // SCF; LD B,0xFF; INC B: carry stays set
    let mut cpu = cpu_with_program(&[0x37, 0x06, 0xFF, 0x04]);
    run(&mut cpu, 3);
    assert_eq!(cpu.reg(Register8::B), 0x00);
    assert_eq!(flags(&cpu), (true, false, true, true));
}

#[test]
fn daa_after_add() {
    // LD A,0x15; ADD A,0x27; DAA
    let mut cpu = cpu_with_program(&[0x3E, 0x15, 0xC6, 0x27, 0x27]);
    run(&mut cpu, 2);
    assert_eq!(cpu.reg(Register8::A), 0x3C);
    assert_eq!(flags(&cpu), (false, false, false, false));
    run(&mut cpu, 1);
    assert_eq!(cpu.reg(Register8::A), 0x42);
    assert_eq!(flags(&cpu), (false, false, false, false));
}

#[test]
fn daa_after_sub_gives_bcd() {
    // LD A,0x42; SUB 0x15; DAA -> 0x27
    let mut cpu = cpu_with_program(&[0x3E, 0x42, 0xD6, 0x15, 0x27]);
    run(&mut cpu, 3);
    assert_eq!(cpu.reg(Register8::A), 0x27);
    // LD A,0x99; ADD A,0x01; DAA -> 0x00 with carry
    let mut cpu = cpu_with_program(&[0x3E, 0x99, 0xC6, 0x01, 0x27]);
    run(&mut cpu, 3);
    assert_eq!(cpu.reg(Register8::A), 0x00);
    assert_eq!(flags(&cpu), (true, false, false, true));
}

#[test]
fn ld_halt_then_wake_without_dispatch() {
    let mut cpu = cpu_with_program(&[0x3E, 0x42, 0x76, 0x00]);
    cpu.mmu.write_8(0xFFFF, 0x01).unwrap();
    cpu.mmu.write_8(0xFF0F, 0x00).unwrap();
    run(&mut cpu, 2);
    assert_eq!(cpu.reg(Register8::A), 0x42);
    assert!(cpu.halted);
    assert_eq!(cpu.tick(), Ok(1));
    assert!(cpu.halted);
    cpu.mmu.write_8(0xFF0F, 0x01).unwrap();
    assert!(!cpu.interrupts_enabled);
    assert!(!cpu.handle_interrupts());
    cpu.tick().unwrap();
    assert!(!cpu.halted);
    assert_eq!(cpu.get_pc(), 3);
    assert_eq!(cpu.sp, 0xFFFE);
}

#[test]
fn swap_twice_restores() {
    for x in [0x00u8, 0x01, 0x5A, 0xF0, 0xFF] {
        // LD A,x; SWAP A; SWAP A
        let mut cpu = cpu_with_program(&[0x3E, x, 0xCB, 0x37, 0xCB, 0x37]);
        run(&mut cpu, 2);
        assert_eq!(cpu.reg(Register8::A), (x << 4) | (x >> 4));
        run(&mut cpu, 1);
        assert_eq!(cpu.reg(Register8::A), x);
        assert_eq!(flags(&cpu), (x == 0, false, false, false));
    }
}

#[test]
fn rrca_then_rlca_restores() {
    for x in [0x00u8, 0x01, 0x80, 0x81, 0x3C] {
        // LD A,x; RRCA; RLCA
        let mut cpu = cpu_with_program(&[0x3E, x, 0x0F, 0x07]);
        run(&mut cpu, 2);
        assert_eq!(cpu.reg(Register8::A), x.rotate_right(1));
        assert_eq!(flags(&cpu), (false, false, false, x & 1 == 1));
        run(&mut cpu, 1);
        assert_eq!(cpu.reg(Register8::A), x);
        assert!(!flags(&cpu).0);
    }
}

#[test]
fn cp_flags_equal_sub_flags() {
    for (a, b) in [(0x10u8, 0x01u8), (0x05, 0x05), (0x00, 0x01), (0x3C, 0x2F)] {
        // LD A,a; CP b
        let mut cpu = cpu_with_program(&[0x3E, a, 0xFE, b]);
        run(&mut cpu, 2);
        let cp_flags = flags(&cpu);
        assert_eq!(cpu.reg(Register8::A), a);
        // LD A,a; SUB b
        let mut cpu = cpu_with_program(&[0x3E, a, 0xD6, b]);
        run(&mut cpu, 2);
        assert_eq!(flags(&cpu), cp_flags);
        assert_eq!(cpu.reg(Register8::A), a.wrapping_sub(b));
        // LD A,a; ADD A,b
        let mut cpu = cpu_with_program(&[0x3E, a, 0xC6, b]);
        run(&mut cpu, 2);
        assert_eq!(cpu.reg(Register8::A), a.wrapping_add(b));
    }
}

#[test]
fn call_then_ret_returns() {
    // CALL 0x0010 ... at 0x10: RET
    let mut program = vec![0u8; 0x11];
    program[0] = 0xCD;
    program[1] = 0x10;
    program[2] = 0x00;
    program[0x10] = 0xC9;
    let mut cpu = cpu_with_program(&program);
    assert_eq!(cpu.tick(), Ok(6));
    assert_eq!(cpu.get_pc(), 0x10);
    assert_eq!(cpu.sp, 0xFFFC);
    assert_eq!(cpu.mmu.read_8(0xFFFC), 0x03);
    assert_eq!(cpu.mmu.read_8(0xFFFD), 0x00);
    assert_eq!(cpu.tick(), Ok(4));
    assert_eq!(cpu.get_pc(), 0x03);
    assert_eq!(cpu.sp, 0xFFFE);
}

#[test]
fn pop_push_pop_af_clears_low_nibble() {
    // LD SP,0xFFF0; POP AF; PUSH AF; POP AF
    let mut cpu = cpu_with_program(&[0x31, 0xF0, 0xFF, 0xF1, 0xF5, 0xF1]);
    cpu.mmu.write_8(0xFFF0, 0xFF).unwrap();
    cpu.mmu.write_8(0xFFF1, 0x12).unwrap();
    run(&mut cpu, 2);
    assert_eq!(cpu.reg(Register8::A), 0x12);
    assert_eq!(cpu.reg(Register8::F), 0xF0);
    run(&mut cpu, 2);
    assert_eq!(cpu.reg(Register8::A), 0x12);
    assert_eq!(cpu.reg(Register8::F), 0xF0);
    assert_eq!(cpu.reg(Register8::F) & 0x0F, 0);
    assert_eq!(cpu.sp, 0xFFF2);
}

#[test]
fn unknown_opcode_is_an_error() {
    let mut cpu = cpu_with_program(&[0xD3]);
    assert_eq!(cpu.tick(), Err(CpuError::UnknownOpcode(0xD3)));
}

#[test]
fn operand_fetch_across_region_end_is_an_error() {
    // JP at 0x7FFE: the operand straddles ROM and VRAM
    let mut program = vec![0u8; 0x8000];
    program[0] = 0xC3;
    program[1] = 0xFE;
    program[2] = 0x7F;
    program[0x7FFE] = 0xC3;
    let mut cpu = cpu_with_program(&program);
    cpu.tick().unwrap();
    assert_eq!(cpu.get_pc(), 0x7FFE);
    assert_eq!(
        cpu.tick(),
        Err(CpuError::Memory(gbrs::memory::MemError::Invalid2ByteAccess))
    );
    assert_eq!(cpu.get_pc(), 0x7FFF);
}

#[test]
fn jr_backwards_and_conditional() {
    // NOP; JR -3 -> back to 0
    let mut cpu = cpu_with_program(&[0x00, 0x18, 0xFD]);
    run(&mut cpu, 2);
    assert_eq!(cpu.get_pc(), 0x00);
    // XOR A (Z=1); JR NZ,+5 (untaken, 2 cycles); JR Z,+1 (taken, 3 cycles)
    let mut cpu = cpu_with_program(&[0xAF, 0x20, 0x05, 0x28, 0x01]);
    run(&mut cpu, 1);
    assert_eq!(cpu.reg(Register8::A), 0);
    assert_eq!(cpu.tick(), Ok(2));
    assert_eq!(cpu.tick(), Ok(3));
    assert_eq!(cpu.get_pc(), 0x06);
}

#[test]
fn ei_takes_effect_after_next_instruction() {
    // EI; NOP; NOP
    let mut cpu = cpu_with_program(&[0xFB, 0x00, 0x00]);
    run(&mut cpu, 1);
    assert!(!cpu.interrupts_enabled);
    run(&mut cpu, 1);
    assert!(cpu.interrupts_enabled);
    // EI; DI: DI wins
    let mut cpu = cpu_with_program(&[0xFB, 0xF3, 0x00]);
    run(&mut cpu, 3);
    assert!(!cpu.interrupts_enabled);
}

#[test]
fn interrupt_dispatch_pushes_pc_and_clears_if() {
    let mut cpu = cpu_with_program(&[0x00, 0x00]);
    cpu.interrupts_enabled = true;
    cpu.mmu.write_8(0xFFFF, 0x05).unwrap();
    cpu.mmu.write_8(0xFF0F, 0x04).unwrap();
    run(&mut cpu, 1);
    assert!(cpu.handle_interrupts());
    assert_eq!(cpu.get_pc(), 0x50);
    assert_eq!(cpu.mmu.read_8(0xFF0F) & 0x04, 0);
    assert!(!cpu.interrupts_enabled);
    assert_eq!(cpu.mmu.read_8(0xFFFC), 0x01);
}

#[test]
fn add_hl_uses_twelve_bit_half_carry() {
    // LD HL,0x0FFF; LD BC,0x0001; ADD HL,BC
    let mut cpu = cpu_with_program(&[0x21, 0xFF, 0x0F, 0x01, 0x01, 0x00, 0x09]);
    run(&mut cpu, 3);
    assert_eq!(cpu.reg16(gbrs::cpu::Register16::HL), 0x1000);
    assert_eq!(flags(&cpu), (false, false, true, false));
}

#[test]
fn add_sp_signed_offset_flags() {
    // LD SP,0x00FF; ADD SP,1 -> 0x0100, H=1, C=1
    let mut cpu = cpu_with_program(&[0x31, 0xFF, 0x00, 0xE8, 0x01]);
    run(&mut cpu, 2);
    assert_eq!(cpu.sp, 0x0100);
    assert_eq!(flags(&cpu), (false, false, true, true));
    // LD SP,0x0100; LD HL,SP-1 -> 0x00FF, H=0, C=0
    let mut cpu = cpu_with_program(&[0x31, 0x00, 0x01, 0xF8, 0xFF]);
    run(&mut cpu, 2);
    assert_eq!(cpu.reg16(gbrs::cpu::Register16::HL), 0x00FF);
    assert_eq!(flags(&cpu), (false, false, false, false));
}

#[test]
fn bit_res_set_on_registers() {
    // LD C,0x80; BIT 7,C; RES 7,C; BIT 7,C; SET 0,C
    let mut cpu = cpu_with_program(&[0x0E, 0x80, 0xCB, 0x79, 0xCB, 0xB9, 0xCB, 0x79, 0xCB, 0xC1]);
    run(&mut cpu, 2);
    assert_eq!(flags(&cpu), (false, false, true, false));
    run(&mut cpu, 2);
    assert_eq!(cpu.reg(Register8::C), 0x00);
    assert_eq!(flags(&cpu), (true, false, true, false));
    run(&mut cpu, 1);
    assert_eq!(cpu.reg(Register8::C), 0x01);
}

#[test]
fn shifts_set_carry_from_bit_out() {
    // LD D,0x81; SLA D -> 0x02 C=1 ; SRL D -> 0x01 C=0; SRA with sign
    let mut cpu = cpu_with_program(&[0x16, 0x81, 0xCB, 0x22, 0xCB, 0x3A, 0x16, 0x81, 0xCB, 0x2A]);
    run(&mut cpu, 2);
    assert_eq!(cpu.reg(Register8::D), 0x02);
    assert_eq!(flags(&cpu), (false, false, false, true));
    run(&mut cpu, 1);
    assert_eq!(cpu.reg(Register8::D), 0x01);
    assert_eq!(flags(&cpu), (false, false, false, false));
    run(&mut cpu, 2);
    assert_eq!(cpu.reg(Register8::D), 0xC0);
    assert_eq!(flags(&cpu), (false, false, false, true));
}

#[test]
fn xor_writes_a() {
    // LD A,0xF0; LD E,0xFF; XOR E
    let mut cpu = cpu_with_program(&[0x3E, 0xF0, 0x1E, 0xFF, 0xAB]);
    run(&mut cpu, 3);
    assert_eq!(cpu.reg(Register8::A), 0x0F);
    assert_eq!(flags(&cpu), (false, false, false, false));
}

#[test]
fn ld_hl_increment_and_decrement() {
    // LD HL,0xC000; LD A,0x33; LD [HL+],A; LD [HL-],A; LD A,[HL-]
    let mut cpu = cpu_with_program(&[0x21, 0x00, 0xC0, 0x3E, 0x33, 0x22, 0x32, 0x3A]);
    run(&mut cpu, 3);
    assert_eq!(cpu.mmu.read_8(0xC000), 0x33);
    assert_eq!(cpu.reg16(gbrs::cpu::Register16::HL), 0xC001);
    run(&mut cpu, 1);
    assert_eq!(cpu.mmu.read_8(0xC001), 0x33);
    assert_eq!(cpu.reg16(gbrs::cpu::Register16::HL), 0xC000);
    run(&mut cpu, 1);
    assert_eq!(cpu.reg16(gbrs::cpu::Register16::HL), 0xBFFF);
}

#[test]
fn stop_consumes_operand_and_stays_stopped() {
    let mut cpu = cpu_with_program(&[0x10, 0x00, 0x00]);
    run(&mut cpu, 1);
    assert!(cpu.stopped);
    assert_eq!(cpu.get_pc(), 2);
    assert_eq!(cpu.tick(), Ok(1));
    assert_eq!(cpu.get_pc(), 2);
}

#[test]
fn timer_counts_and_overflows() {
    let mut cpu = cpu_with_program(&[0x00]);
    cpu.mmu.write_8(0xFF07, 0x05).unwrap();
    for _ in 0..4 {
        cpu.timer_clock_cycle();
    }
    assert_eq!(cpu.mmu.read_8(0xFF05), 1);
    cpu.mmu.write_8(0xFF05, 0xFF).unwrap();
    cpu.mmu.write_8(0xFF06, 0x10).unwrap();
    for _ in 0..4 {
        cpu.timer_clock_cycle();
    }
    assert_eq!(cpu.mmu.read_8(0xFF05), 0x10);
    assert_eq!(cpu.mmu.read_8(0xFF0F) & 0x04, 0x04);
    for _ in 0..56 {
        cpu.timer_clock_cycle();
    }
    assert_eq!(cpu.mmu.read_8(0xFF04), 1);
}

#[test]
fn debug_views() {
    let mut cpu = cpu_with_program(&[0x01, 0x34, 0x12, 0xAA, 0xBB]);
    assert_eq!(cpu.peek_instruction(), 0x01);
    assert_eq!(cpu.peek_data(), [Some(0x34), Some(0x12), Some(0xAA), Some(0xBB)]);
    run(&mut cpu, 1);
    let info = cpu.debug_stack_info();
    assert_eq!(info.bc, 0x1234);
    assert_eq!(info.pc(), 3);
    assert_eq!(info.sp, 0xFFFE);
}

#[test]
fn mnemonic_tables() {
    assert_eq!(ins_name(0x00, None), "NOP");
    assert_eq!(ins_name(0x27, None), "DAA");
    assert_eq!(ins_name(0xCB, Some(0x37)), "SWAP");
    assert_eq!(ins_name(0xCB, None), "INVALID");
    assert_eq!(prefixed(Some(0xFF)), "SET 7");
    assert_eq!(prefixed(Some(0x46)), "BIT 0");
}
