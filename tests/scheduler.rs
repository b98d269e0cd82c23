use gbrs::gameboy::{GameBoy, CLOCKS};
use gbrs::ppu::PIXEL_COUNT;

fn rom_with(program: &[(usize, &[u8])]) -> Vec<u8> {
    let mut bytes = vec![0u8; 0x8000];
    for (at, code) in program {
        bytes[*at..*at + code.len()].copy_from_slice(code);
    }
    bytes
}

#[test]
fn nop_rom_frame_takes_17556_clocks() {
    let mut gb = GameBoy::load(vec![0u8; 0x8000]).unwrap();
    assert!(!gb.memory().boot_rom_enabled());
    let mut buffer = vec![0u8; PIXEL_COUNT];
    let mut clocks = 0u32;
    let mut last_ly = 0u8;
    loop {
        let done = gb.clock(&mut buffer).unwrap();
        clocks += 1;
        if done {
            last_ly = gb.memory().read_ly();
            break;
        }
        assert!(clocks < 20000);
    }
    assert_eq!(clocks, 17556);
    assert_eq!(clocks, CLOCKS);
    assert_eq!(last_ly, 153);
    gb.clock(&mut buffer).unwrap();
    assert_eq!(gb.memory().read_ly(), 0);
}

#[test]
fn ly_follows_the_frame_clock() {
    let mut gb = GameBoy::load(vec![0u8; 0x8000]).unwrap();
    let mut buffer = vec![0u8; PIXEL_COUNT];
    for t in 0..CLOCKS {
        gb.clock(&mut buffer).unwrap();
        let ly = gb.memory().read_ly();
        assert_eq!(ly as u32, t / 114);
        assert!(ly <= 153);
        let mode = gb.memory().read_8(0xFF41) & 0x03;
        let line = t / 114;
        let dot = t % 114;
        let expected = if line >= 144 {
            1
        } else if dot < 20 {
            2
        } else if dot < 43 {
            3
        } else {
            0
        };
        assert_eq!(mode, expected);
    }
}

#[test]
fn stat_modes_across_one_visible_line() {
    let mut gb = GameBoy::load(vec![0u8; 0x8000]).unwrap();
    let mut buffer = vec![0u8; PIXEL_COUNT];
    let mut modes = Vec::new();
    for _ in 0..114 {
        gb.clock(&mut buffer).unwrap();
        modes.push(gb.memory().read_8(0xFF41) & 0x03);
    }
    assert!(modes[..20].iter().all(|m| *m == 2));
    assert!(modes[20..43].iter().all(|m| *m == 3));
    assert!(modes[43..].iter().all(|m| *m == 0));
}

#[test]
fn vblank_interrupt_once_per_frame() {
    // 0x00: EI; JR -2 (loops on itself). 0x40: RETI.
    let rom = rom_with(&[(0x00, &[0xFB, 0x18, 0xFE]), (0x40, &[0xD9])]);
    let mut gb = GameBoy::load(rom).unwrap();
    gb.cpu.mmu.write_8(0xFFFF, 0x01).unwrap();
    let mut buffer = vec![0u8; PIXEL_COUNT];
    for _frame in 0..3 {
        let mut entries = 0;
        let mut was_at_vector = false;
        loop {
            let done = gb.clock(&mut buffer).unwrap();
            let at_vector = gb.cpu().get_pc() == 0x40;
            if at_vector && !was_at_vector {
                entries += 1;
            }
            was_at_vector = at_vector;
            if done {
                break;
            }
        }
        assert_eq!(entries, 1);
    }
}

#[test]
fn frame_runs_to_the_frame_boundary() {
    let mut gb = GameBoy::load(vec![0u8; 0x8000]).unwrap();
    let mut buffer = vec![0u8; PIXEL_COUNT];
    gb.clock(&mut buffer).unwrap();
    gb.frame(&mut buffer).unwrap();
    assert_eq!(gb.clock_number_in_current_frame, 0);
    assert_eq!(gb.memory().read_ly(), 153);
}

#[test]
fn unknown_opcode_stops_the_clock_with_an_error() {
    let rom = rom_with(&[(0x00, &[0xDD])]);
    let mut gb = GameBoy::load(rom).unwrap();
    let mut buffer = vec![0u8; PIXEL_COUNT];
    assert!(gb.clock(&mut buffer).is_err());
}

#[test]
fn load_refuses_bad_cartridges() {
    assert!(GameBoy::load(vec![0u8; 100]).is_err());
    let mut bytes = vec![0u8; 0x8000];
    bytes[0x147] = 0x01;
    assert!(GameBoy::load(bytes).is_err());
}

#[test]
fn stat_interrupt_on_rising_hblank_line() {
    let mut gb = GameBoy::load(vec![0u8; 0x8000]).unwrap();
    let mut buffer = vec![0u8; PIXEL_COUNT];
    gb.cpu.mmu.enable_hblank_interrupt(true);
    for _ in 0..43 {
        gb.clock(&mut buffer).unwrap();
    }
    assert_eq!(gb.memory().read_8(0xFF0F) & 0x02, 0);
    gb.clock(&mut buffer).unwrap();
    assert_eq!(gb.memory().read_8(0xFF0F) & 0x02, 0x02);
}

#[test]
fn lyc_match_sets_flag_and_requests_stat() {
    let mut gb = GameBoy::load(vec![0u8; 0x8000]).unwrap();
    let mut buffer = vec![0u8; PIXEL_COUNT];
    gb.cpu.mmu.set_lyc(2);
    gb.cpu.mmu.enable_lyc_interrupt(true);
    for _ in 0..(2 * 114) {
        gb.clock(&mut buffer).unwrap();
    }
    assert_eq!(gb.memory().read_8(0xFF0F) & 0x02, 0);
    gb.update_video_registers();
    assert_eq!(gb.memory().read_ly(), 2);
    assert_eq!(gb.memory().read_8(0xFF41) & 0x04, 0x04);
    assert_eq!(gb.memory().read_8(0xFF0F) & 0x02, 0x02);
}

#[test]
fn vblank_requested_at_line_144() {
    let mut gb = GameBoy::load(vec![0u8; 0x8000]).unwrap();
    let mut buffer = vec![0u8; PIXEL_COUNT];
    for _ in 0..(144 * 114) {
        gb.clock(&mut buffer).unwrap();
    }
    assert_eq!(gb.memory().read_8(0xFF0F) & 0x01, 0);
    gb.clock(&mut buffer).unwrap();
    assert_eq!(gb.memory().read_8(0xFF0F) & 0x01, 0x01);
    assert_eq!(gb.memory().read_8(0xFF41) & 0x03, 1);
}
