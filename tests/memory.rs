use gbrs::interrupt::Interrupt;
use gbrs::memory::{MemError, MemRegion, MMU};
use gbrs::rom::Rom;

fn mmu_with_rom(fill: u8) -> MMU {
    MMU::new(Rom::load_from_bytes(rom_bytes(fill)).unwrap())
}

fn rom_bytes(fill: u8) -> Vec<u8> {
    let mut bytes = vec![fill; 0x8000];
    bytes[0x147] = 0;
    bytes[0x148] = 0;
    bytes[0x149] = 0;
    bytes
}

#[test]
fn write_then_read_round_trip() {
    let mut mmu = mmu_with_rom(0x11);
    for a in [0x8000u16, 0x9FFF, 0xA123, 0xC000, 0xDFFF, 0xFE00, 0xFF80, 0xFFFE, 0xFFFF] {
        mmu.write_8(a, 0x5A).unwrap();
        assert_eq!(mmu.read_8(a), 0x5A);
    }
    assert_eq!(
        mmu.write_8(0x1234, 0x99),
        Err(MemError::InvalidAddressRegion(MemRegion::Rom))
    );
    assert_eq!(mmu.read_8(0x1234), 0x11);
}

#[test]
fn div_write_resets() {
    let mut mmu = mmu_with_rom(0);
    mmu.raw_write_8(0xFF04, 0x37);
    assert_eq!(mmu.read_8(0xFF04), 0x37);
    mmu.write_8(0xFF04, 0xAB).unwrap();
    assert_eq!(mmu.read_8(0xFF04), 0);
}

#[test]
fn echo_region_mirrors_work_ram() {
    let mut mmu = mmu_with_rom(0);
    mmu.write_8(0xC010, 0x77).unwrap();
    assert_eq!(mmu.read_8(0xE010), 0x77);
    mmu.write_8(0xE020, 0x66).unwrap();
    assert_eq!(mmu.read_8(0xC020), 0x66);
}

#[test]
fn prohibited_area_reads_ff() {
    let mut mmu = mmu_with_rom(0);
    mmu.write_8(0xFEA0, 0x12).unwrap();
    assert_eq!(mmu.read_8(0xFEA0), 0xFF);
    assert_eq!(mmu.read_8(0xFEFF), 0xFF);
}

#[test]
fn dma_copies_160_bytes_to_oam() {
    let mut mmu = mmu_with_rom(0);
    for i in 0..0xA0u16 {
        mmu.write_8(0xC100 + i, i as u8 ^ 0x5A).unwrap();
    }
    mmu.write_8(0xFF46, 0xC1).unwrap();
    for i in 0..0xA0u16 {
        assert_eq!(mmu.read_8(0xFE00 + i), i as u8 ^ 0x5A);
    }
}

#[test]
fn two_byte_accesses() {
    let mut mmu = mmu_with_rom(0);
    mmu.write_16(0xC000, 0xBEEF).unwrap();
    assert_eq!(mmu.read_8(0xC000), 0xEF);
    assert_eq!(mmu.read_8(0xC001), 0xBE);
    assert_eq!(mmu.read_16(0xC000), Ok(0xBEEF));
    assert_eq!(mmu.read_16(0x7FFF), Err(MemError::Invalid2ByteAccess));
    assert_eq!(mmu.read_16(0xFFFE), Err(MemError::Invalid2ByteAccess));
    assert_eq!(mmu.read_16(0xFFFF), Err(MemError::OutOfBounds));
    assert_eq!(mmu.write_16(0xDFFF, 1), Err(MemError::Invalid2ByteAccess));
    assert_eq!(
        mmu.write_16(0x0100, 1),
        Err(MemError::InvalidAddressRegion(MemRegion::Rom))
    );
    assert_eq!(mmu.write_16(0xFFFF, 1), Err(MemError::OutOfBounds));
}

#[test]
fn boot_overlay_until_disabled() {
    let boot: Vec<u8> = (0..=255u8).collect();
    let mut bytes = rom_bytes(0xEE);
    bytes[0x150] = 0xEE;
    let mut mmu = MMU::with_boot_rom(Rom::load_from_bytes(bytes).unwrap(), boot);
    assert!(mmu.boot_rom_enabled());
    assert_eq!(mmu.read_8(0x0010), 0x10);
    assert_eq!(mmu.read_8(0x0100), 0xEE);
    assert_eq!(mmu.read_16(0x0010), Ok(0x1110));
    mmu.write_8(0xFF50, 0x02).unwrap();
    assert!(mmu.boot_rom_enabled());
    mmu.write_8(0xFF50, 0x01).unwrap();
    assert!(!mmu.boot_rom_enabled());
    assert_eq!(mmu.read_8(0x0010), 0xEE);
}

#[test]
fn interrupt_flags() {
    let mut mmu = mmu_with_rom(0);
    mmu.write_8(0xFFFF, 0x02).unwrap();
    mmu.request_interrupt(Interrupt::LcdcStatus);
    assert_eq!(mmu.read_8(0xFF0F), 0x02);
    assert!(mmu.interrupt_enabled(Interrupt::LcdcStatus));
    assert!(mmu.interrupt_requested(Interrupt::LcdcStatus));
    assert!(!mmu.interrupt_requested(Interrupt::VBlank));
    mmu.reset_requested_interrupt(Interrupt::LcdcStatus);
    assert_eq!(mmu.read_8(0xFF0F), 0x00);
    assert_eq!(Interrupt::Input.jump_address(), 0x60);
    assert_eq!(Interrupt::TimerOverflow.if_ie_bit(), 2);
}

#[test]
fn regions() {
    assert_eq!(MemRegion::get_region(0x0000), MemRegion::Rom);
    assert_eq!(MemRegion::get_region(0xE000), MemRegion::Echo);
    assert_eq!(MemRegion::get_region(0xFFFF), MemRegion::IEReg);
    assert_eq!(MemRegion::get_region_start(MemRegion::HRam), 0xFF80);
    assert!(MemRegion::is_region_end(0xFE9F));
    assert!(!MemRegion::is_region_end(0xFEA0));
    assert_eq!(MemRegion::get_offset_in_region(0xC123), 0x0123);
    assert!(MemRegion::is_in_boot_rom(0xFF));
    assert!(!MemRegion::is_in_boot_rom(0x100));
}

#[test]
fn program_writes_to_ly_and_stat_mode_are_ignored() {
    let mut mmu = mmu_with_rom(0);
    mmu.set_ly(42);
    mmu.write_8(0xFF44, 7).unwrap();
    assert_eq!(mmu.read_ly(), 42);
    mmu.raw_write_8(0xFF41, 0x03);
    mmu.write_8(0xFF41, 0x40).unwrap();
    assert_eq!(mmu.read_8(0xFF41), 0x43);
}
