use gbrs::rom::{ram_size_from_byte, rom_size_from_byte, title_from_bytes, CartridgeType, Rom, RomError};

fn image() -> Vec<u8> {
    let mut bytes = vec![0u8; 0x8000];
    bytes[0x134..0x134 + 5].copy_from_slice(b"TETRA");
    bytes[0x143] = 0x80;
    bytes[0x146] = 0x03;
    bytes[0x14A] = 0x01;
    bytes
}

#[test]
fn header_fields() {
    let rom = Rom::load_from_bytes(image()).unwrap();
    assert_eq!(rom.title(), "TETRA");
    assert!(rom.is_color());
    assert!(rom.is_super_game_boy());
    assert!(!rom.is_japanese());
    assert_eq!(rom.rom_size, 32768);
    assert_eq!(rom.ram_size, 0);
    assert_eq!(rom.cartridge_type, CartridgeType::RomOnly);
    assert_eq!(rom.read_8(0x134), b'T');
    assert_eq!(rom.read_16(0x134), 0x4554);
}

#[test]
fn header_errors() {
    assert_eq!(Rom::load_from_bytes(vec![0u8; 0x7FFF]).err(), Some(RomError::InvalidRomData));
    let mut b = image();
    b[0x148] = 0x07;
    assert_eq!(Rom::load_from_bytes(b).err(), Some(RomError::UnsupportedRomSize));
    let mut b = image();
    b[0x148] = 0x01;
    assert_eq!(Rom::load_from_bytes(b).err(), Some(RomError::InvalidRomData));
    let mut b = image();
    b[0x149] = 0x05;
    assert_eq!(Rom::load_from_bytes(b).err(), Some(RomError::UnsupportedRamSize));
    let mut b = image();
    b[0x147] = 0x13;
    assert_eq!(Rom::load_from_bytes(b).err(), Some(RomError::UnsupportedCartridgeType(0x13)));
}

#[test]
fn size_tables() {
    assert_eq!(rom_size_from_byte(0x00), Ok(32768));
    assert_eq!(rom_size_from_byte(0x06), Ok(2097152));
    assert_eq!(rom_size_from_byte(0x53), Ok(1310720));
    assert_eq!(rom_size_from_byte(0x55), Err(RomError::UnsupportedRomSize));
    assert_eq!(ram_size_from_byte(0x03), Ok(32768));
    assert_eq!(ram_size_from_byte(0x04), Ok(131072));
    assert_eq!(ram_size_from_byte(0x09), Err(RomError::UnsupportedRamSize));
}

#[test]
fn title_stops_at_nul() {
    assert_eq!(title_from_bytes(&b"AB\0CD".to_vec()), "AB");
    assert_eq!(title_from_bytes(&b"XYZ".to_vec()), "XYZ");
    assert_eq!(title_from_bytes(&vec![0u8, 65]), "");
}
