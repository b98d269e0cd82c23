use gbrs::memory::MMU;
use gbrs::ppu::{PIXEL_COUNT, PPU};
use gbrs::rom::Rom;
use gbrs::video_regs::{BgTileMapMode, LcdcSettings, Palette, SelectedTileMap, TileMapTile, VideoMode};

fn mmu() -> MMU {
    MMU::new(Rom::load_from_bytes(vec![0u8; 0x8000]).unwrap())
}

#[test]
fn background_line_uses_tile_and_palette() {
    let mut m = mmu();
    // LCD on, BG on, unsigned tile data, map at 0x9800
    m.write_8(0xFF40, 0x91).unwrap();
    m.write_8(0xFF47, 0xE4).unwrap();
    // map entry 0x10 names the tile data at 0x8010: row 0 low plane 0xF0, high plane 0x0F
    // -> colours 1,1,1,1,2,2,2,2
    m.write_8(0x8010, 0xF0).unwrap();
    m.write_8(0x8011, 0x0F).unwrap();
    m.write_8(0x9800, 0x10).unwrap();
    m.set_ly(0);
    let mut buffer = vec![3u8; PIXEL_COUNT];
    PPU::write_line(&m, &mut buffer);
    assert_eq!(&buffer[0..8], &[1, 1, 1, 1, 2, 2, 2, 2]);
    assert_eq!(&buffer[8..16], &[0; 8]);
    assert_eq!(buffer[160], 3);
    assert_eq!(PPU::pixel(&m, 5, 0), 2);
}

#[test]
fn palette_remaps_colours() {
    let m = mmu();
    let p: Palette = m.bg_palette();
    assert_eq!(p.remap(3), 0);
    let mut m = mmu();
    m.write_8(0xFF47, 0x1B).unwrap();
    let p = m.bg_palette();
    assert_eq!([p.remap(0), p.remap(1), p.remap(2), p.remap(3)], [3, 2, 1, 0]);
    m.write_8(0xFF48, 0xE4).unwrap();
    assert_eq!(m.sprite_palette_0().remap(2), 2);
}

#[test]
fn tile_decoding_is_msb_first() {
    let mut m = mmu();
    m.write_8(0x8000, 0x80).unwrap();
    m.write_8(0x8001, 0x01).unwrap();
    let tile = m.read_sprite(0x8000);
    assert_eq!(tile.get(0, 0), 1);
    assert_eq!(tile.get(7, 0), 2);
    assert_eq!(tile.get(3, 0), 0);
}

#[test]
fn signed_tile_addressing() {
    let mut m = mmu();
    m.write_8(0xFF40, 0x81).unwrap();
    m.write_8(0x9800, 0xFF).unwrap();
    let map = m.load_bg_tilemap();
    assert_eq!(map.mode, BgTileMapMode::Signed);
    assert_eq!(map.map[0], TileMapTile::Signed(-1));
    assert_eq!(map.get_tile_address(0, 0), 0x8FFF);
    m.write_8(0xFF40, 0x91).unwrap();
    let map = m.load_bg_tilemap();
    assert_eq!(map.get_tile_address(0, 0), 0x80FF);
    m.write_8(0x9801, 0x01).unwrap();
    assert_eq!(m.load_bg_tilemap().get_tile_address(1, 0), 0x8001);
    assert_eq!(BgTileMapMode::Signed.pivot(), 0x9000);
    assert_eq!(SelectedTileMap::High.start_address(), 0x9C00);
}

#[test]
fn window_starts_at_wx_minus_7() {
    let mut m = mmu();
    // LCD, BG, window on; window map 0x9C00; unsigned tiles
    m.write_8(0xFF40, 0xF1).unwrap();
    m.write_8(0xFF47, 0xE4).unwrap();
    // entry 0x20 names the tile data at 0x8020, solid colour 3
    for i in 0..16u16 {
        m.write_8(0x8020 + i, 0xFF).unwrap();
    }
    for i in 0..1024u16 {
        m.write_8(0x9C00 + i, 0x20).unwrap();
    }
    m.write_8(0xFF4A, 0).unwrap();
    m.write_8(0xFF4B, 7 + 80).unwrap();
    m.set_ly(0);
    assert_eq!(PPU::pixel(&m, 79, 0), 0);
    assert_eq!(PPU::pixel(&m, 80, 0), 3);
}

#[test]
fn sprite_drawn_over_background() {
    let mut m = mmu();
    // LCD, BG, objects on
    m.write_8(0xFF40, 0x93).unwrap();
    m.write_8(0xFF47, 0xE4).unwrap();
    m.write_8(0xFF48, 0xE4).unwrap();
    // tile 3 row 0 solid colour 1
    m.write_8(0x8030, 0xFF).unwrap();
    // object 0 at screen (10, 0) with tile 3
    m.write_8(0xFE00, 16).unwrap();
    m.write_8(0xFE01, 18).unwrap();
    m.write_8(0xFE02, 3).unwrap();
    m.write_8(0xFE03, 0).unwrap();
    m.set_ly(0);
    assert_eq!(PPU::pixel(&m, 9, 0), 0);
    assert_eq!(PPU::pixel(&m, 10, 0), 1);
    assert_eq!(PPU::pixel(&m, 17, 0), 1);
    assert_eq!(PPU::pixel(&m, 18, 0), 0);
}

#[test]
fn lcd_register_accessors() {
    let mut m = mmu();
    m.write_8(0xFF40, 0xA5).unwrap();
    assert!(m.display_enabled());
    assert!(m.window_enabled());
    assert!(m.bg_tile_map_display_select() == SelectedTileMap::Low);
    assert!(m.background_enabled());
    assert!(m.sprite_size() == gbrs::video_regs::SpriteSize::Double);
    let s = LcdcSettings::from_byte(0xA5);
    assert!(s.display_enabled && s.window_enabled && !s.sprite_display_enabled);
    m.set_video_mode(VideoMode::PixelTransfer);
    assert_eq!(m.get_video_mode(), VideoMode::PixelTransfer);
    m.enable_hblank_interrupt(true);
    assert!(m.get_hblank_interrupt_enabled());
    m.enable_hblank_interrupt(false);
    assert!(!m.get_hblank_interrupt_enabled());
    m.set_lyc(5);
    m.set_ly(5);
    m.update_lyc_ly_cmp();
    assert!(m.get_lcd_status(gbrs::video_regs::LcdStatusBit::LycLyCmp));
    m.set_scx(3);
    m.set_scy(4);
    m.set_wx(5);
    m.set_wy(6);
    assert_eq!((m.read_scx(), m.read_scy(), m.read_wx(), m.read_wy()), (3, 4, 5, 6));
}
