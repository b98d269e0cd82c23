use vstd::prelude::*;

use crate::bits::{bit_set, check_bit};
use crate::memory::{
    MemView, MMU, BGP, LCDC, LY, LYC, OBP0, OBP1, SCX, SCY, STAT, WX, WY,
};

verus! {

/// The four PPU modes.
#[derive(Clone, Copy, PartialEq, Eq, Debug, Structural)]
pub enum VideoMode {
    HBlank,
    VBlank,
    OAM,
    PixelTransfer,
}

impl VideoMode {
    /// The code of the mode in STAT[1:0].
    pub open spec fn code(self) -> u8 {
        match self {
            VideoMode::HBlank => 0,
            VideoMode::VBlank => 1,
            VideoMode::OAM => 2,
            VideoMode::PixelTransfer => 3,
        }
    }

    pub fn to_two_bit(&self) -> (r: u8)
        ensures
            r == self.code(),
    {
        match self {
            VideoMode::HBlank => 0,
            VideoMode::VBlank => 1,
            VideoMode::OAM => 2,
            VideoMode::PixelTransfer => 3,
        }
    }

    pub fn from_two_bit(val: u8) -> (r: VideoMode)
        ensures
            r.code() == val % 4,
    {
        let v = val % 4;
        if v == 0 {
            VideoMode::HBlank
        } else if v == 1 {
            VideoMode::VBlank
        } else if v == 2 {
            VideoMode::OAM
        } else {
            VideoMode::PixelTransfer
        }
    }
}

/// Sprite height: 8x8 or 8x16.
#[derive(Clone, Copy, PartialEq, Eq, Debug, Structural)]
pub enum SpriteSize {
    Single,
    Double,
}

/// How tile indices of the BG and window maps address tile data.
#[derive(Clone, Copy, PartialEq, Eq, Debug, Structural)]
pub enum BgTileMapMode {
    /// Signed index around 0x9000
    Signed,
    /// Unsigned index from 0x8000
    Unsigned,
}

impl BgTileMapMode {
    pub open spec fn pivot_spec(self) -> u16 {
        match self {
            BgTileMapMode::Signed => 0x9000,
            BgTileMapMode::Unsigned => 0x8000,
        }
    }

    /// First and last address of the tile data this mode reaches.
    pub fn address_range(&self) -> (r: (u16, u16))
        ensures
            self == BgTileMapMode::Signed ==> r == (0x8800u16, 0x97FFu16),
            self == BgTileMapMode::Unsigned ==> r == (0x8000u16, 0x8FFFu16),
    {
        match self {
            BgTileMapMode::Signed => (0x8800, 0x97FF),
            BgTileMapMode::Unsigned => (0x8000, 0x8FFF),
        }
    }

    /// The address of tile 0.
    pub fn pivot(&self) -> (r: u16)
        ensures
            r == self.pivot_spec(),
    {
        match self {
            BgTileMapMode::Signed => 0x9000,
            BgTileMapMode::Unsigned => 0x8000,
        }
    }
}

/// Which of the two 32x32 tile maps is selected.
#[derive(Clone, Copy, PartialEq, Eq, Debug, Structural)]
pub enum SelectedTileMap {
    High,
    Low,
}

impl SelectedTileMap {
    pub open spec fn start_spec(self) -> u16 {
        match self {
            SelectedTileMap::High => 0x9C00,
            SelectedTileMap::Low => 0x9800,
        }
    }

    pub fn start_address(&self) -> (r: u16)
        ensures
            r == self.start_spec(),
    {
        match self {
            SelectedTileMap::High => 0x9C00,
            SelectedTileMap::Low => 0x9800,
        }
    }
}

/// The named bits of STAT.
#[derive(Clone, Copy, PartialEq, Eq, Debug, Structural)]
pub enum LcdStatusBit {
    LycStatInterrupt,
    OamStatInterrupt,
    VBlankStatInterrupt,
    HBlankStatInterrupt,
    LycLyCmp,
}

impl LcdStatusBit {
    pub open spec fn bit_spec(self) -> u8 {
        match self {
            LcdStatusBit::LycStatInterrupt => 6,
            LcdStatusBit::OamStatInterrupt => 5,
            LcdStatusBit::VBlankStatInterrupt => 4,
            LcdStatusBit::HBlankStatInterrupt => 3,
            LcdStatusBit::LycLyCmp => 2,
        }
    }

    pub fn bit(&self) -> (r: u8)
        ensures
            r == self.bit_spec(),
            2 <= r <= 6,
    {
        match self {
            LcdStatusBit::LycStatInterrupt => 6,
            LcdStatusBit::OamStatInterrupt => 5,
            LcdStatusBit::VBlankStatInterrupt => 4,
            LcdStatusBit::HBlankStatInterrupt => 3,
            LcdStatusBit::LycLyCmp => 2,
        }
    }
}

/// The named bits of LCDC.
#[derive(Clone, Copy, PartialEq, Eq, Debug, Structural)]
pub enum LcdControlBit {
    LcdPpuEnable,
    WindowTileMapArea,
    WindowEnable,
    BgWindowTileDataArea,
    BgTileMapArea,
    ObjSize,
    ObjEnable,
    BgWindowEnable,
}

impl LcdControlBit {
    pub open spec fn bit_spec(self) -> u8 {
        match self {
            LcdControlBit::LcdPpuEnable => 7,
            LcdControlBit::WindowTileMapArea => 6,
            LcdControlBit::WindowEnable => 5,
            LcdControlBit::BgWindowTileDataArea => 4,
            LcdControlBit::BgTileMapArea => 3,
            LcdControlBit::ObjSize => 2,
            LcdControlBit::ObjEnable => 1,
            LcdControlBit::BgWindowEnable => 0,
        }
    }

    pub fn bit(&self) -> (r: u8)
        ensures
            r == self.bit_spec(),
            r < 8,
    {
        match self {
            LcdControlBit::LcdPpuEnable => 7,
            LcdControlBit::WindowTileMapArea => 6,
            LcdControlBit::WindowEnable => 5,
            LcdControlBit::BgWindowTileDataArea => 4,
            LcdControlBit::BgTileMapArea => 3,
            LcdControlBit::ObjSize => 2,
            LcdControlBit::ObjEnable => 1,
            LcdControlBit::BgWindowEnable => 0,
        }
    }
}

/// LCDC decoded.
pub struct LcdcSettings {
    pub display_enabled: bool,
    pub window_tile_map_display_select: SelectedTileMap,
    pub window_enabled: bool,
    pub bg_and_window_tile_data_select: BgTileMapMode,
    pub bg_tile_map_display_select: SelectedTileMap,
    pub sprite_size: SpriteSize,
    pub sprite_display_enabled: bool,
    pub background_enabled: bool,
}

pub open spec fn lcdc_bit(m: MemView, bit: u8) -> bool {
    bit_set(m.read(LCDC), bit)
}

pub open spec fn selected_map(high: bool) -> SelectedTileMap {
    if high {
        SelectedTileMap::High
    } else {
        SelectedTileMap::Low
    }
}

pub open spec fn data_mode(m: MemView) -> BgTileMapMode {
    if lcdc_bit(m, 4) {
        BgTileMapMode::Unsigned
    } else {
        BgTileMapMode::Signed
    }
}

impl LcdcSettings {
    pub fn from_byte(byte: u8) -> (r: LcdcSettings)
        ensures
            r.display_enabled == bit_set(byte, 7),
            r.window_tile_map_display_select == selected_map(bit_set(byte, 6)),
            r.window_enabled == bit_set(byte, 5),
            r.bg_and_window_tile_data_select == (if bit_set(byte, 4) {
                BgTileMapMode::Unsigned
            } else {
                BgTileMapMode::Signed
            }),
            r.bg_tile_map_display_select == selected_map(bit_set(byte, 3)),
            r.sprite_size == (if bit_set(byte, 2) {
                SpriteSize::Double
            } else {
                SpriteSize::Single
            }),
            r.sprite_display_enabled == bit_set(byte, 1),
            r.background_enabled == bit_set(byte, 0),
    {
        LcdcSettings {
            display_enabled: check_bit(byte, 7),
            window_tile_map_display_select: if check_bit(byte, 6) {
                SelectedTileMap::High
            } else {
                SelectedTileMap::Low
            },
            window_enabled: check_bit(byte, 5),
            bg_and_window_tile_data_select: if check_bit(byte, 4) {
                BgTileMapMode::Unsigned
            } else {
                BgTileMapMode::Signed
            },
            bg_tile_map_display_select: if check_bit(byte, 3) {
                SelectedTileMap::High
            } else {
                SelectedTileMap::Low
            },
            sprite_size: if check_bit(byte, 2) {
                SpriteSize::Double
            } else {
                SpriteSize::Single
            },
            sprite_display_enabled: check_bit(byte, 1),
            background_enabled: check_bit(byte, 0),
        }
    }
}

/// A 4-entry colour remap table from a palette register (2 bits per slot, LSB first).
pub struct Palette {
    pub mapping: [u8; 4],
}

/// The colour a palette byte gives to colour index `c`.
pub open spec fn palette_spec(byte: u8, c: u8) -> u8 {
    let k = c % 4;
    (if k == 0 {
        byte % 4
    } else if k == 1 {
        (byte / 4) % 4
    } else if k == 2 {
        (byte / 16) % 4
    } else {
        (byte / 64) % 4
    }) as u8
}

/// The entry a colour index selects is the colour the palette byte gives it.
pub proof fn lemma_palette_entry(p: &Palette, byte: u8, c: u8)
    requires
        p.wf_for(byte),
    ensures
        p.mapping@[(c % 4) as int] == palette_spec(byte, c),
{
    assert(p.mapping@[((c % 4) as u8) as int] == palette_spec(byte, (c % 4) as u8));
}

impl Palette {
    pub open spec fn wf_for(&self, byte: u8) -> bool {
        forall|c: u8| c < 4 ==> self.mapping@[c as int] == palette_spec(byte, c)
    }

    pub fn from_byte(byte: u8) -> (r: Palette)
        ensures
            r.wf_for(byte),
    {
        Palette { mapping: [byte % 4, (byte / 4) % 4, (byte / 16) % 4, (byte / 64) % 4] }
    }

    /// The shade for a colour index (only its low two bits count).
    pub fn remap(&self, color: u8) -> (r: u8)
        ensures
            r == self.mapping@[(color % 4) as int],
    {
        self.mapping[(color % 4) as usize]
    }
}

/// The 2-bit colour of column `col` (0 = leftmost) of a tile row with bit planes `lo`, `hi`.
pub open spec fn tile_pixel(lo: u8, hi: u8, col: u8) -> u8 {
    (2 * ((hi >> (7 - col) as u8) & 1) + ((lo >> (7 - col) as u8) & 1)) as u8
}

pub fn decode_pixel(lo: u8, hi: u8, col: u8) -> (r: u8)
    requires
        col < 8,
    ensures
        r == tile_pixel(lo, hi, col),
        r < 4,
{
    let s: u8 = 7 - col;
    let h = (hi >> s) & 1;
    let l = (lo >> s) & 1;
    assert(h <= 1 && l <= 1) by (bit_vector)
        requires
            h == (hi >> s) & 1,
            l == (lo >> s) & 1,
    ;
    2 * h + l
}

/// The colour index at (x, y) of the 16-byte tile at `a`.
pub open spec fn tile_pixel_at(m: MemView, a: u16, x: u8, y: u8) -> u8 {
    tile_pixel(
        m.read(((a + 2 * y) % 0x10000) as u16),
        m.read(((a + 2 * y + 1) % 0x10000) as u16),
        x,
    )
}

/// A decoded 8x8 tile: 64 colour indices, row by row.
pub struct Sprite {
    pub colors: Vec<u8>,
}

impl Sprite {
    /// The colour index at column `x` of row `y`.
    pub fn get(&self, x: usize, y: usize) -> (r: u8)
        requires
            x < 8,
            y < 8,
            self.colors@.len() == 64,
        ensures
            r == self.colors@[8 * y + x],
    {
        self.colors[8 * y + x]
    }
}

/// An entry of a tile map, read according to the addressing mode.
#[derive(Clone, Copy, PartialEq, Eq, Debug, Structural)]
pub enum TileMapTile {
    Signed(i8),
    Unsigned(u8),
}

impl TileMapTile {
    pub fn unsigned_from_byte(byte: u8) -> (r: TileMapTile)
        ensures
            r == TileMapTile::Unsigned(byte),
    {
        TileMapTile::Unsigned(byte)
    }

    pub fn signed_from_byte(byte: u8) -> (r: TileMapTile)
        ensures
            r == TileMapTile::Signed(byte as i8),
    {
        TileMapTile::Signed(byte as i8)
    }

    pub fn unwrap_signed(self) -> (r: i8)
        requires
            self is Signed,
        ensures
            r == self->Signed_0,
    {
        match self {
            TileMapTile::Signed(num) => num,
            TileMapTile::Unsigned(num) => num as i8,
        }
    }

    pub fn unwrap_unsigned(self) -> (r: u8)
        requires
            self is Unsigned,
        ensures
            r == self->Unsigned_0,
    {
        match self {
            TileMapTile::Unsigned(num) => num,
            TileMapTile::Signed(num) => num as u8,
        }
    }
}

/// Address of the tile data that the tile-map byte `t` names: the pivot of the mode plus
/// `t`, read unsigned from 0x8000 or signed around 0x9000.
pub open spec fn tile_address(mode: BgTileMapMode, t: u8) -> u16 {
    match mode {
        BgTileMapMode::Unsigned => (0x8000 + t) as u16,
        BgTileMapMode::Signed => (0x9000 + (t as i8)) as u16,
    }
}

/// Address of the tile data a map entry names: the pivot of its mode plus the entry.
pub open spec fn entry_address(t: TileMapTile) -> u16 {
    match t {
        TileMapTile::Unsigned(v) => (0x8000 + v) as u16,
        TileMapTile::Signed(v) => (0x9000 + v) as u16,
    }
}

/// A 32x32 tile map with the addressing mode of its entries.
pub struct BgTileMap {
    pub mode: BgTileMapMode,
    pub map: Vec<TileMapTile>,
}

impl BgTileMap {
    /// The map holds the 1024 bytes at `base` of `m`, read in the mode of `m`.
    pub open spec fn loaded_from(&self, m: MemView, base: u16) -> bool {
        &&& self.mode == data_mode(m)
        &&& self.map@.len() == 1024
        &&& forall|i: int|
            0 <= i < 1024 ==> self.map@[i] == (match self.mode {
                BgTileMapMode::Signed => TileMapTile::Signed(m.read((base + i) as u16) as i8),
                BgTileMapMode::Unsigned => TileMapTile::Unsigned(m.read((base + i) as u16)),
            })
    }

    /// The address of the tile at column `x`, row `y` of the map.
    pub fn get_tile_address(&self, x: usize, y: usize) -> (r: u16)
        requires
            x < 32,
            y < 32,
            self.map@.len() == 1024,
            forall|i: int|
                0 <= i < 1024 ==> (self.map@[i] is Signed <==> self.mode == BgTileMapMode::Signed),
        ensures
            r == entry_address(self.map@[32 * y + x]),
    {
        match self.mode {
            BgTileMapMode::Signed => {
                let t = self.map[32 * y + x].unwrap_signed();
                (0x9000i32 + t as i32) as u16
            },
            BgTileMapMode::Unsigned => {
                let t = self.map[32 * y + x].unwrap_unsigned();
                0x8000 + t as u16
            },
        }
    }
}

impl MMU {
    pub fn get_lcdc_bit(&self, bit: u8) -> (r: bool)
        requires
            self.wf(),
            bit < 8,
        ensures
            r == lcdc_bit(self@, bit),
    {
        check_bit(self.read_8(LCDC), bit)
    }

    pub fn read_lcdc_settings(&self) -> (r: LcdcSettings)
        requires
            self.wf(),
        ensures
            r.background_enabled == lcdc_bit(self@, 0),
            r.sprite_display_enabled == lcdc_bit(self@, 1),
            r.window_enabled == lcdc_bit(self@, 5),
            r.display_enabled == lcdc_bit(self@, 7),
    {
        LcdcSettings::from_byte(self.read_8(LCDC))
    }

    pub fn display_enabled(&self) -> (r: bool)
        requires
            self.wf(),
        ensures
            r == lcdc_bit(self@, 7),
    {
        self.get_lcdc_bit(7)
    }

    pub fn window_tile_map_display_select(&self) -> (r: SelectedTileMap)
        requires
            self.wf(),
        ensures
            r == selected_map(lcdc_bit(self@, 6)),
    {
        if self.get_lcdc_bit(6) {
            SelectedTileMap::High
        } else {
            SelectedTileMap::Low
        }
    }

    pub fn window_enabled(&self) -> (r: bool)
        requires
            self.wf(),
        ensures
            r == lcdc_bit(self@, 5),
    {
        self.get_lcdc_bit(5)
    }

    pub fn bg_and_window_tile_data_select(&self) -> (r: BgTileMapMode)
        requires
            self.wf(),
        ensures
            r == data_mode(self@),
    {
        if self.get_lcdc_bit(4) {
            BgTileMapMode::Unsigned
        } else {
            BgTileMapMode::Signed
        }
    }

    pub fn bg_tile_map_display_select(&self) -> (r: SelectedTileMap)
        requires
            self.wf(),
        ensures
            r == selected_map(lcdc_bit(self@, 3)),
    {
        if self.get_lcdc_bit(3) {
            SelectedTileMap::High
        } else {
            SelectedTileMap::Low
        }
    }

    pub fn sprite_size(&self) -> (r: SpriteSize)
        requires
            self.wf(),
        ensures
            r == (if lcdc_bit(self@, 2) {
                SpriteSize::Double
            } else {
                SpriteSize::Single
            }),
    {
        if self.get_lcdc_bit(2) {
            SpriteSize::Double
        } else {
            SpriteSize::Single
        }
    }

    pub fn sprite_display_enabled(&self) -> (r: bool)
        requires
            self.wf(),
        ensures
            r == lcdc_bit(self@, 1),
    {
        self.get_lcdc_bit(1)
    }

    pub fn background_enabled(&self) -> (r: bool)
        requires
            self.wf(),
        ensures
            r == lcdc_bit(self@, 0),
    {
        self.get_lcdc_bit(0)
    }

    fn set_stat_bit(&mut self, bit: u8, high: bool)
        requires
            old(self).wf(),
            bit < 8,
        ensures
            final(self).wf(),
            final(self)@ == old(self)@.raw_write(
                STAT,
                if high {
                    old(self)@.read(STAT) | (1u8 << bit)
                } else {
                    old(self)@.read(STAT) & !(1u8 << bit)
                },
            ),
    {
        let val = self.read_8(STAT);
        let v = if high {
            val | (1u8 << bit)
        } else {
            val & !(1u8 << bit)
        };
        self.raw_write_8(STAT, v);
    }

    fn get_stat_bit(&self, bit: u8) -> (r: bool)
        requires
            self.wf(),
            bit < 8,
        ensures
            r == bit_set(self@.read(STAT), bit),
    {
        check_bit(self.read_8(STAT), bit)
    }

    pub fn enable_lyc_interrupt(&mut self, high: bool)
        requires
            old(self).wf(),
        ensures
            final(self).wf(),
            final(self)@ == old(self)@.raw_write(
                STAT,
                if high {
                    old(self)@.read(STAT) | (1u8 << 6u8)
                } else {
                    old(self)@.read(STAT) & !(1u8 << 6u8)
                },
            ),
    {
        self.set_stat_bit(6, high);
    }

    pub fn get_lyc_interrupt_enabled(&self) -> (r: bool)
        requires
            self.wf(),
        ensures
            r == bit_set(self@.read(STAT), 6),
    {
        self.get_stat_bit(6)
    }

    pub fn enable_oam_interrupt(&mut self, high: bool)
        requires
            old(self).wf(),
        ensures
            final(self).wf(),
            final(self)@ == old(self)@.raw_write(
                STAT,
                if high {
                    old(self)@.read(STAT) | (1u8 << 5u8)
                } else {
                    old(self)@.read(STAT) & !(1u8 << 5u8)
                },
            ),
    {
        self.set_stat_bit(5, high);
    }

    pub fn get_oam_interrupt_enabled(&self) -> (r: bool)
        requires
            self.wf(),
        ensures
            r == bit_set(self@.read(STAT), 5),
    {
        self.get_stat_bit(5)
    }

    pub fn enable_vblank_interrupt(&mut self, high: bool)
        requires
            old(self).wf(),
        ensures
            final(self).wf(),
            final(self)@ == old(self)@.raw_write(
                STAT,
                if high {
                    old(self)@.read(STAT) | (1u8 << 4u8)
                } else {
                    old(self)@.read(STAT) & !(1u8 << 4u8)
                },
            ),
    {
        self.set_stat_bit(4, high);
    }

    pub fn get_vblank_interrupt_enabled(&self) -> (r: bool)
        requires
            self.wf(),
        ensures
            r == bit_set(self@.read(STAT), 4),
    {
        self.get_stat_bit(4)
    }

    pub fn enable_hblank_interrupt(&mut self, high: bool)
        requires
            old(self).wf(),
        ensures
            final(self).wf(),
            final(self)@ == old(self)@.raw_write(
                STAT,
                if high {
                    old(self)@.read(STAT) | (1u8 << 3u8)
                } else {
                    old(self)@.read(STAT) & !(1u8 << 3u8)
                },
            ),
    {
        self.set_stat_bit(3, high);
    }

    pub fn get_hblank_interrupt_enabled(&self) -> (r: bool)
        requires
            self.wf(),
        ensures
            r == bit_set(self@.read(STAT), 3),
    {
        self.get_stat_bit(3)
    }

    /// Set STAT bit 2 to (LY == LYC).
    pub fn update_lyc_ly_cmp(&mut self)
        requires
            old(self).wf(),
        ensures
            final(self).wf(),
            final(self)@ == old(self)@.raw_write(
                STAT,
                if old(self)@.read(LY) == old(self)@.read(LYC) {
                    old(self)@.read(STAT) | (1u8 << 2u8)
                } else {
                    old(self)@.read(STAT) & !(1u8 << 2u8)
                },
            ),
    {
        let eq = self.read_lyc() == self.read_ly();
        self.set_stat_bit(2, eq);
    }

    pub fn set_lcd_status(&mut self, bit: LcdStatusBit, high: bool)
        requires
            old(self).wf(),
        ensures
            final(self).wf(),
            final(self)@ == old(self)@.raw_write(
                STAT,
                if high {
                    old(self)@.read(STAT) | (1u8 << bit.bit_spec())
                } else {
                    old(self)@.read(STAT) & !(1u8 << bit.bit_spec())
                },
            ),
    {
        self.set_stat_bit(bit.bit(), high);
    }

    pub fn get_lcd_status(&self, bit: LcdStatusBit) -> (r: bool)
        requires
            self.wf(),
        ensures
            r == bit_set(self@.read(STAT), bit.bit_spec()),
    {
        self.get_stat_bit(bit.bit())
    }

    /// Write the mode code into STAT[1:0], keeping the other bits.
    pub fn set_video_mode(&mut self, mode: VideoMode)
        requires
            old(self).wf(),
        ensures
            final(self).wf(),
            final(self)@ == old(self)@.raw_write(
                STAT,
                (old(self)@.read(STAT) / 4 * 4 + mode.code()) as u8,
            ),
    {
        let val = self.read_8(STAT);
        self.raw_write_8(STAT, val / 4 * 4 + mode.to_two_bit());
    }

    pub fn get_video_mode(&self) -> (r: VideoMode)
        requires
            self.wf(),
        ensures
            r.code() == self@.read(STAT) % 4,
    {
        VideoMode::from_two_bit(self.read_8(STAT))
    }

    pub fn set_scy(&mut self, val: u8)
        requires
            old(self).wf(),
        ensures
            final(self).wf(),
            final(self)@ == old(self)@.write(SCY, val),
    {
        let _ = self.write_8(SCY, val);
    }

    pub fn read_scy(&self) -> (r: u8)
        requires
            self.wf(),
        ensures
            r == self@.read(SCY),
    {
        self.read_8(SCY)
    }

    pub fn set_scx(&mut self, val: u8)
        requires
            old(self).wf(),
        ensures
            final(self).wf(),
            final(self)@ == old(self)@.write(SCX, val),
    {
        let _ = self.write_8(SCX, val);
    }

    pub fn read_scx(&self) -> (r: u8)
        requires
            self.wf(),
        ensures
            r == self@.read(SCX),
    {
        self.read_8(SCX)
    }

    /// Set LY; program writes to LY are ignored, so this goes around them.
    pub fn set_ly(&mut self, val: u8)
        requires
            old(self).wf(),
        ensures
            final(self).wf(),
            final(self)@ == old(self)@.raw_write(LY, val),
    {
        self.raw_write_8(LY, val);
    }

    pub fn read_ly(&self) -> (r: u8)
        requires
            self.wf(),
        ensures
            r == self@.read(LY),
    {
        self.read_8(LY)
    }

    pub fn set_lyc(&mut self, val: u8)
        requires
            old(self).wf(),
        ensures
            final(self).wf(),
            final(self)@ == old(self)@.write(LYC, val),
    {
        let _ = self.write_8(LYC, val);
    }

    pub fn read_lyc(&self) -> (r: u8)
        requires
            self.wf(),
        ensures
            r == self@.read(LYC),
    {
        self.read_8(LYC)
    }

    pub fn set_wy(&mut self, val: u8)
        requires
            old(self).wf(),
        ensures
            final(self).wf(),
            final(self)@ == old(self)@.write(WY, val),
    {
        let _ = self.write_8(WY, val);
    }

    pub fn read_wy(&self) -> (r: u8)
        requires
            self.wf(),
        ensures
            r == self@.read(WY),
    {
        self.read_8(WY)
    }

    pub fn set_wx(&mut self, val: u8)
        requires
            old(self).wf(),
        ensures
            final(self).wf(),
            final(self)@ == old(self)@.write(WX, val),
    {
        let _ = self.write_8(WX, val);
    }

    pub fn read_wx(&self) -> (r: u8)
        requires
            self.wf(),
        ensures
            r == self@.read(WX),
    {
        self.read_8(WX)
    }

    pub fn bg_palette(&self) -> (r: Palette)
        requires
            self.wf(),
        ensures
            r.wf_for(self@.read(BGP)),
    {
        Palette::from_byte(self.read_8(BGP))
    }

    pub fn sprite_palette_0(&self) -> (r: Palette)
        requires
            self.wf(),
        ensures
            r.wf_for(self@.read(OBP0)),
    {
        Palette::from_byte(self.read_8(OBP0))
    }

    pub fn sprite_palette_1(&self) -> (r: Palette)
        requires
            self.wf(),
        ensures
            r.wf_for(self@.read(OBP1)),
    {
        Palette::from_byte(self.read_8(OBP1))
    }

    /// Read the 16 bytes at `address` and decode them into an 8x8 tile.
    pub fn read_sprite(&self, address: u16) -> (r: Sprite)
        requires
            self.wf(),
        ensures
            r.colors@.len() == 64,
            forall|x: u8, y: u8|
                x < 8 && y < 8 ==> r.colors@[8 * y + x] == tile_pixel_at(self@, address, x, y),
    {
        let mut colors: Vec<u8> = Vec::new();
        let mut y: u8 = 0;
        while y < 8
            invariant
                self.wf(),
                y <= 8,
                colors@.len() == 8 * y,
                forall|yy: u8, x: u8|
                    x < 8 && yy < y ==> colors@[8 * yy + x] == tile_pixel_at(self@, address, x, yy),
            decreases 8 - y,
        {
            let lo = self.read_8(((address as u32 + 2 * y as u32) % 0x10000) as u16);
            let hi = self.read_8(((address as u32 + 2 * y as u32 + 1) % 0x10000) as u16);
            let mut x: u8 = 0;
            while x < 8
                invariant
                    self.wf(),
                    y < 8,
                    x <= 8,
                    colors@.len() == 8 * y + x,
                    lo == self@.read(((address + 2 * y) % 0x10000) as u16),
                    hi == self@.read(((address + 2 * y + 1) % 0x10000) as u16),
                    forall|yy: u8, xx: u8|
                        xx < 8 && yy < y ==> colors@[8 * yy + xx] == tile_pixel_at(
                            self@,
                            address,
                            xx,
                            yy,
                        ),
                    forall|xx: u8| xx < x ==> colors@[8 * y + xx] == tile_pixel_at(self@, address, xx, y),
                decreases 8 - x,
            {
                colors.push(decode_pixel(lo, hi, x));
                x = x + 1;
            }
            y = y + 1;
        }
        Sprite { colors }
    }

    /// The background tile map selected by LCDC, with the addressing mode.
    pub fn load_bg_tilemap(&self) -> (r: BgTileMap)
        requires
            self.wf(),
        ensures
            r.loaded_from(self@, selected_map(lcdc_bit(self@, 3)).start_spec()),
    {
        let selected = self.bg_tile_map_display_select();
        self.load_tilemap(selected.start_address())
    }

    /// The window tile map selected by LCDC, with the addressing mode.
    pub fn load_window_tilemap(&self) -> (r: BgTileMap)
        requires
            self.wf(),
        ensures
            r.loaded_from(self@, selected_map(lcdc_bit(self@, 6)).start_spec()),
    {
        let selected = self.window_tile_map_display_select();
        self.load_tilemap(selected.start_address())
    }

    fn load_tilemap(&self, address: u16) -> (r: BgTileMap)
        requires
            self.wf(),
            address <= 0x9C00,
        ensures
            r.loaded_from(self@, address),
    {
        let mode = self.bg_and_window_tile_data_select();
        let mut map: Vec<TileMapTile> = Vec::new();
        let mut idx: u16 = 0;
        while idx < 1024
            invariant
                self.wf(),
                address <= 0x9C00,
                idx <= 1024,
                mode == data_mode(self@),
                map@.len() == idx,
                forall|i: int|
                    0 <= i < idx ==> map@[i] == (match mode {
                        BgTileMapMode::Signed => TileMapTile::Signed(
                            self@.read((address + i) as u16) as i8,
                        ),
                        BgTileMapMode::Unsigned => TileMapTile::Unsigned(
                            self@.read((address + i) as u16),
                        ),
                    }),
            decreases 1024 - idx,
        {
            let byte = self.read_8(address + idx);
            let t = match mode {
                BgTileMapMode::Signed => TileMapTile::signed_from_byte(byte),
                BgTileMapMode::Unsigned => TileMapTile::unsigned_from_byte(byte),
            };
            map.push(t);
            idx = idx + 1;
        }
        BgTileMap { mode, map }
    }
}

} // verus!
