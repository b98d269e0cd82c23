use vstd::prelude::*;

use crate::bits::{bit_set, check_bit};
use crate::memory::{MemView, MMU, BGP, LY, OBP0, OBP1, SCX, SCY, WX, WY};
use crate::video_regs::{
    data_mode, decode_pixel, lcdc_bit, lemma_palette_entry, palette_spec, selected_map, tile_pixel_at, BgTileMapMode,
    Palette,
};

verus! {

pub const SCREEN_WIDTH: usize = 160;
pub const SCREEN_HEIGHT: usize = 144;
pub const PIXEL_COUNT: usize = 23040;
/// At most this many objects are drawn on one line.
pub const MAX_OBJECTS_PER_LINE: u8 = 10;
pub const OAM_ENTRIES: u8 = 40;

/// Address of the tile data that a tile-map byte names, in the addressing mode of `m`:
/// 0x8000 plus the byte, or 0x9000 plus the byte read as signed.
pub open spec fn tile_address(m: MemView, t: u8) -> u16 {
    match data_mode(m) {
        BgTileMapMode::Unsigned => (0x8000 + t) as u16,
        BgTileMapMode::Signed => (0x9000 + (t as i8)) as u16,
    }
}

/// Colour index at (px, py) of the 256x256 plane drawn by the tile map at `base`.
pub open spec fn map_pixel(m: MemView, base: u16, px: int, py: int) -> u8 {
    let t = m.read((base + 32 * (py / 8) + px / 8) as u16);
    tile_pixel_at(m, tile_address(m, t), (px % 8) as u8, (py % 8) as u8)
}

/// Whether the window covers screen column `x` of line `ly` (window origin at WX-7, WY).
pub open spec fn window_covers(m: MemView, x: int, ly: int) -> bool {
    lcdc_bit(m, 5) && ly >= m.read(WY) && x + 7 >= m.read(WX)
}

/// The colour index of the background and window layers at column `x` of line `ly`:
/// 0 when the layer is off.
pub open spec fn background_index(m: MemView, x: int, ly: int) -> u8 {
    if !lcdc_bit(m, 0) {
        0
    } else if window_covers(m, x, ly) {
        map_pixel(m, selected_map(lcdc_bit(m, 6)).start_spec(), x + 7 - m.read(WX), ly - m.read(WY))
    } else {
        map_pixel(
            m,
            selected_map(lcdc_bit(m, 3)).start_spec(),
            (x + m.read(SCX)) % 256,
            (ly + m.read(SCY)) % 256,
        )
    }
}

pub open spec fn obj_height(m: MemView) -> int {
    if lcdc_bit(m, 2) {
        16
    } else {
        8
    }
}

/// Byte `k` (Y, X, tile, attributes) of OAM entry `i`.
pub open spec fn oam(m: MemView, i: int, k: int) -> u8 {
    m.read((0xFE00 + 4 * i + k) as u16)
}

/// Whether object `i` spans line `ly`.
pub open spec fn on_line(m: MemView, i: int, ly: int) -> bool {
    oam(m, i, 0) <= ly + 16 < oam(m, i, 0) + obj_height(m)
}

/// How many of the objects before `n` span line `ly`.
pub open spec fn count_on_line(m: MemView, ly: int, n: int) -> int
    decreases n,
{
    if n <= 0 {
        0
    } else {
        count_on_line(m, ly, n - 1) + if on_line(m, n - 1, ly) {
            1int
        } else {
            0
        }
    }
}

/// Object `i` is one of the first ten (in OAM order) that span line `ly`.
pub open spec fn line_selected(m: MemView, i: int, ly: int) -> bool {
    on_line(m, i, ly) && count_on_line(m, ly, i) < MAX_OBJECTS_PER_LINE
}

/// The colour index of object `i` at column `x` of line `ly` (flips applied).
pub open spec fn obj_color(m: MemView, i: int, x: int, ly: int) -> u8 {
    let attr = oam(m, i, 3);
    let row0 = ly + 16 - oam(m, i, 0);
    let row = if bit_set(attr, 6) {
        obj_height(m) - 1 - row0
    } else {
        row0
    };
    let col0 = x + 8 - oam(m, i, 1);
    let col = if bit_set(attr, 5) {
        7 - col0
    } else {
        col0
    };
    let tile = if obj_height(m) == 16 {
        oam(m, i, 2) / 2 * 2
    } else {
        oam(m, i, 2) as int
    };
    tile_pixel_at(m, (0x8000 + 16 * tile) as u16, col as u8, row as u8)
}

/// Object `i` is selected for line `ly`, covers column `x`, and is not transparent there.
pub open spec fn obj_visible(m: MemView, i: int, x: int, ly: int) -> bool {
    line_selected(m, i, ly) && oam(m, i, 1) <= x + 8 < oam(m, i, 1) + 8 && obj_color(m, i, x, ly)
        != 0
}

/// Among the objects before `n` visible at (x, ly), the one with the smallest X, ties going
/// to the lower OAM index.
pub open spec fn best_obj(m: MemView, x: int, ly: int, n: int) -> Option<int>
    decreases n,
{
    if n <= 0 {
        None
    } else {
        let b = best_obj(m, x, ly, n - 1);
        if obj_visible(m, n - 1, x, ly) && (b is None || oam(m, n - 1, 1) < oam(m, b->0, 1)) {
            Some(n - 1)
        } else {
            b
        }
    }
}

/// The shade the PPU emits at column `x` of line `ly`.
pub open spec fn pixel_spec(m: MemView, x: int, ly: int) -> u8 {
    let bgi = background_index(m, x, ly);
    let bgc = palette_spec(m.read(BGP), bgi);
    if !lcdc_bit(m, 1) {
        bgc
    } else {
        match best_obj(m, x, ly, OAM_ENTRIES as int) {
            None => bgc,
            Some(i) => if bit_set(oam(m, i, 3), 7) && bgi != 0 {
                bgc
            } else {
                palette_spec(
                    m.read(
                        if bit_set(oam(m, i, 3), 4) {
                            OBP1
                        } else {
                            OBP0
                        },
                    ),
                    obj_color(m, i, x, ly),
                )
            },
        }
    }
}

/// The scanline renderer; it keeps no state of its own between lines.
pub struct PPU {}

impl PPU {
    pub fn new() -> (r: PPU) {
        PPU {  }
    }

    /// The colour index at (x, y) of the tile whose 16 bytes start at `a`.
    fn tile_pixel(mmu: &MMU, a: u16, x: u8, y: u8) -> (r: u8)
        requires
            mmu.wf(),
            x < 8,
            y < 16,
        ensures
            r == tile_pixel_at(mmu@, a, x, y),
            r < 4,
    {
        let lo = mmu.read_8(((a as u32 + 2 * y as u32) % 0x10000) as u16);
        let hi = mmu.read_8(((a as u32 + 2 * y as u32 + 1) % 0x10000) as u16);
        decode_pixel(lo, hi, x)
    }

    fn tile_addr(mmu: &MMU, t: u8) -> (r: u16)
        requires
            mmu.wf(),
        ensures
            r == tile_address(mmu@, t),
    {
        match mmu.bg_and_window_tile_data_select() {
            BgTileMapMode::Unsigned => 0x8000 + t as u16,
            BgTileMapMode::Signed => (0x9000i32 + (t as i8 as i32)) as u16,
        }
    }

    fn map_pixel(mmu: &MMU, base: u16, px: u8, py: u8) -> (r: u8)
        requires
            mmu.wf(),
            base == 0x9800 || base == 0x9C00,
        ensures
            r == map_pixel(mmu@, base, px as int, py as int),
    {
        let t = mmu.read_8(base + 32 * (py as u16 / 8) + px as u16 / 8);
        let a = Self::tile_addr(mmu, t);
        Self::tile_pixel(mmu, a, px % 8, py % 8)
    }

    /// Colour index of the background/window layers at (x, ly).
    fn background_pixel(mmu: &MMU, x: u8, ly: u8) -> (r: u8)
        requires
            mmu.wf(),
            x < 160,
            ly < 144,
        ensures
            r == background_index(mmu@, x as int, ly as int),
    {
        if !mmu.background_enabled() {
            return 0;
        }
        let wx = mmu.read_wx();
        let wy = mmu.read_wy();
        if mmu.window_enabled() && ly >= wy && x as u16 + 7 >= wx as u16 {
            let base = mmu.window_tile_map_display_select().start_address();
            Self::map_pixel(mmu, base, (x as u16 + 7 - wx as u16) as u8, ly - wy)
        } else {
            let base = mmu.bg_tile_map_display_select().start_address();
            let px = ((x as u16 + mmu.read_scx() as u16) % 256) as u8;
            let py = ((ly as u16 + mmu.read_scy() as u16) % 256) as u8;
            Self::map_pixel(mmu, base, px, py)
        }
    }

    fn oam_byte(mmu: &MMU, i: u8, k: u8) -> (r: u8)
        requires
            mmu.wf(),
            i < 40,
            k < 4,
        ensures
            r == oam(mmu@, i as int, k as int),
    {
        mmu.read_8(0xFE00 + 4 * (i as u16) + k as u16)
    }

    fn object_color(mmu: &MMU, i: u8, x: u8, ly: u8) -> (r: u8)
        requires
            mmu.wf(),
            i < 40,
            on_line(mmu@, i as int, ly as int),
            oam(mmu@, i as int, 1) <= x + 8 < oam(mmu@, i as int, 1) + 8,
        ensures
            r == obj_color(mmu@, i as int, x as int, ly as int),
    {
        let y0 = Self::oam_byte(mmu, i, 0);
        let x0 = Self::oam_byte(mmu, i, 1);
        let tile_byte = Self::oam_byte(mmu, i, 2);
        let attr = Self::oam_byte(mmu, i, 3);
        let tall = mmu.get_lcdc_bit(2);
        let height: u16 = if tall {
            16
        } else {
            8
        };
        let row0 = (ly as u16 + 16 - y0 as u16) as u8;
        let row = if check_bit(attr, 6) {
            (height - 1 - row0 as u16) as u8
        } else {
            row0
        };
        let col0 = (x as u16 + 8 - x0 as u16) as u8;
        let col = if check_bit(attr, 5) {
            7 - col0
        } else {
            col0
        };
        let tile: u16 = if tall {
            tile_byte as u16 / 2 * 2
        } else {
            tile_byte as u16
        };
        Self::tile_pixel(mmu, 0x8000 + 16 * tile, col, row)
    }

    /// The shade at column `x` of line `ly`.
    pub fn pixel(mmu: &MMU, x: u8, ly: u8) -> (r: u8)
        requires
            mmu.wf(),
            x < 160,
            ly < 144,
        ensures
            r == pixel_spec(mmu@, x as int, ly as int),
    {
        let bgi = Self::background_pixel(mmu, x, ly);
        let bg_palette = mmu.bg_palette();
        let bgc = bg_palette.remap(bgi);
        proof {
            lemma_palette_entry(&bg_palette, mmu@.read(BGP), bgi);
        }
        if !mmu.sprite_display_enabled() {
            return bgc;
        }
        let tall = mmu.get_lcdc_bit(2);
        let height: u16 = if tall {
            16
        } else {
            8
        };
        let ghost m = mmu@;
        let mut count: u8 = 0;
        let mut best: Option<u8> = None;
        let mut i: u8 = 0;
        while i < OAM_ENTRIES
            invariant
                mmu.wf(),
                m == mmu@,
                x < 160,
                ly < 144,
                i <= OAM_ENTRIES,
                height == obj_height(m),
                count as int == count_on_line(m, ly as int, i as int),
                count <= i,
                match best {
                    None => best_obj(m, x as int, ly as int, i as int) is None,
                    Some(b) => best_obj(m, x as int, ly as int, i as int) == Some(b as int) && b
                        < i,
                },
            decreases OAM_ENTRIES - i,
        {
            let y0 = Self::oam_byte(mmu, i, 0) as u16;
            let spans = y0 <= ly as u16 + 16 && (ly as u16 + 16) < y0 + height;
            if spans {
                if count < MAX_OBJECTS_PER_LINE {
                    let x0 = Self::oam_byte(mmu, i, 1) as u16;
                    if x0 <= x as u16 + 8 && (x as u16 + 8) < x0 + 8 {
                        let c = Self::object_color(mmu, i, x, ly);
                        if c != 0 {
                            let better = match best {
                                None => true,
                                Some(b) => x0 < Self::oam_byte(mmu, b, 1) as u16,
                            };
                            if better {
                                best = Some(i);
                            }
                        }
                    }
                }
                count = count + 1;
            }
            i = i + 1;
        }
        match best {
            None => bgc,
            Some(b) => {
                let attr = Self::oam_byte(mmu, b, 3);
                if check_bit(attr, 7) && bgi != 0 {
                    bgc
                } else {
                    let y0 = Self::oam_byte(mmu, b, 0);
                    let x0 = Self::oam_byte(mmu, b, 1);
                    proof {
                        assert(obj_visible(m, b as int, x as int, ly as int)) by {
                            lemma_best_visible(m, x as int, ly as int, OAM_ENTRIES as int);
                        }
                    }
                    let c = Self::object_color(mmu, b, x, ly);
                    let pal: Palette = if check_bit(attr, 4) {
                        mmu.sprite_palette_1()
                    } else {
                        mmu.sprite_palette_0()
                    };
                    proof {
                        if bit_set(attr, 4) {
                            lemma_palette_entry(&pal, mmu@.read(OBP1), c);
                        } else {
                            lemma_palette_entry(&pal, mmu@.read(OBP0), c);
                        }
                    }
                    pal.remap(c)
                }
            },
        }
    }

    /// Render line LY into the framebuffer: 160 shades at offset LY * 160.
    pub fn write_line(mmu: &MMU, buffer: &mut Vec<u8>)
        requires
            mmu.wf(),
            old(buffer)@.len() == PIXEL_COUNT,
            mmu@.read(LY) < 144,
        ensures
            final(buffer)@.len() == PIXEL_COUNT,
            forall|i: int|
                0 <= i < PIXEL_COUNT ==> final(buffer)@[i] == (if mmu@.read(LY) * 160 <= i
                    < mmu@.read(LY) * 160 + 160 {
                    pixel_spec(mmu@, i - mmu@.read(LY) * 160, mmu@.read(LY) as int)
                } else {
                    old(buffer)@[i]
                }),
    {
        let ly = mmu.read_ly();
        let base: usize = ly as usize * SCREEN_WIDTH;
        let mut x: u8 = 0;
        while x < 160
            invariant
                mmu.wf(),
                ly == mmu@.read(LY),
                ly < 144,
                base == ly * 160,
                x <= 160,
                buffer@.len() == PIXEL_COUNT,
                forall|i: int|
                    0 <= i < PIXEL_COUNT ==> buffer@[i] == (if base <= i < base + x {
                        pixel_spec(mmu@, i - base, ly as int)
                    } else {
                        old(buffer)@[i]
                    }),
            decreases 160 - x,
        {
            let p = Self::pixel(mmu, x, ly);
            buffer.set(base + x as usize, p);
            x = x + 1;
        }
    }
}

proof fn lemma_best_visible(m: MemView, x: int, ly: int, n: int)
    requires
        best_obj(m, x, ly, n) is Some,
    ensures
        obj_visible(m, best_obj(m, x, ly, n)->0, x, ly),
    decreases n,
{
    if n > 0 {
        let b = best_obj(m, x, ly, n - 1);
        if obj_visible(m, n - 1, x, ly) && (b is None || oam(m, n - 1, 1) < oam(m, b->0, 1)) {
        } else {
            lemma_best_visible(m, x, ly, n - 1);
        }
    }
}

} // verus!
