use vstd::prelude::*;

verus! {

/// Why a cartridge image was refused.
#[derive(Clone, Copy, PartialEq, Eq, Debug, Structural)]
pub enum RomError {
    UnsupportedRomSize,
    UnsupportedRamSize,
    UnsupportedCartridgeType(u8),
    InvalidRomData,
}

pub type RomResult<T> = Result<T, RomError>;

/// The memory bank controller of a cartridge; only ROM-only cartridges are supported.
#[derive(Clone, Copy, PartialEq, Eq, Debug, Structural)]
pub enum CartridgeType {
    RomOnly,
}

/// A loaded cartridge: header fields plus the program bytes.
pub struct Rom {
    /// Game title
    pub title: String,
    /// Game Boy Color game or not
    pub color: bool,
    /// ROM size in bytes
    pub rom_size: usize,
    /// RAM size in bytes
    pub ram_size: usize,
    /// Are Super Game Boy functions supported?
    pub super_game_boy: bool,
    /// The cartridge type
    pub cartridge_type: CartridgeType,
    /// Is the destination Japanese?
    pub japanese: bool,
    /// The program bytes
    pub data: Vec<u8>,
}

pub const MIN_ROM_LEN: usize = 32768;
pub const TITLE_START: usize = 0x134;
pub const TITLE_LEN: usize = 15;
pub const IS_COLOR_LOC: usize = 0x143;
pub const IS_SUPER_GAME_BOY_LOC: usize = 0x146;
pub const CARTRIDGE_TYPE_LOC: usize = 0x147;
pub const ROM_SIZE_LOC: usize = 0x148;
pub const RAM_SIZE_LOC: usize = 0x149;
pub const JAPANESE_ROM_LOC: usize = 0x14A;

/// ROM size in bytes for a header size code.
pub open spec fn rom_size_spec(b: u8) -> Option<usize> {
    if b <= 6 {
        Some((32768 * vstd::arithmetic::power2::pow2(b as nat)) as usize)
    } else if b == 0x52 {
        Some(1179648)
    } else if b == 0x53 {
        Some(1310720)
    } else if b == 0x54 {
        Some(1572864)
    } else {
        None
    }
}

/// RAM size in bytes for a header size code.
pub open spec fn ram_size_spec(b: u8) -> Option<usize> {
    if b == 0 {
        Some(0)
    } else if b == 1 {
        Some(2048)
    } else if b == 2 {
        Some(8192)
    } else if b == 3 {
        Some(32768)
    } else if b == 4 {
        Some(131072)
    } else {
        None
    }
}

pub fn rom_size_from_byte(byte: u8) -> (r: RomResult<usize>)
    ensures
        r == (match rom_size_spec(byte) {
            Some(n) => Ok(n),
            None => Err(RomError::UnsupportedRomSize),
        }),
{
    proof {
        vstd::arithmetic::power2::lemma2_to64();
    }
    match byte {
        0x0 => Ok(32768),
        0x1 => Ok(65536),
        0x2 => Ok(131072),
        0x3 => Ok(262144),
        0x4 => Ok(524288),
        0x5 => Ok(1048576),
        0x6 => Ok(2097152),
        0x52 => Ok(1179648),
        0x53 => Ok(1310720),
        0x54 => Ok(1572864),
        _ => Err(RomError::UnsupportedRomSize),
    }
}

pub fn ram_size_from_byte(byte: u8) -> (r: RomResult<usize>)
    ensures
        r == (match ram_size_spec(byte) {
            Some(n) => Ok(n),
            None => Err(RomError::UnsupportedRamSize),
        }),
{
    match byte {
        0x0 => Ok(0),
        0x1 => Ok(2048),
        0x2 => Ok(8192),
        0x3 => Ok(32768),
        0x4 => Ok(131072),
        _ => Err(RomError::UnsupportedRamSize),
    }
}

/// Whether a cartridge image is accepted: long enough for its declared size, with a known
/// ROM size, a known RAM size, and a ROM-only cartridge type.
pub open spec fn header_ok(b: Seq<u8>) -> bool {
    &&& b.len() >= MIN_ROM_LEN
    &&& rom_size_spec(b[ROM_SIZE_LOC as int]) is Some
    &&& b.len() >= rom_size_spec(b[ROM_SIZE_LOC as int])->0
    &&& ram_size_spec(b[RAM_SIZE_LOC as int]) is Some
    &&& b[CARTRIDGE_TYPE_LOC as int] == 0
}

/// Index of the first NUL byte of `s` at or after `i`, or `s.len()`.
pub open spec fn first_nul(s: Seq<u8>, i: int) -> int
    decreases s.len() - i,
{
    if i >= s.len() || i < 0 || s[i] == 0 {
        i
    } else {
        first_nul(s, i + 1)
    }
}

/// The bytes before the first NUL, each read as a character.
pub open spec fn title_spec(s: Seq<u8>) -> Seq<char> {
    s.take(first_nul(s, 0)).map_values(|b: u8| b as char)
}

/// Relies on `String::push`: appends one character.
#[verifier::external_body]
fn push_char(s: &mut String, c: char)
    ensures
        final(s)@ == old(s)@.push(c),
{
    s.push(c);
}

proof fn lemma_first_nul_step(s: Seq<u8>, i: int)
    requires
        0 <= i < s.len(),
        s[i] != 0,
    ensures
        first_nul(s, i) == first_nul(s, i + 1),
{
}

/// The title: the header bytes up to the first NUL, as characters.
pub fn title_from_bytes(bytes: &Vec<u8>) -> (r: String)
    ensures
        r@ == title_spec(bytes@),
{
    let mut title = String::new();
    let mut i: usize = 0;
    while i < bytes.len() && bytes[i] != 0
        invariant
            0 <= i <= bytes@.len(),
            forall|j: int| 0 <= j < i ==> bytes@[j] != 0,
            first_nul(bytes@, 0) == first_nul(bytes@, i as int),
            title@ == bytes@.take(i as int).map_values(|b: u8| b as char),
        decreases bytes@.len() - i,
    {
        proof {
            lemma_first_nul_step(bytes@, i as int);
        }
        push_char(&mut title, bytes[i] as char);
        i = i + 1;
        assert(title@ =~= bytes@.take(i as int).map_values(|b: u8| b as char));
    }
    title
}

impl Rom {
    pub open spec fn wf(&self) -> bool {
        self.data@.len() >= 0x8000
    }

    /// The title of the ROM
    pub fn title(&self) -> (r: &str)
        ensures
            r@ == self.title@,
    {
        self.title.as_str()
    }

    /// Does the ROM contain a Game Boy Color game?
    pub fn is_color(&self) -> (r: bool)
        ensures
            r == self.color,
    {
        self.color
    }

    /// Does the game support Super Game Boy functions?
    pub fn is_super_game_boy(&self) -> (r: bool)
        ensures
            r == self.super_game_boy,
    {
        self.super_game_boy
    }

    /// Is the game meant for the Japanese market?
    pub fn is_japanese(&self) -> (r: bool)
        ensures
            r == self.japanese,
    {
        self.japanese
    }

    /// Parse a cartridge image: the header is read and checked, the bytes are kept.
    pub fn load_from_bytes(bytes: Vec<u8>) -> (r: RomResult<Rom>)
        ensures
            r is Ok <==> header_ok(bytes@),
            bytes@.len() < MIN_ROM_LEN ==> r == Err::<Rom, RomError>(RomError::InvalidRomData),
            bytes@.len() >= MIN_ROM_LEN ==> (match rom_size_spec(bytes@[ROM_SIZE_LOC as int]) {
                None => r == Err::<Rom, RomError>(RomError::UnsupportedRomSize),
                Some(n) => if bytes@.len() < n {
                    r == Err::<Rom, RomError>(RomError::InvalidRomData)
                } else if ram_size_spec(bytes@[RAM_SIZE_LOC as int]) is None {
                    r == Err::<Rom, RomError>(RomError::UnsupportedRamSize)
                } else if bytes@[CARTRIDGE_TYPE_LOC as int] != 0 {
                    r == Err::<Rom, RomError>(
                        RomError::UnsupportedCartridgeType(bytes@[CARTRIDGE_TYPE_LOC as int]),
                    )
                } else {
                    &&& r is Ok
                    &&& r->Ok_0.wf()
                    &&& r->Ok_0.data@ == bytes@
                    &&& r->Ok_0.rom_size == n
                    &&& Some(r->Ok_0.ram_size) == ram_size_spec(bytes@[RAM_SIZE_LOC as int])
                    &&& r->Ok_0.title@ == title_spec(bytes@.subrange(0x134, 0x143))
                    &&& r->Ok_0.color == (bytes@[IS_COLOR_LOC as int] == 0x80)
                    &&& r->Ok_0.super_game_boy == (bytes@[IS_SUPER_GAME_BOY_LOC as int] == 0x03)
                    &&& r->Ok_0.japanese == (bytes@[JAPANESE_ROM_LOC as int] == 0)
                    &&& r->Ok_0.cartridge_type == CartridgeType::RomOnly
                },
            }),
    {
        if bytes.len() < MIN_ROM_LEN {
            return Err(RomError::InvalidRomData);
        }
        let rom_size = match rom_size_from_byte(bytes[ROM_SIZE_LOC]) {
            Ok(n) => n,
            Err(e) => return Err(e),
        };
        if bytes.len() < rom_size {
            return Err(RomError::InvalidRomData);
        }
        let ram_size = match ram_size_from_byte(bytes[RAM_SIZE_LOC]) {
            Ok(n) => n,
            Err(e) => return Err(e),
        };
        let ct = bytes[CARTRIDGE_TYPE_LOC];
        if ct != 0 {
            return Err(RomError::UnsupportedCartridgeType(ct));
        }
        let mut title_bytes: Vec<u8> = Vec::new();
        let mut i: usize = 0;
        while i < TITLE_LEN
            invariant
                0 <= i <= TITLE_LEN,
                bytes@.len() >= MIN_ROM_LEN,
                title_bytes@ == bytes@.subrange(0x134, 0x134 + i),
            decreases TITLE_LEN - i,
        {
            title_bytes.push(bytes[TITLE_START + i]);
            i = i + 1;
            assert(title_bytes@ =~= bytes@.subrange(0x134, 0x134 + i));
        }
        let title = title_from_bytes(&title_bytes);
        let color = bytes[IS_COLOR_LOC] == 0x80;
        let super_game_boy = bytes[IS_SUPER_GAME_BOY_LOC] == 0x03;
        let japanese = bytes[JAPANESE_ROM_LOC] == 0x0;
        Ok(
            Rom {
                title,
                color,
                rom_size,
                ram_size,
                super_game_boy,
                cartridge_type: CartridgeType::RomOnly,
                japanese,
                data: bytes,
            },
        )
    }

    /// The byte at a ROM address.
    pub fn read_8(&self, address: u16) -> (r: u8)
        requires
            self.wf(),
            address < 0x8000,
        ensures
            r == self.data@[address as int],
    {
        self.data[address as usize]
    }

    /// The little-endian halfword at a ROM address.
    pub fn read_16(&self, address: u16) -> (r: u16)
        requires
            self.wf(),
            address < 0x7FFF,
        ensures
            r == self.data@[address as int] + 256 * self.data@[address + 1],
    {
        let lo = self.data[address as usize] as u16;
        let hi = self.data[address as usize + 1] as u16;
        lo + 256 * hi
    }
}

} // verus!
