use vstd::prelude::*;

use crate::bits::bit_set;
use crate::interrupt::Interrupt;
use crate::rom::Rom;

verus! {

/// Why a bus access was refused.
#[derive(Clone, Copy, PartialEq, Eq, Debug, Structural)]
pub enum MemError {
    /// A write into a region that cannot be written (cartridge ROM).
    InvalidAddressRegion(MemRegion),
    /// A 16-bit access that straddles a region boundary.
    Invalid2ByteAccess,
    /// A 16-bit access past the end of the address space.
    OutOfBounds,
}

pub type MemResult<T> = Result<T, MemError>;

/// The regions of the 16-bit address space.
#[derive(Clone, Copy, PartialEq, Eq, Debug, Structural)]
pub enum MemRegion {
    /// Cartridge ROM
    Rom,
    /// Video RAM
    VRam,
    /// External (cartridge) RAM
    Ram,
    /// Work RAM
    WRam,
    /// Mirror of work RAM
    Echo,
    /// Object attribute memory
    Oam,
    /// Prohibited area after OAM
    InvalidOam,
    /// Memory-mapped I/O registers
    IOMemMap,
    /// High RAM
    HRam,
    /// The IE register
    IEReg,
}

pub const DIV: u16 = 0xFF04;
pub const TIMA: u16 = 0xFF05;
pub const TMA: u16 = 0xFF06;
pub const TAC: u16 = 0xFF07;
pub const IF: u16 = 0xFF0F;
pub const LCDC: u16 = 0xFF40;
pub const STAT: u16 = 0xFF41;
pub const SCY: u16 = 0xFF42;
pub const SCX: u16 = 0xFF43;
pub const LY: u16 = 0xFF44;
pub const LYC: u16 = 0xFF45;
pub const DMA: u16 = 0xFF46;
pub const BGP: u16 = 0xFF47;
pub const OBP0: u16 = 0xFF48;
pub const OBP1: u16 = 0xFF49;
pub const WY: u16 = 0xFF4A;
pub const WX: u16 = 0xFF4B;
pub const BOOT_OFF: u16 = 0xFF50;
pub const IE: u16 = 0xFFFF;

/// Size of the RAM window 0x8000..=0xFFFF.
pub const NON_ROM_SIZE: usize = 0x8000;
pub const OAM_LEN: u16 = 0xA0;
pub const BOOT_ROM_LEN: usize = 0x100;

impl MemRegion {
    pub open spec fn of(a: u16) -> MemRegion {
        if a <= 0x7FFF {
            MemRegion::Rom
        } else if a <= 0x9FFF {
            MemRegion::VRam
        } else if a <= 0xBFFF {
            MemRegion::Ram
        } else if a <= 0xDFFF {
            MemRegion::WRam
        } else if a <= 0xFDFF {
            MemRegion::Echo
        } else if a <= 0xFE9F {
            MemRegion::Oam
        } else if a <= 0xFEFF {
            MemRegion::InvalidOam
        } else if a <= 0xFF7F {
            MemRegion::IOMemMap
        } else if a <= 0xFFFE {
            MemRegion::HRam
        } else {
            MemRegion::IEReg
        }
    }

    pub open spec fn start_spec(region: MemRegion) -> u16 {
        match region {
            MemRegion::Rom => 0x0,
            MemRegion::VRam => 0x8000,
            MemRegion::Ram => 0xA000,
            MemRegion::WRam => 0xC000,
            MemRegion::Echo => 0xE000,
            MemRegion::Oam => 0xFE00,
            MemRegion::InvalidOam => 0xFEA0,
            MemRegion::IOMemMap => 0xFF00,
            MemRegion::HRam => 0xFF80,
            MemRegion::IEReg => 0xFFFF,
        }
    }

    /// Whether `a` is the last address of a region (other than the last one).
    pub open spec fn is_end(a: u16) -> bool {
        a == 0x7FFF || a == 0x9FFF || a == 0xBFFF || a == 0xDFFF || a == 0xFDFF || a == 0xFE9F
            || a == 0xFEFF || a == 0xFF7F || a == 0xFFFE
    }

    /// The region an address belongs to.
    pub fn get_region(address: u16) -> (r: MemRegion)
        ensures
            r == MemRegion::of(address),
    {
        if address <= 0x7FFF {
            MemRegion::Rom
        } else if address <= 0x9FFF {
            MemRegion::VRam
        } else if address <= 0xBFFF {
            MemRegion::Ram
        } else if address <= 0xDFFF {
            MemRegion::WRam
        } else if address <= 0xFDFF {
            MemRegion::Echo
        } else if address <= 0xFE9F {
            MemRegion::Oam
        } else if address <= 0xFEFF {
            MemRegion::InvalidOam
        } else if address <= 0xFF7F {
            MemRegion::IOMemMap
        } else if address <= 0xFFFE {
            MemRegion::HRam
        } else {
            MemRegion::IEReg
        }
    }

    /// The first address of a region.
    pub fn get_region_start(region: MemRegion) -> (r: u16)
        ensures
            r == MemRegion::start_spec(region),
    {
        match region {
            MemRegion::Rom => 0x0,
            MemRegion::VRam => 0x8000,
            MemRegion::Ram => 0xA000,
            MemRegion::WRam => 0xC000,
            MemRegion::Echo => 0xE000,
            MemRegion::Oam => 0xFE00,
            MemRegion::InvalidOam => 0xFEA0,
            MemRegion::IOMemMap => 0xFF00,
            MemRegion::HRam => 0xFF80,
            MemRegion::IEReg => 0xFFFF,
        }
    }

    /// Whether the address is the last one of its region, so that a 2-byte access there
    /// would straddle a boundary.
    pub fn is_region_end(address: u16) -> (r: bool)
        ensures
            r == MemRegion::is_end(address),
    {
        address == 0x7FFF || address == 0x9FFF || address == 0xBFFF || address == 0xDFFF
            || address == 0xFDFF || address == 0xFE9F || address == 0xFEFF || address == 0xFF7F
            || address == 0xFFFE
    }

    /// The distance of an address from the start of its region.
    pub fn get_offset_in_region(address: u16) -> (r: u16)
        ensures
            r == address - MemRegion::start_spec(MemRegion::of(address)),
    {
        address - Self::get_region_start(Self::get_region(address))
    }

    /// Whether the address lies under the boot overlay.
    pub fn is_in_boot_rom(address: u16) -> (r: bool)
        ensures
            r == (address < 0x100),
    {
        address < 0x100
    }
}

/// The bus as the logic sees it: cartridge bytes, boot blob, overlay flag, and the RAM
/// window 0x8000..=0xFFFF.
pub struct MemView {
    pub rom: Seq<u8>,
    pub boot: Seq<u8>,
    pub boot_on: bool,
    pub ram: Seq<u8>,
}

/// Index into the RAM window for an address of 0x8000..=0xFFFF; the echo region
/// 0xE000..=0xFDFF lands on 0xC000..=0xDDFF.
pub open spec fn ram_index(a: u16) -> int {
    if 0xE000 <= a && a < 0xFE00 {
        a - 0xA000
    } else {
        a - 0x8000
    }
}

/// Addresses whose writes are dropped: cartridge ROM, the prohibited area, and LY.
pub open spec fn write_ignored(a: u16) -> bool {
    a < 0x8000 || (0xFEA0 <= a && a < 0xFF00) || a == LY
}

/// Addresses backed by the RAM window (everything but ROM and the prohibited area).
pub open spec fn is_ram_address(a: u16) -> bool {
    a >= 0x8000 && !(0xFEA0 <= a && a < 0xFF00)
}

impl MemView {
    pub open spec fn wf(self) -> bool {
        &&& self.ram.len() == NON_ROM_SIZE
        &&& self.rom.len() >= 0x8000
        &&& self.boot.len() == BOOT_ROM_LEN
    }

    /// The byte that a read of `a` returns.
    pub open spec fn read(self, a: u16) -> u8 {
        if self.boot_on && a < 0x100 {
            self.boot[a as int]
        } else if a < 0x8000 {
            self.rom[a as int]
        } else if 0xFEA0 <= a && a < 0xFF00 {
            0xFF
        } else {
            self.ram[ram_index(a)]
        }
    }

    /// Stores `v` in the RAM window at `a`, with no special behaviour.
    pub open spec fn raw_write(self, a: u16, v: u8) -> MemView {
        MemView { ram: self.ram.update(ram_index(a), v), ..self }
    }

    /// The bus after the OAM copy from page `v` (and `v` kept in the DMA register).
    pub open spec fn dma(self, v: u8) -> MemView {
        MemView {
            ram: Seq::new(
                NON_ROM_SIZE as nat,
                |i: int|
                    if 0x7E00 <= i < 0x7EA0 {
                        self.read((v * 256 + (i - 0x7E00)) as u16)
                    } else if i == 0x7F46 {
                        v
                    } else {
                        self.ram[i]
                    },
            ),
            ..self
        }
    }

    /// The bus after a program write of `v` to `a`.
    pub open spec fn write(self, a: u16, v: u8) -> MemView {
        if write_ignored(a) {
            self
        } else if a == DIV {
            self.raw_write(a, 0)
        } else if a == STAT {
            self.raw_write(a, (v / 8 * 8 + self.ram[ram_index(a)] % 8) as u8)
        } else if a == DMA {
            self.dma(v)
        } else if a == BOOT_OFF {
            MemView { boot_on: self.boot_on && v != 1, ..self.raw_write(a, v) }
        } else {
            self.raw_write(a, v)
        }
    }

    /// The result of a 16-bit little-endian read at `a`.
    pub open spec fn read16(self, a: u16) -> MemResult<u16> {
        if MemRegion::is_end(a) || (self.boot_on && a == 0xFF) {
            Err(MemError::Invalid2ByteAccess)
        } else if a == 0xFFFF {
            Err(MemError::OutOfBounds)
        } else {
            Ok((self.read(a) + 256 * self.read((a + 1) as u16)) as u16)
        }
    }
}

/// The memory-mapped unit: cartridge, boot overlay and all RAM and I/O bytes.
pub struct MMU {
    /// The RAM window 0x8000..=0xFFFF
    pub mem: Vec<u8>,
    pub rom: Rom,
    /// The 256-byte boot program
    pub boot_rom: Vec<u8>,
    /// Whether the boot program overlays 0x0000..=0x00FF
    pub boot_rom_on: bool,
}

impl View for MMU {
    type V = MemView;

    open spec fn view(&self) -> MemView {
        MemView { rom: self.rom.data@, boot: self.boot_rom@, boot_on: self.boot_rom_on, ram: self.mem@ }
    }
}

/// IF after requesting `i`.
pub open spec fn if_with(flags: u8, i: Interrupt) -> u8 {
    flags | (1u8 << i.bit_spec())
}

/// IF after clearing `i`.
pub open spec fn if_without(flags: u8, i: Interrupt) -> u8 {
    flags & !(1u8 << i.bit_spec())
}

impl MMU {
    pub open spec fn wf(&self) -> bool {
        self@.wf()
    }

    fn zeroed_ram() -> (r: Vec<u8>)
        ensures
            r@.len() == NON_ROM_SIZE,
            forall|i: int| 0 <= i < NON_ROM_SIZE ==> r@[i] == 0,
    {
        let mut v: Vec<u8> = Vec::new();
        let mut i: usize = 0;
        while i < NON_ROM_SIZE
            invariant
                i <= NON_ROM_SIZE,
                v@.len() == i,
                forall|j: int| 0 <= j < i ==> v@[j] == 0,
            decreases NON_ROM_SIZE - i,
        {
            v.push(0);
            i = i + 1;
        }
        v
    }

    /// A bus around a cartridge, without boot overlay, all RAM zero.
    pub fn new(rom: Rom) -> (r: MMU)
        requires
            rom.wf(),
        ensures
            r.wf(),
            r@.rom == rom.data@,
            !r@.boot_on,
            forall|i: int| 0 <= i < NON_ROM_SIZE ==> r@.ram[i] == 0,
    {
        let mut boot: Vec<u8> = Vec::new();
        let mut i: usize = 0;
        while i < BOOT_ROM_LEN
            invariant
                i <= BOOT_ROM_LEN,
                boot@.len() == i,
            decreases BOOT_ROM_LEN - i,
        {
            boot.push(0);
            i = i + 1;
        }
        MMU { mem: Self::zeroed_ram(), rom, boot_rom: boot, boot_rom_on: false }
    }

    /// A bus around a cartridge with a boot program overlaying 0x0000..=0x00FF.
    pub fn with_boot_rom(rom: Rom, boot_rom: Vec<u8>) -> (r: MMU)
        requires
            rom.wf(),
            boot_rom@.len() == BOOT_ROM_LEN,
        ensures
            r.wf(),
            r@.rom == rom.data@,
            r@.boot == boot_rom@,
            r@.boot_on,
            forall|i: int| 0 <= i < NON_ROM_SIZE ==> r@.ram[i] == 0,
    {
        MMU { mem: Self::zeroed_ram(), rom, boot_rom, boot_rom_on: true }
    }

    /// The cartridge.
    pub fn rom(&self) -> (r: &Rom)
        ensures
            r == &self.rom,
    {
        &self.rom
    }

    fn index_of(address: u16) -> (r: usize)
        requires
            address >= 0x8000,
        ensures
            r == ram_index(address),
            r < NON_ROM_SIZE,
    {
        if 0xE000 <= address && address < 0xFE00 {
            (address - 0xA000) as usize
        } else {
            (address - 0x8000) as usize
        }
    }

    /// Read one byte from the bus.
    pub fn read_8(&self, address: u16) -> (r: u8)
        requires
            self.wf(),
        ensures
            r == self@.read(address),
    {
        if self.boot_rom_on && address < 0x100 {
            self.read_8_boot(address)
        } else if address < 0x8000 {
            self.rom.read_8(address)
        } else if 0xFEA0 <= address && address < 0xFF00 {
            0xFF
        } else {
            self.mem[Self::index_of(address)]
        }
    }

    fn read_8_boot(&self, address: u16) -> (r: u8)
        requires
            self.wf(),
            address < 0x100,
        ensures
            r == self.boot_rom@[address as int],
    {
        self.boot_rom[address as usize]
    }

    /// Store a byte in the RAM window, bypassing the rules of program writes.
    pub fn raw_write_8(&mut self, address: u16, val: u8)
        requires
            old(self).wf(),
            is_ram_address(address),
        ensures
            final(self).wf(),
            final(self)@ == old(self)@.raw_write(address, val),
    {
        let i = Self::index_of(address);
        self.mem.set(i, val);
    }

    /// OAM copy: the 160 bytes at `index << 8` are copied to 0xFE00.
    pub fn dma_transfer(&mut self, index: u8)
        requires
            old(self).wf(),
        ensures
            final(self).wf(),
            final(self)@ == old(self)@.dma(index),
    {
        let source: u16 = index as u16 * 0x100;
        let mut buf: Vec<u8> = Vec::new();
        let mut i: u16 = 0;
        while i < OAM_LEN
            invariant
                self.wf(),
                i <= OAM_LEN,
                source == index * 256,
                buf@.len() == i,
                forall|j: int| 0 <= j < i ==> buf@[j] == self@.read((source + j) as u16),
            decreases OAM_LEN - i,
        {
            buf.push(self.read_8(source + i));
            i = i + 1;
        }
        let ghost before = self@;
        let mut k: usize = 0;
        while k < OAM_LEN as usize
            invariant
                self.wf(),
                k <= OAM_LEN,
                buf@.len() == OAM_LEN,
                self@.rom == before.rom,
                self@.boot == before.boot,
                self@.boot_on == before.boot_on,
                forall|j: int| 0 <= j < OAM_LEN ==> buf@[j] == before.read((source + j) as u16),
                forall|j: int|
                    0 <= j < NON_ROM_SIZE ==> self@.ram[j] == (if 0x7E00 <= j < 0x7E00 + k {
                        buf@[j - 0x7E00]
                    } else {
                        before.ram[j]
                    }),
            decreases OAM_LEN - k,
        {
            self.mem.set(0x7E00 + k, buf[k]);
            k = k + 1;
        }
        self.mem.set(0x7F46, index);
        assert(self@.ram =~= before.dma(index).ram);
    }

    /// Write one byte as the program does: ROM writes are refused with an error and
    /// change nothing; DIV is reset whatever the value; STAT keeps its low three bits; LY
    /// and the prohibited area ignore writes; DMA starts the OAM copy; 0x01 to BOOT_OFF
    /// turns the boot overlay off.
    pub fn write_8(&mut self, address: u16, val: u8) -> (r: MemResult<()>)
        requires
            old(self).wf(),
        ensures
            final(self).wf(),
            final(self)@ == old(self)@.write(address, val),
            r == (if address < 0x8000 {
                Err(MemError::InvalidAddressRegion(MemRegion::Rom))
            } else {
                Ok(())
            }),
    {
        if address < 0x8000 {
            Err(MemError::InvalidAddressRegion(MemRegion::get_region(address)))
        } else if (0xFEA0 <= address && address < 0xFF00) || address == LY {
            Ok(())
        } else if address == DIV {
            self.raw_write_8(address, 0);
            Ok(())
        } else if address == STAT {
            let old_val = self.mem[Self::index_of(address)];
            self.raw_write_8(address, val / 8 * 8 + old_val % 8);
            Ok(())
        } else if address == DMA {
            self.dma_transfer(val);
            Ok(())
        } else if address == BOOT_OFF {
            self.raw_write_8(address, val);
            if val == 1 {
                self.boot_rom_on = false;
            }
            Ok(())
        } else {
            self.raw_write_8(address, val);
            Ok(())
        }
    }

    /// Read a little-endian halfword; it must not straddle a region boundary.
    pub fn read_16(&self, address: u16) -> (r: MemResult<u16>)
        requires
            self.wf(),
        ensures
            r == self@.read16(address),
    {
        if MemRegion::is_region_end(address) || (self.boot_rom_on && address == 0xFF) {
            Err(MemError::Invalid2ByteAccess)
        } else if address == 0xFFFF {
            Err(MemError::OutOfBounds)
        } else {
            let lo = self.read_8(address) as u16;
            let hi = self.read_8(address + 1) as u16;
            Ok(lo + 256 * hi)
        }
    }

    /// Write a little-endian halfword; it must not straddle a region boundary nor touch ROM.
    pub fn write_16(&mut self, address: u16, val: u16) -> (r: MemResult<()>)
        requires
            old(self).wf(),
        ensures
            final(self).wf(),
            MemRegion::is_end(address) ==> r == Err::<(), MemError>(MemError::Invalid2ByteAccess)
                && final(self)@ == old(self)@,
            !MemRegion::is_end(address) && address < 0x8000 ==> r == Err::<(), MemError>(
                MemError::InvalidAddressRegion(MemRegion::Rom),
            ) && final(self)@ == old(self)@,
            !MemRegion::is_end(address) && address == 0xFFFF ==> r == Err::<(), MemError>(
                MemError::OutOfBounds,
            ) && final(self)@ == old(self)@,
            !MemRegion::is_end(address) && 0x8000 <= address < 0xFFFF ==> r == Ok::<(), MemError>(())
                && final(self)@ == old(self)@.write(address, (val % 256) as u8).write(
                (address + 1) as u16,
                (val / 256) as u8,
            ),
    {
        if MemRegion::is_region_end(address) {
            Err(MemError::Invalid2ByteAccess)
        } else if address < 0x8000 {
            Err(MemError::InvalidAddressRegion(MemRegion::get_region(address)))
        } else if address == 0xFFFF {
            Err(MemError::OutOfBounds)
        } else {
            let _ = self.write_8(address, (val % 256) as u8);
            let _ = self.write_8(address + 1, (val / 256) as u8);
            Ok(())
        }
    }

    /// Whether the boot program still overlays the low addresses.
    pub fn boot_rom_enabled(&self) -> (r: bool)
        ensures
            r == self@.boot_on,
    {
        self.boot_rom_on
    }

    /// Request an interrupt: set its bit in IF.
    pub fn request_interrupt(&mut self, interrupt: Interrupt)
        requires
            old(self).wf(),
        ensures
            final(self).wf(),
            final(self)@ == old(self)@.raw_write(IF, if_with(old(self)@.read(IF), interrupt)),
    {
        let bit = interrupt.if_ie_bit();
        let if_val = self.read_8(IF) | (1u8 << bit);
        self.raw_write_8(IF, if_val);
    }

    /// Mark a requested interrupt as handled: clear its bit in IF.
    pub fn reset_requested_interrupt(&mut self, interrupt: Interrupt)
        requires
            old(self).wf(),
        ensures
            final(self).wf(),
            final(self)@ == old(self)@.raw_write(IF, if_without(old(self)@.read(IF), interrupt)),
    {
        let bit = interrupt.if_ie_bit();
        let if_val = self.read_8(IF) & !(1u8 << bit);
        self.raw_write_8(IF, if_val);
    }

    /// Whether the source is enabled in IE.
    pub fn interrupt_enabled(&self, interrupt: Interrupt) -> (r: bool)
        requires
            self.wf(),
        ensures
            r == bit_set(self@.read(IE), interrupt.bit_spec()),
    {
        let bit = interrupt.if_ie_bit();
        ((self.read_8(IE) >> bit) & 1) == 1
    }

    /// Whether the source is both enabled in IE and requested in IF.
    pub fn interrupt_requested(&self, interrupt: Interrupt) -> (r: bool)
        requires
            self.wf(),
        ensures
            r == (bit_set(self@.read(IE), interrupt.bit_spec()) && bit_set(
                self@.read(IF),
                interrupt.bit_spec(),
            )),
    {
        let bit = interrupt.if_ie_bit();
        self.interrupt_enabled(interrupt) && ((self.read_8(IF) >> bit) & 1) == 1
    }
}

/// LY and the low three bits of STAT (mode and LYC=LY) agree in both.
pub open spec fn video_kept(a: MemView, b: MemView) -> bool {
    b.read(LY) == a.read(LY) && b.read(STAT) % 8 == a.read(STAT) % 8
}

/// A program write never changes LY nor STAT[2:0], and keeps the bus well formed.
pub broadcast proof fn lemma_write_keeps_video(m: MemView, a: u16, v: u8)
    requires
        m.wf(),
    ensures
        #[trigger] m.write(a, v).wf(),
        video_kept(m, m.write(a, v)),
{
}

/// A raw store to any RAM address but LY and STAT keeps them, and keeps the bus well formed.
pub broadcast proof fn lemma_raw_write_keeps_video(m: MemView, a: u16, v: u8)
    requires
        m.wf(),
        is_ram_address(a),
        a != LY,
        a != STAT,
    ensures
        #[trigger] m.raw_write(a, v).wf(),
        video_kept(m, m.raw_write(a, v)),
{
}

/// A byte written to a RAM address (other than the special registers) reads back; a
/// write to ROM leaves the byte as it was.
pub proof fn law_write_read_round_trip(m: MemView, a: u16, v: u8)
    requires
        m.wf(),
    ensures
        is_ram_address(a) && a != DIV && a != STAT && a != LY && a != DMA ==> m.write(a, v).read(a)
            == v,
        a < 0x8000 ==> m.write(a, v).read(a) == m.read(a),
{
}

/// After any write to DIV, reading DIV gives 0.
pub proof fn law_div_write_resets(m: MemView, v: u8)
    requires
        m.wf(),
    ensures
        m.write(DIV, v).read(DIV) == 0,
{
}

} // verus!
