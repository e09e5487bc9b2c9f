//! The Game Boy memory map
//!
//! Every 16-bit address belongs to exactly one block of memory. Some blocks
//! are backed by RAM, some by the cartridge, some by video memory, and a few
//! are placeholders that read as zero and ignore writes.
//!
//! https://gbdev.io/pandocs/Memory_Map.html

use vstd::prelude::*;
use winnow::Parser;
use crate::emu::gpu::{OAM_LEN, Registers, Vram};
use crate::emu::gpu::tile::{TILE_DATA_LEN, TILE_MAPS_LEN};
use crate::emu::instruction::{Instruction, hi, lo};
use crate::emu::rom::{Rom, RomParseError, decode_truncated, decodes_to, parse_instruction};

verus! {

/// Code executed at boot, before entering the ROM
///
/// The last instruction executed by the bootstrap will unmap itself by writing
/// to the `BANK` register (`0xFF50`). This is the DMG boot ROM.
///
/// https://gbdev.io/pandocs/Power_Up_Sequence.html
pub const BOOTSTRAP_CODE: [u8; 256] = [
    0x31, 0xFE, 0xFF, 0xAF, 0x21, 0xFF, 0x9F, 0x32, 0xCB, 0x7C, 0x20, 0xFB,
    0x21, 0x26, 0xFF, 0x0E, 0x11, 0x3E, 0x80, 0x32, 0xE2, 0x0C, 0x3E, 0xF3,
    0xE2, 0x32, 0x3E, 0x77, 0x77, 0x3E, 0xFC, 0xE0, 0x47, 0x11, 0x04, 0x01,
    0x21, 0x10, 0x80, 0x1A, 0xCD, 0x95, 0x00, 0xCD, 0x96, 0x00, 0x13, 0x7B,
    0xFE, 0x34, 0x20, 0xF3, 0x11, 0xD8, 0x00, 0x06, 0x08, 0x1A, 0x13, 0x22,
    0x23, 0x05, 0x20, 0xF9, 0x3E, 0x19, 0xEA, 0x10, 0x99, 0x21, 0x2F, 0x99,
    0x0E, 0x0C, 0x3D, 0x28, 0x08, 0x32, 0x0D, 0x20, 0xF9, 0x2E, 0x0F, 0x18,
    0xF3, 0x67, 0x3E, 0x64, 0x57, 0xE0, 0x42, 0x3E, 0x91, 0xE0, 0x40, 0x04,
    0x1E, 0x02, 0x0E, 0x0C, 0xF0, 0x44, 0xFE, 0x90, 0x20, 0xFA, 0x0D, 0x20,
    0xF7, 0x1D, 0x20, 0xF2, 0x0E, 0x13, 0x24, 0x7C, 0x1E, 0x83, 0xFE, 0x62,
    0x28, 0x06, 0x1E, 0xC1, 0xFE, 0x64, 0x20, 0x06, 0x7B, 0xE2, 0x0C, 0x3E,
    0x87, 0xE2, 0xF0, 0x42, 0x90, 0xE0, 0x42, 0x15, 0x20, 0xD2, 0x05, 0x20,
    0x4F, 0x16, 0x20, 0x18, 0xCB, 0x4F, 0x06, 0x04, 0xC5, 0xCB, 0x11, 0x17,
    0xC1, 0xCB, 0x11, 0x17, 0x05, 0x20, 0xF5, 0x22, 0x23, 0x22, 0x23, 0xC9,
    0xCE, 0xED, 0x66, 0x66, 0xCC, 0x0D, 0x00, 0x0B, 0x03, 0x73, 0x00, 0x83,
    0x00, 0x0C, 0x00, 0x0D, 0x00, 0x08, 0x11, 0x1F, 0x88, 0x89, 0x00, 0x0E,
    0xDC, 0xCC, 0x6E, 0xE6, 0xDD, 0xDD, 0xD9, 0x99, 0xBB, 0xBB, 0x67, 0x63,
    0x6E, 0x0E, 0xEC, 0xCC, 0xDD, 0xDC, 0x99, 0x9F, 0xBB, 0xB9, 0x33, 0x3E,
    0x3C, 0x42, 0xB9, 0xA5, 0xB9, 0xA5, 0x42, 0x3C, 0x21, 0x04, 0x01, 0x11,
    0xA8, 0x00, 0x1A, 0x13, 0xBE, 0x20, 0xFE, 0x23, 0x7D, 0xFE, 0x34, 0x20,
    0xF5, 0x06, 0x19, 0x78, 0x86, 0x23, 0x05, 0x20, 0xFB, 0x86, 0x20, 0xFE,
    0x3E, 0x01, 0xE0, 0x50,
];

/// Size of general-purpose RAM (`0xC000-0xDFFF`)
pub const RAM_LEN: usize = 8192;
/// Size of high RAM (`0xFF80-0xFFFE`)
pub const HIGH_RAM_LEN: usize = 127;
/// Size of cartridge RAM (`0xA000-0xBFFF`)
pub const CARTRIDGE_RAM_LEN: usize = 8192;
/// Address of the `BANK` register (boot ROM mapping control)
pub const BANK: u16 = 0xFF50;

/// Address of a byte of memory
///
/// The Game Boy memory range covers the entire `u16` range, so all addresses
/// are valid.
#[derive(Clone, Copy, Debug, Default, PartialEq, Eq, Structural, Hash, PartialOrd, Ord)]
pub struct Address(pub u16);

/// Is the character a hexadecimal digit?
pub open spec fn is_hex_digit(c: char) -> bool {
    ('0' <= c <= '9') || ('a' <= c <= 'f') || ('A' <= c <= 'F')
}

/// The value of a hexadecimal digit
pub open spec fn hex_digit_value(c: char) -> int {
    if '0' <= c <= '9' {
        c as int - '0' as int
    } else if 'a' <= c <= 'f' {
        c as int - 'a' as int + 10
    } else {
        c as int - 'A' as int + 10
    }
}

/// The value of a string of hexadecimal digits, most significant first
pub open spec fn hex_value(s: Seq<char>) -> int
    decreases s.len(),
{
    if s.len() == 0 {
        0
    } else {
        hex_value(s.drop_last()) * 16 + hex_digit_value(s.last())
    }
}

/// Is the text one to four hexadecimal digits, and nothing else?
pub open spec fn is_hex_u16(s: Seq<char>) -> bool {
    &&& 1 <= s.len() <= 4
    &&& forall|i: int| 0 <= i < s.len() ==> is_hex_digit(#[trigger] s[i])
}

/// Parse all of `s` as a hexadecimal `u16` (without a `0x` prefix) with
/// winnow's `hex_uint`
///
/// `hex_uint` reads the run of hexadecimal digits at the start of the input,
/// failing when there is none or when it has more digits than a `u16` holds;
/// `Parser::parse` then fails unless the whole input was read. So the parse
/// succeeds exactly on one to four hex digits, with their value. The text of
/// the error message is not described.
#[verifier::external_body]
fn parse_hex_u16(s: &str) -> (r: Result<u16, String>)
    ensures
        r is Ok <==> is_hex_u16(s@),
        r matches Ok(v) ==> v == hex_value(s@),
{
    winnow::ascii::hex_uint::<_, u16, winnow::error::ContextError>.parse(s).map_err(|e| e.to_string())
}

impl Address {
    /// Parse an address from a hex number (*without* the preceding `0x`)
    pub fn parse(s: &str) -> (r: Result<Address, String>)
        ensures
            r is Ok <==> is_hex_u16(s@),
            r matches Ok(a) ==> a.0 == hex_value(s@),
    {
        match parse_hex_u16(s) {
            Ok(value) => Ok(Address(value)),
            Err(e) => Err(e),
        }
    }
}

/// Parse from a hex number (*without* the preceding `0x`)
impl std::str::FromStr for Address {
    type Err = String;

    fn from_str(s: &str) -> (r: Result<Self, Self::Err>)
        ensures
            r is Ok <==> is_hex_u16(s@),
            r matches Ok(a) ==> a.0 == hex_value(s@),
    {
        Address::parse(s)
    }
}

/// A range of memory addresses, with inclusive bounds `[start, last]`
#[derive(Clone, Copy, Debug)]
pub struct AddressRange {
    /// Descriptive name for debugging
    pub name: Option<&'static str>,
    /// First address in the range
    pub start: Address,
    /// Last address in the range
    pub last: Address,
}

impl AddressRange {
    /// Does the range hold at least one address?
    pub open spec fn wf(&self) -> bool {
        self.start.0 <= self.last.0
    }

    /// Is the address within the range?
    pub open spec fn spec_contains(&self, address: Address) -> bool {
        self.start.0 <= address.0 <= self.last.0
    }

    /// Define a range of memory
    ///
    /// The given bounds are **inclusive**: `[start, last]`.
    pub fn new(start: u16, last: u16) -> (r: Self)
        ensures
            r.name is None,
            r.start.0 == start,
            r.last.0 == last,
    {
        Self { name: None, start: Address(start), last: Address(last) }
    }

    /// Define a range of memory with a descriptive name for debugging
    ///
    /// The given bounds are **inclusive**: `[start, last]`.
    pub fn named(name: &'static str, start: u16, last: u16) -> (r: Self)
        ensures
            r.name == Some(name),
            r.start.0 == start,
            r.last.0 == last,
    {
        Self { name: Some(name), start: Address(start), last: Address(last) }
    }

    /// The full address range
    pub fn all() -> (r: Self)
        ensures
            r.start.0 == 0,
            r.last.0 == u16::MAX,
    {
        Self::named("All", 0, u16::MAX)
    }

    /// Join two contiguous ranges
    ///
    /// `self` must be the lower range and `other` is the upper range.
    pub fn union(self, name: &'static str, other: AddressRange) -> (r: Self)
        ensures
            r.name == Some(name),
            r.start == self.start,
            r.last == other.last,
    {
        Self { name: Some(name), start: self.start, last: other.last }
    }

    /// Get the number of bytes in the range
    pub fn len(&self) -> (r: usize)
        requires
            self.wf(),
        ensures
            r == self.last.0 - self.start.0 + 1,
    {
        // The end is inclusive, so we need +1 to count it
        (self.last.0 as usize) - (self.start.0 as usize) + 1
    }

    /// First address included in the range
    pub fn start(&self) -> (r: Address)
        ensures
            r == self.start,
    {
        self.start
    }

    /// Last address included in the range
    pub fn last(&self) -> (r: Address)
        ensures
            r == self.last,
    {
        self.last
    }

    /// Get the offset between the given address and the start of this range
    ///
    /// The returned offset is always less than `self.len()`.
    pub fn offset(&self, address: Address) -> (r: usize)
        requires
            self.spec_contains(address),
        ensures
            r == address.0 - self.start.0,
    {
        (address.0 - self.start.0) as usize
    }

    /// Is the address within this range?
    pub fn contains(&self, address: Address) -> (r: bool)
        ensures
            r == self.spec_contains(address),
    {
        self.start.0 <= address.0 && address.0 <= self.last.0
    }
}

/// A block of the memory map
///
/// https://gbdev.io/pandocs/Memory_Map.html
#[derive(Clone, Copy, Debug, PartialEq, Eq, Structural)]
pub enum Block {
    /// `0x0000-0x00FF` while booting: the boot ROM, mapped over the cartridge
    Bootstrap,
    /// `0x0000-0x3FFF`: the first bank of the cartridge ROM, which cannot be
    /// switched
    CartridgeRom0,
    /// `0x4000-0x7FFF`: the switchable bank of the cartridge ROM (not
    /// emulated: reads are 0)
    CartridgeRomN,
    /// `0x8000-0x97FF`: tile pixel data
    TileData,
    /// `0x9800-0x9FFF`: both tile maps
    TileMaps,
    /// `0xA000-0xBFFF`: RAM provided by the cartridge
    CartridgeRam,
    /// `0xC000-0xDFFF`: general-purpose RAM
    Ram,
    /// `0xE000-0xFDFF`: a mirror of the start of RAM
    EchoRam,
    /// `0xFE00-0xFE9F`: Object Attribute Memory
    Oam,
    /// `0xFEA0-0xFEFF`: unusable
    Null,
    /// `0xFF40-0xFF46`: graphics registers
    GpuRegisters,
    /// `0xFF50`: the boot ROM mapping control register
    Bank,
    /// `0xFF00-0xFF7F` apart from the above: other I/O registers (not
    /// emulated: reads are 0)
    IoRegisters,
    /// `0xFF80-0xFFFE`: high RAM
    HighRam,
    /// `0xFFFF`: the interrupt enable register (not emulated: reads are 0)
    InterruptEnable,
}

/// The block holding an address; the boot ROM covers the cartridge while
/// `bootstrapping`
pub open spec fn block_of(address: u16, bootstrapping: bool) -> Block {
    if bootstrapping && address <= 0x00FF {
        Block::Bootstrap
    } else if address <= 0x3FFF {
        Block::CartridgeRom0
    } else if address <= 0x7FFF {
        Block::CartridgeRomN
    } else if address <= 0x97FF {
        Block::TileData
    } else if address <= 0x9FFF {
        Block::TileMaps
    } else if address <= 0xBFFF {
        Block::CartridgeRam
    } else if address <= 0xDFFF {
        Block::Ram
    } else if address <= 0xFDFF {
        Block::EchoRam
    } else if address <= 0xFE9F {
        Block::Oam
    } else if address <= 0xFEFF {
        Block::Null
    } else if 0xFF40 <= address <= 0xFF46 {
        Block::GpuRegisters
    } else if address == BANK {
        Block::Bank
    } else if address <= 0xFF7F {
        Block::IoRegisters
    } else if address <= 0xFFFE {
        Block::HighRam
    } else {
        Block::InterruptEnable
    }
}

/// The first and last addresses of a block, as `(start, last)`
pub open spec fn block_bounds(block: Block) -> (u16, u16) {
    match block {
        Block::Bootstrap => (0x0000, 0x00FF),
        Block::CartridgeRom0 => (0x0000, 0x3FFF),
        Block::CartridgeRomN => (0x4000, 0x7FFF),
        Block::TileData => (0x8000, 0x97FF),
        Block::TileMaps => (0x9800, 0x9FFF),
        Block::CartridgeRam => (0xA000, 0xBFFF),
        Block::Ram => (0xC000, 0xDFFF),
        Block::EchoRam => (0xE000, 0xFDFF),
        Block::Oam => (0xFE00, 0xFE9F),
        Block::Null => (0xFEA0, 0xFEFF),
        Block::GpuRegisters => (0xFF40, 0xFF46),
        Block::Bank => (BANK, BANK),
        Block::IoRegisters => (0xFF00, 0xFF7F),
        Block::HighRam => (0xFF80, 0xFFFE),
        Block::InterruptEnable => (0xFFFF, 0xFFFF),
    }
}

/// The name a block is shown under while debugging
pub open spec fn block_name(block: Block) -> &'static str {
    match block {
        Block::Bootstrap => "Bootstrap",
        Block::CartridgeRom0 => "Cartridge ROM Bank 0",
        Block::CartridgeRomN => "Cartridge ROM Bank N",
        Block::TileData => "Tile Data",
        Block::TileMaps => "Tile Maps",
        Block::CartridgeRam => "Cartridge RAM",
        Block::Ram => "RAM",
        Block::EchoRam => "Echo RAM",
        Block::Oam => "OAM",
        Block::Null => "Null",
        Block::GpuRegisters => "GPU Registers",
        Block::Bank => "BANK",
        Block::IoRegisters => "I/O registers",
        Block::HighRam => "High RAM",
        Block::InterruptEnable => "INT enable",
    }
}

impl Block {
    /// The block holding an address
    pub fn of(address: Address, bootstrapping: bool) -> (r: Block)
        ensures
            r == block_of(address.0, bootstrapping),
    {
        let a = address.0;
        if bootstrapping && a <= 0x00FF {
            Block::Bootstrap
        } else if a <= 0x3FFF {
            Block::CartridgeRom0
        } else if a <= 0x7FFF {
            Block::CartridgeRomN
        } else if a <= 0x97FF {
            Block::TileData
        } else if a <= 0x9FFF {
            Block::TileMaps
        } else if a <= 0xBFFF {
            Block::CartridgeRam
        } else if a <= 0xDFFF {
            Block::Ram
        } else if a <= 0xFDFF {
            Block::EchoRam
        } else if a <= 0xFE9F {
            Block::Oam
        } else if a <= 0xFEFF {
            Block::Null
        } else if 0xFF40 <= a && a <= 0xFF46 {
            Block::GpuRegisters
        } else if a == BANK {
            Block::Bank
        } else if a <= 0xFF7F {
            Block::IoRegisters
        } else if a <= 0xFFFE {
            Block::HighRam
        } else {
            Block::InterruptEnable
        }
    }

    /// The range of addresses covered by this block
    ///
    /// Every address that [block_of] puts in this block lies in the range.
    pub fn range(self) -> (r: AddressRange)
        ensures
            r.wf(),
            r.name == Some(block_name(self)),
            r.start.0 == block_bounds(self).0,
            r.last.0 == block_bounds(self).1,
            forall|a: u16, bootstrapping: bool|
                #[trigger] block_of(a, bootstrapping) == self ==> r.start.0 <= a <= r.last.0,
    {
        match self {
            Block::Bootstrap => AddressRange::named("Bootstrap", 0x0000, 0x00FF),
            Block::CartridgeRom0 => AddressRange::named("Cartridge ROM Bank 0", 0x0000, 0x3FFF),
            Block::CartridgeRomN => AddressRange::named("Cartridge ROM Bank N", 0x4000, 0x7FFF),
            Block::TileData => AddressRange::named("Tile Data", 0x8000, 0x97FF),
            Block::TileMaps => AddressRange::named("Tile Maps", 0x9800, 0x9FFF),
            Block::CartridgeRam => AddressRange::named("Cartridge RAM", 0xA000, 0xBFFF),
            Block::Ram => AddressRange::named("RAM", 0xC000, 0xDFFF),
            Block::EchoRam => AddressRange::named("Echo RAM", 0xE000, 0xFDFF),
            Block::Oam => AddressRange::named("OAM", 0xFE00, 0xFE9F),
            Block::Null => AddressRange::named("Null", 0xFEA0, 0xFEFF),
            Block::GpuRegisters => AddressRange::named("GPU Registers", 0xFF40, 0xFF46),
            Block::Bank => AddressRange::named("BANK", BANK, BANK),
            Block::IoRegisters => AddressRange::named("I/O registers", 0xFF00, 0xFF7F),
            Block::HighRam => AddressRange::named("High RAM", 0xFF80, 0xFFFE),
            Block::InterruptEnable => AddressRange::named("INT enable", 0xFFFF, 0xFFFF),
        }
    }
}

/// Container for RAM and memory-related registers
#[derive(Debug)]
pub struct RandomAccessMemory {
    /// General-purpose writable memory
    pub ram: Vec<u8>,
    /// Additional general-purpose writable memory
    pub high_ram: Vec<u8>,
    /// Additional RAM provided by the cartridge
    pub cartridge_ram: Vec<u8>,
    /// `BANK`: Boot ROM mapping control
    ///
    /// If this is 0, the boot ROM is mapped over bytes `0x0-0x100`. If it's
    /// any other value, that range is mapped to the ROM instead.
    pub bank: u8,
}

impl View for RandomAccessMemory {
    /// `(ram, high_ram, cartridge_ram, bank)`
    type V = (Seq<u8>, Seq<u8>, Seq<u8>, u8);

    open spec fn view(&self) -> Self::V {
        (self.ram@, self.high_ram@, self.cartridge_ram@, self.bank)
    }
}

impl RandomAccessMemory {
    /// Every memory area has its hardware size.
    pub open spec fn wf(&self) -> bool {
        &&& self.ram@.len() == RAM_LEN
        &&& self.high_ram@.len() == HIGH_RAM_LEN
        &&& self.cartridge_ram@.len() == CARTRIDGE_RAM_LEN
    }

    /// Zeroed memory, with the boot ROM mapped
    pub fn new() -> (r: Self)
        ensures
            r.wf(),
            r.bank == 0,
            forall|i: int| 0 <= i < RAM_LEN ==> #[trigger] r.ram@[i] == 0,
            forall|i: int| 0 <= i < HIGH_RAM_LEN ==> #[trigger] r.high_ram@[i] == 0,
            forall|i: int| 0 <= i < CARTRIDGE_RAM_LEN ==> #[trigger] r.cartridge_ram@[i] == 0,
    {
        Self {
            bank: 0,
            ram: zeroed(RAM_LEN),
            high_ram: zeroed(HIGH_RAM_LEN),
            cartridge_ram: zeroed(CARTRIDGE_RAM_LEN),
        }
    }

    /// Get the value of the `BANK` register
    pub fn bank(&self) -> (r: u8)
        ensures
            r == self.bank,
    {
        self.bank
    }
}

/// A buffer of `len` zero bytes
pub fn zeroed(len: usize) -> (r: Vec<u8>)
    ensures
        r@.len() == len,
        forall|i: int| 0 <= i < len ==> #[trigger] r@[i] == 0,
{
    let mut v: Vec<u8> = Vec::new();
    let mut k: usize = 0;
    while k < len
        invariant
            k <= len,
            v@.len() == k,
            forall|i: int| 0 <= i < k ==> #[trigger] v@[i] == 0,
        decreases len - k,
    {
        v.push(0);
        k = k + 1;
    }
    v
}

/// RAM as plain values: `(ram, high_ram, cartridge_ram, bank)`
pub type RamView = (Seq<u8>, Seq<u8>, Seq<u8>, u8);

/// Video memory as plain values: `(registers, oam, tile_data, tile_maps)`
pub type VramView = (Registers, Seq<u8>, Seq<u8>, Seq<u8>);

/// The writable state behind the memory bus
pub type BusView = (RamView, VramView);

/// The byte at `address` of the bus state `m`
pub open spec fn bus_get8(rom: Seq<u8>, m: BusView, address: u16) -> u8 {
    memory_get8(rom, m.0, m.1, address)
}

/// The bus state after writing a byte
pub open spec fn bus_set8(m: BusView, address: u16, value: u8) -> BusView {
    memory_set8(m.0, m.1, address, value)
}

/// The little-endian 16-bit value at `address` (which is below `0xFFFF`)
pub open spec fn bus_get16(rom: Seq<u8>, m: BusView, address: u16) -> u16 {
    (bus_get8(rom, m, address) + 256 * bus_get8(rom, m, (address + 1) as u16)) as u16
}

/// The bus state after writing a little-endian 16-bit value at `address`
/// (which is below `0xFFFF`)
pub open spec fn bus_set16(m: BusView, address: u16, value: u16) -> BusView {
    bus_set8(bus_set8(m, address, lo(value)), (address + 1) as u16, hi(value))
}

/// The PPU mode number in the low bits of a `STAT` value
pub open spec fn mode_of(registers: Registers) -> u8 {
    registers.stat.value & 3
}

/// The byte at `address`, given the cartridge ROM, RAM and video memory
#[verifier::opaque]
pub open spec fn memory_get8(
    rom: Seq<u8>,
    ram: (Seq<u8>, Seq<u8>, Seq<u8>, u8),
    vram: (Registers, Seq<u8>, Seq<u8>, Seq<u8>),
    address: u16,
) -> u8 {
    let mode = mode_of(vram.0);
    let a = address as int;
    match block_of(address, ram.3 == 0) {
        Block::Bootstrap => BOOTSTRAP_CODE@[a],
        Block::CartridgeRom0 => if a < rom.len() {
            rom[a]
        } else {
            0
        },
        Block::TileData => if mode != 3 {
            vram.2[a - 0x8000]
        } else {
            0
        },
        Block::TileMaps => if mode != 3 {
            vram.3[a - 0x9800]
        } else {
            0
        },
        Block::CartridgeRam => ram.2[a - 0xA000],
        Block::Ram => ram.0[a - 0xC000],
        Block::EchoRam => ram.0[a - 0xE000],
        Block::Oam => if mode == 0 || mode == 1 {
            vram.1[a - 0xFE00]
        } else {
            0
        },
        Block::GpuRegisters => vram.0.byte(a - 0xFF40),
        Block::Bank => ram.3,
        Block::HighRam => ram.1[a - 0xFF80],
        _ => 0,
    }
}

/// RAM and video memory after writing `value` at `address`
///
/// Writes to read-only and placeholder blocks, and to video memory while the
/// PPU holds it, change nothing.
#[verifier::opaque]
pub open spec fn memory_set8(
    ram: (Seq<u8>, Seq<u8>, Seq<u8>, u8),
    vram: (Registers, Seq<u8>, Seq<u8>, Seq<u8>),
    address: u16,
    value: u8,
) -> ((Seq<u8>, Seq<u8>, Seq<u8>, u8), (Registers, Seq<u8>, Seq<u8>, Seq<u8>)) {
    let mode = mode_of(vram.0);
    let a = address as int;
    match block_of(address, ram.3 == 0) {
        Block::TileData => if mode != 3 {
            (ram, (vram.0, vram.1, vram.2.update(a - 0x8000, value), vram.3))
        } else {
            (ram, vram)
        },
        Block::TileMaps => if mode != 3 {
            (ram, (vram.0, vram.1, vram.2, vram.3.update(a - 0x9800, value)))
        } else {
            (ram, vram)
        },
        Block::CartridgeRam => ((ram.0, ram.1, ram.2.update(a - 0xA000, value), ram.3), vram),
        Block::Ram => ((ram.0.update(a - 0xC000, value), ram.1, ram.2, ram.3), vram),
        Block::EchoRam => ((ram.0.update(a - 0xE000, value), ram.1, ram.2, ram.3), vram),
        Block::Oam => if mode == 0 || mode == 1 {
            (ram, (vram.0, vram.1.update(a - 0xFE00, value), vram.2, vram.3))
        } else {
            (ram, vram)
        },
        Block::GpuRegisters => (ram, (vram.0.spec_set(a - 0xFF40, value), vram.1, vram.2, vram.3)),
        Block::Bank => ((ram.0, ram.1, ram.2, value), vram),
        Block::HighRam => ((ram.0, ram.1.update(a - 0xFF80, value), ram.2, ram.3), vram),
        _ => (ram, vram),
    }
}

/// May the CPU write the byte at `address` in this state?
///
/// RAM, the graphics registers and `BANK` are always writable; video memory
/// only while the PPU does not hold it; the cartridge ROM and placeholder
/// blocks never.
pub open spec fn writable(ram: (Seq<u8>, Seq<u8>, Seq<u8>, u8), vram: (Registers, Seq<u8>, Seq<u8>, Seq<u8>), address: u16) -> bool {
    let mode = mode_of(vram.0);
    match block_of(address, ram.3 == 0) {
        Block::TileData | Block::TileMaps => mode != 3,
        Block::Oam => mode == 0 || mode == 1,
        Block::CartridgeRam | Block::Ram | Block::EchoRam | Block::GpuRegisters | Block::Bank
        | Block::HighRam => true,
        _ => false,
    }
}

/// Do the memory areas have their hardware sizes?
pub open spec fn sizes_ok(ram: (Seq<u8>, Seq<u8>, Seq<u8>, u8), vram: (Registers, Seq<u8>, Seq<u8>, Seq<u8>)) -> bool {
    &&& ram.0.len() == RAM_LEN
    &&& ram.1.len() == HIGH_RAM_LEN
    &&& ram.2.len() == CARTRIDGE_RAM_LEN
    &&& vram.1.len() == OAM_LEN
    &&& vram.2.len() == TILE_DATA_LEN
    &&& vram.3.len() == TILE_MAPS_LEN
}

/// The offset into general-purpose RAM of an address in RAM or echo RAM
pub open spec fn ram_offset(address: u16) -> int {
    if address < 0xE000 {
        address - 0xC000
    } else {
        address - 0xE000
    }
}

/// Do two addresses name the same byte of general-purpose RAM, one through
/// echo RAM?
pub open spec fn aliases(a: u16, b: u16) -> bool {
    &&& 0xC000 <= a <= 0xFDFF
    &&& 0xC000 <= b <= 0xFDFF
    &&& ram_offset(a) == ram_offset(b)
}

/// Reading a writable address gives back the value last written to it.
pub proof fn law_read_after_write(
    rom: Seq<u8>,
    ram: (Seq<u8>, Seq<u8>, Seq<u8>, u8),
    vram: (Registers, Seq<u8>, Seq<u8>, Seq<u8>),
    address: u16,
    value: u8,
)
    requires
        sizes_ok(ram, vram),
        writable(ram, vram, address),
    ensures
        ({
            let (ram2, vram2) = memory_set8(ram, vram, address, value);
            memory_get8(rom, ram2, vram2, address) == value
        }),
{
    reveal(memory_get8);
    reveal(memory_set8);
}

/// Writing one address leaves every other address reading as before, except
/// the RAM byte it shares through echo RAM. Writes to `STAT` and `BANK` are
/// left out: they change which memory is visible.
pub proof fn law_write_elsewhere(
    rom: Seq<u8>,
    ram: (Seq<u8>, Seq<u8>, Seq<u8>, u8),
    vram: (Registers, Seq<u8>, Seq<u8>, Seq<u8>),
    address: u16,
    value: u8,
    other: u16,
)
    requires
        sizes_ok(ram, vram),
        other != address,
        !aliases(address, other),
        address != 0xFF41,
        address != BANK,
    ensures
        ({
            let (ram2, vram2) = memory_set8(ram, vram, address, value);
            memory_get8(rom, ram2, vram2, other) == memory_get8(rom, ram, vram, other)
        }),
{
    reveal(memory_get8);
    reveal(memory_set8);
    let (ram2, vram2) = memory_set8(ram, vram, address, value);
    assert(ram2.3 == ram.3);
    assert(mode_of(vram2.0) == mode_of(vram.0));
}

/// Echo RAM reads the same bytes as the start of RAM, and writing through
/// either is seen through the other.
pub proof fn law_echo_mirror(
    rom: Seq<u8>,
    ram: (Seq<u8>, Seq<u8>, Seq<u8>, u8),
    vram: (Registers, Seq<u8>, Seq<u8>, Seq<u8>),
    offset: u16,
    value: u8,
)
    requires
        sizes_ok(ram, vram),
        offset < 0x1E00,
    ensures
        memory_get8(rom, ram, vram, (0xE000 + offset) as u16) == memory_get8(rom, ram, vram, (0xC000 + offset) as u16),
        ({
            let (ram2, vram2) = memory_set8(ram, vram, (0xE000 + offset) as u16, value);
            memory_get8(rom, ram2, vram2, (0xC000 + offset) as u16) == value
        }),
{
    reveal(memory_get8);
    reveal(memory_set8);
}

/// Once the bootstrap has unmapped itself, it stays unmapped: no write maps
/// it back, except writing zero to `BANK`.
pub proof fn law_bootstrap_stays_unmapped(
    ram: (Seq<u8>, Seq<u8>, Seq<u8>, u8),
    vram: (Registers, Seq<u8>, Seq<u8>, Seq<u8>),
    address: u16,
    value: u8,
)
    requires
        ram.3 != 0,
        !(address == BANK && value == 0),
    ensures
        memory_set8(ram, vram, address, value).0.3 != 0,
{
    reveal(memory_set8);
}

/// A write to memory the CPU may not write changes nothing.
pub proof fn law_write_protected(
    ram: (Seq<u8>, Seq<u8>, Seq<u8>, u8),
    vram: (Registers, Seq<u8>, Seq<u8>, Seq<u8>),
    address: u16,
    value: u8,
)
    requires
        !writable(ram, vram, address),
    ensures
        memory_set8(ram, vram, address, value) == (ram, vram),
{
    reveal(memory_get8);
    reveal(memory_set8);
}

/// Information about a particular byte in memory
#[derive(Clone, Copy, Debug)]
pub struct MemoryMetadata {
    /// Address of the described memory
    pub address: Address,
    /// The block that this address points to
    pub block: Block,
    /// Name of the block that this address points to
    pub block_name: &'static str,
}

/// A read-only view of the memory map, for the debugger
#[derive(Clone, Copy, Debug)]
pub struct MemoryBusReadOnly<'a> {
    /// RAM and registers
    pub ram: &'a RandomAccessMemory,
    /// Read-only memory from the cartridge
    pub rom: &'a Rom,
    /// VRAM and graphics-related IO registers
    pub vram: &'a Vram,
}

impl<'a> MemoryBusReadOnly<'a> {
    /// Does every memory area have its hardware size?
    pub open spec fn wf(&self) -> bool {
        self.ram.wf() && self.vram.wf()
    }

    /// The byte at `address`
    pub open spec fn spec_get8(&self, address: u16) -> u8 {
        memory_get8(self.rom.data@, self.ram@, self.vram@, address)
    }

    /// Get a 1-byte value from memory
    ///
    /// All 16-bit addresses are valid, so this is infallible.
    pub fn get8(&self, address: Address) -> (r: u8)
        requires
            self.wf(),
        ensures
            r == self.spec_get8(address.0),
    {
        reveal(memory_get8);
        let a = address.0 as usize;
        let mode = self.vram.registers.stat.value & 3;
        match Block::of(address, self.ram.bank == 0) {
            Block::Bootstrap => BOOTSTRAP_CODE[a],
            Block::CartridgeRom0 => if a < self.rom.data.len() {
                self.rom.data[a]
            } else {
                0
            },
            Block::TileData => if mode != 3 {
                self.vram.tile_data.data[a - 0x8000]
            } else {
                0
            },
            Block::TileMaps => if mode != 3 {
                self.vram.tile_maps.maps[a - 0x9800]
            } else {
                0
            },
            Block::CartridgeRam => self.ram.cartridge_ram[a - 0xA000],
            Block::Ram => self.ram.ram[a - 0xC000],
            Block::EchoRam => self.ram.ram[a - 0xE000],
            Block::Oam => if mode == 0 || mode == 1 {
                self.vram.oam[a - 0xFE00]
            } else {
                0
            },
            Block::GpuRegisters => self.vram.registers.get((a - 0xFF40) as u8),
            Block::Bank => self.ram.bank,
            Block::HighRam => self.ram.high_ram[a - 0xFF80],
            _ => 0,
        }
    }

    /// Get the block of memory containing the given address
    pub fn get_block(&self, address: Address) -> (r: Block)
        ensures
            r == block_of(address.0, self.ram.bank == 0),
    {
        Block::of(address, self.ram.bank == 0)
    }

    /// Describe the memory at an address: which block holds it
    pub fn get_metadata(&self, address: Address) -> (r: MemoryMetadata)
        ensures
            r.address == address,
            r.block == block_of(address.0, self.ram.bank == 0),
            r.block_name == block_name(block_of(address.0, self.ram.bank == 0)),
    {
        let block = self.get_block(address);
        let range = block.range();
        MemoryMetadata { address, block, block_name: range.name.unwrap() }
    }

    /// Is the bootstrap currently mapped?
    ///
    /// This is `true` only during initial boot. The bootstrap unmaps itself
    /// with its last instruction, at which point it should never be re-mapped.
    pub fn is_bootstrapping(&self) -> (r: bool)
        ensures
            r == (self.ram.bank == 0),
    {
        self.ram.bank == 0
    }
}

/// Why an instruction could not be fetched
#[derive(Clone, Debug)]
pub enum FetchError {
    /// The address is outside the code being run: the cartridge ROM, or the
    /// boot ROM while it is mapped
    OutOfRange { address: Address },
    /// The code ends in the middle of the instruction
    Truncated(RomParseError),
}

/// An abstraction over the addressable range of memory
///
/// All parts of accessible memory are held as references, so each component
/// of memory stays owned by its own module and is handed to the CPU only for
/// the length of a tick.
///
/// https://gbdev.io/pandocs/Memory_Map.html
#[derive(Debug)]
pub struct MemoryBus<'a> {
    /// Read-only memory from the cartridge
    pub rom: &'a Rom,
    /// RAM and registers
    pub ram: &'a mut RandomAccessMemory,
    /// VRAM and graphics-related IO registers
    pub vram: &'a mut Vram,
}

/// The code the CPU runs at an address: the boot ROM while it is mapped, else
/// the cartridge
pub open spec fn code_source(rom: Seq<u8>, bank: u8) -> Seq<u8> {
    if bank == 0 {
        BOOTSTRAP_CODE@
    } else {
        rom
    }
}

impl<'a> MemoryBus<'a> {
    /// The RAM the bus currently holds
    pub open spec fn spec_ram(&self) -> RandomAccessMemory {
        *self.ram
    }

    /// The video memory the bus currently holds
    pub open spec fn spec_vram(&self) -> Vram {
        *self.vram
    }

    /// Does every memory area have its hardware size?
    pub open spec fn wf(&self) -> bool {
        (*self.ram).wf() && (*self.vram).wf()
    }

    /// The writable state behind the bus
    pub open spec fn view(&self) -> BusView {
        ((*self.ram)@, (*self.vram)@)
    }

    /// The byte at `address`
    pub open spec fn spec_get8(&self, address: u16) -> u8 {
        memory_get8(self.rom.data@, (*self.ram)@, (*self.vram)@, address)
    }

    /// Construct a memory bus from references to each addressable component
    pub fn new(rom: &'a Rom, ram: &'a mut RandomAccessMemory, vram: &'a mut Vram) -> (r: Self)
        ensures
            *r.rom == *rom,
            *r.ram == *old(ram),
            *r.vram == *old(vram),
            *final(r.ram) == *final(ram),
            *final(r.vram) == *final(vram),
    {
        Self { rom, ram, vram }
    }

    /// Get a read-only memory view
    pub fn read_only(&self) -> (r: MemoryBusReadOnly<'_>)
        ensures
            *r.rom == *self.rom,
            *r.ram == self.spec_ram(),
            *r.vram == self.spec_vram(),
    {
        MemoryBusReadOnly { ram: &*self.ram, rom: self.rom, vram: &*self.vram }
    }

    /// Load the CPU instruction at the given address
    ///
    /// Return the instruction as well as the number of bytes it consumed. This
    /// is the number of bytes that the PC should advance. Instructions are
    /// read from the boot ROM while it is mapped, else from the cartridge ROM.
    ///
    /// The address must lie in the cartridge ROM range and a whole
    /// instruction must be there; see [MemoryBus::fetch_instruction] for a
    /// form that reports both cases as errors.
    pub fn get_instruction(&self, address: Address) -> (r: (Instruction, u16))
        requires
            self.wf(),
            address.0 <= 0x7FFF,
            address.0 <= code_source(self.rom.data@, self.spec_ram().bank).len(),
            !decode_truncated(code_source(self.rom.data@, self.spec_ram().bank).skip(address.0 as int)),
        ensures
            decodes_to(code_source(self.rom.data@, self.spec_ram().bank).skip(address.0 as int), r.0, r.1 as nat),
            1 <= r.1 <= 3,
    {
        match self.fetch_instruction(address) {
            Ok(loaded) => loaded,
            Err(_) => vstd::pervasive::unreached(),
        }
    }

    /// Load the CPU instruction at the given address, if there is one
    ///
    /// This is [MemoryBus::get_instruction] for any address: an address
    /// outside the code being run, or code that ends in the middle of the
    /// instruction, gives an error.
    pub fn fetch_instruction(&self, address: Address) -> (r: Result<(Instruction, u16), FetchError>)
        requires
            self.wf(),
        ensures
            ({
                let source = code_source(self.rom.data@, self.spec_ram().bank);
                let a = address.0 as int;
                &&& r is Ok <==> (a <= 0x7FFF && a <= source.len() && !decode_truncated(source.skip(a)))
                &&& r matches Ok((i, n)) ==> decodes_to(source.skip(a), i, n as nat) && 1 <= n <= 3
                &&& r matches Err(e) ==> (e is OutOfRange <==> (a > 0x7FFF || a > source.len()))
            }),
    {
        if address.0 > 0x7FFF {
            return Err(FetchError::OutOfRange { address });
        }
        let source: &[u8] = if self.ram.bank == 0 {
            BOOTSTRAP_CODE.as_slice()
        } else {
            self.rom.data.as_slice()
        };
        if address.0 as usize > source.len() {
            return Err(FetchError::OutOfRange { address });
        }
        match parse_instruction(source, address.0 as usize) {
            Ok((instruction, size)) => {
                proof {
                    crate::emu::rom::lemma_decoded_len(source@.skip(address.0 as int), instruction, size as nat);
                }
                Ok((instruction, size as u16))
            },
            Err(e) => Err(FetchError::Truncated(e)),
        }
    }

    /// Get a 1-byte value from memory
    ///
    /// All 16-bit addresses are valid, so this is infallible.
    pub fn get8(&self, address: Address) -> (r: u8)
        requires
            self.wf(),
        ensures
            r == self.spec_get8(address.0),
    {
        self.read_only().get8(address)
    }

    /// Set a 1-byte value in memory
    ///
    /// If the memory isn't writable, this does nothing.
    pub fn set8(&mut self, address: Address, value: u8)
        requires
            old(self).wf(),
        ensures
            final(self).wf(),
            ((*final(self).ram)@, (*final(self).vram)@) == memory_set8((*old(self).ram)@, (*old(self).vram)@, address.0, value),
            *final(self).rom == *old(self).rom,
            *final(final(self).ram) == *final(old(self).ram),
            *final(final(self).vram) == *final(old(self).vram),
    {
        reveal(memory_set8);
        let a = address.0 as usize;
        let mode = self.vram.registers.stat.value & 3;
        match Block::of(address, self.ram.bank == 0) {
            Block::TileData => if mode != 3 {
                self.vram.tile_data.data.set(a - 0x8000, value);
            },
            Block::TileMaps => if mode != 3 {
                self.vram.tile_maps.maps.set(a - 0x9800, value);
            },
            Block::CartridgeRam => {
                self.ram.cartridge_ram.set(a - 0xA000, value);
            },
            Block::Ram => {
                self.ram.ram.set(a - 0xC000, value);
            },
            Block::EchoRam => {
                self.ram.ram.set(a - 0xE000, value);
            },
            Block::Oam => if mode == 0 || mode == 1 {
                self.vram.oam.set(a - 0xFE00, value);
            },
            Block::GpuRegisters => {
                self.vram.registers.set((a - 0xFF40) as u8, value);
            },
            Block::Bank => {
                self.ram.bank = value;
            },
            Block::HighRam => {
                self.ram.high_ram.set(a - 0xFF80, value);
            },
            _ => {},
        }
    }

    /// Get a 2-byte value from memory (little-endian)
    pub fn get16(&self, address: Address) -> (r: u16)
        requires
            self.wf(),
            address.0 < u16::MAX,
        ensures
            r == self.spec_get8(address.0) + 256 * self.spec_get8((address.0 + 1) as u16),
    {
        let low = self.get8(address);
        let high = self.get8(Address(address.0 + 1));
        (high as u16) * 256 + (low as u16)
    }

    /// Set a 2-byte value in memory (little-endian)
    ///
    /// If the memory isn't writable, this does nothing.
    pub fn set16(&mut self, address: Address, value: u16)
        requires
            old(self).wf(),
            address.0 < u16::MAX,
        ensures
            final(self).wf(),
            ({
                let (ram1, vram1) = memory_set8((*old(self).ram)@, (*old(self).vram)@, address.0, lo(value));
                ((*final(self).ram)@, (*final(self).vram)@) == memory_set8(ram1, vram1, (address.0 + 1) as u16, hi(value))
            }),
            *final(self).rom == *old(self).rom,
            *final(final(self).ram) == *final(old(self).ram),
            *final(final(self).vram) == *final(old(self).vram),
    {
        let low = (value % 256) as u8;
        let high = (value / 256) as u8;
        self.set8(address, low);
        self.set8(Address(address.0 + 1), high);
    }

    /// Is the bootstrap currently mapped?
    ///
    /// This is `true` only during initial boot. The bootstrap unmaps itself
    /// with its last instruction, at which point it should never be re-mapped.
    pub fn is_bootstrapping(&self) -> (r: bool)
        ensures
            r == (self.spec_ram().bank == 0),
    {
        self.ram.bank == 0
    }
}

impl Clone for RandomAccessMemory {
    fn clone(&self) -> (r: Self)
        ensures
            r@ == self@,
    {
        let ram = self.ram.clone();
        let high_ram = self.high_ram.clone();
        let cartridge_ram = self.cartridge_ram.clone();
        assert(ram@ =~= self.ram@);
        assert(high_ram@ =~= self.high_ram@);
        assert(cartridge_ram@ =~= self.cartridge_ram@);
        RandomAccessMemory { ram, high_ram, cartridge_ram, bank: self.bank }
    }
}

/// A temporary view into a block of memory
///
/// The debugger uses this to read blocks of memory as raw bytes. A view may be
/// null: not backed by any memory, reading as zero.
#[derive(Clone, Copy, Debug)]
pub struct MemoryView<'a> {
    /// Underlying bytes, or `None` for a null view
    pub value: Option<&'a [u8]>,
    /// Range of memory addresses covered by this view
    pub range: AddressRange,
}

impl<'a> MemoryView<'a> {
    /// Does a backing slice cover exactly the range?
    pub open spec fn wf(&self) -> bool {
        &&& self.range.wf()
        &&& self.value matches Some(bytes) ==> bytes@.len() == self.range.last.0 - self.range.start.0 + 1
    }

    /// The byte at an address of the range
    pub open spec fn spec_get(&self, address: Address) -> u8 {
        match self.value {
            Some(bytes) => bytes@[address.0 - self.range.start.0],
            None => 0,
        }
    }

    /// Create a view of a byte slice covering exactly `range`
    pub fn from_slice(slice: &'a [u8], range: AddressRange) -> (r: Self)
        requires
            range.wf(),
            slice@.len() == range.last.0 - range.start.0 + 1,
        ensures
            r.wf(),
            r.value == Some(slice),
            r.range == range,
    {
        Self { value: Some(slice), range }
    }

    /// Create a view to null memory
    ///
    /// This is not backed by any real memory: [get](Self::get) always returns
    /// `0`.
    pub fn null(range: AddressRange) -> (r: Self)
        requires
            range.wf(),
        ensures
            r.wf(),
            r.value is None,
            r.range == range,
    {
        Self { value: None, range }
    }

    /// Get the value of a single byte in the view's range
    pub fn get(&self, address: Address) -> (r: u8)
        requires
            self.wf(),
            self.range.spec_contains(address),
        ensures
            r == self.spec_get(address),
    {
        match self.value {
            None => 0,
            Some(bytes) => bytes[self.range.offset(address)],
        }
    }
}

} // verus!
