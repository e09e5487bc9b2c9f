use sad_boy::emu::gpu::Vram;
use sad_boy::emu::memory::{Address, BANK, BOOTSTRAP_CODE, Block, MemoryBus, RandomAccessMemory};
use sad_boy::emu::rom::Rom;

/// Ensure that every address in the valid memory range (`[0, 65535]`) is
/// mapped to a block
#[test]
fn range_coverage() {
    let rom = Rom::empty();
    let mut memory = RandomAccessMemory::new();
    let mut vram = Vram::new();
    let mut memory = MemoryBus::new(&rom, &mut memory, &mut vram);
    for address in 0..=u16::MAX {
        let address = Address(address);
        memory.get8(address);
        memory.set8(address, 0);
    }
}

fn with_bus(f: impl FnOnce(&mut MemoryBus)) {
    let rom = Rom::new(vec![0xAB; 0x8000]);
    let mut ram = RandomAccessMemory::new();
    let mut vram = Vram::new();
    let mut memory = MemoryBus::new(&rom, &mut ram, &mut vram);
    f(&mut memory);
}

/// A read gives back what was written, and echo RAM mirrors RAM both ways
#[test]
fn read_after_write_and_echo() {
    with_bus(|memory| {
        memory.set8(Address(0xC123), 0x42);
        assert_eq!(memory.get8(Address(0xC123)), 0x42);
        assert_eq!(memory.get8(Address(0xE123)), 0x42);
        memory.set8(Address(0xE124), 0x99);
        assert_eq!(memory.get8(Address(0xC124)), 0x99);
        // A write leaves other addresses alone
        assert_eq!(memory.get8(Address(0xC122)), 0);
        memory.set8(Address(0xFF90), 7);
        assert_eq!(memory.get8(Address(0xFF90)), 7);
    });
}

/// Writes to the cartridge ROM are ignored; switchable banks are not mapped
/// and read as zero
#[test]
fn rom_is_read_only() {
    with_bus(|memory| {
        memory.set8(Address(0x0150), 0x00);
        memory.set8(Address(0x4000), 0x12);
        assert_eq!(memory.get8(Address(0x0150)), 0xAB);
        assert_eq!(memory.get8(Address(0x4000)), 0x00);
    });
}

/// 16-bit values are little-endian
#[test]
fn little_endian() {
    with_bus(|memory| {
        memory.set16(Address(0xC000), 0x1234);
        assert_eq!(memory.get8(Address(0xC000)), 0x34);
        assert_eq!(memory.get8(Address(0xC001)), 0x12);
        assert_eq!(memory.get16(Address(0xC000)), 0x1234);
    });
}

/// The bootstrap is mapped over the cartridge until `BANK` is written
#[test]
fn bootstrap_mapping() {
    with_bus(|memory| {
        assert!(memory.is_bootstrapping());
        assert_eq!(memory.get8(Address(0x0000)), BOOTSTRAP_CODE[0]);
        assert_eq!(memory.get8(Address(0x0100)), 0xAB);
        memory.set8(Address(BANK), 1);
        assert!(!memory.is_bootstrapping());
        assert_eq!(memory.get8(Address(0x0000)), 0xAB);
    });
}

/// Addresses map to the blocks of the memory map
#[test]
fn blocks() {
    assert_eq!(Block::of(Address(0x0000), true), Block::Bootstrap);
    assert_eq!(Block::of(Address(0x0000), false), Block::CartridgeRom0);
    assert_eq!(Block::of(Address(0x8000), false), Block::TileData);
    assert_eq!(Block::of(Address(0xFE00), false), Block::Oam);
    assert_eq!(Block::of(Address(0xFF50), false), Block::Bank);
    assert_eq!(Block::of(Address(0xFFFF), false), Block::InterruptEnable);
    assert_eq!(Block::Ram.range().len(), 8192);
}

/// Addresses parse from hex without a prefix
#[test]
fn address_parse() {
    assert_eq!(Address::parse("ff50"), Ok(Address(0xFF50)));
    assert_eq!(Address::parse("FF50"), Ok(Address(0xFF50)));
    assert_eq!(Address::parse("1"), Ok(Address(1)));
    assert_eq!("0150".parse::<Address>(), Ok(Address(0x0150)));
    assert!(Address::parse("").is_err());
    assert!(Address::parse("xyz").is_err());
    assert!(Address::parse("12345").is_err());
    assert!(Address::parse("0x10").is_err());
}

/// Addresses print as `$` and four upper case hex digits
#[test]
fn address_text() {
    assert_eq!(Address(0xFF50).to_string(), "$FF50");
    assert_eq!(Address(0x0150).to_string(), "$0150");
    assert_eq!(Address(0).to_string(), "$0000");
}

/// An address's text, without its `$`, parses back to the address
#[test]
fn address_text_parse() {
    for value in [0u16, 0x0150, 0x8000, 0xFF50, 0xFFFF] {
        let text = Address(value).to_string();
        assert_eq!(Address::parse(&text[1..]), Ok(Address(value)));
    }
}

/// Once unmapped, the bootstrap stays unmapped, unless zero is written to
/// `BANK`
#[test]
fn bootstrap_stays_unmapped() {
    with_bus(|memory| {
        memory.set8(Address(BANK), 1);
        memory.set8(Address(0xC000), 0);
        memory.set8(Address(BANK), 7);
        assert!(!memory.is_bootstrapping());
        memory.set8(Address(BANK), 0);
        assert!(memory.is_bootstrapping());
    });
}

/// Each address is described by the name of the one block holding it
#[test]
fn metadata_block_names() {
    let rom = Rom::empty();
    let mut ram = RandomAccessMemory::new();
    let mut vram = Vram::new();
    let mut memory = MemoryBus::new(&rom, &mut ram, &mut vram);
    assert_eq!(memory.read_only().get_metadata(Address(0x0000)).block_name, "Bootstrap");
    memory.set8(Address(BANK), 1);
    let cases = [
        (0x0000, "Cartridge ROM Bank 0"),
        (0x4000, "Cartridge ROM Bank N"),
        (0x8000, "Tile Data"),
        (0x9800, "Tile Maps"),
        (0xA000, "Cartridge RAM"),
        (0xC123, "RAM"),
        (0xE000, "Echo RAM"),
        (0xFE00, "OAM"),
        (0xFEA0, "Null"),
        (0xFF00, "I/O registers"),
        (0xFF44, "GPU Registers"),
        (0xFF50, "BANK"),
        (0xFF80, "High RAM"),
        (0xFFFF, "INT enable"),
    ];
    let read_only = memory.read_only();
    for (address, name) in cases {
        let metadata = read_only.get_metadata(Address(address));
        assert_eq!(metadata.address, Address(address));
        assert_eq!(metadata.block_name, name);
        let range = metadata.block.range();
        assert_eq!(range.name, Some(name));
        assert!(range.contains(Address(address)));
    }
}
