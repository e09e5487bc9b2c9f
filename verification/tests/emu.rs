use sad_boy::backend::{Color, HeadlessBackend};
use sad_boy::emu::GameBoy;
use sad_boy::emu::clock::Cycles;
use sad_boy::emu::memory::{Address, Block};

/// Encoded Nintendo logo and TM symbol
///
/// https://gbdev.gg8.se/wiki/articles/Gameboy_Bootstrap_ROM#The_DMG_bootstrap
const NINTENDO_LOGO: &[u8] = &[
    0xCE, 0xED, 0x66, 0x66, 0xCC, 0x0D, 0x00, 0x0B, 0x03, 0x73, 0x00, 0x83, 0x00, 0x0C, 0x00,
    0x0D, 0x00, 0x08, 0x11, 0x1F, 0x88, 0x89, 0x00, 0x0E, 0xDC, 0xCC, 0x6E, 0xE6, 0xDD, 0xDD,
    0xD9, 0x99, 0xBB, 0xBB, 0x67, 0x63, 0x6E, 0x0E, 0xEC, 0xCC, 0xDD, 0xDC, 0x99, 0x9F, 0xBB,
    0xB9, 0x33, 0x3E, 0x3C, 0x42, 0xB9, 0xA5, 0xB9, 0xA5, 0x42, 0x3C,
];

/// Run the bootstrap from power-on until the program counter leaves it, on an
/// empty ROM that just holds the Nintendo logo
fn run_bootstrap() -> (GameBoy, HeadlessBackend) {
    // Create an empty ROM that just holds the Nintendo logo. The bootstrap
    // will load and display the logo from here
    let mut rom_data = vec![0; Block::CartridgeRom0.range().len()];
    rom_data[0x104..(0x104 + NINTENDO_LOGO.len())].copy_from_slice(NINTENDO_LOGO);

    let mut backend = HeadlessBackend::new();
    let mut emulator = GameBoy::test(rom_data);
    // Run until the program counter hits the end of the bootstrap
    while emulator.cpu().registers().pc() <= Block::Bootstrap.range().last() {
        emulator.tick(&mut backend).unwrap();
    }
    (emulator, backend)
}

/// Run the emulator until the bootstrap exits: it unmaps itself by writing
/// `BANK`, and hands over to the cartridge at `$0100` with the logo on screen
#[test]
fn bootstrap() {
    let (emulator, backend) = run_bootstrap();
    assert_eq!(emulator.ram.bank(), 1);
    assert!(!emulator.memory().is_bootstrapping());
    assert_eq!(emulator.cpu().registers().pc(), Address(0x0100));
    // The logo has been drawn: its tiles use color index 1 on a background of
    // index 0
    let frame = backend.last_frame().unwrap();
    assert!(frame.pixels().iter().any(|p| *p == Color::dark_gray()));
    assert!(frame.pixels().iter().all(|p| *p == Color::black() || *p == Color::dark_gray()));
}

/// The bootstrap's length in clock cycles
///
/// Each instruction takes its machine-cycle count in clock cycles, and a
/// frame is 70224 cycles: the boot ROM's waits on `LY` let one or two scroll
/// steps through per frame. This pins that timing, so a change to it shows.
#[test]
fn bootstrap_cycle_count() {
    let (emulator, _) = run_bootstrap();
    assert_eq!(emulator.clock().cycles(), Cycles(6_176_482));
}

/// Emulation is deterministic: two emulators ticked alike stay alike
#[test]
fn deterministic() {
    let mut backend = HeadlessBackend::new();
    let mut first = GameBoy::test(vec![0; 1024]);
    let mut second = GameBoy::test(vec![0; 1024]);
    for _ in 0..20_000 {
        let a = first.tick(&mut backend).is_ok();
        let b = second.tick(&mut backend).is_ok();
        assert_eq!(a, b);
    }
    assert_eq!(first.clock().cycles(), second.clock().cycles());
    assert_eq!(first.cpu().registers().pc(), second.cpu().registers().pc());
    assert_eq!(first.cpu().current_instruction(), second.cpu().current_instruction());
    assert_eq!(first.frame().pixels(), second.frame().pixels());
}

/// A fault stops the emulator: every later tick returns the stored fault and
/// changes nothing
#[test]
fn fault_is_kept() {
    let mut backend = HeadlessBackend::new();
    let mut emulator = GameBoy::test(vec![]);
    // Unmap the boot ROM: the empty cartridge has no code to run
    emulator.ram.bank = 1;
    let fault = loop {
        if let Err(fault) = emulator.tick(&mut backend) {
            break fault;
        }
    };
    let cycles = emulator.clock().cycles();
    let stored = emulator.fault().unwrap().message().to_string();
    assert_eq!(stored, fault.message());
    for _ in 0..3 {
        let again = emulator.tick(&mut backend).unwrap_err();
        assert_eq!(again.message(), fault.message());
        assert_eq!(emulator.clock().cycles(), cycles);
    }
    assert!(backend.last_frame().is_none());
}

