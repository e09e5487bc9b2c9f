use sad_boy::backend::HeadlessBackend;
use sad_boy::debugger::{Breakpoint, Debugger, RunState};
use sad_boy::emu::memory::Address;
use sad_boy::emu::GameBoy;
use sad_boy::emu::clock::{Clock, Cycles};
use sad_boy::emu::cpu::InstructionInfo;
use sad_boy::emu::instruction::{Instruction, Load, Operand, Register16, Register8, Value8};

/// Run the emulator until the debugger pauses
fn run_to_pause(debugger: &mut Debugger, emulator: &mut GameBoy, backend: &mut HeadlessBackend) {
    while debugger.run_state().should_tick() {
        let _ = emulator.tick(backend);
        debugger.check_breakpoints(emulator);
    }
}

/// Test stepping by a single clock cycle
#[test]
fn step_cycle() {
    let mut backend = HeadlessBackend::new();
    let mut emulator = GameBoy::test(vec![]);
    let mut debugger = Debugger::new();

    assert_eq!(emulator.clock().cycles(), Cycles(0));

    debugger.step_cycle(&emulator);
    run_to_pause(&mut debugger, &mut emulator, &mut backend);
    assert_eq!(emulator.clock().cycles(), Cycles(1));

    debugger.step_cycle(&emulator);
    run_to_pause(&mut debugger, &mut emulator, &mut backend);
    assert_eq!(emulator.clock().cycles(), Cycles(2));
}

/// Test stepping by GPU frame
#[test]
fn step_frame() {
    let mut backend = HeadlessBackend::new();
    // Instructions come from the bootstrap so we don't need a ROM
    let mut emulator = GameBoy::test(vec![0; 1024]);
    let mut debugger = Debugger::new();

    // Assert initial state
    assert_eq!(emulator.clock().cycles(), Cycles(0));

    // Finish the first frame
    debugger.step_frame(&emulator);
    run_to_pause(&mut debugger, &mut emulator, &mut backend);
    assert_eq!(emulator.clock().cycles(), Cycles(Clock::CYCLES_PER_FRAME));

    // Another step finishes the second frame
    debugger.step_frame(&emulator);
    run_to_pause(&mut debugger, &mut emulator, &mut backend);
    assert_eq!(emulator.clock().cycles(), Cycles(Clock::CYCLES_PER_FRAME * 2));

    // If we're partway through a frame, the step finishes it
    debugger.step_cycle(&emulator);
    run_to_pause(&mut debugger, &mut emulator, &mut backend);
    assert_eq!(emulator.clock().cycles(), Cycles(Clock::CYCLES_PER_FRAME * 2 + 1));
    debugger.step_frame(&emulator);
    run_to_pause(&mut debugger, &mut emulator, &mut backend);
    assert_eq!(emulator.clock().cycles(), Cycles(Clock::CYCLES_PER_FRAME * 3));
}

/// Test stepping by CPU instruction
#[test]
fn step_instruction() {
    let mut backend = HeadlessBackend::new();
    // Instructions come from the bootstrap so we don't need a ROM
    let mut emulator = GameBoy::test(vec![]);
    let mut debugger = Debugger::new();

    // Assert initial state
    assert_eq!(emulator.clock().cycles(), Cycles(0));
    assert_eq!(
        emulator.cpu().current_instruction(),
        InstructionInfo {
            instruction: Instruction::Ld(Load::R16Const {
                dest: Register16::Sp,
                source: 0xfffe,
            }),
            duration: Cycles(3),
            end: Cycles(3),
            size: 3
        }
    );

    // Check the first couple instructions
    debugger.step_instruction(&emulator);
    run_to_pause(&mut debugger, &mut emulator, &mut backend);
    assert_eq!(emulator.clock().cycles(), Cycles(3));
    assert_eq!(
        emulator.cpu().current_instruction(),
        InstructionInfo {
            instruction: Instruction::Xor(Operand::V8(Value8::Register(Register8::A))),
            duration: Cycles(1),
            end: Cycles(4),
            size: 1
        }
    );

    debugger.step_instruction(&emulator);
    run_to_pause(&mut debugger, &mut emulator, &mut backend);
    assert_eq!(emulator.clock().cycles(), Cycles(4));
    assert_eq!(
        emulator.cpu().current_instruction(),
        InstructionInfo {
            instruction: Instruction::Ld(Load::R16Const {
                dest: Register16::Hl,
                source: 0x9fff,
            }),
            duration: Cycles(3),
            end: Cycles(7),
            size: 3
        }
    );

    // If the instruction is partially finished, we still go to the end
    debugger.step_cycle(&emulator);
    run_to_pause(&mut debugger, &mut emulator, &mut backend);
    assert_eq!(emulator.clock().cycles(), Cycles(5));
    debugger.step_instruction(&emulator);
    run_to_pause(&mut debugger, &mut emulator, &mut backend);
    assert_eq!(emulator.clock().cycles(), Cycles(7));
}

/// Breakpoints are a set, and the emulator pauses when its PC reaches one
#[test]
fn breakpoints_pause() {
    let mut backend = HeadlessBackend::new();
    let mut emulator = GameBoy::test(vec![0; 1024]);
    let mut debugger = Debugger::new();
    // The bootstrap starts with `LD SP,$FFFE`, then `XOR a` at $0003
    debugger.set_breakpoint(Address(0x0003));
    debugger.set_breakpoint(Address(0x0003));
    assert_eq!(debugger.breakpoints(), vec![Breakpoint::new(Address(0x0003))]);
    assert_eq!(debugger.breakpoints()[0].to_string(), "$0003");

    assert_eq!(debugger.run_state(), RunState::Paused);
    debugger.toggle_pause();
    assert_eq!(debugger.run_state(), RunState::Running);
    run_to_pause(&mut debugger, &mut emulator, &mut backend);
    assert_eq!(debugger.run_state(), RunState::Paused);
    assert_eq!(emulator.cpu().registers().pc(), Address(0x0003));
}

/// Snapshots are kept newest first, and the debugger can step back and
/// forth through them
#[test]
fn snapshots_rewind() {
    let mut backend = HeadlessBackend::new();
    let mut emulator = GameBoy::test(vec![0; 1024]);
    let mut debugger = Debugger::new();
    for _ in 0..3 {
        debugger.snapshot(&emulator);
        debugger.step_cycle(&emulator);
        run_to_pause(&mut debugger, &mut emulator, &mut backend);
    }
    debugger.snapshot(&emulator);
    let ids: Vec<Cycles> = debugger.snapshots().iter().map(|s| s.id()).collect();
    assert_eq!(ids, vec![Cycles(3), Cycles(2), Cycles(1), Cycles(0)]);

    debugger.previous_snapshot(&mut emulator);
    assert_eq!(emulator.clock().cycles(), Cycles(2));
    debugger.previous_snapshot(&mut emulator);
    assert_eq!(emulator.clock().cycles(), Cycles(1));
    debugger.next_snapshot(&mut emulator);
    assert_eq!(emulator.clock().cycles(), Cycles(2));
    // The oldest has nothing before it
    debugger.previous_snapshot(&mut emulator);
    debugger.previous_snapshot(&mut emulator);
    debugger.previous_snapshot(&mut emulator);
    assert_eq!(emulator.clock().cycles(), Cycles(0));

    // A state that is already saved is not saved twice
    debugger.snapshot(&emulator);
    assert_eq!(debugger.snapshots().len(), 4);
}

/// At most ten snapshots are kept: the oldest go first
#[test]
fn snapshots_capacity() {
    let mut backend = HeadlessBackend::new();
    let mut emulator = GameBoy::test(vec![0; 1024]);
    let mut debugger = Debugger::new();
    for _ in 0..12 {
        debugger.snapshot(&emulator);
        debugger.step_cycle(&emulator);
        run_to_pause(&mut debugger, &mut emulator, &mut backend);
    }
    assert_eq!(debugger.snapshots().len(), 10);
    assert_eq!(debugger.snapshots()[0].id(), Cycles(11));
    assert_eq!(debugger.snapshots()[9].id(), Cycles(2));
    // Nothing is saved while running
    debugger.toggle_pause();
    debugger.snapshot(&emulator);
    assert_eq!(debugger.snapshots().len(), 10);
    assert_eq!(Cycles(70224).to_string(), "70224");
}
