//! Emulation logic for a Nintendo Game Boy

pub mod clock;
pub mod cpu;
pub mod gpu;
pub mod instruction;
pub mod memory;
pub mod rom;

use vstd::prelude::*;
use crate::backend::{Backend, Color, FrameBuffer, FRAME_LENGTH};
use crate::emu::clock::{CYCLES_PER_FRAME_VALUE, Clock, Cycles};
use crate::emu::cpu::{Cpu, InstructionInfo, Registers, spec_fetch_ok};
use crate::emu::gpu::Gpu;
use crate::emu::instruction::{Instruction, Load, Register16, encode, is_encodable};
use crate::emu::memory::{
    BOOTSTRAP_CODE, BusView, MemoryBus, MemoryBusReadOnly, RandomAccessMemory, code_source,
};
use crate::emu::rom::{Rom, decodes_to, lemma_decode_unique, law_decode_encoding};

verus! {

/// Is every pixel black?
pub open spec fn all_black(pixels: Seq<Color>) -> bool {
    forall|i: int| 0 <= i < FRAME_LENGTH ==> #[trigger] pixels[i] == Color::spec_black()
}

/// The first instruction of the boot ROM: `LD SP,$FFFE`
pub open spec fn boot_instruction() -> Instruction {
    Instruction::Ld(Load::R16Const { dest: Register16::Sp, source: 0xFFFE })
}

/// The boot ROM begins with `LD SP,$FFFE`, and that is how it decodes.
pub proof fn lemma_boot_start()
    ensures
        forall|i: Instruction, n: nat|
            decodes_to(BOOTSTRAP_CODE@.skip(0), i, n) <==> (i == boot_instruction() && n == 3),
        spec_fetch_ok(Registers::spec_new(), Seq::empty(), 0),
        forall|rom: Seq<u8>| #[trigger] spec_fetch_ok(Registers::spec_new(), rom, 0),
{
    let first = boot_instruction();
    let rest = BOOTSTRAP_CODE@.skip(3);
    assert(is_encodable(first));
    assert(encode(first) =~= seq![0x31u8, 0xFE, 0xFF]);
    assert(BOOTSTRAP_CODE@.skip(0) =~= encode(first) + rest);
    law_decode_encoding(first, rest);
    assert forall|rom: Seq<u8>| #[trigger] spec_fetch_ok(Registers::spec_new(), rom, 0) by {
        assert(code_source(rom, 0) == BOOTSTRAP_CODE@);
    }
}

/// An internal error in the emulator caused by a violated invariant
///
/// Faults are a recoverable form of a panic. They represent invariant
/// violations, unsupported instructions and logical bugs. Any piece of
/// emulator code that hits one emits a fault, so whoever runs the emulator
/// can recover and display it, rather than crashing the entire process as a
/// panic would.
#[derive(Debug)]
pub struct Fault {
    /// Description of the fault
    pub message: String,
}

impl Fault {
    /// Create a new fault with a message
    #[verifier::spinoff_prover]
    pub fn new(message: String) -> (r: Self)
        ensures
            r.message@ == message@,
    {
        Self { message }
    }

    /// A fault described by a fixed message
    pub fn from_str(message: &str) -> (r: Self)
        ensures
            r.message@ == message@,
    {
        Self { message: message.to_string() }
    }

    /// Description of the fault
    pub fn message(&self) -> (r: &str)
        ensures
            r@ == self.message@,
    {
        self.message.as_str()
    }
}


/// A GPU tick at cycle `now` from `old` to `new`, after which a finished
/// frame goes back to black: the frame pixels go from `old_pixels` to
/// `new_pixels`
pub open spec fn gpu_frame_step(old: Gpu, new: Gpu, now: int, old_pixels: Seq<Color>, new_pixels: Seq<Color>) -> bool {
    exists|drawn: Seq<Color>, frame_end: bool|
        {
            &&& #[trigger] crate::emu::gpu::spec_tick(old, new, now, old_pixels, drawn, frame_end)
            &&& if frame_end {
                all_black(new_pixels)
            } else {
                new_pixels == drawn
            }
        }
}

/// What a tick does to an emulator without a fault, from `old` to `new`,
/// succeeding when `ok`
///
/// The clock advances one cycle. The CPU ticks on the memory; then, unless it
/// faulted, the GPU ticks on the memory the CPU left, drawing into the frame,
/// which goes back to black at the end of a frame. A fault is kept.
pub open spec fn spec_ticked(old: GameBoy, new: GameBoy, ok: bool) -> bool {
    let now = old.clock.cycles.0 + 1;
    &&& new.clock.cycles.0 == now
    &&& new.rom == old.rom
    &&& (!ok <==> new.fault is Some)
    &&& exists|mid: Gpu|
        {
            &&& mid.current_scanline == old.gpu.current_scanline
            &&& #[trigger] crate::emu::cpu::spec_tick(
                old.cpu,
                new.cpu,
                old.rom.data@,
                old.bus_view(),
                (new.ram@, mid.vram@),
                now as int,
                ok,
            )
            &&& !ok ==> new.gpu.vram@ == mid.vram@
            &&& ok ==> gpu_frame_step(mid, new.gpu, now as int, old.frame.pixels@, new.frame.pixels@)
        }
}

/// Did a successful tick from `old` to `new` finish the frame `drawn`? The
/// CPU ticks on the memory, then the GPU ticks on the memory the CPU left and
/// completes the frame, whose pixels are `drawn`.
pub open spec fn frame_drawn(old: GameBoy, new: GameBoy, drawn: Seq<Color>) -> bool {
    let now = old.clock.cycles.0 + 1;
    exists|mid: Gpu|
        {
            &&& mid.current_scanline == old.gpu.current_scanline
            &&& #[trigger] crate::emu::cpu::spec_tick(
                old.cpu,
                new.cpu,
                old.rom.data@,
                old.bus_view(),
                (new.ram@, mid.vram@),
                now as int,
                true,
            )
            &&& crate::emu::gpu::spec_tick(mid, new.gpu, now as int, old.frame.pixels@, drawn, true)
        }
}

/// Does a tick from `old` that succeeds when `ok` hand a finished frame to
/// the backend? It does when it completes the last cycle of a frame.
pub open spec fn handed_frame(old: GameBoy, ok: bool) -> bool {
    &&& old.fault is None
    &&& ok
    &&& (old.clock.cycles.0 + 2) % (CYCLES_PER_FRAME_VALUE as int) == 0
}

/// Game Boy emulator
pub struct GameBoy {
    pub clock: Clock,
    pub cpu: Cpu,
    pub gpu: Gpu,
    /// Read-only memory from the cartridge
    pub rom: Rom,
    pub ram: RandomAccessMemory,
    /// Next frame to be drawn to the screen
    ///
    /// This is incrementally updated by the GPU during a frame, then pushed
    /// to the screen all at once.
    pub frame: FrameBuffer,
    /// [Fault] that occurred during a tick
    ///
    /// Once this is set, the emulator can no longer be progressed and the
    /// fault cannot be unset. If a fault occurs, the emulator may be in an
    /// unknown state so there is no way to recover.
    pub fault: Option<Fault>,
}

impl GameBoy {
    /// Every memory area has its hardware size, and while no fault has
    /// occurred the CPU has an instruction loaded and the GPU keeps pace with
    /// the clock.
    pub open spec fn wf(&self) -> bool {
        &&& self.ram.wf()
        &&& self.gpu.vram.wf()
        &&& self.frame.wf()
        &&& self.fault is None ==> self.cpu.wf() && self.gpu.agrees_with(self.clock.cycles.0 as int)
    }

    /// The writable memory of the emulator
    pub open spec fn bus_view(&self) -> BusView {
        (self.ram@, self.gpu.vram@)
    }

    /// Power on a Game Boy with a cartridge ROM
    ///
    /// The boot ROM is mapped and its first instruction is loaded.
    #[verifier::spinoff_prover]
    pub fn new(rom: Rom) -> (r: Self)
        ensures
            r.wf(),
            r.rom.data@ == rom.data@,
            r.clock.cycles.0 == 0,
            r.fault is None,
            r.ram.bank == 0,
            r.cpu.registers == Registers::spec_new(),
            !r.cpu.interrupts_enabled,
            r.cpu.previous_instruction is None,
            r.cpu.current_instruction == (InstructionInfo {
                instruction: boot_instruction(),
                duration: Cycles(3),
                end: Cycles(3),
                size: 3,
            }),
            all_black(r.frame.pixels@),
    {
        let clock = Clock::new();
        let mut ram = RandomAccessMemory::new();
        let mut gpu = Gpu::new();
        let cpu = {
            let bus = MemoryBus::new(&rom, &mut ram, &mut gpu.vram);
            proof {
                lemma_boot_start();
                assert(spec_fetch_ok(Registers::spec_new(), bus.rom.data@, bus.spec_ram().bank));
            }
            match Cpu::new(&bus) {
                Ok(cpu) => cpu,
                Err(_) => vstd::pervasive::unreached(),
            }
        };
        proof {
            lemma_boot_start();
            assert(code_source(rom.data@, 0) == BOOTSTRAP_CODE@);
            assert(BOOTSTRAP_CODE@.skip(0) == BOOTSTRAP_CODE@);
        }
        GameBoy { clock, cpu, gpu, rom, ram, frame: FrameBuffer::new(), fault: None }
    }

    /// Initialize a Game Boy with a static ROM for testing
    pub fn test(rom: Vec<u8>) -> (r: Self)
        ensures
            r.wf(),
            r.rom.data@ == rom@,
            r.clock.cycles.0 == 0,
            r.fault is None,
            r.ram.bank == 0,
            r.cpu.registers == Registers::spec_new(),
            r.cpu.current_instruction == (InstructionInfo {
                instruction: boot_instruction(),
                duration: Cycles(3),
                end: Cycles(3),
                size: 3,
            }),
    {
        Self::new(Rom::new(rom))
    }

    /// Get the system clock
    pub fn clock(&self) -> (r: &Clock)
        ensures
            *r == self.clock,
    {
        &self.clock
    }

    /// Get the CPU state
    pub fn cpu(&self) -> (r: &Cpu)
        ensures
            *r == self.cpu,
    {
        &self.cpu
    }

    /// Get a read-only memory view
    pub fn memory(&self) -> (r: MemoryBusReadOnly<'_>)
        ensures
            *r.rom == self.rom,
            *r.ram == self.ram,
            *r.vram == self.gpu.vram,
    {
        MemoryBusReadOnly { ram: &self.ram, rom: &self.rom, vram: &self.gpu.vram }
    }

    /// Get the in-memory frame buffer
    pub fn frame(&self) -> (r: &FrameBuffer)
        ensures
            *r == self.frame,
    {
        &self.frame
    }

    /// [Fault] that occurred during a tick
    ///
    /// Once this is set, the emulator can no longer be progressed and the
    /// fault cannot be unset.
    pub fn fault(&self) -> (r: Option<&Fault>)
        ensures
            r is Some <==> self.fault is Some,
            r matches Some(f) ==> self.fault == Some(*f),
    {
        match &self.fault {
            Some(fault) => Some(fault),
            None => None,
        }
    }

    /// Advance the emulator one clock cycle
    ///
    /// The clock ticks first, so the cycle seen by the CPU and GPU is the one
    /// visible afterwards. At the end of a frame the frame is handed to the
    /// backend and the frame buffer goes back to black.
    ///
    /// If a [Fault] occurs during the tick, it is stored within the emulator
    /// and returned. Once a fault occurs, the emulator can no longer be
    /// progressed: later calls return the same fault without doing any work.
    #[verifier::spinoff_prover]
    pub fn tick<B: Backend>(&mut self, backend: &mut B) -> (r: Result<(), Fault>)
        requires
            old(self).wf(),
            old(self).fault is None ==> old(self).clock.cycles.0 + 8 <= u64::MAX,
        ensures
            final(self).wf(),
            old(self).fault is Some ==> r is Err && *final(self) == *old(self),
            old(self).fault is None ==> spec_ticked(*old(self), *final(self), r is Ok),
            !handed_frame(*old(self), r is Ok) ==> *final(backend) == *old(backend),
            handed_frame(*old(self), r is Ok) ==> final(backend).records_frames() == old(backend).records_frames()
                && exists|drawn: Seq<Color>|
                #[trigger] frame_drawn(*old(self), *final(self), drawn) && (old(backend).records_frames()
                    ==> final(backend).drawn() == old(backend).drawn().push(drawn)),
            r matches Err(f) ==> (final(self).fault matches Some(g) && g.message@ == f.message@),
    {
        // If a fault is already set, we can't progress. Just return it
        if let Some(fault) = &self.fault {
            return Err(fault.clone());
        }
        // Tick *before* operations because it ensures the clock cycle number
        // seen by the emulator is the same as what's visible externally
        // after the tick (e.g. in the debugger). This means tick #0 never
        // really happens, but that's okay. Zeroes are free.
        self.clock.tick();

        // Progress the CPU
        let result = {
            let mut memory_bus = MemoryBus::new(&self.rom, &mut self.ram, &mut self.gpu.vram);
            self.cpu.tick(&self.clock, &mut memory_bus)
        };
        let ghost mid = self.gpu;
        if let Err(fault) = result {
            self.fault = Some(fault.clone());
            proof {
                assert(self.gpu.vram@ == mid.vram@);
                assert(crate::emu::cpu::spec_tick(
                    old(self).cpu,
                    self.cpu,
                    old(self).rom.data@,
                    old(self).bus_view(),
                    (self.ram@, mid.vram@),
                    self.clock.cycles.0 as int,
                    false,
                ));
            }
            return Err(fault);
        }

        // Progress the GPU
        let frame_end = self.gpu.tick(&self.clock, &mut self.frame);
        let ghost drawn = self.frame.pixels@;
        proof {
            assert(frame_end == ((self.clock.cycles.0 + 1) % (CYCLES_PER_FRAME_VALUE as int) == 0)) by {
                reveal(crate::emu::gpu::spec_tick);
            }
        }
        if frame_end {
            // Draw the frame to the screen, then revert to all black
            backend.draw(&self.frame);
            self.frame.reset();
        }
        proof {
            let r: Result<(), Fault> = Ok(());
            assert(crate::emu::cpu::spec_tick(
                old(self).cpu,
                self.cpu,
                old(self).rom.data@,
                old(self).bus_view(),
                (self.ram@, mid.vram@),
                (old(self).clock.cycles.0 + 1) as int,
                r is Ok,
            ));
            assert(crate::emu::gpu::spec_tick(
                mid,
                self.gpu,
                self.clock.cycles.0 as int,
                old(self).frame.pixels@,
                drawn,
                frame_end,
            ));
            if frame_end {
                assert(frame_drawn(*old(self), *self, drawn));
            }
        }
        Ok(())
    }
}

impl Clone for Fault {
    fn clone(&self) -> (r: Self)
        ensures
            r.message@ == self.message@,
    {
        Fault { message: self.message.clone() }
    }
}

impl GameBoy {
    /// Do two emulators hold the same state?
    pub open spec fn same_state(&self, other: &GameBoy) -> bool {
        &&& self.clock == other.clock
        &&& self.cpu == other.cpu
        &&& self.rom.data@ == other.rom.data@
        &&& self.ram@ == other.ram@
        &&& self.gpu.vram@ == other.gpu.vram@
        &&& self.gpu.current_scanline.same(&other.gpu.current_scanline)
        &&& self.frame.pixels@ == other.frame.pixels@
        &&& (self.fault is Some <==> other.fault is Some)
    }
}

/// Emulation is deterministic: from the same state, a tick faults in both
/// emulators or in neither, and where it succeeds it leaves them in the same
/// state. This is why a snapshot is identified by its clock cycle.
pub proof fn law_tick_deterministic(a: GameBoy, b: GameBoy, a2: GameBoy, b2: GameBoy, ok_a: bool, ok_b: bool)
    requires
        a.wf(),
        b.wf(),
        a2.wf(),
        b2.wf(),
        a.same_state(&b),
        a.fault is None,
        spec_ticked(a, a2, ok_a),
        spec_ticked(b, b2, ok_b),
    ensures
        ok_a == ok_b,
        ok_a ==> a2.same_state(&b2),
{
    let now = a.clock.cycles.0 + 1;
    let ma = choose|mid: Gpu|
        {
            &&& mid.current_scanline == a.gpu.current_scanline
            &&& #[trigger] crate::emu::cpu::spec_tick(
                a.cpu,
                a2.cpu,
                a.rom.data@,
                a.bus_view(),
                (a2.ram@, mid.vram@),
                now as int,
                ok_a,
            )
            &&& !ok_a ==> a2.gpu.vram@ == mid.vram@
            &&& ok_a ==> gpu_frame_step(mid, a2.gpu, now as int, a.frame.pixels@, a2.frame.pixels@)
        };
    let mb = choose|mid: Gpu|
        {
            &&& mid.current_scanline == b.gpu.current_scanline
            &&& #[trigger] crate::emu::cpu::spec_tick(
                b.cpu,
                b2.cpu,
                b.rom.data@,
                b.bus_view(),
                (b2.ram@, mid.vram@),
                now as int,
                ok_b,
            )
            &&& !ok_b ==> b2.gpu.vram@ == mid.vram@
            &&& ok_b ==> gpu_frame_step(mid, b2.gpu, now as int, b.frame.pixels@, b2.frame.pixels@)
        };
    assert(a.bus_view() == b.bus_view());
    crate::emu::cpu::lemma_tick_determined(
        a.cpu,
        a2.cpu,
        b2.cpu,
        a.rom.data@,
        a.bus_view(),
        (a2.ram@, ma.vram@),
        (b2.ram@, mb.vram@),
        now as int,
        ok_a,
        ok_b,
    );
    if ok_a {
        let (da, fa) = choose|drawn: Seq<Color>, frame_end: bool|
            {
                &&& #[trigger] crate::emu::gpu::spec_tick(ma, a2.gpu, now as int, a.frame.pixels@, drawn, frame_end)
                &&& if frame_end {
                    all_black(a2.frame.pixels@)
                } else {
                    a2.frame.pixels@ == drawn
                }
            };
        let (db, fb) = choose|drawn: Seq<Color>, frame_end: bool|
            {
                &&& #[trigger] crate::emu::gpu::spec_tick(mb, b2.gpu, now as int, b.frame.pixels@, drawn, frame_end)
                &&& if frame_end {
                    all_black(b2.frame.pixels@)
                } else {
                    b2.frame.pixels@ == drawn
                }
            };
        crate::emu::gpu::lemma_tick_determined(
            ma,
            mb,
            a2.gpu,
            b2.gpu,
            now as int,
            a.frame.pixels@,
            da,
            db,
            fa,
            fb,
        );
        if fa {
            assert(a2.frame.pixels@ =~= b2.frame.pixels@);
        }
        assert(a2.clock == b2.clock);
    }
}

impl Clone for GameBoy {
    fn clone(&self) -> (r: Self)
        ensures
            r.same_state(self),
    {
        let fault = match &self.fault {
            Some(fault) => Some(fault.clone()),
            None => None,
        };
        GameBoy {
            clock: self.clock,
            cpu: self.cpu,
            gpu: self.gpu.clone(),
            rom: self.rom.clone(),
            ram: self.ram.clone(),
            frame: self.frame.clone(),
            fault,
        }
    }
}

/// An emulator with the same state as a well-formed one is well-formed.
pub proof fn lemma_same_state_wf(a: GameBoy, b: GameBoy)
    requires
        a.same_state(&b),
        b.wf(),
        a.fault is None <==> b.fault is None,
    ensures
        a.wf(),
{
    assert(a.ram.ram@.len() == b.ram.ram@.len());
    assert(a.gpu.vram.oam@.len() == b.gpu.vram.oam@.len());
}

} // verus!
