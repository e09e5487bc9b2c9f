//! Game Boy clock emulation
//!
//! The clock only counts cycles. Pacing the emulator against wall-clock time
//! (sleeping at the end of each frame) belongs to whoever drives the
//! emulator.

use vstd::prelude::*;
use crate::emu::instruction::text::{decimal_text, push_decimal_text};

verus! {

/// Number of dots (clock cycles) in a single frame
pub const CYCLES_PER_FRAME_VALUE: u64 = 70224;

/// Emulated hardware clock
///
/// The clock drives the CPU, GPU, and whatever other components run off the
/// main clock.
#[derive(Clone, Copy, Debug)]
pub struct Clock {
    /// Number of elapsed cycles (dots)
    ///
    /// This is monotonically increasing. For a `u64`, that gives us 2^42
    /// seconds at 2^22 dots per second. That's a lot of years.
    pub cycles: Cycles,
}

impl Clock {
    /// Number of dots (clock cycles) in a single frame
    ///
    /// - https://gbdev.io/pandocs/Rendering.html
    pub const CYCLES_PER_FRAME: u64 = 70224;

    /// Number of clock cycles per second (Hz)
    ///
    /// The clock frequency is 2^22 Hz (~4.194 MHz).
    pub const CLOCK_FREQUENCY: u32 = 4194304;

    /// Initialize a new clock
    pub fn new() -> (r: Self)
        ensures
            r.cycles.0 == 0,
    {
        Self { cycles: Cycles(0) }
    }

    /// Is the current tick the last of its frame?
    ///
    /// The first tick (`0`) is the *first* of its frame. The last tick of the
    /// frame `n` will be `n * CYCLES_PER_FRAME - 1`.
    pub fn is_frame_end(&self) -> (r: bool)
        ensures
            r == ((self.cycles.0 + 1) % (CYCLES_PER_FRAME_VALUE as int) == 0),
    {
        self.cycles.0 % CYCLES_PER_FRAME_VALUE == CYCLES_PER_FRAME_VALUE - 1
    }

    /// Get the clock cycle count for the next end-of-frame cycle, starting at
    /// the given cycle
    ///
    /// This is the first multiple of [Self::CYCLES_PER_FRAME] strictly greater
    /// than `cycles`, so if the given cycle is already a frame boundary the
    /// *following* one is returned.
    pub fn next_frame_end(cycles: Cycles) -> (r: Cycles)
        requires
            spec_next_frame_end(cycles.0 as int) <= u64::MAX,
        ensures
            r.0 == spec_next_frame_end(cycles.0 as int),
    {
        let frames = cycles.0 / CYCLES_PER_FRAME_VALUE;
        assert((frames + 1) * CYCLES_PER_FRAME_VALUE == spec_next_frame_end(cycles.0 as int));
        Cycles((frames + 1) * CYCLES_PER_FRAME_VALUE)
    }

    /// Get the number of cycles elapsed since the clock started
    pub fn cycles(&self) -> (r: Cycles)
        ensures
            r == self.cycles,
    {
        self.cycles
    }

    /// Advance the clock one cycle
    pub fn tick(&mut self)
        requires
            old(self).cycles.0 < u64::MAX,
        ensures
            final(self).cycles.0 == old(self).cycles.0 + 1,
    {
        self.cycles = Cycles(self.cycles.0 + 1);
    }
}

/// The first multiple of the frame length strictly greater than `cycles`
pub open spec fn spec_next_frame_end(cycles: int) -> int {
    (cycles / (CYCLES_PER_FRAME_VALUE as int) + 1) * (CYCLES_PER_FRAME_VALUE as int)
}

/// The next frame end is a frame boundary, lies strictly after the given cycle
/// and no further than one frame away.
pub proof fn law_next_frame_end(cycles: nat)
    ensures
        spec_next_frame_end(cycles as int) % (CYCLES_PER_FRAME_VALUE as int) == 0,
        cycles < spec_next_frame_end(cycles as int),
        spec_next_frame_end(cycles as int) <= cycles + CYCLES_PER_FRAME_VALUE,
{
    let f = CYCLES_PER_FRAME_VALUE as int;
    let q = cycles as int / f;
    assert(spec_next_frame_end(cycles as int) == q * f + f) by (nonlinear_arith)
        requires
            q == cycles as int / f,
            f == 70224,
    ;
    assert(q * f <= cycles && cycles < q * f + f) by (nonlinear_arith)
        requires
            q == cycles as int / f,
            f == 70224,
    ;
    assert((q * f + f) % f == 0) by (nonlinear_arith)
        requires
            f == 70224,
    ;
}

/// Newtype for a number of clock cycles
///
/// This makes it clearer what a value is, instead of passing around a bare
/// integer everywhere.
#[derive(Clone, Copy, Debug, Default, PartialEq, Eq, Structural, PartialOrd, Ord, Hash)]
pub struct Cycles(pub u64);

impl Cycles {
    /// Increment this value by 1
    pub fn incr(self) -> (r: Cycles)
        requires
            self.0 < u64::MAX,
        ensures
            r.0 == self.0 + 1,
    {
        Cycles(self.0 + 1)
    }

    /// The count in decimal
    pub fn to_string(&self) -> (r: String)
        ensures
            r@ == decimal_text(self.0 as nat),
    {
        let mut out = String::new();
        push_decimal_text(&mut out, self.0);
        assert(out@ =~= decimal_text(self.0 as nat));
        out
    }
}

} // verus!
