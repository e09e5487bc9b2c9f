//! The logic behind the terminal front end: key bindings, the debugger TUI's
//! state, and the graphics messages that draw frames
//!
//! Reading the keyboard and writing to the terminal happen outside the
//! library; these modules decide what to do with each key and what to write.
//! The main loop runs constantly, even while paused: while running it is
//! throttled by the end-of-frame sleep, while paused by waiting for input.

pub mod draw;
pub mod input;
pub mod tui;

use vstd::prelude::*;
use crate::debugger::RunState;

verus! {

/// How long the main loop waits for input, in milliseconds
///
/// While the emulator runs, input is only polled. Otherwise there is nothing
/// to do but wait for it, with a timeout short enough to notice a request to
/// quit.
pub fn input_timeout_ms(state: RunState) -> (r: u64)
    ensures
        r == if state != RunState::Paused {
            0u64
        } else {
            100u64
        },
{
    if state.should_tick() {
        0
    } else {
        100
    }
}

/// Should the TUI be drawn again after a turn of the main loop?
///
/// Without input the TUI changes only while debugging; drawing it on every
/// tick while running would be very expensive.
pub fn should_redraw(handled_input: bool, state: RunState) -> (r: bool)
    ensures
        r == (handled_input || state != RunState::Running),
{
    handled_input || state.is_debugging()
}

} // verus!
