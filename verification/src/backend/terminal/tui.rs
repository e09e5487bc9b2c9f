//! State of the terminal UI surrounding the emulator, and how it reacts to
//! input
//!
//! Drawing the panels happens outside the library; this holds what is
//! retained between frames (the selected memory address, the scroll of the
//! memory panel, the Go To Address box) and applies input events to it, to
//! the debugger and to the emulator.

pub mod style;
pub mod widgets;

use vstd::prelude::*;
use crate::backend::terminal::input::{InputAction, InputEvent, KeyCode, TuiAction};
use crate::backend::terminal::tui::widgets::scroll::{ScrollbarState, spec_scroll_to};
use crate::backend::terminal::tui::widgets::text_box::{TextBox, edited};
use crate::debugger::{Debugger, restored_previous, toggled};
use crate::emu::GameBoy;
use crate::emu::clock::{Clock, Cycles, spec_next_frame_end};
use crate::emu::memory::{Address, hex_value, is_hex_u16};

verus! {

/// Number of bytes shown on each line of the memory panel
pub const BYTES_PER_LINE: u16 = 8;

/// A direction to move the memory selection
#[derive(Clone, Copy, Debug, PartialEq, Eq, Structural)]
pub enum Direction {
    Up,
    Down,
    Left,
    Right,
}

/// The signed distance of a move in the memory panel: a line up or down, a
/// byte left or right
pub open spec fn direction_offset(direction: Direction) -> int {
    match direction {
        Direction::Up => -(BYTES_PER_LINE as int),
        Direction::Down => BYTES_PER_LINE as int,
        Direction::Left => -1,
        Direction::Right => 1,
    }
}

/// The memory panel after moving its selection: a line up or down, or a byte
/// left or right, scrolling so the selection stays in view; a move past the
/// top or bottom of memory changes nothing
pub open spec fn moved(m: MemoryDetailState, direction: Direction) -> MemoryDetailState {
    let target = m.selected.0 + direction_offset(direction);
    if 0 <= target <= u16::MAX {
        MemoryDetailState {
            selected: Address(target as u16),
            scroll: ScrollbarState {
                offset: spec_scroll_to(
                    m.scroll.offset as int,
                    target / (BYTES_PER_LINE as int),
                    m.scroll.view_length as int,
                ) as usize,
                ..m.scroll
            },
        }
    } else {
        m
    }
}

/// Moving the memory selection up selects the byte one line above, in the
/// same column, and moving down again comes back to it; from the first line
/// there is no line above, and the panel stays as it was.
pub proof fn law_move_up(m: MemoryDetailState)
    ensures
        m.selected.0 >= BYTES_PER_LINE ==> {
            let up = moved(m, Direction::Up);
            &&& up.selected.0 / BYTES_PER_LINE + 1 == m.selected.0 / BYTES_PER_LINE
            &&& up.selected.0 % BYTES_PER_LINE == m.selected.0 % BYTES_PER_LINE
            &&& moved(up, Direction::Down).selected == m.selected
        },
        m.selected.0 < BYTES_PER_LINE ==> moved(m, Direction::Up) == m,
{
}

/// Moving the memory selection down selects the byte one line below, in the
/// same column, and moving up again comes back to it; from the last line
/// there is no line below, and the panel stays as it was.
pub proof fn law_move_down(m: MemoryDetailState)
    ensures
        m.selected.0 <= u16::MAX - BYTES_PER_LINE ==> {
            let down = moved(m, Direction::Down);
            &&& down.selected.0 / BYTES_PER_LINE == m.selected.0 / BYTES_PER_LINE + 1
            &&& down.selected.0 % BYTES_PER_LINE == m.selected.0 % BYTES_PER_LINE
            &&& moved(down, Direction::Up).selected == m.selected
        },
        m.selected.0 > u16::MAX - BYTES_PER_LINE ==> moved(m, Direction::Down) == m,
{
}

/// Moving the memory selection left or right selects the neighbouring byte,
/// and the opposite move comes back to it
pub proof fn law_move_sideways(m: MemoryDetailState)
    ensures
        m.selected.0 >= 1 ==> moved(m, Direction::Left).selected.0 + 1 == m.selected.0 && moved(
            moved(m, Direction::Left),
            Direction::Right,
        ).selected == m.selected,
        m.selected.0 < u16::MAX ==> moved(m, Direction::Right).selected.0 == m.selected.0 + 1 && moved(
            moved(m, Direction::Right),
            Direction::Left,
        ).selected == m.selected,
{
}

/// The direction of a navigation action
pub open spec fn action_direction(action: TuiAction) -> Direction {
    match action {
        TuiAction::Up => Direction::Up,
        TuiAction::Down => Direction::Down,
        TuiAction::Left => Direction::Left,
        _ => Direction::Right,
    }
}

/// The selected byte of the memory panel, and the panel's scroll
#[derive(Clone, Copy, Debug, PartialEq, Eq, Structural)]
pub struct MemoryDetailState {
    /// The selected address
    pub selected: Address,
    /// Scroll of the lines of memory
    pub scroll: ScrollbarState,
}

impl MemoryDetailState {
    /// Address 0 selected, scrolled to the top of all 64KiB
    pub fn new() -> (r: Self)
        ensures
            r.selected.0 == 0,
            r.scroll == (ScrollbarState { content_length: 65536, view_length: 0, offset: 0 }),
    {
        MemoryDetailState { selected: Address(0), scroll: ScrollbarState::new(65536) }
    }

    /// Select an address, scrolling so its line stays in view
    pub fn select_address(&mut self, address: Address)
        requires
            old(self).scroll.view_length >= 1,
        ensures
            final(self).selected == address,
            final(self).scroll == (ScrollbarState {
                offset: spec_scroll_to(
                    old(self).scroll.offset as int,
                    (address.0 / BYTES_PER_LINE) as int,
                    old(self).scroll.view_length as int,
                ) as usize,
                ..old(self).scroll
            }),
    {
        self.selected = address;
        // Make sure the selected byte stays in view
        self.scroll.scroll_to((address.0 / BYTES_PER_LINE) as usize);
    }

    /// Move the selection a line up or down, or a byte left or right,
    /// stopping hard at the top and bottom of memory
    pub fn move_address(&mut self, direction: Direction)
        requires
            old(self).scroll.view_length >= 1,
        ensures
            *final(self) == moved(*old(self), direction),
    {
        let selected = self.selected.0 as i32;
        let target = match direction {
            Direction::Up => selected - BYTES_PER_LINE as i32,
            Direction::Down => selected + BYTES_PER_LINE as i32,
            Direction::Left => selected - 1,
            Direction::Right => selected + 1,
        };
        if 0 <= target && target <= u16::MAX as i32 {
            self.select_address(Address(target as u16));
        }
    }
}

/// Active element in focus
#[derive(Clone, Debug)]
pub enum Focus {
    /// Go To Address text box is focused
    GoToAddress { text_box: TextBox },
}

/// Retained TUI state: what has the focus, and the memory panel
#[derive(Clone, Debug)]
pub struct Tui {
    /// Active element in focus, or `None` for the "default" view
    pub focus: Option<Focus>,
    /// Selected address and scroll of the memory panel
    pub memory: MemoryDetailState,
}

impl Tui {
    /// A focused text box is well-formed.
    pub open spec fn wf(&self) -> bool {
        self.focus matches Some(Focus::GoToAddress { text_box }) ==> text_box.wf()
    }

    /// The default view: nothing focused, address 0 selected
    pub fn new() -> (r: Self)
        ensures
            r.wf(),
            r.focus is None,
            r.memory.selected.0 == 0,
    {
        Tui { focus: None, memory: MemoryDetailState::new() }
    }

    /// Enter the Go To Address box, empty
    fn focus_go_to_address(&mut self)
        ensures
            final(self).wf(),
            final(self).memory == old(self).memory,
            final(self).focus matches Some(Focus::GoToAddress { text_box }) && text_box.state.text@.len() == 0
                && text_box.state.cursor == 0,
    {
        self.focus = Some(Focus::GoToAddress { text_box: TextBox::new() });
    }

    /// Return to unfocused mode
    fn unfocus(&mut self)
        ensures
            final(self).wf(),
            final(self).memory == old(self).memory,
            final(self).focus is None,
    {
        self.focus = None;
    }

    /// Update UI state according to an input event
    ///
    /// With the Go To Address box focused, Esc leaves it, Enter selects the
    /// address written in it (if it is one) and leaves it, and other keys
    /// edit it. Otherwise the navigation keys move the memory selection, `g`
    /// opens the box, and the debugger keys pause, step or step back.
    ///
    /// Return `true` if the event was consumed, `false` if it can be
    /// propagated.
    #[verifier::spinoff_prover]
    pub fn update(&mut self, emulator: &mut GameBoy, debugger: &mut Debugger, event: InputEvent) -> (r: bool)
        requires
            old(self).wf(),
            old(self).memory.scroll.view_length >= 1,
            old(debugger).wf(),
            old(emulator).wf(),
            old(emulator).clock.cycles.0 < u64::MAX,
            spec_next_frame_end(old(emulator).clock.cycles.0 as int) <= u64::MAX,
        ensures
            final(self).wf(),
            final(debugger).wf(),
            final(emulator).wf(),
            final(self).memory.scroll.view_length == old(self).memory.scroll.view_length,
            match old(self).focus {
                Some(Focus::GoToAddress { text_box }) => {
                    &&& *final(debugger) == *old(debugger)
                    &&& *final(emulator) == *old(emulator)
                    &&& match event.action {
                        Some(InputAction::Tui(TuiAction::Cancel)) => r && final(self).focus is None
                            && final(self).memory == old(self).memory,
                        Some(InputAction::Tui(TuiAction::Submit)) => if is_hex_u16(text_box.state.text@) {
                            r && final(self).focus is None && final(self).memory.selected.0 == hex_value(
                                text_box.state.text@,
                            )
                        } else {
                            !r && final(self).focus == old(self).focus && final(self).memory == old(self).memory
                        },
                        _ => {
                            &&& final(self).memory == old(self).memory
                            &&& final(self).focus matches Some(Focus::GoToAddress { text_box: edited_box })
                            &&& (edited_box.state.text@, edited_box.state.cursor as int) == edited(
                                text_box.state.text@,
                                text_box.state.cursor as int,
                                event.key,
                            )
                            &&& r == (match event.key.code {
                                KeyCode::Char(_) => !event.key.ctrl,
                                KeyCode::Backspace | KeyCode::Delete | KeyCode::Left | KeyCode::Right
                                | KeyCode::Home | KeyCode::End => true,
                                _ => false,
                            })
                        },
                    }
                },
                None => match event.action {
                    Some(InputAction::Tui(action)) => {
                        &&& r
                        &&& match action {
                            TuiAction::Up | TuiAction::Down | TuiAction::Left | TuiAction::Right => {
                                &&& *final(debugger) == *old(debugger)
                                &&& *final(emulator) == *old(emulator)
                                &&& final(self).focus is None
                                &&& final(self).memory == moved(old(self).memory, action_direction(action))
                            },
                            TuiAction::DebugGoToAddress => {
                                &&& *final(debugger) == *old(debugger)
                                &&& *final(emulator) == *old(emulator)
                                &&& final(self).memory == old(self).memory
                                &&& final(self).focus matches Some(Focus::GoToAddress { text_box })
                                    && text_box.state.text@.len() == 0
                            },
                            TuiAction::DebugPauseToggle => toggled(*old(debugger), *final(debugger))
                                && *final(emulator) == *old(emulator),
                            TuiAction::DebugStepCycle => *final(debugger) == (Debugger {
                                step_until: Some(Cycles((old(emulator).clock.cycles.0 + 1) as u64)),
                                ..*old(debugger)
                            }) && *final(emulator) == *old(emulator),
                            TuiAction::DebugStepFrame => *final(debugger) == (Debugger {
                                step_until: Some(
                                    Cycles(spec_next_frame_end(old(emulator).clock.cycles.0 as int) as u64),
                                ),
                                ..*old(debugger)
                            }) && *final(emulator) == *old(emulator),
                            TuiAction::DebugStepInstruction => *final(debugger) == (Debugger {
                                step_until: Some(old(emulator).cpu.current_instruction.end),
                                ..*old(debugger)
                            }) && *final(emulator) == *old(emulator),
                            TuiAction::DebugStepBack => *final(debugger) == *old(debugger) && restored_previous(
                                old(debugger).snapshots@,
                                *old(emulator),
                                *final(emulator),
                            ),
                            TuiAction::Cancel | TuiAction::Submit => *final(debugger) == *old(debugger)
                                && *final(emulator) == *old(emulator) && final(self).memory == old(self).memory,
                        }
                    },
                    _ => !r && *final(debugger) == *old(debugger) && *final(emulator) == *old(emulator)
                        && final(self).memory == old(self).memory && final(self).focus is None,
                },
            },
    {
        // Extract the TUI-bound action
        let action = match event.action {
            Some(InputAction::Tui(action)) => Some(action),
            _ => None,
        };
        match &mut self.focus {
            Some(Focus::GoToAddress { text_box }) => match action {
                // Esc/Enter get out of the box
                Some(TuiAction::Cancel) => {
                    self.unfocus();
                    true
                },
                Some(TuiAction::Submit) => {
                    match text_box.value() {
                        Ok(address) => {
                            self.memory.select_address(address);
                            self.unfocus();
                            true
                        },
                        Err(_) => false,
                    }
                },
                // Pass everything else to the text box
                _ => text_box.input(event.key),
            },
            None => {
                let action = match action {
                    Some(action) => action,
                    // We don't care about this event
                    None => return false,
                };
                match action {
                    TuiAction::Up => self.memory.move_address(Direction::Up),
                    TuiAction::Down => self.memory.move_address(Direction::Down),
                    TuiAction::Left => self.memory.move_address(Direction::Left),
                    TuiAction::Right => self.memory.move_address(Direction::Right),
                    TuiAction::DebugGoToAddress => self.focus_go_to_address(),
                    TuiAction::DebugPauseToggle => debugger.toggle_pause(),
                    TuiAction::DebugStepCycle => debugger.step_cycle(emulator),
                    TuiAction::DebugStepFrame => debugger.step_frame(emulator),
                    TuiAction::DebugStepInstruction => debugger.step_instruction(emulator),
                    TuiAction::DebugStepBack => debugger.previous_snapshot(emulator),
                    TuiAction::Cancel | TuiAction::Submit => {},
                }
                true
            },
        }
    }
}

} // verus!
