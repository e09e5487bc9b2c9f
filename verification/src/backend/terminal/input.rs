//! Terminal input handling: mapping keys to actions

use vstd::prelude::*;

verus! {

/// A key on the keyboard
#[derive(Clone, Copy, Debug, PartialEq, Eq, Structural)]
pub enum KeyCode {
    /// A character key
    Char(char),
    Esc,
    Enter,
    Backspace,
    Delete,
    Left,
    Right,
    Up,
    Down,
    Home,
    End,
    /// Any other key
    Other,
}

/// A key press, with the modifiers held
#[derive(Clone, Copy, Debug, PartialEq, Eq, Structural)]
pub struct Key {
    pub code: KeyCode,
    /// Is Control held?
    pub ctrl: bool,
    /// Is Shift held?
    pub shift: bool,
}

/// A semantic action triggered by input
#[derive(Clone, Copy, Debug, PartialEq, Eq, Structural)]
pub enum InputAction {
    /// Exit the app; this cannot be consumed by anyone else
    ForceQuit,
    /// An event that should be routed to the TUI
    Tui(TuiAction),
    /// Game Boy button that should be routed to the emulator
    Button(Button),
}

/// A mapped input action intended for the TUI
#[derive(Clone, Copy, Debug, PartialEq, Eq, Structural)]
pub enum TuiAction {
    /// Navigate up
    Up,
    /// Navigate down
    Down,
    /// Navigate left
    Left,
    /// Navigate right
    Right,
    /// Cancel the current action
    Cancel,
    /// Submit an entry (e.g. from a text box)
    Submit,
    /// Go to a memory address in the memory panel
    DebugGoToAddress,
    /// Pause or unpause execution in the debugger
    DebugPauseToggle,
    /// Step back to a previous emulator snapshot
    DebugStepBack,
    /// Advance the debugger one clock cycle
    DebugStepCycle,
    /// Advance the debugger to the end of the current frame
    DebugStepFrame,
    /// Advance the debugger to the end of the current CPU instruction
    DebugStepInstruction,
}

/// Game Boy buttons
#[derive(Clone, Copy, Debug, PartialEq, Eq, Structural)]
pub enum Button {
    A,
    B,
    Start,
    Select,
    Up,
    Down,
    Left,
    Right,
}

/// The action bound to a key press, if any
///
/// `h`/`j`/`k`/`l` navigate, Esc cancels, Enter submits, `g` goes to an
/// address, Space toggles pause, Ctrl+C quits, and the arrow keys step: Right
/// by instruction (by cycle with Ctrl, by frame with Shift), Left back a
/// snapshot.
pub open spec fn key_action(key: Key) -> Option<InputAction> {
    match key.code {
        KeyCode::Char(c) => if c == 'h' {
            Some(InputAction::Tui(TuiAction::Left))
        } else if c == 'j' {
            Some(InputAction::Tui(TuiAction::Down))
        } else if c == 'k' {
            Some(InputAction::Tui(TuiAction::Up))
        } else if c == 'l' {
            Some(InputAction::Tui(TuiAction::Right))
        } else if c == 'g' {
            Some(InputAction::Tui(TuiAction::DebugGoToAddress))
        } else if c == ' ' {
            Some(InputAction::Tui(TuiAction::DebugPauseToggle))
        } else if c == 'c' && key.ctrl {
            Some(InputAction::ForceQuit)
        } else {
            None
        },
        KeyCode::Esc => Some(InputAction::Tui(TuiAction::Cancel)),
        KeyCode::Enter => Some(InputAction::Tui(TuiAction::Submit)),
        KeyCode::Right => if key.ctrl {
            Some(InputAction::Tui(TuiAction::DebugStepCycle))
        } else if key.shift {
            Some(InputAction::Tui(TuiAction::DebugStepFrame))
        } else {
            Some(InputAction::Tui(TuiAction::DebugStepInstruction))
        },
        KeyCode::Left => Some(InputAction::Tui(TuiAction::DebugStepBack)),
        _ => None,
    }
}

/// The vim keys are the only navigation keys, one for each direction,
/// whatever modifiers are held: a key navigates left exactly when it is `h`,
/// down exactly when it is `j`, up exactly when it is `k` and right exactly
/// when it is `l`. So no two of them give the same action.
pub proof fn law_vim_keys(key: Key)
    ensures
        key_action(key) == Some(InputAction::Tui(TuiAction::Left)) <==> key.code == KeyCode::Char('h'),
        key_action(key) == Some(InputAction::Tui(TuiAction::Down)) <==> key.code == KeyCode::Char('j'),
        key_action(key) == Some(InputAction::Tui(TuiAction::Up)) <==> key.code == KeyCode::Char('k'),
        key_action(key) == Some(InputAction::Tui(TuiAction::Right)) <==> key.code == KeyCode::Char('l'),
{
}

impl From<Button> for InputAction {
    /// A Game Boy button press
    fn from(button: Button) -> (r: Self) {
        InputAction::Button(button)
    }
}

impl vstd::std_specs::convert::FromSpecImpl<Button> for InputAction {
    open spec fn obeys_from_spec() -> bool {
        true
    }

    open spec fn from_spec(button: Button) -> Self {
        InputAction::Button(button)
    }
}

impl From<TuiAction> for InputAction {
    /// An action for the TUI
    fn from(action: TuiAction) -> (r: Self) {
        InputAction::Tui(action)
    }
}

impl vstd::std_specs::convert::FromSpecImpl<TuiAction> for InputAction {
    open spec fn obeys_from_spec() -> bool {
        true
    }

    open spec fn from_spec(action: TuiAction) -> Self {
        InputAction::Tui(action)
    }
}

impl InputAction {
    /// Map a key press to an [InputAction]
    ///
    /// Return `None` if the key is unbound.
    pub fn from_key(key: Key) -> (r: Option<InputAction>)
        ensures
            r == key_action(key),
    {
        match key.code {
            KeyCode::Char('h') => Some(InputAction::Tui(TuiAction::Left)),
            KeyCode::Char('j') => Some(InputAction::Tui(TuiAction::Down)),
            KeyCode::Char('k') => Some(InputAction::Tui(TuiAction::Up)),
            KeyCode::Char('l') => Some(InputAction::Tui(TuiAction::Right)),
            KeyCode::Char('g') => Some(InputAction::Tui(TuiAction::DebugGoToAddress)),
            KeyCode::Char(' ') => Some(InputAction::Tui(TuiAction::DebugPauseToggle)),
            KeyCode::Char('c') if key.ctrl => Some(InputAction::ForceQuit),
            KeyCode::Esc => Some(InputAction::Tui(TuiAction::Cancel)),
            KeyCode::Enter => Some(InputAction::Tui(TuiAction::Submit)),
            KeyCode::Right if key.ctrl => Some(InputAction::Tui(TuiAction::DebugStepCycle)),
            KeyCode::Right if key.shift => Some(InputAction::Tui(TuiAction::DebugStepFrame)),
            KeyCode::Right => Some(InputAction::Tui(TuiAction::DebugStepInstruction)),
            KeyCode::Left => Some(InputAction::Tui(TuiAction::DebugStepBack)),
            _ => None,
        }
    }
}

/// A key press as the TUI receives it: the key and the action bound to it
#[derive(Clone, Copy, Debug, PartialEq, Eq, Structural)]
pub struct InputEvent {
    /// The key pressed
    pub key: Key,
    /// Bound action
    pub action: Option<InputAction>,
}

impl InputEvent {
    /// The event for a key press, with its bound action
    pub fn from_key(key: Key) -> (r: Self)
        ensures
            r.key == key,
            r.action == key_action(key),
    {
        InputEvent { key, action: InputAction::from_key(key) }
    }
}

} // verus!
