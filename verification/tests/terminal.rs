use sad_boy::backend::terminal::{input_timeout_ms, should_redraw};
use sad_boy::debugger::RunState;
use sad_boy::backend::terminal::draw::{Area, FrameLocation, Size, frame_message, pixel_bytes, push_decimal, shm_name};
use sad_boy::backend::terminal::input::{Button, InputAction, InputEvent, Key, KeyCode, TuiAction};
use sad_boy::backend::terminal::tui::style::{Styles, TextColor};
use sad_boy::backend::terminal::tui::widgets::scroll::{ScrollbarOrientation, ScrollbarState};
use sad_boy::backend::terminal::tui::widgets::text_box::TextBox;
use sad_boy::backend::{Color, FrameBuffer};
use sad_boy::emu::memory::Address;

fn key(code: KeyCode) -> Key {
    Key { code, ctrl: false, shift: false }
}

fn ctrl(code: KeyCode) -> Key {
    Key { code, ctrl: true, shift: false }
}

/// Shared memory objects are named by a counter
#[test]
fn shm_names() {
    assert_eq!(shm_name(0), b"/sad_boy_shm0".to_vec());
    assert_eq!(shm_name(1234), b"/sad_boy_shm1234".to_vec());
    // Different frames never share a name
    assert_ne!(shm_name(1), shm_name(10));
    assert_ne!(shm_name(12), shm_name(1));
    assert_ne!(shm_name(u64::MAX), shm_name(u64::MAX / 10));
}

/// Decimal digits, most significant first
#[test]
fn decimal_digits() {
    let mut out = b"x=".to_vec();
    push_decimal(&mut out, 0);
    push_decimal(&mut out, 69120);
    assert_eq!(out, b"x=069120".to_vec());
}

/// The graphics message for a frame at a fixed location
#[test]
fn frame_message_fixed() {
    let location = FrameLocation::Fixed(Area { x: 3, y: 4, width: 80, height: 36 });
    let message = frame_message(b"/sad_boy_shm0", &location);
    let expected = b"\x1b_Ga=T,f=24,s=160,v=144,c=80,r=36,C=1,t=s,S=69120;L3NhZF9ib3lfc2htMA==\x1b\\";
    assert_eq!(String::from_utf8_lossy(&message), String::from_utf8_lossy(expected));
}

/// A frame drawn inline advances the cursor
#[test]
fn frame_message_auto() {
    let location = FrameLocation::Auto(Size { width: 20, height: 9 });
    let message = frame_message(b"abc", &location);
    let expected = b"\x1b_Ga=T,f=24,s=160,v=144,c=20,r=9,C=0,t=s,S=69120;YWJj\x1b\\";
    assert_eq!(String::from_utf8_lossy(&message), String::from_utf8_lossy(expected));
}

/// Pixels go to shared memory as RGB triples
#[test]
fn frame_pixel_bytes() {
    let mut frame = FrameBuffer::new();
    frame.set(0, 0, Color::new(1, 2, 3));
    frame.set(1, 0, Color::white());
    let bytes = pixel_bytes(&frame);
    assert_eq!(bytes.len(), 3 * FrameBuffer::LENGTH);
    assert_eq!(&bytes[..6], &[1, 2, 3, 255, 255, 255]);
    assert!(bytes[6..].iter().all(|b| *b == 0));
}

/// Byte colors: grey zero, white 0xFF, and a hue per high nibble between
#[test]
fn byte_colors() {
    let styles = Styles::new();
    assert_eq!(styles.u8(0x00), TextColor::Rgb(0x80, 0x80, 0x80));
    assert_eq!(styles.u8(0x01), TextColor::Rgb(0xFF, 0x71, 0xA9));
    assert_eq!(styles.u8(0x0F), TextColor::Rgb(0xFF, 0x71, 0xA9));
    assert_eq!(styles.u8(0x10), TextColor::Rgb(0xFF, 0x7A, 0x78));
    assert_eq!(styles.u8(0x7F), TextColor::Rgb(0x00, 0xD5, 0x00));
    assert_eq!(styles.u8(0xFE), TextColor::Rgb(0xFF, 0x4D, 0xFF));
    assert_eq!(styles.u8(0xFF), TextColor::White);
    assert_eq!(styles.u16(0x1234), styles.u8(0x12));
    assert_eq!(styles.u16(0x00FF), styles.u8(0x00));
    assert_eq!(styles.bool(true), TextColor::Green);
    assert_eq!(styles.bool(false), TextColor::Red);
}

/// Key bindings
#[test]
fn key_bindings() {
    assert_eq!(InputAction::from_key(key(KeyCode::Char('h'))), Some(InputAction::Tui(TuiAction::Left)));
    assert_eq!(InputAction::from_key(key(KeyCode::Char('j'))), Some(InputAction::Tui(TuiAction::Down)));
    assert_eq!(InputAction::from_key(key(KeyCode::Char('g'))), Some(InputAction::Tui(TuiAction::DebugGoToAddress)));
    assert_eq!(InputAction::from_key(key(KeyCode::Char(' '))), Some(InputAction::Tui(TuiAction::DebugPauseToggle)));
    assert_eq!(InputAction::from_key(ctrl(KeyCode::Char('c'))), Some(InputAction::ForceQuit));
    assert_eq!(InputAction::from_key(key(KeyCode::Char('c'))), None);
    assert_eq!(InputAction::from_key(key(KeyCode::Right)), Some(InputAction::Tui(TuiAction::DebugStepInstruction)));
    assert_eq!(InputAction::from_key(ctrl(KeyCode::Right)), Some(InputAction::Tui(TuiAction::DebugStepCycle)));
    assert_eq!(
        InputAction::from_key(Key { code: KeyCode::Right, ctrl: false, shift: true }),
        Some(InputAction::Tui(TuiAction::DebugStepFrame))
    );
    assert_eq!(InputAction::from_key(key(KeyCode::Left)), Some(InputAction::Tui(TuiAction::DebugStepBack)));
    assert_eq!(InputAction::from_key(key(KeyCode::Esc)), Some(InputAction::Tui(TuiAction::Cancel)));
    assert_eq!(InputAction::from_key(key(KeyCode::Enter)), Some(InputAction::Tui(TuiAction::Submit)));
    assert_eq!(InputAction::from_key(key(KeyCode::Other)), None);
    let event = InputEvent::from_key(key(KeyCode::Char('k')));
    assert_eq!(event.action, Some(InputAction::Tui(TuiAction::Up)));
    let _ = Button::A;
}

/// Typing and editing an address in a text box
#[test]
fn text_box_editing() {
    let mut text_box = TextBox::new();
    assert!(text_box.value().is_err());
    for c in "ff5x".chars() {
        assert!(text_box.input(key(KeyCode::Char(c))));
    }
    assert!(text_box.value().is_err());
    assert!(text_box.input(key(KeyCode::Backspace)));
    assert!(text_box.input(key(KeyCode::Char('0'))));
    assert_eq!(text_box.value(), Ok(Address(0xFF50)));
    // Move to the start and delete the first character
    assert!(text_box.input(ctrl(KeyCode::Left)));
    assert_eq!(text_box.state.cursor, 0);
    assert!(text_box.input(key(KeyCode::Delete)));
    assert_eq!(text_box.value(), Ok(Address(0xF50)));
    assert!(text_box.input(key(KeyCode::End)));
    assert_eq!(text_box.state.cursor, 3);
    assert!(text_box.input(key(KeyCode::Left)));
    assert!(text_box.input(key(KeyCode::Char('1'))));
    assert_eq!(text_box.value(), Ok(Address(0xF510)));
    // Unhandled keys change nothing
    assert!(!text_box.input(key(KeyCode::Enter)));
    assert_eq!(text_box.state.as_string(), "f510");
    text_box.clear();
    assert_eq!(text_box.state.as_string(), "");
}

/// The text box scrolls to keep the cursor in view
#[test]
fn text_box_scroll() {
    let mut text_box = TextBox::new();
    for c in "0123456789".chars() {
        text_box.input(key(KeyCode::Char(c)));
    }
    // Cursor is at 10: a view of 4 scrolls so it is at the right edge
    assert_eq!(text_box.state.update_scroll(4), 7);
    text_box.input(key(KeyCode::Home));
    assert_eq!(text_box.state.update_scroll(4), 0);
}

/// Scrolling a list to keep an item in view
#[test]
fn scrollbar() {
    let mut state = ScrollbarState::new(100);
    state.set_view_length(80, 10, ScrollbarOrientation::VerticalRight);
    assert_eq!(state.view_length, 10);
    state.scroll_to(5);
    assert_eq!(state.offset(), 0);
    state.scroll_to(25);
    assert_eq!(state.offset(), 16);
    state.scroll_to(20);
    assert_eq!(state.offset(), 16);
    state.scroll_to(3);
    assert_eq!(state.offset(), 3);
    assert_eq!(state.scroll_positions(), 91);
    state.set_view_length(80, 10, ScrollbarOrientation::HorizontalBottom);
    assert_eq!(state.view_length, 80);
}

/// Characters typed with Control held are shortcuts, not text; Shift is fine
#[test]
fn text_box_modifiers() {
    let mut text_box = TextBox::new();
    assert!(text_box.input(key(KeyCode::Char('a'))));
    assert!(text_box.input(Key { code: KeyCode::Char('B'), ctrl: false, shift: true }));
    assert!(!text_box.input(ctrl(KeyCode::Char('c'))));
    assert!(!text_box.input(Key { code: KeyCode::Char('W'), ctrl: true, shift: true }));
    assert_eq!(text_box.state.as_string(), "aB");
    // Control and Shift together move one character, like the plain key
    assert!(text_box.input(Key { code: KeyCode::Left, ctrl: true, shift: true }));
    assert_eq!(text_box.state.cursor, 1);
}

/// Scroll positions of a list of `content_length` items in a view of 10,
/// scrolled to keep an item in view: none when everything fits
#[test]
fn scroll_positions() {
    let cases = [
        (0, 0, 0, 0),
        (9, 0, 0, 0),
        (10, 0, 0, 0),
        (10, 9, 0, 0),
        (11, 0, 2, 0),
        (11, 3, 2, 0),
        (12, 10, 3, 1),
        (20, 19, 11, 10),
    ];
    for (content_length, selected, positions, offset) in cases {
        let mut state = ScrollbarState::new(content_length);
        state.set_view_length(5, 10, ScrollbarOrientation::VerticalRight);
        state.scroll_to(selected);
        assert_eq!(state.scroll_positions(), positions, "{content_length} {selected}");
        assert_eq!(state.offset(), offset, "{content_length} {selected}");
    }
}

/// The main loop polls input while running and waits for it otherwise, and
/// redraws the TUI on input or while debugging
#[test]
fn main_loop_pacing() {
    assert_eq!(input_timeout_ms(RunState::Running), 0);
    assert_eq!(input_timeout_ms(RunState::Stepping), 0);
    assert_eq!(input_timeout_ms(RunState::Paused), 100);
    assert!(should_redraw(true, RunState::Running));
    assert!(!should_redraw(false, RunState::Running));
    assert!(should_redraw(false, RunState::Paused));
    assert!(should_redraw(false, RunState::Stepping));
}
