//! A single-line text box
//!
//! The text is a list of characters with a cursor between them. The box
//! scrolls horizontally to keep the cursor in view.

use vstd::prelude::*;
use crate::backend::terminal::input::{Key, KeyCode};
use crate::emu::instruction::text::push_char;
use crate::emu::memory::{Address, hex_value, is_hex_u16};

verus! {

/// Text with a cursor, and the horizontal scroll of its view
#[derive(Clone, Debug)]
pub struct TextState {
    /// Characters of the text
    pub text: Vec<char>,
    /// Number of characters before the cursor
    pub cursor: usize,
    /// Number of characters scrolled out of view on the left
    pub scroll_x: u16,
}

impl TextState {
    /// The cursor lies within the text.
    pub open spec fn wf(&self) -> bool {
        self.cursor <= self.text@.len()
    }

    /// Empty text with the cursor at the start
    pub fn new() -> (r: Self)
        ensures
            r.wf(),
            r.text@.len() == 0,
            r.cursor == 0,
            r.scroll_x == 0,
    {
        TextState { text: Vec::new(), cursor: 0, scroll_x: 0 }
    }

    /// Is the cursor at the start of the text?
    pub fn is_at_home(&self) -> (r: bool)
        ensures
            r == (self.cursor == 0),
    {
        self.cursor == 0
    }

    /// Is the cursor at the end of the text?
    pub fn is_at_end(&self) -> (r: bool)
        ensures
            r == (self.cursor == self.text@.len()),
    {
        self.cursor == self.text.len()
    }

    /// Number of characters in the text
    pub fn char_len(&self) -> (r: usize)
        ensures
            r == self.text@.len(),
    {
        self.text.len()
    }

    /// Move the cursor to the start
    pub fn home(&mut self)
        ensures
            final(self).text == old(self).text,
            final(self).scroll_x == old(self).scroll_x,
            final(self).cursor == 0,
    {
        self.cursor = 0;
    }

    /// Move the cursor to the end
    pub fn end(&mut self)
        ensures
            final(self).text == old(self).text,
            final(self).scroll_x == old(self).scroll_x,
            final(self).cursor == old(self).text@.len(),
    {
        self.cursor = self.text.len();
    }

    /// Insert a character at the cursor, and move past it
    pub fn insert(&mut self, c: char)
        requires
            old(self).wf(),
        ensures
            final(self).wf(),
            final(self).text@ == old(self).text@.insert(old(self).cursor as int, c),
            final(self).cursor == old(self).cursor + 1,
            final(self).scroll_x == old(self).scroll_x,
    {
        self.text.insert(self.cursor, c);
        let len = self.text.len();
        assert(self.cursor < len);
        self.cursor = self.cursor + 1;
    }

    /// Move the cursor one character left, unless at the start
    pub fn left(&mut self)
        requires
            old(self).wf(),
        ensures
            final(self).wf(),
            final(self).text == old(self).text,
            final(self).scroll_x == old(self).scroll_x,
            final(self).cursor == if old(self).cursor > 0 {
                old(self).cursor - 1
            } else {
                0
            },
    {
        if !self.is_at_home() {
            self.cursor = self.cursor - 1;
        }
    }

    /// Move the cursor one character right, unless at the end
    pub fn right(&mut self)
        requires
            old(self).wf(),
        ensures
            final(self).wf(),
            final(self).text == old(self).text,
            final(self).scroll_x == old(self).scroll_x,
            final(self).cursor == if old(self).cursor < old(self).text@.len() {
                old(self).cursor + 1
            } else {
                old(self).cursor as int
            },
    {
        if self.cursor < self.text.len() {
            self.cursor = self.cursor + 1;
        }
    }

    /// Delete the character before the cursor (Backspace)
    pub fn delete_left(&mut self)
        requires
            old(self).wf(),
        ensures
            final(self).wf(),
            final(self).scroll_x == old(self).scroll_x,
            old(self).cursor == 0 ==> final(self).text@ == old(self).text@ && final(self).cursor == 0,
            old(self).cursor > 0 ==> final(self).text@ == old(self).text@.remove(old(self).cursor - 1)
                && final(self).cursor == old(self).cursor - 1,
    {
        if !self.is_at_home() {
            self.left();
            self.text.remove(self.cursor);
        }
    }

    /// Delete the character after the cursor (Delete)
    pub fn delete_right(&mut self)
        requires
            old(self).wf(),
        ensures
            final(self).wf(),
            final(self).scroll_x == old(self).scroll_x,
            final(self).cursor == old(self).cursor,
            old(self).cursor == old(self).text@.len() ==> final(self).text@ == old(self).text@,
            old(self).cursor < old(self).text@.len() ==> final(self).text@ == old(self).text@.remove(
                old(self).cursor as int,
            ),
    {
        if !self.is_at_end() {
            self.text.remove(self.cursor);
        }
    }

    /// Update the horizontal scroll for a view `width` characters wide, so
    /// that the cursor stays in view, and return it
    ///
    /// If the cursor is left of the view, scroll so it's at the left edge; if
    /// it's right of the view, so it's at the right edge; if the view runs
    /// past the end of the text (after a deletion), clamp it to the end.
    pub fn update_scroll(&mut self, width: u16) -> (r: u16)
        requires
            old(self).wf(),
            old(self).text@.len() < u16::MAX,
            old(self).scroll_x + width <= u16::MAX,
        ensures
            final(self).text == old(self).text,
            final(self).cursor == old(self).cursor,
            final(self).scroll_x == r,
            r == ({
                let cursor = old(self).cursor as int;
                let scroll = old(self).scroll_x as int;
                let max_scroll = if old(self).text@.len() + 1 >= width {
                    old(self).text@.len() + 1 - width
                } else {
                    0
                };
                if cursor < scroll {
                    cursor
                } else if cursor >= scroll + width {
                    cursor - width + 1
                } else if scroll > max_scroll {
                    max_scroll
                } else {
                    scroll
                }
            }),
    {
        let cursor = self.cursor as u16;
        let len = self.text.len() as u16;
        let max_scroll: u16 = if len + 1 >= width {
            len + 1 - width
        } else {
            0
        };
        let scroll_x = self.scroll_x;
        let new_scroll_x = if cursor < scroll_x {
            // Scroll left so the cursor is at the left edge
            cursor
        } else if cursor >= scroll_x + width {
            // Scroll right so the cursor is at right edge
            cursor - width + 1
        } else if scroll_x > max_scroll {
            // The view extends beyond the end of the text, probably because we
            // deleted text from the end. Clamp to the end
            max_scroll
        } else {
            // Cursor is in view already, no change
            scroll_x
        };
        self.scroll_x = new_scroll_x;
        new_scroll_x
    }

    /// The text as a string
    pub fn as_string(&self) -> (r: String)
        ensures
            r@ == self.text@,
    {
        let mut out = String::new();
        let mut i: usize = 0;
        while i < self.text.len()
            invariant
                i <= self.text@.len(),
                out@ == self.text@.subrange(0, i as int),
            decreases self.text@.len() - i,
        {
            push_char(&mut out, self.text[i]);
            i = i + 1;
            assert(out@ =~= self.text@.subrange(0, i as int));
        }
        assert(self.text@.subrange(0, i as int) =~= self.text@);
        out
    }
}

/// The text and cursor after a key press in a text box
///
/// Characters are typed at the cursor, unless Control is held; Backspace and
/// Delete delete the character before or after it; Left and Right move it by
/// one character (to the start or end with Control alone); Home and End move
/// it to the start or end. Other keys change nothing.
pub open spec fn edited(text: Seq<char>, cursor: int, key: Key) -> (Seq<char>, int) {
    match key.code {
        KeyCode::Char(c) => if key.ctrl {
            (text, cursor)
        } else {
            (text.insert(cursor, c), cursor + 1)
        },
        KeyCode::Backspace => if cursor > 0 {
            (text.remove(cursor - 1), cursor - 1)
        } else {
            (text, cursor)
        },
        KeyCode::Delete => if cursor < text.len() {
            (text.remove(cursor), cursor)
        } else {
            (text, cursor)
        },
        KeyCode::Left => if key.ctrl && !key.shift {
            (text, 0)
        } else if cursor > 0 {
            (text, cursor - 1)
        } else {
            (text, cursor)
        },
        KeyCode::Right => if key.ctrl && !key.shift {
            (text, text.len() as int)
        } else if cursor < text.len() {
            (text, cursor + 1)
        } else {
            (text, cursor)
        },
        KeyCode::Home => (text, 0),
        KeyCode::End => (text, text.len() as int),
        _ => (text, cursor),
    }
}

/// A single-line text box for entering a memory address
#[derive(Clone, Debug)]
pub struct TextBox {
    /// Text and cursor
    pub state: TextState,
    /// Text shown while the box is empty
    pub placeholder_text: String,
}

impl TextBox {
    /// The box is well-formed when its text state is.
    pub open spec fn wf(&self) -> bool {
        self.state.wf()
    }

    /// An empty text box
    pub fn new() -> (r: Self)
        ensures
            r.wf(),
            r.state.text@.len() == 0,
            r.state.cursor == 0,
            r.placeholder_text@.len() == 0,
    {
        TextBox { state: TextState::new(), placeholder_text: String::new() }
    }

    /// Set the text shown while the box is empty
    pub fn with_placeholder_text(self, placeholder_text: String) -> (r: Self)
        ensures
            r.state.text == self.state.text,
            r.state.cursor == self.state.cursor,
            r.placeholder_text@ == placeholder_text@,
    {
        TextBox { state: self.state, placeholder_text }
    }

    /// The address written in the box (hexadecimal, without `0x`)
    pub fn value(&self) -> (r: Result<Address, String>)
        ensures
            r is Ok <==> is_hex_u16(self.state.text@),
            r matches Ok(a) ==> a.0 == hex_value(self.state.text@),
    {
        let text = self.state.as_string();
        Address::parse(text.as_str())
    }

    /// Empty the box
    pub fn clear(&mut self)
        ensures
            final(self).wf(),
            final(self).state.text@.len() == 0,
            final(self).state.cursor == 0,
            final(self).state.scroll_x == 0,
            final(self).placeholder_text == old(self).placeholder_text,
    {
        self.state = TextState::new();
    }

    /// Handle a key press
    ///
    /// The key edits the text as [edited] says. Return `true` if the key was
    /// handled: characters typed with Control held are not.
    pub fn input(&mut self, key: Key) -> (r: bool)
        requires
            old(self).wf(),
        ensures
            final(self).wf(),
            r == match key.code {
                KeyCode::Char(_) => !key.ctrl,
                KeyCode::Backspace | KeyCode::Delete | KeyCode::Left | KeyCode::Right | KeyCode::Home
                | KeyCode::End => true,
                _ => false,
            },
            (final(self).state.text@, final(self).state.cursor as int) == edited(
                old(self).state.text@,
                old(self).state.cursor as int,
                key,
            ),
            !r ==> final(self).state == old(self).state,
            final(self).placeholder_text == old(self).placeholder_text,
    {
        match key.code {
            // Characters typed with Control held are shortcuts, not text
            KeyCode::Char(c) => {
                if key.ctrl {
                    return false;
                }
                self.state.insert(c);
            },
            KeyCode::Backspace => self.state.delete_left(),
            KeyCode::Delete => self.state.delete_right(),
            KeyCode::Left => {
                if key.ctrl && !key.shift {
                    self.state.home();
                } else {
                    self.state.left();
                }
            },
            KeyCode::Right => {
                if key.ctrl && !key.shift {
                    self.state.end();
                } else {
                    self.state.right();
                }
            },
            KeyCode::Home => self.state.home(),
            KeyCode::End => self.state.end(),
            // Event unhandled
            _ => return false,
        }
        true
    }
}

} // verus!
