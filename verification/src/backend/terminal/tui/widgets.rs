//! Widget state for the TUI

pub mod scroll;
pub mod text_box;
