//! Scrollbar state
//!
//! This tracks the visible window over a list of lines, so that a chosen line
//! can be kept in view.

use vstd::prelude::*;

verus! {

/// Placement of a scrollbar next to its content
#[derive(Clone, Copy, Debug, PartialEq, Eq, Structural)]
pub enum ScrollbarOrientation {
    VerticalRight,
    VerticalLeft,
    HorizontalBottom,
    HorizontalTop,
}

/// Widget state for a scrollbar
///
/// This assumes each content item is a single line.
#[derive(Clone, Copy, Debug, PartialEq, Eq, Structural)]
pub struct ScrollbarState {
    /// Number of rows in the content, e.g. items in a list or lines in a text
    /// file. For horizontal scrolling, this is the number of columns.
    pub content_length: usize,
    /// Length/width of the draw area
    ///
    /// Needed to compute scroll position. Updated on every draw.
    pub view_length: u16,
    /// Visual offset into the content, i.e. the index of the first visible
    /// item
    pub offset: usize,
}

/// The offset that keeps `item` in a view of `view_length` lines, moving as
/// little as possible from `offset`
pub open spec fn spec_scroll_to(offset: int, item: int, view_length: int) -> int {
    let low = if item >= view_length - 1 {
        item - (view_length - 1)
    } else {
        0
    };
    if offset < low {
        low
    } else if offset > item {
        item
    } else {
        offset
    }
}

impl ScrollbarState {
    /// Initialize new scrollbar state with a content length
    ///
    /// The content length is the number of scrollable items in the view.
    pub fn new(content_length: usize) -> (r: Self)
        ensures
            r == (ScrollbarState { content_length, view_length: 0, offset: 0 }),
    {
        Self { content_length, view_length: 0, offset: 0 }
    }

    /// Get the current offset
    pub fn offset(&self) -> (r: usize)
        ensures
            r == self.offset,
    {
        self.offset
    }

    /// Update the scroll offset to ensure the given item is visible
    ///
    /// The view must have been measured (its length is at least 1).
    pub fn scroll_to(&mut self, item: usize)
        requires
            old(self).view_length >= 1,
        ensures
            *final(self) == (ScrollbarState {
                offset: spec_scroll_to(old(self).offset as int, item as int, old(self).view_length as int) as usize,
                ..*old(self)
            }),
            final(self).offset <= item,
            item < final(self).offset + final(self).view_length,
    {
        let span = self.view_length as usize - 1;
        let low = if item >= span {
            item - span
        } else {
            0
        };
        if self.offset < low {
            self.offset = low;
        } else if self.offset > item {
            self.offset = item;
        }
    }

    /// Set the height/width of the view port
    ///
    /// This is updated on every frame to keep the scrollbar in sync with
    /// resizes.
    pub fn set_view_length(&mut self, width: u16, height: u16, orientation: ScrollbarOrientation)
        ensures
            *final(self) == (ScrollbarState {
                view_length: match orientation {
                    ScrollbarOrientation::VerticalRight | ScrollbarOrientation::VerticalLeft => height,
                    _ => width,
                },
                ..*old(self)
            }),
    {
        self.view_length = match orientation {
            ScrollbarOrientation::VerticalRight | ScrollbarOrientation::VerticalLeft => height,
            ScrollbarOrientation::HorizontalBottom | ScrollbarOrientation::HorizontalTop => width,
        };
    }

    /// Number of scroll positions to show: 1 for the current viewport plus
    /// the number of items outside it, or 0 to hide the scrollbar when the
    /// whole content fits
    pub fn scroll_positions(&self) -> (r: usize)
        requires
            self.content_length < usize::MAX,
        ensures
            r == if self.content_length <= self.view_length {
                0
            } else {
                (self.content_length - self.view_length + 1) as usize
            },
    {
        if self.content_length <= self.view_length as usize {
            0
        } else {
            self.content_length - self.view_length as usize + 1
        }
    }
}

} // verus!
