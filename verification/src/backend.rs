//! Hardware abstractions (screens)
//!
//! This module is emulator-agnostic: a backend receives finished frames and
//! presents them somewhere (a terminal, a test harness, ...).

pub mod terminal;

use vstd::prelude::*;
use crate::emu::instruction::text::{decimal_text, push_decimal_text};

verus! {

/// Width of a frame in pixels
pub const FRAME_WIDTH: u16 = 160;

/// Height of a frame in pixels
pub const FRAME_HEIGHT: u16 = 144;

/// Number of pixels in a frame
pub const FRAME_LENGTH: usize = 23040;

/// An interface for a screen
///
/// This is an abstraction over hardware: it provides everything a Game Boy
/// needs to show its output. The backend could be a terminal, web browser,
/// etc.
pub trait Backend {
    /// Does this backend keep a record of the frames it draws, in
    /// [Backend::drawn]? A backend that shows frames without recording them
    /// keeps the default, `false`.
    open spec fn records_frames(&self) -> bool {
        false
    }

    /// The pixels of every frame drawn so far, oldest first, for a backend
    /// that [records frames](Backend::records_frames)
    open spec fn drawn(&self) -> Seq<Seq<Color>> {
        Seq::empty()
    }

    /// Draw the given frame buffer to the screen
    ///
    /// A backend that records frames adds the frame's pixels to its record.
    fn draw(&mut self, frame: &FrameBuffer)
        requires
            frame.wf(),
        ensures
            final(self).records_frames() == old(self).records_frames(),
            old(self).records_frames() ==> final(self).drawn() == old(self).drawn().push(frame.pixels@),
    ;
}

/// An in-memory [Backend] for testing and headless operation
pub struct HeadlessBackend {
    /// Most recent drawn frame
    pub last_frame: Option<FrameBuffer>,
    /// The pixels of every frame drawn so far
    pub history: Ghost<Seq<Seq<Color>>>,
}

impl HeadlessBackend {
    /// A backend that has not drawn anything yet
    pub fn new() -> (r: Self)
        ensures
            r.last_frame is None,
            r.drawn() == Seq::<Seq<Color>>::empty(),
    {
        Self { last_frame: None, history: Ghost(Seq::empty()) }
    }

    /// Assert that the most recently drawn frame matches `expected`
    ///
    /// A frame must have been drawn, and its pixels must be those of
    /// `expected`: that is the whole of the assertion, so callers that cannot
    /// know it use [HeadlessBackend::compare_pixels].
    pub fn assert_pixels(&self, expected: &FrameBuffer)
        requires
            self.last_frame matches Some(f) && f.pixels@ == expected.pixels@,
    {
    }

    /// Compare the most recently drawn frame with `expected`
    pub fn compare_pixels(&self, expected: &FrameBuffer) -> (r: Result<(), FrameMismatch>)
        requires
            self.last_frame matches Some(f) ==> f.wf(),
            expected.wf(),
        ensures
            r is Ok <==> (self.last_frame matches Some(f) && f.pixels@ == expected.pixels@),
            r matches Err(FrameMismatch::NotDrawn) <==> self.last_frame is None,
            r matches Err(FrameMismatch::Pixels(found)) ==> (self.last_frame matches Some(f) && found@
                == mismatch_prefix(f.pixels@, expected.pixels@, FRAME_LENGTH as nat)),
    {
        match &self.last_frame {
            None => Err(FrameMismatch::NotDrawn),
            Some(actual) => match actual.compare_pixels(expected) {
                Ok(()) => Ok(()),
                Err(found) => Err(FrameMismatch::Pixels(found)),
            },
        }
    }

    /// The most recently drawn frame, if any frame has been drawn
    pub fn last_frame(&self) -> (r: Option<&FrameBuffer>)
        ensures
            r matches Some(f) ==> self.last_frame == Some(*f),
            r is None <==> self.last_frame is None,
    {
        match &self.last_frame {
            Some(frame) => Some(frame),
            None => None,
        }
    }
}

impl Backend for HeadlessBackend {
    open spec fn records_frames(&self) -> bool {
        true
    }

    open spec fn drawn(&self) -> Seq<Seq<Color>> {
        self.history@
    }

    fn draw(&mut self, frame: &FrameBuffer)
        ensures
            final(self).last_frame matches Some(f) && f.wf() && f.pixels@ == frame.pixels@,
    {
        self.last_frame = Some(frame.copy());
        self.history = Ghost(self.history@.push(frame.pixels@));
    }
}

/// In-memory buffer for a frame to be drawn
///
/// Pixels are stored row by row: the pixel at `(x, y)` is at index
/// `y * WIDTH + x`.
#[derive(Debug)]
pub struct FrameBuffer {
    /// Pixel data
    ///
    /// Invariant: `len() == WIDTH * HEIGHT`
    pub pixels: Vec<Color>,
}

/// Index of the pixel at `(x, y)`
pub open spec fn pixel_index(x: int, y: int) -> int {
    y * (FRAME_WIDTH as int) + x
}

/// The pixels that differ among the first `n` of two frames, in pixel order
pub open spec fn mismatch_prefix(actual: Seq<Color>, expected: Seq<Color>, n: nat) -> Seq<Mismatch>
    decreases n,
{
    if n == 0 {
        Seq::empty()
    } else {
        let prev = mismatch_prefix(actual, expected, (n - 1) as nat);
        let i = n - 1;
        if actual[i] != expected[i] {
            prev.push(
                Mismatch {
                    x: (i % (FRAME_WIDTH as int)) as u16,
                    y: (i / (FRAME_WIDTH as int)) as u16,
                    actual: actual[i],
                    expected: expected[i],
                },
            )
        } else {
            prev
        }
    }
}

impl FrameBuffer {
    /// Width of a frame in pixels
    pub const WIDTH: u16 = 160;
    /// Height of a frame in pixels
    pub const HEIGHT: u16 = 144;
    /// Number of pixels in a frame
    pub const LENGTH: usize = 23040;

    /// The buffer holds one color per pixel.
    pub open spec fn wf(&self) -> bool {
        self.pixels@.len() == FRAME_LENGTH
    }

    /// The color of the pixel at `(x, y)`
    pub open spec fn pixel(&self, x: int, y: int) -> Color {
        self.pixels@[pixel_index(x, y)]
    }

    /// Initialize a new, all-black frame buffer
    pub fn new() -> (r: Self)
        ensures
            r.wf(),
            forall|i: int| 0 <= i < FRAME_LENGTH ==> #[trigger] r.pixels@[i] == Color::black(),
    {
        let mut pixels: Vec<Color> = Vec::new();
        let mut k: usize = 0;
        while k < Self::LENGTH
            invariant
                k <= FRAME_LENGTH,
                pixels@.len() == k,
                forall|i: int| 0 <= i < k ==> #[trigger] pixels@[i] == Color::black(),
            decreases FRAME_LENGTH - k,
        {
            pixels.push(Color::black());
            k = k + 1;
        }
        Self { pixels }
    }

    /// A copy of this frame
    pub fn copy(&self) -> (r: Self)
        ensures
            r.pixels@ == self.pixels@,
    {
        let mut pixels: Vec<Color> = Vec::new();
        let mut k: usize = 0;
        while k < self.pixels.len()
            invariant
                k <= self.pixels@.len(),
                pixels@ == self.pixels@.take(k as int),
            decreases self.pixels@.len() - k,
        {
            pixels.push(self.pixels[k]);
            k = k + 1;
            assert(pixels@ =~= self.pixels@.take(k as int));
        }
        assert(pixels@ =~= self.pixels@);
        Self { pixels }
    }

    /// Initialize a new frame buffer with static contents
    pub fn from_pixels(pixels: Vec<Color>) -> (r: Self)
        requires
            pixels@.len() == FRAME_LENGTH,
        ensures
            r.wf(),
            r.pixels@ == pixels@,
    {
        Self { pixels }
    }

    /// Get frame pixels as a slice
    pub fn pixels(&self) -> (r: &[Color])
        ensures
            r@ == self.pixels@,
    {
        self.pixels.as_slice()
    }

    /// Number of columns of pixels in the frame
    pub fn width(&self) -> (r: u16)
        ensures
            r == FRAME_WIDTH,
    {
        Self::WIDTH
    }

    /// Number of rows of pixels in the frame
    pub fn height(&self) -> (r: u16)
        ensures
            r == FRAME_HEIGHT,
    {
        Self::HEIGHT
    }

    /// Index of the pixel at `(x, y)` in [Self::pixels]
    pub fn index(&self, x: u16, y: u16) -> (r: usize)
        requires
            x < FRAME_WIDTH,
            y < FRAME_HEIGHT,
        ensures
            r == pixel_index(x as int, y as int),
            r < FRAME_LENGTH,
    {
        assert((y as int) * 160 + (x as int) < 23040) by (nonlinear_arith)
            requires
                x < 160,
                y < 144,
        ;
        (y as usize) * (Self::WIDTH as usize) + (x as usize)
    }

    /// Set the value of a single pixel
    pub fn set(&mut self, x: u16, y: u16, color: Color)
        requires
            old(self).wf(),
            x < FRAME_WIDTH,
            y < FRAME_HEIGHT,
        ensures
            final(self).wf(),
            final(self).pixels@ == old(self).pixels@.update(pixel_index(x as int, y as int), color),
    {
        let i = self.index(x, y);
        self.pixels.set(i, color);
    }

    /// Reset all pixels to black
    pub fn reset(&mut self)
        requires
            old(self).wf(),
        ensures
            final(self).wf(),
            forall|i: int| 0 <= i < FRAME_LENGTH ==> #[trigger] final(self).pixels@[i] == Color::black(),
    {
        let mut k: usize = 0;
        while k < Self::LENGTH
            invariant
                k <= FRAME_LENGTH,
                self.pixels@.len() == FRAME_LENGTH,
                forall|i: int| 0 <= i < k ==> #[trigger] self.pixels@[i] == Color::black(),
            decreases FRAME_LENGTH - k,
        {
            self.pixels.set(k, Color::black());
            k = k + 1;
        }
    }

    /// Set all pixels in a given area to a color
    #[verifier::spinoff_prover]
    pub fn set_region(&mut self, x: u16, y: u16, width: u16, height: u16, color: Color)
        requires
            old(self).wf(),
            x + width <= FRAME_WIDTH,
            y + height <= FRAME_HEIGHT,
        ensures
            final(self).wf(),
            forall|px: int, py: int|
                0 <= px < FRAME_WIDTH && 0 <= py < FRAME_HEIGHT ==> #[trigger] final(self).pixel(px, py) == if x <= px
                    < x + width && y <= py < y + height {
                    color
                } else {
                    old(self).pixel(px, py)
                },
    {
        let mut row = y;
        while row < y + height
            invariant
                y <= row <= y + height,
                y + height <= FRAME_HEIGHT,
                x + width <= FRAME_WIDTH,
                self.wf(),
                forall|px: int, py: int|
                    0 <= px < FRAME_WIDTH && 0 <= py < FRAME_HEIGHT ==> #[trigger] self.pixel(px, py) == if x <= px < x
                        + width && y <= py < row {
                        color
                    } else {
                        old(self).pixel(px, py)
                    },
            decreases y + height - row,
        {
            let mut col = x;
            while col < x + width
                invariant
                    x <= col <= x + width,
                    y <= row < y + height,
                    y + height <= FRAME_HEIGHT,
                    x + width <= FRAME_WIDTH,
                    self.wf(),
                    forall|px: int, py: int|
                        0 <= px < FRAME_WIDTH && 0 <= py < FRAME_HEIGHT ==> #[trigger] self.pixel(px, py) == if (x <= px
                            < x + width && y <= py < row) || (x <= px < col && py == row) {
                            color
                        } else {
                            old(self).pixel(px, py)
                        },
                decreases x + width - col,
            {
                let ghost prev = *self;
                self.set(col, row, color);
                proof {
                    assert forall|px: int, py: int|
                        0 <= px < FRAME_WIDTH && 0 <= py < FRAME_HEIGHT implies #[trigger] self.pixel(px, py) == if (
                        x <= px < x + width && y <= py < row) || (x <= px < col + 1 && py == row) {
                            color
                        } else {
                            old(self).pixel(px, py)
                        } by {
                        assert(prev.pixel(px, py) == if (x <= px < x + width && y <= py < row) || (x <= px < col
                            && py == row) {
                            color
                        } else {
                            old(self).pixel(px, py)
                        });
                        if px != col || py != row {
                            assert(pixel_index(px, py) != pixel_index(col as int, row as int)) by (nonlinear_arith)
                                requires
                                    px != col || py != row,
                                    0 <= px < 160,
                                    0 <= col < 160,
                                    0 <= py,
                                    0 <= row,
                            ;
                        }
                    }
                }
                col = col + 1;
            }
            row = row + 1;
        }
    }

    /// Assert that the frame's pixels match `expected`
    ///
    /// The frames must be equal: that is the whole of the assertion, so
    /// callers that cannot know it use [FrameBuffer::compare_pixels], and
    /// [mismatch_report] to describe the difference.
    pub fn assert_pixels(&self, expected: &FrameBuffer)
        requires
            self.wf(),
            expected.wf(),
            self.pixels@ == expected.pixels@,
    {
    }

    /// Compare the frame's pixels with `expected`, listing the pixels that
    /// differ if they don't match
    pub fn compare_pixels(&self, expected: &FrameBuffer) -> (r: Result<(), Vec<Mismatch>>)
        requires
            self.wf(),
            expected.wf(),
        ensures
            r is Ok <==> self.pixels@ == expected.pixels@,
            r matches Err(found) ==> found@ == mismatch_prefix(self.pixels@, expected.pixels@, FRAME_LENGTH as nat),
            r matches Err(found) ==> found@.len() > 0 && forall|k: int|
                0 <= k < found@.len() ==> {
                    let m = #[trigger] found@[k];
                    &&& m.x < FRAME_WIDTH
                    &&& m.y < FRAME_HEIGHT
                    &&& m.actual == self.pixel(m.x as int, m.y as int)
                    &&& m.expected == expected.pixel(m.x as int, m.y as int)
                    &&& m.actual != m.expected
                },
    {
        let found = self.mismatches(expected);
        if found.len() == 0 {
            Ok(())
        } else {
            Err(found)
        }
    }

    /// List the pixels where this frame differs from `expected`
    ///
    /// Each mismatch is reported in pixel order with this frame's color first.
    #[verifier::spinoff_prover]
    pub fn mismatches(&self, expected: &FrameBuffer) -> (r: Vec<Mismatch>)
        requires
            self.wf(),
            expected.wf(),
        ensures
            forall|k: int|
                0 <= k < r@.len() ==> {
                    let m = #[trigger] r@[k];
                    &&& m.x < FRAME_WIDTH
                    &&& m.y < FRAME_HEIGHT
                    &&& m.actual == self.pixel(m.x as int, m.y as int)
                    &&& m.expected == expected.pixel(m.x as int, m.y as int)
                    &&& m.actual != m.expected
                },
            r@.len() == 0 <==> self.pixels@ == expected.pixels@,
            r@ == mismatch_prefix(self.pixels@, expected.pixels@, FRAME_LENGTH as nat),
    {
        let mut found: Vec<Mismatch> = Vec::new();
        let mut y: u16 = 0;
        while y < Self::HEIGHT
            invariant
                y <= FRAME_HEIGHT,
                self.wf(),
                expected.wf(),
                forall|k: int|
                    0 <= k < found@.len() ==> {
                        let m = #[trigger] found@[k];
                        &&& m.x < FRAME_WIDTH
                        &&& m.y < FRAME_HEIGHT
                        &&& m.actual == self.pixel(m.x as int, m.y as int)
                        &&& m.expected == expected.pixel(m.x as int, m.y as int)
                        &&& m.actual != m.expected
                    },
                found@.len() == 0 <==> forall|i: int|
                    0 <= i < pixel_index(0, y as int) ==> #[trigger] self.pixels@[i] == expected.pixels@[i],
                found@ == mismatch_prefix(self.pixels@, expected.pixels@, pixel_index(0, y as int) as nat),
            decreases FRAME_HEIGHT - y,
        {
            let mut x: u16 = 0;
            while x < Self::WIDTH
                invariant
                    x <= FRAME_WIDTH,
                    y < FRAME_HEIGHT,
                    self.wf(),
                    expected.wf(),
                    forall|k: int|
                        0 <= k < found@.len() ==> {
                            let m = #[trigger] found@[k];
                            &&& m.x < FRAME_WIDTH
                            &&& m.y < FRAME_HEIGHT
                            &&& m.actual == self.pixel(m.x as int, m.y as int)
                            &&& m.expected == expected.pixel(m.x as int, m.y as int)
                            &&& m.actual != m.expected
                        },
                    found@.len() == 0 <==> forall|i: int|
                        0 <= i < pixel_index(x as int, y as int) ==> #[trigger] self.pixels@[i] == expected.pixels@[i],
                    found@ == mismatch_prefix(self.pixels@, expected.pixels@, pixel_index(x as int, y as int) as nat),
                decreases FRAME_WIDTH - x,
            {
                let i = self.index(x, y);
                assert(i as int % (FRAME_WIDTH as int) == x && i as int / (FRAME_WIDTH as int) == y) by (nonlinear_arith)
                    requires
                        i == y * 160 + x,
                        x < 160,
                ;
                let actual = self.pixels[i];
                let wanted = expected.pixels[i];
                if !actual.equals(&wanted) {
                    found.push(Mismatch { x, y, actual, expected: wanted });
                }
                x = x + 1;
            }
            y = y + 1;
        }
        proof {
            if found@.len() == 0 {
                assert(self.pixels@ =~= expected.pixels@);
            }
        }
        found
    }
}

/// Most mismatches listed one by one in a mismatch report
pub const REPORT_LIMIT: usize = 10;

/// A color as text: its three channels in decimal, separated by commas
pub open spec fn color_text(c: Color) -> Seq<char> {
    decimal_text(c.red as nat) + ","@ + decimal_text(c.green as nat) + ","@ + decimal_text(c.blue as nat)
}

/// One line of a mismatch report: `At x,y: actual != expected`
pub open spec fn mismatch_line(m: Mismatch) -> Seq<char> {
    "At "@ + decimal_text(m.x as nat) + ","@ + decimal_text(m.y as nat) + ": "@ + color_text(m.actual)
        + " != "@ + color_text(m.expected) + "\n"@
}

/// The report lines of the first `n` mismatches, in order
pub open spec fn mismatch_lines(found: Seq<Mismatch>, n: nat) -> Seq<char>
    decreases n,
{
    if n == 0 {
        Seq::empty()
    } else {
        mismatch_lines(found, (n - 1) as nat) + mismatch_line(found[n - 1])
    }
}

/// The report for a list of mismatches: a heading, one line for each of the
/// first [REPORT_LIMIT] mismatches, and a count of the rest if any are left
pub open spec fn mismatch_report_text(found: Seq<Mismatch>) -> Seq<char> {
    if found.len() <= REPORT_LIMIT {
        "Screen mismatch:\n"@ + mismatch_lines(found, found.len())
    } else {
        "Screen mismatch:\n"@ + mismatch_lines(found, REPORT_LIMIT as nat) + "...and "@ + decimal_text(
            (found.len() - REPORT_LIMIT) as nat,
        ) + " more\n"@
    }
}

/// Append the report line of one mismatch to `out`
fn push_mismatch_line(out: &mut String, m: &Mismatch)
    ensures
        final(out)@ == old(out)@ + mismatch_line(*m),
{
    out.append("At ");
    push_decimal_text(out, m.x as u64);
    out.append(",");
    push_decimal_text(out, m.y as u64);
    out.append(": ");
    m.actual.push_text(out);
    out.append(" != ");
    m.expected.push_text(out);
    out.append("\n");
    assert(final(out)@ =~= old(out)@ + mismatch_line(*m));
}

/// Describe a list of mismatched pixels for a failed frame comparison
///
/// Only the first [REPORT_LIMIT] mismatches are listed, so a badly broken
/// frame doesn't produce an absurd amount of output.
pub fn mismatch_report(found: &Vec<Mismatch>) -> (r: String)
    ensures
        r@ == mismatch_report_text(found@),
{
    let mut out = String::new();
    out.append("Screen mismatch:\n");
    let shown: usize = if found.len() <= REPORT_LIMIT {
        found.len()
    } else {
        REPORT_LIMIT
    };
    let mut k: usize = 0;
    while k < shown
        invariant
            k <= shown,
            shown <= found@.len(),
            shown == if found@.len() <= REPORT_LIMIT { found@.len() } else { REPORT_LIMIT as nat },
            out@ == "Screen mismatch:\n"@ + mismatch_lines(found@, k as nat),
        decreases shown - k,
    {
        push_mismatch_line(&mut out, &found[k]);
        assert(out@ =~= "Screen mismatch:\n"@ + mismatch_lines(found@, (k + 1) as nat));
        k = k + 1;
    }
    if shown < found.len() {
        let ghost before = out@;
        out.append("...and ");
        push_decimal_text(&mut out, (found.len() - shown) as u64);
        out.append(" more\n");
        assert(out@ =~= before + "...and "@ + decimal_text((found@.len() - REPORT_LIMIT) as nat) + " more\n"@);
    }
    out
}

/// Why a drawn frame does not match the expected one
#[derive(Clone, Debug)]
pub enum FrameMismatch {
    /// No frame has been drawn
    NotDrawn,
    /// The pixels that differ
    Pixels(Vec<Mismatch>),
}

/// A pixel where two frames differ
#[derive(Clone, Copy, Debug, PartialEq, Eq, Structural)]
pub struct Mismatch {
    pub x: u16,
    pub y: u16,
    /// Color in the frame being checked
    pub actual: Color,
    /// Color that was expected
    pub expected: Color,
}

/// 24-bit RGB color
#[derive(Clone, Copy, Debug, Default, PartialEq, Eq, Structural)]
pub struct Color {
    pub red: u8,
    pub green: u8,
    pub blue: u8,
}

impl Color {
    /// Build a color from its three channels
    pub fn new(red: u8, green: u8, blue: u8) -> (r: Self)
        ensures
            r == (Color { red, green, blue }),
    {
        Self { red, green, blue }
    }

    /// Black (`0,0,0`)
    pub open spec fn spec_black() -> Color {
        Color { red: 0, green: 0, blue: 0 }
    }

    /// Black (`0,0,0`)
    #[verifier::when_used_as_spec(spec_black)]
    pub fn black() -> (r: Self)
        ensures
            r == Self::spec_black(),
    {
        Self { red: 0, green: 0, blue: 0 }
    }

    /// Dark gray (`85,85,85`)
    pub fn dark_gray() -> (r: Self)
        ensures
            r == (Color { red: 85, green: 85, blue: 85 }),
    {
        Self { red: 85, green: 85, blue: 85 }
    }

    /// Light gray (`170,170,170`)
    pub fn light_gray() -> (r: Self)
        ensures
            r == (Color { red: 170, green: 170, blue: 170 }),
    {
        Self { red: 170, green: 170, blue: 170 }
    }

    /// White (`255,255,255`)
    pub fn white() -> (r: Self)
        ensures
            r == (Color { red: 255, green: 255, blue: 255 }),
    {
        Self { red: 255, green: 255, blue: 255 }
    }

    /// The three channels in decimal, separated by commas, e.g. `85,85,85`
    pub fn to_string(&self) -> (r: String)
        ensures
            r@ == color_text(*self),
    {
        let mut out = String::new();
        self.push_text(&mut out);
        assert(out@ =~= color_text(*self));
        out
    }

    /// Append the color as text (see [Color::to_string]) to `out`
    pub fn push_text(&self, out: &mut String)
        ensures
            final(out)@ == old(out)@ + color_text(*self),
    {
        push_decimal_text(out, self.red as u64);
        out.append(",");
        push_decimal_text(out, self.green as u64);
        out.append(",");
        push_decimal_text(out, self.blue as u64);
        assert(final(out)@ =~= old(out)@ + color_text(*self));
    }

    /// Are the two colors the same?
    pub fn equals(&self, other: &Color) -> (r: bool)
        ensures
            r == (*self == *other),
    {
        self.red == other.red && self.green == other.green && self.blue == other.blue
    }
}

impl Clone for FrameBuffer {
    fn clone(&self) -> (r: Self)
        ensures
            r.pixels@ == self.pixels@,
    {
        self.copy()
    }
}

} // verus!
