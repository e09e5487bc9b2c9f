//! Terminal graphics messages
//!
//! Frames are drawn with the Kitty Terminal Graphics Protocol: the pixels go
//! to shared memory, and a message naming that memory tells the terminal to
//! draw them. This module builds the bytes of that message and of the shared
//! memory; writing them out is up to the caller.
//!
//! https://sw.kovidgoyal.net/kitty/graphics-protocol/

use crate::backend::{Color, FrameBuffer, FRAME_HEIGHT, FRAME_LENGTH, FRAME_WIDTH};
use base64::Engine;
use vstd::prelude::*;

verus! {

/// The escape byte that opens and closes a graphics message
pub const ESCAPE: u8 = 0x1b;

/// A rectangle of terminal cells
pub struct Area {
    /// Column of the top-left cell
    pub x: u16,
    /// Row of the top-left cell
    pub y: u16,
    /// Width in columns
    pub width: u16,
    /// Height in rows
    pub height: u16,
}

/// A size in terminal cells
pub struct Size {
    /// Width in columns
    pub width: u16,
    /// Height in rows
    pub height: u16,
}

/// Define where a frame should be drawn on the screen
pub enum FrameLocation {
    /// Draw the frame with a specific position and size
    ///
    /// The cursor is moved to this location first and remains there
    /// afterward (it is not advanced to the end of the frame).
    Fixed(Area),
    /// Draw the frame with a fixed size at the current cursor location
    ///
    /// The cursor is advanced to the end of the frame. Use this for inline
    /// printing (e.g. in assertion output).
    Auto(Size),
}

impl FrameLocation {
    /// Width of the drawn frame, in columns
    pub open spec fn columns(&self) -> u16 {
        match self {
            FrameLocation::Fixed(area) => area.width,
            FrameLocation::Auto(size) => size.width,
        }
    }

    /// Height of the drawn frame, in rows
    pub open spec fn rows(&self) -> u16 {
        match self {
            FrameLocation::Fixed(area) => area.height,
            FrameLocation::Auto(size) => size.height,
        }
    }

    /// The protocol's cursor policy: 1 leaves the cursor in place, 0
    /// advances it past the frame
    pub open spec fn cursor_policy(&self) -> u8 {
        match self {
            FrameLocation::Fixed(_) => 1,
            FrameLocation::Auto(_) => 0,
        }
    }
}

/// The standard base64 encoding (RFC 4648, with padding) of `bytes`
pub uninterp spec fn base64_standard(bytes: Seq<u8>) -> Seq<u8>;

/// Encode `bytes` as standard base64.
///
/// Calls `base64::Engine::encode` on the `STANDARD` engine. Claimed: the
/// result is the standard encoding of exactly the given bytes, a function of
/// them alone. The call panics where the encoded length overflows `usize`,
/// which the bound on the input rules out.
#[verifier::external_body]
fn encode_base64(bytes: &[u8]) -> (r: Vec<u8>)
    requires
        bytes@.len() < usize::MAX / 2,
    ensures
        r@ == base64_standard(bytes@),
{
    base64::engine::general_purpose::STANDARD.encode(bytes).into_bytes()
}

/// The decimal digits of `n`, most significant first, in ASCII
pub open spec fn decimal(n: nat) -> Seq<u8>
    decreases n,
{
    if n < 10 {
        seq![(48 + n) as u8]
    } else {
        decimal(n / 10).push((48 + n % 10) as u8)
    }
}

/// A control argument `key=value` followed by its separator
pub open spec fn control_arg(key: u8, value: Seq<u8>, separator: u8) -> Seq<u8> {
    seq![key, 61u8] + value + seq![separator]
}

/// The control data of a frame message
///
/// Transmit and draw (`a=T`) an RGB image (`f=24`) of the given pixel size,
/// scaled to `columns` x `rows` cells, with the given cursor policy, read
/// from shared memory (`t=s`) of `len` bytes.
pub open spec fn frame_control(
    pixel_width: nat,
    pixel_height: nat,
    columns: nat,
    rows: nat,
    cursor: nat,
    len: nat,
) -> Seq<u8> {
    control_arg(97u8, seq![84u8], 44u8) + control_arg(102u8, decimal(24), 44u8) + control_arg(
        115u8,
        decimal(pixel_width),
        44u8,
    ) + control_arg(118u8, decimal(pixel_height), 44u8) + control_arg(
        99u8,
        decimal(columns),
        44u8,
    ) + control_arg(114u8, decimal(rows), 44u8) + control_arg(67u8, decimal(cursor), 44u8)
        + control_arg(116u8, seq![115u8], 44u8) + control_arg(83u8, decimal(len), 59u8)
}

/// A complete graphics message: `ESC _ G`, the control data, the payload in
/// base64, and `ESC \`
pub open spec fn graphics_message(control: Seq<u8>, payload: Seq<u8>) -> Seq<u8> {
    seq![ESCAPE, 95u8, 71u8] + control + base64_standard(payload) + seq![ESCAPE, 92u8]
}

/// The bytes of a pixel sequence as the terminal reads them: red, green and
/// blue of each pixel in turn
pub open spec fn rgb_bytes(pixels: Seq<Color>) -> Seq<u8> {
    Seq::new(
        3 * pixels.len(),
        |i: int|
            {
                let c = pixels[i / 3];
                if i % 3 == 0 {
                    c.red
                } else if i % 3 == 1 {
                    c.green
                } else {
                    c.blue
                }
            },
    )
}

/// The name of shared memory object number `id`: `/sad_boy_shm` and `id` in
/// decimal
pub open spec fn spec_shm_name(id: nat) -> Seq<u8> {
    seq![47u8, 115u8, 97u8, 100u8, 95u8, 98u8, 111u8, 121u8, 95u8, 115u8, 104u8, 109u8] + decimal(
        id,
    )
}

/// Decimal text is never empty.
proof fn lemma_decimal_len(n: nat)
    ensures
        decimal(n).len() >= 1,
        n >= 10 ==> decimal(n).len() >= 2,
    decreases n,
{
    if n >= 10 {
        lemma_decimal_len(n / 10);
    }
}

/// Different numbers have different decimal text.
proof fn lemma_decimal_injective(a: nat, b: nat)
    requires
        decimal(a) == decimal(b),
    ensures
        a == b,
    decreases a,
{
    lemma_decimal_len(a);
    lemma_decimal_len(b);
    if a < 10 && b < 10 {
        assert(decimal(a)[0] == (48 + a) as u8);
        assert(decimal(b)[0] == (48 + b) as u8);
        assert(decimal(a)[0] == decimal(b)[0]);
    } else if a >= 10 && b >= 10 {
        assert(decimal(a).drop_last() =~= decimal(a / 10));
        assert(decimal(b).drop_last() =~= decimal(b / 10));
        assert(decimal(a).last() == (48 + a % 10) as u8);
        assert(decimal(b).last() == (48 + b % 10) as u8);
        assert(decimal(a).last() == decimal(b).last());
        assert(a % 10 == b % 10);
        lemma_decimal_injective(a / 10, b / 10);
        assert(a == 10 * (a / 10) + a % 10);
        assert(b == 10 * (b / 10) + b % 10);
    } else {
        assert(decimal(a).len() != decimal(b).len());
    }
}

/// Frames never share a shared memory object: different ids give different
/// names, so a frame cannot overwrite another that the terminal has not read
/// yet.
pub proof fn law_shm_names_distinct(a: nat, b: nat)
    requires
        a != b,
    ensures
        spec_shm_name(a) != spec_shm_name(b),
{
    let prefix = seq![47u8, 115u8, 97u8, 100u8, 95u8, 98u8, 111u8, 121u8, 95u8, 115u8, 104u8, 109u8];
    if spec_shm_name(a) == spec_shm_name(b) {
        assert(spec_shm_name(a).skip(12) =~= decimal(a));
        assert(spec_shm_name(b).skip(12) =~= decimal(b));
        lemma_decimal_injective(a, b);
    }
}

/// Append `bytes` to `out`
fn append_bytes(out: &mut Vec<u8>, bytes: &[u8])
    ensures
        final(out)@ == old(out)@ + bytes@,
{
    let ghost start = out@;
    let mut i: usize = 0;
    while i < bytes.len()
        invariant
            i <= bytes@.len(),
            out@ == start + bytes@.subrange(0, i as int),
        decreases bytes@.len() - i,
    {
        out.push(bytes[i]);
        i = i + 1;
        assert(out@ =~= start + bytes@.subrange(0, i as int));
    }
    assert(bytes@.subrange(0, i as int) =~= bytes@);
}

/// Append the decimal digits of `n` to `out`
pub fn push_decimal(out: &mut Vec<u8>, n: u64)
    ensures
        final(out)@ == old(out)@ + decimal(n as nat),
    decreases n,
{
    if n < 10 {
        out.push(48 + n as u8);
        assert(final(out)@ =~= old(out)@ + decimal(n as nat)) by {
            assert(decimal(n as nat) =~= seq![(48 + n) as u8]);
        }
    } else {
        push_decimal(out, n / 10);
        out.push(48 + (n % 10) as u8);
    }
}

/// Append the control argument `key=n` and `separator` to `out`
fn push_number_arg(out: &mut Vec<u8>, key: u8, n: u64, separator: u8)
    ensures
        final(out)@ == old(out)@ + control_arg(key, decimal(n as nat), separator),
{
    out.push(key);
    out.push(61);
    push_decimal(out, n);
    out.push(separator);
    assert(final(out)@ =~= old(out)@ + control_arg(key, decimal(n as nat), separator));
}

/// Append the control argument `key=value` (one byte) and `separator` to `out`
fn push_byte_arg(out: &mut Vec<u8>, key: u8, value: u8, separator: u8)
    ensures
        final(out)@ == old(out)@ + control_arg(key, seq![value], separator),
{
    out.push(key);
    out.push(61);
    out.push(value);
    out.push(separator);
    assert(final(out)@ =~= old(out)@ + control_arg(key, seq![value], separator));
}

/// The name of shared memory object number `id`
///
/// Each frame gets an object of its own, so that frames drawn in quick
/// succession do not overwrite each other.
pub fn shm_name(id: u64) -> (r: Vec<u8>)
    ensures
        r@ == spec_shm_name(id as nat),
{
    let mut out: Vec<u8> = Vec::new();
    append_bytes(&mut out, &[47u8, 115, 97, 100, 95, 98, 111, 121, 95, 115, 104, 109]);
    push_decimal(&mut out, id);
    assert(out@ =~= spec_shm_name(id as nat));
    out
}

/// The pixels of `frame` as bytes, three per pixel, in the layout that the
/// shared memory of a frame message holds
pub fn pixel_bytes(frame: &FrameBuffer) -> (r: Vec<u8>)
    requires
        frame.wf(),
    ensures
        r@ == rgb_bytes(frame.pixels@),
{
    let mut out: Vec<u8> = Vec::new();
    let mut i: usize = 0;
    while i < frame.pixels.len()
        invariant
            frame.wf(),
            i <= FRAME_LENGTH,
            out@ == rgb_bytes(frame.pixels@.subrange(0, i as int)),
        decreases FRAME_LENGTH - i,
    {
        let c = frame.pixels[i];
        out.push(c.red);
        out.push(c.green);
        out.push(c.blue);
        let ghost prefix = frame.pixels@.subrange(0, i + 1);
        assert(out@ =~= rgb_bytes(prefix)) by {
            assert forall|j: int| 0 <= j < 3 * prefix.len() implies #[trigger] out@[j]
                == rgb_bytes(prefix)[j] by {
                if j < 3 * i {
                    assert(prefix[j / 3] == frame.pixels@.subrange(0, i as int)[j / 3]);
                }
            }
        }
        i = i + 1;
    }
    assert(frame.pixels@.subrange(0, i as int) =~= frame.pixels@);
    out
}

/// The graphics message that draws a frame whose pixels are in the shared
/// memory object `shm_name`
///
/// The memory holds the frame's RGB bytes, three per pixel. Where the
/// location is [FrameLocation::Fixed], the caller moves the cursor to the
/// area's top-left cell before writing the message.
pub fn frame_message(shm_name: &[u8], location: &FrameLocation) -> (r: Vec<u8>)
    requires
        shm_name@.len() < usize::MAX / 2,
    ensures
        r@ == graphics_message(
            frame_control(
                FRAME_WIDTH as nat,
                FRAME_HEIGHT as nat,
                location.columns() as nat,
                location.rows() as nat,
                location.cursor_policy() as nat,
                3 * FRAME_LENGTH as nat,
            ),
            shm_name@,
        ),
{
    let (columns, rows, cursor) = match location {
        FrameLocation::Fixed(area) => (area.width, area.height, 1u8),
        FrameLocation::Auto(size) => (size.width, size.height, 0u8),
    };
    let mut out: Vec<u8> = Vec::new();
    out.push(ESCAPE);
    out.push(95);
    out.push(71);
    let ghost header = out@;
    push_byte_arg(&mut out, 97, 84, 44);
    push_number_arg(&mut out, 102, 24, 44);
    push_number_arg(&mut out, 115, FRAME_WIDTH as u64, 44);
    push_number_arg(&mut out, 118, FRAME_HEIGHT as u64, 44);
    push_number_arg(&mut out, 99, columns as u64, 44);
    push_number_arg(&mut out, 114, rows as u64, 44);
    push_number_arg(&mut out, 67, cursor as u64, 44);
    push_byte_arg(&mut out, 116, 115, 44);
    push_number_arg(&mut out, 83, 3 * FRAME_LENGTH as u64, 59);
    let ghost control = frame_control(
        FRAME_WIDTH as nat,
        FRAME_HEIGHT as nat,
        columns as nat,
        rows as nat,
        cursor as nat,
        3 * FRAME_LENGTH as nat,
    );
    assert(out@ =~= header + control);
    let encoded = encode_base64(shm_name);
    append_bytes(&mut out, encoded.as_slice());
    out.push(ESCAPE);
    out.push(92);
    assert(out@ =~= graphics_message(control, shm_name@));
    out
}

} // verus!
