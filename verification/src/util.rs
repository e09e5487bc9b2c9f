//! Bit-level helpers shared by the emulator: single-bit access in a byte,
//! the packing of boolean flag sets into a byte, and the display of bytes.

use vstd::prelude::*;
use std::marker::PhantomData;
use crate::emu::instruction::text::{decimal_text, digit_char, push_char, push_decimal_text, push_digit};

verus! {

/// Is bit `i` (0 = least significant) of `bits` set?
pub open spec fn bit_is_set(bits: u8, i: u8) -> bool {
    bits & (1u8 << i) != 0
}

/// Two bytes with the same eight bits are the same byte.
pub proof fn lemma_byte_ext(a: u8, b: u8)
    requires
        forall|i: u8| i < 8 ==> bit_is_set(a, i) == bit_is_set(b, i),
    ensures
        a == b,
{
    assert(bit_is_set(a, 0) == bit_is_set(b, 0));
    assert(bit_is_set(a, 1) == bit_is_set(b, 1));
    assert(bit_is_set(a, 2) == bit_is_set(b, 2));
    assert(bit_is_set(a, 3) == bit_is_set(b, 3));
    assert(bit_is_set(a, 4) == bit_is_set(b, 4));
    assert(bit_is_set(a, 5) == bit_is_set(b, 5));
    assert(bit_is_set(a, 6) == bit_is_set(b, 6));
    assert(bit_is_set(a, 7) == bit_is_set(b, 7));
    assert(a == b) by (bit_vector)
        requires
            (a & (1u8 << 0u8) != 0) == (b & (1u8 << 0u8) != 0),
            (a & (1u8 << 1u8) != 0) == (b & (1u8 << 1u8) != 0),
            (a & (1u8 << 2u8) != 0) == (b & (1u8 << 2u8) != 0),
            (a & (1u8 << 3u8) != 0) == (b & (1u8 << 3u8) != 0),
            (a & (1u8 << 4u8) != 0) == (b & (1u8 << 4u8) != 0),
            (a & (1u8 << 5u8) != 0) == (b & (1u8 << 5u8) != 0),
            (a & (1u8 << 6u8) != 0) == (b & (1u8 << 6u8) != 0),
            (a & (1u8 << 7u8) != 0) == (b & (1u8 << 7u8) != 0),
    ;
}

/// The zero byte has no bit set.
pub proof fn lemma_zero_byte_bits()
    ensures
        forall|i: u8| i < 8 ==> !#[trigger] bit_is_set(0u8, i),
{
    assert(forall|i: u8| i < 8 ==> (0u8 & (1u8 << i)) == 0) by (bit_vector);
}

/// Index of a single bit in a byte
///
/// Value can be `0-7`.
#[derive(Clone, Copy, Debug, PartialEq, Eq, Structural)]
pub struct Bit(pub u8);

impl Bit {
    /// Is this a valid bit index (`0-7`)?
    pub open spec fn wf(self) -> bool {
        self.0 < 8
    }

    /// List of all bit indexes 0-7
    pub fn all() -> (r: [Bit; 8])
        ensures
            forall|i: int| 0 <= i < 8 ==> #[trigger] r[i].0 == i,
    {
        [Bit(0), Bit(1), Bit(2), Bit(3), Bit(4), Bit(5), Bit(6), Bit(7)]
    }

    /// Get the value of a bit from a byte as a bool
    pub fn get(self, bits: u8) -> (r: bool)
        requires
            self.wf(),
        ensures
            r == bit_is_set(bits, self.0),
    {
        bits & (1u8 << self.0) != 0
    }

    /// Set the value of a bit in a byte, returning the new byte
    ///
    /// Every other bit of the byte keeps its value.
    pub fn set(self, bits: u8, flag: bool) -> (r: u8)
        requires
            self.wf(),
        ensures
            r == spec_bit_set(bits, self.0, flag),
            bit_is_set(r, self.0) == flag,
            forall|j: u8| j < 8 && j != self.0 ==> bit_is_set(r, j) == bit_is_set(bits, j),
    {
        let i = self.0;
        if flag {
            let r = bits | (1u8 << i);
            assert(r & (1u8 << i) != 0) by (bit_vector)
                requires
                    r == bits | (1u8 << i),
                    i < 8,
            ;
            assert(forall|j: u8|
                j < 8 && j != i ==> ((r & (1u8 << j) != 0) == (bits & (1u8 << j) != 0)))
                by (bit_vector)
                requires
                    r == bits | (1u8 << i),
                    i < 8,
            ;
            r
        } else {
            let r = bits & !(1u8 << i);
            assert(r & (1u8 << i) == 0) by (bit_vector)
                requires
                    r == bits & !(1u8 << i),
                    i < 8,
            ;
            assert(forall|j: u8|
                j < 8 && j != i ==> ((r & (1u8 << j) != 0) == (bits & (1u8 << j) != 0)))
                by (bit_vector)
                requires
                    r == bits & !(1u8 << i),
                    i < 8,
            ;
            r
        }
    }
}

/// Reading a bit back after setting it gives the value that was set, and
/// setting a bit never disturbs the other seven.
pub proof fn law_bit_set_get(bits: u8, i: u8, j: u8, flag: bool)
    requires
        i < 8,
        j < 8,
    ensures
        ({
            let r = spec_bit_set(bits, i, flag);
            &&& bit_is_set(r, i) == flag
            &&& j != i ==> bit_is_set(r, j) == bit_is_set(bits, j)
        }),
{
    let r = spec_bit_set(bits, i, flag);
    if flag {
        assert(r & (1u8 << i) != 0) by (bit_vector)
            requires
                r == bits | (1u8 << i),
                i < 8,
        ;
        assert(j != i ==> ((r & (1u8 << j) != 0) == (bits & (1u8 << j) != 0))) by (bit_vector)
            requires
                r == bits | (1u8 << i),
                i < 8,
                j < 8,
        ;
    } else {
        assert(r & (1u8 << i) == 0) by (bit_vector)
            requires
                r == bits & !(1u8 << i),
                i < 8,
        ;
        assert(j != i ==> ((r & (1u8 << j) != 0) == (bits & (1u8 << j) != 0))) by (bit_vector)
            requires
                r == bits & !(1u8 << i),
                i < 8,
                j < 8,
        ;
    }
}

/// The byte that results from setting bit `i` of `bits` to `flag`
pub open spec fn spec_bit_set(bits: u8, i: u8, flag: bool) -> u8 {
    if flag {
        bits | (1u8 << i)
    } else {
        bits & !(1u8 << i)
    }
}

/// A byte with bit `i` set exactly when `b` is true
pub open spec fn bit_value(b: bool, i: u8) -> u8 {
    if b {
        1u8 << i
    } else {
        0u8
    }
}

/// Pack eight booleans into a byte; `b0` is the least significant bit
pub open spec fn pack_bools(
    b0: bool,
    b1: bool,
    b2: bool,
    b3: bool,
    b4: bool,
    b5: bool,
    b6: bool,
    b7: bool,
) -> u8 {
    bit_value(b0, 0) | bit_value(b1, 1) | bit_value(b2, 2) | bit_value(b3, 3) | bit_value(b4, 4)
        | bit_value(b5, 5) | bit_value(b6, 6) | bit_value(b7, 7)
}

/// The bits of a packed byte are the packed booleans.
pub proof fn lemma_pack_bools(b0: bool, b1: bool, b2: bool, b3: bool, b4: bool, b5: bool, b6: bool, b7: bool)
    ensures
        ({
            let r = pack_bools(b0, b1, b2, b3, b4, b5, b6, b7);
            &&& bit_is_set(r, 0) == b0
            &&& bit_is_set(r, 1) == b1
            &&& bit_is_set(r, 2) == b2
            &&& bit_is_set(r, 3) == b3
            &&& bit_is_set(r, 4) == b4
            &&& bit_is_set(r, 5) == b5
            &&& bit_is_set(r, 6) == b6
            &&& bit_is_set(r, 7) == b7
        }),
{
    let r = pack_bools(b0, b1, b2, b3, b4, b5, b6, b7);
    assert(
        (r & (1u8 << 0u8) != 0) == b0
        && (r & (1u8 << 1u8) != 0) == b1
        && (r & (1u8 << 2u8) != 0) == b2
        && (r & (1u8 << 3u8) != 0) == b3
        && (r & (1u8 << 4u8) != 0) == b4
        && (r & (1u8 << 5u8) != 0) == b5
        && (r & (1u8 << 6u8) != 0) == b6
        && (r & (1u8 << 7u8) != 0) == b7
    ) by (bit_vector)
        requires
            r == (if b0 { 1u8 << 0u8 } else { 0u8 }) | (if b1 { 1u8 << 1u8 } else { 0u8 })
                | (if b2 { 1u8 << 2u8 } else { 0u8 }) | (if b3 { 1u8 << 3u8 } else { 0u8 })
                | (if b4 { 1u8 << 4u8 } else { 0u8 }) | (if b5 { 1u8 << 5u8 } else { 0u8 })
                | (if b6 { 1u8 << 6u8 } else { 0u8 }) | (if b7 { 1u8 << 7u8 } else { 0u8 }),
    ;
}

/// A trait for structs of booleans that are stored as bitflags in a `u8`
///
/// Each implementation maps some of the eight bit indexes to its flags; the
/// remaining indexes are unused and always read as `false`. The provided
/// methods convert between the flag struct and its byte representation.
pub trait Flags: Sized {
    /// Is the bit index mapped to a flag?
    spec fn used(bit: u8) -> bool;

    /// The value of the flag stored at a bit index (`false` when unused)
    spec fn flag(&self, bit: u8) -> bool;

    /// The flag set read from the bits of a byte
    spec fn spec_unpack(bits: u8) -> Self;

    /// Each used flag of an unpacked byte is the corresponding bit.
    proof fn lemma_unpack(bits: u8)
        ensures
            forall|i: u8|
                i < 8 ==> #[trigger] Self::spec_unpack(bits).flag(i) == (Self::used(i)
                    && bit_is_set(bits, i)),
    ;

    /// An unused bit index never reads as set.
    proof fn lemma_unused_clear(&self, bit: u8)
        requires
            bit < 8,
            !Self::used(bit),
        ensures
            !self.flag(bit),
    ;

    /// A flag set is fully determined by its eight bits.
    proof fn lemma_flags_ext(a: Self, b: Self)
        requires
            forall|i: u8| i < 8 ==> a.flag(i) == b.flag(i),
        ensures
            a == b,
    ;

    /// The flag set with every flag cleared
    fn cleared() -> (r: Self)
        ensures
            forall|i: u8| i < 8 ==> !r.flag(i),
    ;

    /// Get the boolean value of a flag based on its bit index
    ///
    /// This **will** be called for all bits 0-7. If the bit index isn't used,
    /// return `false`.
    fn get_bit(&self, bit: Bit) -> (r: bool)
        requires
            bit.wf(),
        ensures
            r == self.flag(bit.0),
    ;

    /// Set the boolean value of a flag based on its bit index
    ///
    /// This **will** be called for all bits 0-7. If the bit index isn't used,
    /// do nothing.
    fn set_bit(&mut self, bit: Bit, value: bool)
        requires
            bit.wf(),
        ensures
            final(self).flag(bit.0) == (Self::used(bit.0) && value),
            forall|j: u8| j < 8 && j != bit.0 ==> final(self).flag(j) == old(self).flag(j),
    ;
}

/// The byte representation of a flag set
pub open spec fn spec_pack<T: Flags>(flags: T) -> u8 {
    pack_bools(
        flags.flag(0),
        flags.flag(1),
        flags.flag(2),
        flags.flag(3),
        flags.flag(4),
        flags.flag(5),
        flags.flag(6),
        flags.flag(7),
    )
}

/// The mask of the bit indexes a flag type uses
pub open spec fn used_mask<T: Flags>() -> u8 {
    pack_bools(
        T::used(0),
        T::used(1),
        T::used(2),
        T::used(3),
        T::used(4),
        T::used(5),
        T::used(6),
        T::used(7),
    )
}

/// Bit `i` of a packed flag set is the flag at index `i`.
pub proof fn lemma_spec_pack_bits<T: Flags>(flags: T)
    ensures
        forall|i: u8| i < 8 ==> #[trigger] bit_is_set(spec_pack(flags), i) == flags.flag(i),
{
    lemma_pack_bools(
        flags.flag(0),
        flags.flag(1),
        flags.flag(2),
        flags.flag(3),
        flags.flag(4),
        flags.flag(5),
        flags.flag(6),
        flags.flag(7),
    );
    assert forall|i: u8| i < 8 implies #[trigger] bit_is_set(spec_pack(flags), i) == flags.flag(i) by {
        if i == 0 {} else if i == 1 {} else if i == 2 {} else if i == 3 {} else if i == 4 {
        } else if i == 5 {} else if i == 6 {} else {}
    }
}

/// Byte representation of a [Flags] implementation
///
/// This is how flags should be represented in memory. [Flags::from_bits] and
/// [Flags::into_bits] to convert to/from this type.
#[derive(Debug)]
pub struct FlagBits<T> {
    pub value: u8,
    pub ty: PhantomData<T>,
}

impl<T> Clone for FlagBits<T> {
    fn clone(&self) -> (r: Self)
        ensures
            r == *self,
    {
        Self { value: self.value, ty: PhantomData }
    }
}

impl<T> Copy for FlagBits<T> {

}

impl<T> FlagBits<T> {
    /// Wrap a raw byte
    pub fn new(value: u8) -> (r: Self)
        ensures
            r.value == value,
    {
        Self { value, ty: PhantomData }
    }

    /// Get the raw byte
    pub fn as_u8(&self) -> (r: u8)
        ensures
            r == self.value,
    {
        self.value
    }

    /// Get a mutable reference to the inner byte value
    pub fn value_mut(&mut self) -> (r: &mut u8)
        ensures
            *r == old(self).value,
            final(self).value == *final(r),
    {
        &mut self.value
    }
}

impl<T: Flags> FlagBits<T> {
    /// Read individual flags from the bits of the byte (the flags' `from_bits`)
    pub fn unpack(self) -> (r: T)
        ensures
            r == T::spec_unpack(self.value),
    {
        let mut flags = T::cleared();
        let all = Bit::all();
        let mut k: usize = 0;
        while k < 8
            invariant
                0 <= k <= 8,
                forall|i: int| 0 <= i < 8 ==> #[trigger] all[i].0 == i,
                forall|i: u8| i < k ==> flags.flag(i) == (T::used(i) && bit_is_set(self.value, i)),
                forall|i: u8| k <= i < 8 ==> !flags.flag(i),
            decreases 8 - k,
        {
            let bit = all[k];
            let flag = bit.get(self.value);
            flags.set_bit(bit, flag);
            k = k + 1;
        }
        proof {
            T::lemma_unpack(self.value);
            T::lemma_flags_ext(flags, T::spec_unpack(self.value));
        }
        flags
    }

    /// Convert individual flags into bitflags (the flags' `into_bits`)
    pub fn pack(flags: T) -> (r: Self)
        ensures
            r.value == spec_pack(flags),
    {
        let mut bits: u8 = 0;
        let all = Bit::all();
        let mut k: usize = 0;
        proof {
            lemma_zero_byte_bits();
        }
        while k < 8
            invariant
                0 <= k <= 8,
                forall|i: int| 0 <= i < 8 ==> #[trigger] all[i].0 == i,
                forall|i: u8| i < k ==> bit_is_set(bits, i) == flags.flag(i),
                forall|i: u8| k <= i < 8 ==> !bit_is_set(bits, i),
            decreases 8 - k,
        {
            let bit = all[k];
            let flag = flags.get_bit(bit);
            bits = bit.set(bits, flag);
            k = k + 1;
        }
        proof {
            lemma_spec_pack_bits(flags);
            lemma_byte_ext(bits, spec_pack(flags));
        }
        Self::new(bits)
    }
}

/// Packing a flag set and unpacking the byte gives back the same flags.
pub proof fn law_flags_pack_unpack<T: Flags>(flags: T)
    ensures
        T::spec_unpack(spec_pack(flags)) == flags,
{
    let bits = spec_pack(flags);
    lemma_spec_pack_bits(flags);
    T::lemma_unpack(bits);
    assert forall|i: u8| i < 8 implies T::spec_unpack(bits).flag(i) == flags.flag(i) by {
        if !T::used(i) {
            flags.lemma_unused_clear(i);
        }
    }
    T::lemma_flags_ext(T::spec_unpack(bits), flags);
}

/// Unpacking a byte and packing the flags again keeps exactly the used bits.
pub proof fn law_flags_unpack_pack<T: Flags>(bits: u8)
    ensures
        spec_pack(T::spec_unpack(bits)) == bits & used_mask::<T>(),
{
    let f = T::spec_unpack(bits);
    T::lemma_unpack(bits);
    lemma_spec_pack_bits(f);
    let m = used_mask::<T>();
    lemma_pack_bools(T::used(0), T::used(1), T::used(2), T::used(3), T::used(4), T::used(5), T::used(6), T::used(7));
    assert forall|i: u8| i < 8 implies bit_is_set(spec_pack(f), i) == bit_is_set(bits & m, i) by {
        assert(i < 8 ==> ((bits & m) & (1u8 << i) != 0) == ((bits & (1u8 << i) != 0) && (m & (1u8 << i) != 0))) by (bit_vector);
        if i == 0 {} else if i == 1 {} else if i == 2 {} else if i == 3 {} else if i == 4 {
        } else if i == 5 {} else if i == 6 {} else {}
    }
    lemma_byte_ext(spec_pack(f), bits & m);
}

/// How to display bytes in [BytesDisplay]
#[derive(Clone, Copy, Debug, PartialEq, Eq, Structural)]
pub enum BytesDisplayMode {
    /// Eight binary digits per byte
    Binary,
    /// Two lower case hex digits per byte
    Hex,
}

/// The character of a bit: `0` or `1`
pub open spec fn bit_char(bit: nat) -> char {
    if bit == 0 {
        '0'
    } else {
        '1'
    }
}

/// The digits of one byte
pub open spec fn byte_text(b: u8, mode: BytesDisplayMode) -> Seq<char> {
    let v = b as nat;
    match mode {
        BytesDisplayMode::Binary => seq![
            bit_char(v / 128 % 2),
            bit_char(v / 64 % 2),
            bit_char(v / 32 % 2),
            bit_char(v / 16 % 2),
            bit_char(v / 8 % 2),
            bit_char(v / 4 % 2),
            bit_char(v / 2 % 2),
            bit_char(v % 2),
        ],
        BytesDisplayMode::Hex => seq![digit_char(v / 16, false), digit_char(v % 16, false)],
    }
}

/// The digits of each byte, separated by spaces
pub open spec fn byte_list_text(bytes: Seq<u8>, mode: BytesDisplayMode) -> Seq<char>
    decreases bytes.len(),
{
    if bytes.len() == 0 {
        Seq::empty()
    } else if bytes.len() == 1 {
        byte_text(bytes[0], mode)
    } else {
        byte_list_text(bytes.drop_last(), mode) + seq![' '] + byte_text(bytes.last(), mode)
    }
}

/// The text of a byte slice: all of it when `alternate`, else at most its
/// first 8 bytes followed by ` <+N bytes>` for the `N` bytes left out
pub open spec fn bytes_text(bytes: Seq<u8>, mode: BytesDisplayMode, alternate: bool) -> Seq<char> {
    let shown = if alternate || bytes.len() <= BytesDisplay::MAX {
        bytes
    } else {
        bytes.take(BytesDisplay::MAX as int)
    };
    let hidden = bytes.len() - shown.len();
    byte_list_text(shown, mode) + if hidden > 0 {
        " <+"@ + decimal_text(hidden as nat) + " bytes>"@
    } else {
        Seq::empty()
    }
}

/// Wrapper to pretty print a byte slice
///
/// By default this prints a truncated slice, up to 8 bytes; the alternate
/// form prints the whole thing.
pub struct BytesDisplay<'a> {
    /// The bytes
    pub bytes: &'a [u8],
    /// Binary or hex
    pub mode: BytesDisplayMode,
}

impl<'a> BytesDisplay<'a> {
    /// Number of bytes shown in the default form
    pub const MAX: usize = 8;

    /// Display bytes as binary
    pub fn binary(bytes: &'a [u8]) -> (r: Self)
        ensures
            r.bytes@ == bytes@,
            r.mode == BytesDisplayMode::Binary,
    {
        BytesDisplay { bytes, mode: BytesDisplayMode::Binary }
    }

    /// Display bytes as hexadecimal
    pub fn hex(bytes: &'a [u8]) -> (r: Self)
        ensures
            r.bytes@ == bytes@,
            r.mode == BytesDisplayMode::Hex,
    {
        BytesDisplay { bytes, mode: BytesDisplayMode::Hex }
    }

    /// The bytes as text, e.g. `0a ff 00` in hex; `alternate` shows all of
    /// them instead of at most 8
    pub fn to_string(&self, alternate: bool) -> (r: String)
        ensures
            r@ == bytes_text(self.bytes@, self.mode, alternate),
    {
        let len = self.bytes.len();
        let shown = if alternate || len <= Self::MAX {
            len
        } else {
            Self::MAX
        };
        let mut out = String::new();
        push_byte_list(&mut out, self.bytes, 0, shown, self.mode);
        assert(self.bytes@.subrange(0, shown as int) =~= self.bytes@.take(shown as int));
        let hidden = len - shown;
        if hidden > 0 {
            out.append(" <+");
            push_decimal_text(&mut out, hidden as u64);
            out.append(" bytes>");
        }
        proof {
            if shown == len {
                assert(self.bytes@.take(shown as int) =~= self.bytes@);
            }
            assert(out@ =~= bytes_text(self.bytes@, self.mode, alternate));
        }
        out
    }
}

/// Append the digits of `bytes[from..to]`, separated by spaces
pub(crate) fn push_byte_list(out: &mut String, bytes: &[u8], from: usize, to: usize, mode: BytesDisplayMode)
    requires
        from <= to <= bytes@.len(),
    ensures
        final(out)@ == old(out)@ + byte_list_text(bytes@.subrange(from as int, to as int), mode),
{
    let ghost start = out@;
    let mut i: usize = from;
    while i < to
        invariant
            from <= i <= to,
            to <= bytes@.len(),
            out@ == start + byte_list_text(bytes@.subrange(from as int, i as int), mode),
        decreases to - i,
    {
        if i > from {
            push_char(out, ' ');
        }
        push_byte_text(out, bytes[i], mode);
        proof {
            let prefix = bytes@.subrange(from as int, i + 1);
            assert(prefix.drop_last() =~= bytes@.subrange(from as int, i as int));
            assert(prefix.last() == bytes@[i as int]);
            assert(out@ =~= start + byte_list_text(prefix, mode));
        }
        i = i + 1;
    }
}

/// Append the digits of one byte
fn push_byte_text(out: &mut String, b: u8, mode: BytesDisplayMode)
    ensures
        final(out)@ == old(out)@ + byte_text(b, mode),
{
    match mode {
        BytesDisplayMode::Binary => {
            push_bit(out, b / 128 % 2);
            push_bit(out, b / 64 % 2);
            push_bit(out, b / 32 % 2);
            push_bit(out, b / 16 % 2);
            push_bit(out, b / 8 % 2);
            push_bit(out, b / 4 % 2);
            push_bit(out, b / 2 % 2);
            push_bit(out, b % 2);
        },
        BytesDisplayMode::Hex => {
            push_digit(out, b / 16, false);
            push_digit(out, b % 16, false);
        },
    }
    assert(final(out)@ =~= old(out)@ + byte_text(b, mode));
}

/// Append the character of a bit
fn push_bit(out: &mut String, bit: u8)
    requires
        bit < 2,
    ensures
        final(out)@ == old(out)@.push(bit_char(bit as nat)),
{
    if bit == 0 {
        push_char(out, '0');
    } else {
        push_char(out, '1');
    }
}

} // verus!
