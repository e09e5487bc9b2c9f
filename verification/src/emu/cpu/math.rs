//! Arithmetic behind the math instructions: sums, differences and the flags
//! they set

use vstd::prelude::*;
use crate::emu::cpu::BcdFlags;
use crate::util::{Bit, bit_is_set};

verus! {

/// Half-carry of an 8-bit operation: bit 4 of `lhs ^ rhs ^ out`, which is the
/// carry out of bit 3
pub open spec fn spec_half_carry8(lhs: u8, rhs: u8, out: u8) -> bool {
    bit_is_set(lhs ^ rhs ^ out, 4)
}

/// Half-carry of a 16-bit operation: bit 12 of `lhs ^ rhs ^ out`, which is the
/// carry out of bit 11
pub open spec fn spec_half_carry16(lhs: u16, rhs: u16, out: u16) -> bool {
    (lhs ^ rhs ^ out) & 0x1000 != 0
}

/// The sum of two bytes and the flags `ADD` sets for it
pub open spec fn spec_add8(lhs: u8, rhs: u8) -> (u8, BcdFlags) {
    let sum = ((lhs + rhs) % 256) as u8;
    (sum, BcdFlags { zero: sum == 0, subtract: false, half_carry: lhs % 16 + rhs % 16 > 15, carry: lhs + rhs > 255 })
}

/// The difference of two bytes and the flags `SUB` sets for it
pub open spec fn spec_sub8(lhs: u8, rhs: u8) -> (u8, BcdFlags) {
    let difference = ((lhs - rhs + 256) % 256) as u8;
    (difference, BcdFlags { zero: difference == 0, subtract: true, half_carry: lhs % 16 < rhs % 16, carry: lhs < rhs })
}

/// The sum of two bytes and a carry bit, and the flags `ADC` sets for it:
/// the half-carry and carry come from the full nine-bit sum
pub open spec fn spec_adc8(lhs: u8, rhs: u8, carry: bool) -> (u8, BcdFlags) {
    let c: int = if carry {
        1
    } else {
        0
    };
    let sum = ((lhs + rhs + c) % 256) as u8;
    (
        sum,
        BcdFlags {
            zero: sum == 0,
            subtract: false,
            half_carry: lhs % 16 + rhs % 16 + c > 15,
            carry: lhs + rhs + c > 255,
        },
    )
}

/// The difference of two bytes less a carry bit, and the flags `SBC` sets
/// for it: the half-carry and carry are the borrows of the full subtraction
pub open spec fn spec_sbc8(lhs: u8, rhs: u8, carry: bool) -> (u8, BcdFlags) {
    let c: int = if carry {
        1
    } else {
        0
    };
    let difference = ((lhs - rhs - c + 512) % 256) as u8;
    (
        difference,
        BcdFlags {
            zero: difference == 0,
            subtract: true,
            half_carry: lhs % 16 < rhs % 16 + c,
            carry: lhs < rhs + c,
        },
    )
}

/// Is each hex digit of the byte at most 9 (a Binary-Coded Decimal number)?
pub open spec fn is_bcd(value: u8) -> bool {
    value % 16 <= 9 && value / 16 <= 9
}

/// The adjustment `DAA` makes to `a` and the flags it sets
///
/// After an addition, 6 is added to each digit that went past 9 (or carried);
/// after a subtraction, 6 is taken from each digit that borrowed.
pub open spec fn spec_daa(a: u8, flags: BcdFlags) -> (u8, BcdFlags) {
    if flags.subtract {
        let offset = (if flags.half_carry { 0x06int } else { 0 }) + (if flags.carry { 0x60int } else { 0 });
        let out = ((a - offset + 256) % 256) as u8;
        (out, BcdFlags { zero: out == 0, subtract: true, half_carry: false, carry: flags.carry })
    } else {
        let low = a % 16 > 9 || flags.half_carry;
        let high = a > 0x99 || flags.carry;
        let offset = (if low { 0x06int } else { 0 }) + (if high { 0x60int } else { 0 });
        let out = ((a + offset) % 256) as u8;
        (out, BcdFlags { zero: out == 0, subtract: false, half_carry: false, carry: high })
    }
}

/// Calculate the half-carry flag for 8-bit arithmetic
pub fn half_carry8(lhs: u8, rhs: u8, out: u8) -> (r: bool)
    ensures
        r == spec_half_carry8(lhs, rhs, out),
{
    Bit(4).get(lhs ^ rhs ^ out)
}

/// Calculate the half-carry flag for 16-bit arithmetic
pub fn half_carry16(lhs: u16, rhs: u16, out: u16) -> (r: bool)
    ensures
        r == spec_half_carry16(lhs, rhs, out),
{
    // Get the 12th bit (correct, it's NOT the 8th bit)
    // https://rgbds.gbdev.io/docs/v1.0.1/gbz80.7#ADD_HL,r16
    (lhs ^ rhs ^ out) & 0x1000 != 0
}

/// The half-carry of a sum is the carry out of the low nibble.
pub proof fn lemma_half_carry_add(lhs: u8, rhs: u8)
    ensures
        spec_half_carry8(lhs, rhs, ((lhs + rhs) % 256) as u8) == (lhs % 16 + rhs % 16 > 15),
{
    assert(((lhs + rhs) % 256) as u8 == lhs.wrapping_add(rhs)) by (bit_vector);
    assert(((lhs ^ rhs ^ lhs.wrapping_add(rhs)) & (1u8 << 4u8) != 0) == ((lhs & 15) + (rhs & 15) > 15)) by (bit_vector);
    assert(lhs & 15 == lhs % 16) by (bit_vector);
    assert(rhs & 15 == rhs % 16) by (bit_vector);
}

/// The half-carry of a difference is the borrow into the low nibble.
pub proof fn lemma_half_carry_sub(lhs: u8, rhs: u8)
    ensures
        spec_half_carry8(lhs, rhs, ((lhs - rhs + 256) % 256) as u8) == (lhs % 16 < rhs % 16),
{
    assert(((lhs - rhs + 256) % 256) as u8 == lhs.wrapping_sub(rhs)) by (bit_vector);
    assert(((lhs ^ rhs ^ lhs.wrapping_sub(rhs)) & (1u8 << 4u8) != 0) == ((lhs & 15) < (rhs & 15))) by (bit_vector);
    assert(lhs & 15 == lhs % 16) by (bit_vector);
    assert(rhs & 15 == rhs % 16) by (bit_vector);
}

/// Add two 8-bit numbers, returning the sum and flags
pub fn add8(lhs: u8, rhs: u8) -> (r: (u8, BcdFlags))
    ensures
        r == spec_add8(lhs, rhs),
{
    let wide = lhs as u16 + rhs as u16;
    let sum = (wide % 256) as u8;
    proof {
        lemma_half_carry_add(lhs, rhs);
    }
    let flags = BcdFlags { zero: sum == 0, subtract: false, half_carry: half_carry8(lhs, rhs, sum), carry: wide > 255 };
    (sum, flags)
}

/// Subtract two 8-bit numbers, return the difference and flags
pub fn sub8(lhs: u8, rhs: u8) -> (r: (u8, BcdFlags))
    ensures
        r == spec_sub8(lhs, rhs),
{
    let difference = ((lhs as u16 + 256 - rhs as u16) % 256) as u8;
    proof {
        lemma_half_carry_sub(lhs, rhs);
    }
    let flags = BcdFlags {
        zero: difference == 0,
        subtract: true,
        half_carry: half_carry8(lhs, rhs, difference),
        carry: lhs < rhs,
    };
    (difference, flags)
}

/// Add two bytes and a carry bit (`ADC`), returning the sum and flags
pub fn adc8(lhs: u8, rhs: u8, carry: bool) -> (r: (u8, BcdFlags))
    ensures
        r == spec_adc8(lhs, rhs, carry),
{
    let c: u16 = if carry {
        1
    } else {
        0
    };
    let wide = lhs as u16 + rhs as u16 + c;
    let sum = (wide % 256) as u8;
    let flags = BcdFlags {
        zero: sum == 0,
        subtract: false,
        half_carry: (lhs % 16) as u16 + (rhs % 16) as u16 + c > 15,
        carry: wide > 255,
    };
    (sum, flags)
}

/// Subtract a byte and a carry bit from a byte (`SBC`), returning the
/// difference and flags
pub fn sbc8(lhs: u8, rhs: u8, carry: bool) -> (r: (u8, BcdFlags))
    ensures
        r == spec_sbc8(lhs, rhs, carry),
{
    let c: u16 = if carry {
        1
    } else {
        0
    };
    let difference = ((lhs as u16 + 512 - rhs as u16 - c) % 256) as u8;
    let flags = BcdFlags {
        zero: difference == 0,
        subtract: true,
        half_carry: ((lhs % 16) as u16) < (rhs % 16) as u16 + c,
        carry: (lhs as u16) < rhs as u16 + c,
    };
    (difference, flags)
}

/// Decimal Adjust Accumulator: the adjusted value and flags
///
/// https://blog.ollien.com/posts/gb-daa/
pub fn daa(a: u8, flags: BcdFlags) -> (r: (u8, BcdFlags))
    ensures
        r == spec_daa(a, flags),
{
    if flags.subtract {
        let mut offset: u16 = 0;
        if flags.half_carry {
            offset = offset + 0x06;
        }
        if flags.carry {
            offset = offset + 0x60;
        }
        let out = ((a as u16 + 256 - offset) % 256) as u8;
        (out, BcdFlags { zero: out == 0, subtract: true, half_carry: false, carry: flags.carry })
    } else {
        let mut offset: u16 = 0;
        let mut carry = flags.carry;
        if a % 16 > 0x09 || flags.half_carry {
            offset = offset + 0x06;
        }
        if a > 0x99 || flags.carry {
            offset = offset + 0x60;
            carry = true;
        }
        let out = ((a as u16 + offset) % 256) as u8;
        // Retaining `carry` disagrees with the blog post, but it's what the
        // asm guide says to do
        // https://rgbds.gbdev.io/docs/v1.0.1/gbz80.7#DAA
        (out, BcdFlags { zero: out == 0, subtract: false, half_carry: false, carry })
    }
}

/// After adding or subtracting two Binary-Coded Decimal numbers, `DAA` gives
/// a Binary-Coded Decimal number, sets the zero flag exactly when it is 0,
/// keeps the subtract flag, clears the half-carry flag, and never clears the
/// carry flag; after an addition past 99 it sets it.
pub proof fn law_daa_bcd(lhs: u8, rhs: u8, subtract: bool)
    requires
        is_bcd(lhs),
        is_bcd(rhs),
    ensures
        ({
            let (a, flags) = if subtract {
                spec_sub8(lhs, rhs)
            } else {
                spec_add8(lhs, rhs)
            };
            let (out, out_flags) = spec_daa(a, flags);
            &&& is_bcd(out)
            &&& out_flags == BcdFlags {
                zero: out == 0,
                subtract,
                half_carry: false,
                carry: flags.carry || (!subtract && a > 0x99),
            }
        }),
{
    assert(lhs % 16 <= 9 && lhs / 16 <= 9 && rhs % 16 <= 9 && rhs / 16 <= 9 ==> {
        let sum = ((lhs + rhs) % 256) as u8;
        let h = lhs % 16 + rhs % 16 > 15;
        let c = lhs + rhs > 255;
        let off = (if sum % 16 > 9 || h { 6int } else { 0 }) + (if sum > 0x99 || c { 0x60int } else { 0 });
        let out = ((sum + off) % 256) as u8;
        out % 16 <= 9 && out / 16 <= 9
    }) by (bit_vector);
    assert(lhs % 16 <= 9 && lhs / 16 <= 9 && rhs % 16 <= 9 && rhs / 16 <= 9 ==> {
        let diff = ((lhs - rhs + 256) % 256) as u8;
        let h = lhs % 16 < rhs % 16;
        let c = lhs < rhs;
        let off = (if h { 6int } else { 0 }) + (if c { 0x60int } else { 0 });
        let out = ((diff - off + 256) % 256) as u8;
        out % 16 <= 9 && out / 16 <= 9
    }) by (bit_vector);
}

} // verus!
