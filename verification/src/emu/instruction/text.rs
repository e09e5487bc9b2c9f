//! Assembly text of instructions
//!
//! Mnemonics are upper case and operands lower case, as in
//! https://gbdev.io/pandocs/CPU_Instruction_Set.html: `LD a,[hl+]`,
//! `JP NZ,$0150`. Constants are decimal, addresses are `$` and four upper
//! case hex digits, and `LDH` offsets are two lower case hex digits.

use vstd::prelude::*;
use crate::emu::instruction::{
    Add, ConditionCode, DecInc, Instruction, Jump, Load, LoadHigh, Operand, Register16,
    Register16Memory, Register16Stack, Register8, Value8,
};
use crate::emu::memory::{Address, hex_digit_value, hex_value, is_hex_digit, is_hex_u16};
use crate::util::Bit;

verus! {

/// Append one character to a string.
///
/// Calls `String::push`, which appends `c` at the end and changes nothing
/// else.
#[verifier::external_body]
pub(crate) fn push_char(s: &mut String, c: char)
    ensures
        final(s)@ == old(s)@.push(c),
{
    s.push(c);
}

/// The digit of value `d` (`0-15`), in upper or lower case
pub open spec fn digit_char(d: nat, upper: bool) -> char {
    if d < 10 {
        (48 + d) as char
    } else if upper {
        (55 + d) as char
    } else {
        (87 + d) as char
    }
}

/// `n` in decimal
pub open spec fn decimal_text(n: nat) -> Seq<char>
    decreases n,
{
    if n < 10 {
        seq![digit_char(n, true)]
    } else {
        decimal_text(n / 10).push(digit_char(n % 10, true))
    }
}

/// `v` in decimal, with a `-` in front where it is negative
pub open spec fn signed_text(v: int) -> Seq<char> {
    if v < 0 {
        seq!['-'] + decimal_text((-v) as nat)
    } else {
        decimal_text(v as nat)
    }
}

/// An address: `$` and four upper case hex digits
pub open spec fn address_text(a: Address) -> Seq<char> {
    let v = a.0 as nat;
    seq![
        '$',
        digit_char(v / 4096, true),
        digit_char((v / 256) % 16, true),
        digit_char((v / 16) % 16, true),
        digit_char(v % 16, true),
    ]
}

/// An upper case digit is a hex digit of its value.
proof fn lemma_digit_char(d: nat)
    requires
        d < 16,
    ensures
        is_hex_digit(digit_char(d, true)),
        hex_digit_value(digit_char(d, true)) == d,
{
}

/// The text of an address, read back as hex without its `$`, is the address:
/// an address printed for the user can be typed back in.
pub proof fn law_address_text_parse(a: Address)
    ensures
        is_hex_u16(address_text(a).drop_first()),
        hex_value(address_text(a).drop_first()) == a.0,
{
    let v = a.0 as nat;
    let digits = address_text(a).drop_first();
    let (d3, d2, d1, d0) = (v / 4096, (v / 256) % 16, (v / 16) % 16, v % 16);
    lemma_digit_char(d3);
    lemma_digit_char(d2);
    lemma_digit_char(d1);
    lemma_digit_char(d0);
    assert(digits =~= seq![
        digit_char(d3, true),
        digit_char(d2, true),
        digit_char(d1, true),
        digit_char(d0, true),
    ]);
    assert(digits.drop_last().drop_last().drop_last().drop_last() =~= Seq::<char>::empty());
    reveal_with_fuel(hex_value, 5);
    assert(hex_value(digits) == ((d3 * 16 + d2) * 16 + d1) * 16 + d0);
    assert(((d3 * 16 + d2) * 16 + d1) * 16 + d0 == v) by (nonlinear_arith)
        requires
            d3 == v / 4096,
            d2 == (v / 256) % 16,
            d1 == (v / 16) % 16,
            d0 == v % 16,
            v < 65536,
    ;
}

/// A byte in lower case hex, two characters wide, padded with a space
pub open spec fn hex_byte_text(v: u8) -> Seq<char> {
    if v < 16 {
        seq![' ', digit_char(v as nat, false)]
    } else {
        seq![digit_char(v as nat / 16, false), digit_char(v as nat % 16, false)]
    }
}

/// Append the digit of value `d` to `out`
pub(crate) fn push_digit(out: &mut String, d: u8, upper: bool)
    requires
        d < 16,
    ensures
        final(out)@ == old(out)@.push(digit_char(d as nat, upper)),
{
    let c: u8 = if d < 10 {
        48 + d
    } else if upper {
        55 + d
    } else {
        87 + d
    };
    push_char(out, c as char);
}

/// Append `n` in decimal to `out`
pub fn push_decimal_text(out: &mut String, n: u64)
    ensures
        final(out)@ == old(out)@ + decimal_text(n as nat),
    decreases n,
{
    if n < 10 {
        push_digit(out, n as u8, true);
        assert(final(out)@ =~= old(out)@ + decimal_text(n as nat));
    } else {
        push_decimal_text(out, n / 10);
        push_digit(out, (n % 10) as u8, true);
        assert(final(out)@ =~= old(out)@ + decimal_text(n as nat));
    }
}

/// Append `v` in decimal, with its sign, to `out`
fn push_signed_text(out: &mut String, v: i8)
    ensures
        final(out)@ == old(out)@ + signed_text(v as int),
{
    if v < 0 {
        push_char(out, '-');
        let magnitude: u16 = (0 - (v as i16)) as u16;
        push_decimal_text(out, magnitude as u64);
        assert(final(out)@ =~= old(out)@ + signed_text(v as int));
    } else {
        push_decimal_text(out, v as u64);
    }
}

/// Append an address to `out`
pub fn push_address_text(out: &mut String, a: Address)
    ensures
        final(out)@ == old(out)@ + address_text(a),
{
    let v = a.0;
    push_char(out, '$');
    push_digit(out, (v / 4096) as u8, true);
    push_digit(out, ((v / 256) % 16) as u8, true);
    push_digit(out, ((v / 16) % 16) as u8, true);
    push_digit(out, (v % 16) as u8, true);
    assert(final(out)@ =~= old(out)@ + address_text(a));
}

/// Append a byte in two-character hex to `out`
fn push_hex_byte_text(out: &mut String, v: u8)
    ensures
        final(out)@ == old(out)@ + hex_byte_text(v),
{
    if v < 16 {
        push_char(out, ' ');
        push_digit(out, v, false);
    } else {
        push_digit(out, v / 16, false);
        push_digit(out, v % 16, false);
    }
    assert(final(out)@ =~= old(out)@ + hex_byte_text(v));
}

impl Address {
    /// The address as `$` and four upper case hex digits, e.g. `$FF50`
    pub fn to_string(&self) -> (r: String)
        ensures
            r@ == address_text(*self),
    {
        let mut out = String::new();
        push_address_text(&mut out, *self);
        assert(out@ =~= address_text(*self));
        out
    }
}

impl Register8 {
    /// Name of the register
    pub open spec fn text(self) -> Seq<char> {
        match self {
            Register8::A => "a"@,
            Register8::B => "b"@,
            Register8::C => "c"@,
            Register8::D => "d"@,
            Register8::E => "e"@,
            Register8::H => "h"@,
            Register8::L => "l"@,
        }
    }

    /// Append the name of the register to `out`
    pub fn push_text(&self, out: &mut String)
        ensures
            final(out)@ == old(out)@ + self.text(),
    {
        match self {
            Register8::A => out.append("a"),
            Register8::B => out.append("b"),
            Register8::C => out.append("c"),
            Register8::D => out.append("d"),
            Register8::E => out.append("e"),
            Register8::H => out.append("h"),
            Register8::L => out.append("l"),
        }
    }
}

impl Register16 {
    /// Name of the register
    pub open spec fn text(self) -> Seq<char> {
        match self {
            Register16::Bc => "bc"@,
            Register16::De => "de"@,
            Register16::Hl => "hl"@,
            Register16::Sp => "sp"@,
        }
    }

    /// Append the name of the register to `out`
    pub fn push_text(&self, out: &mut String)
        ensures
            final(out)@ == old(out)@ + self.text(),
    {
        match self {
            Register16::Bc => out.append("bc"),
            Register16::De => out.append("de"),
            Register16::Hl => out.append("hl"),
            Register16::Sp => out.append("sp"),
        }
    }
}

impl Register16Stack {
    /// Name of the register
    pub open spec fn text(self) -> Seq<char> {
        match self {
            Register16Stack::Af => "af"@,
            Register16Stack::Bc => "bc"@,
            Register16Stack::De => "de"@,
            Register16Stack::Hl => "hl"@,
        }
    }

    /// Append the name of the register to `out`
    pub fn push_text(&self, out: &mut String)
        ensures
            final(out)@ == old(out)@ + self.text(),
    {
        match self {
            Register16Stack::Af => out.append("af"),
            Register16Stack::Bc => out.append("bc"),
            Register16Stack::De => out.append("de"),
            Register16Stack::Hl => out.append("hl"),
        }
    }
}

impl Register16Memory {
    /// Name of the register, with `+` or `-` where it is incremented or
    /// decremented
    pub open spec fn text(self) -> Seq<char> {
        match self {
            Register16Memory::Bc => "bc"@,
            Register16Memory::De => "de"@,
            Register16Memory::Hli => "hl+"@,
            Register16Memory::Hld => "hl-"@,
        }
    }

    /// Append the name of the register to `out`
    pub fn push_text(&self, out: &mut String)
        ensures
            final(out)@ == old(out)@ + self.text(),
    {
        match self {
            Register16Memory::Bc => out.append("bc"),
            Register16Memory::De => out.append("de"),
            Register16Memory::Hli => out.append("hl+"),
            Register16Memory::Hld => out.append("hl-"),
        }
    }
}

impl ConditionCode {
    /// Name of the condition
    pub open spec fn text(self) -> Seq<char> {
        match self {
            ConditionCode::Z => "Z"@,
            ConditionCode::Nz => "NZ"@,
            ConditionCode::C => "C"@,
            ConditionCode::Nc => "NC"@,
        }
    }

    /// Append the name of the condition to `out`
    pub fn push_text(&self, out: &mut String)
        ensures
            final(out)@ == old(out)@ + self.text(),
    {
        match self {
            ConditionCode::Z => out.append("Z"),
            ConditionCode::Nz => out.append("NZ"),
            ConditionCode::C => out.append("C"),
            ConditionCode::Nc => out.append("NC"),
        }
    }
}

impl Value8 {
    /// A register's name, or `[hl]` for the byte that `hl` points to
    pub open spec fn text(self) -> Seq<char> {
        match self {
            Value8::Register(r) => r.text(),
            Value8::Hl => "[hl]"@,
        }
    }

    /// Append the text of the value to `out`
    pub fn push_text(&self, out: &mut String)
        ensures
            final(out)@ == old(out)@ + self.text(),
    {
        match self {
            Value8::Register(r) => r.push_text(out),
            Value8::Hl => out.append("[hl]"),
        }
    }
}

impl Operand {
    /// A value's text, or a constant in decimal
    pub open spec fn text(self) -> Seq<char> {
        match self {
            Operand::V8(v) => v.text(),
            Operand::Const(c) => decimal_text(c as nat),
        }
    }

    /// Append the text of the operand to `out`
    pub fn push_text(&self, out: &mut String)
        ensures
            final(out)@ == old(out)@ + self.text(),
    {
        match self {
            Operand::V8(v) => v.push_text(out),
            Operand::Const(c) => push_decimal_text(out, *c as u64),
        }
    }
}

impl DecInc {
    /// Text of the value or register
    pub open spec fn text(self) -> Seq<char> {
        match self {
            DecInc::V8(v) => v.text(),
            DecInc::R16(r) => r.text(),
        }
    }

    /// Append the text to `out`
    pub fn push_text(&self, out: &mut String)
        ensures
            final(out)@ == old(out)@ + self.text(),
    {
        match self {
            DecInc::V8(v) => v.push_text(out),
            DecInc::R16(r) => r.push_text(out),
        }
    }
}

impl Add {
    /// Destination and source, separated by a comma
    pub open spec fn text(self) -> Seq<char> {
        match self {
            Add::A(op) => "a,"@ + op.text(),
            Add::Hl(r) => "hl,"@ + r.text(),
            Add::Sp(offset) => "sp,"@ + signed_text(offset as int),
        }
    }

    /// Append the text to `out`
    pub fn push_text(&self, out: &mut String)
        ensures
            final(out)@ == old(out)@ + self.text(),
    {
        match self {
            Add::A(op) => {
                out.append("a,");
                op.push_text(out);
            },
            Add::Hl(r) => {
                out.append("hl,");
                r.push_text(out);
            },
            Add::Sp(offset) => {
                out.append("sp,");
                push_signed_text(out, *offset);
            },
        }
        assert(final(out)@ =~= old(out)@ + self.text());
    }
}

impl Jump {
    /// The target, after its condition where there is one
    pub open spec fn text(self) -> Seq<char> {
        match self {
            Jump::Address(a) => address_text(a),
            Jump::AddressCc(c, a) => c.text() + ","@ + address_text(a),
            Jump::Hl => "hl"@,
        }
    }

    /// Append the text to `out`
    pub fn push_text(&self, out: &mut String)
        ensures
            final(out)@ == old(out)@ + self.text(),
    {
        match self {
            Jump::Address(a) => push_address_text(out, *a),
            Jump::AddressCc(c, a) => {
                c.push_text(out);
                out.append(",");
                push_address_text(out, *a);
            },
            Jump::Hl => out.append("hl"),
        }
        assert(final(out)@ =~= old(out)@ + self.text());
    }
}

impl Load {
    /// Destination and source, separated by a comma; memory in brackets
    pub open spec fn text(self) -> Seq<char> {
        match self {
            Load::AddressA { dest } => "["@ + address_text(dest) + "],a"@,
            Load::AAddress { source } => "a,["@ + address_text(source) + "]"@,
            Load::AddressSp { dest } => "["@ + address_text(dest) + "],sp"@,
            Load::HlSpOffset { offset } => "hl,sp+"@ + signed_text(offset as int),
            Load::SpHl => "sp,hl"@,
            Load::V8Const { dest, source } => dest.text() + ","@ + decimal_text(source as nat),
            Load::V8V8 { dest, source } => dest.text() + ","@ + source.text(),
            Load::R16Const { dest, source } => dest.text() + ","@ + decimal_text(source as nat),
            Load::R16MemA { dest } => "["@ + dest.text() + "],a"@,
            Load::AR16Mem { source } => "a,["@ + source.text() + "]"@,
        }
    }

    /// Append the text to `out`
    pub fn push_text(&self, out: &mut String)
        ensures
            final(out)@ == old(out)@ + self.text(),
    {
        match self {
            Load::AddressA { dest } => {
                out.append("[");
                push_address_text(out, *dest);
                out.append("],a");
            },
            Load::AAddress { source } => {
                out.append("a,[");
                push_address_text(out, *source);
                out.append("]");
            },
            Load::AddressSp { dest } => {
                out.append("[");
                push_address_text(out, *dest);
                out.append("],sp");
            },
            Load::HlSpOffset { offset } => {
                out.append("hl,sp+");
                push_signed_text(out, *offset);
            },
            Load::SpHl => out.append("sp,hl"),
            Load::V8Const { dest, source } => {
                dest.push_text(out);
                out.append(",");
                push_decimal_text(out, *source as u64);
            },
            Load::V8V8 { dest, source } => {
                dest.push_text(out);
                out.append(",");
                source.push_text(out);
            },
            Load::R16Const { dest, source } => {
                dest.push_text(out);
                out.append(",");
                push_decimal_text(out, *source as u64);
            },
            Load::R16MemA { dest } => {
                out.append("[");
                dest.push_text(out);
                out.append("],a");
            },
            Load::AR16Mem { source } => {
                out.append("a,[");
                source.push_text(out);
                out.append("]");
            },
        }
        assert(final(out)@ =~= old(out)@ + self.text());
    }
}

/// An `LD` between two 8-bit places names the destination first and the
/// source second: up to and including the comma it reads as a constant load
/// into the same destination, and after the comma it reads as the source does
/// as an operand of `CP`.
pub proof fn law_load_text_order(dest: Value8, source: Value8, n: u8)
    ensures
        ({
            let copy = Instruction::Ld(Load::V8V8 { dest, source }).text();
            let constant = Instruction::Ld(Load::V8Const { dest, source: n }).text();
            let head = dest.text().len() + 4;
            &&& copy.take(head as int) == constant.take(head as int)
            &&& copy.skip(head as int) == Instruction::Cp(Operand::V8(source)).text().skip(3)
        }),
{
    reveal_strlit("LD ");
    reveal_strlit("CP ");
    reveal_strlit(",");
    let copy = Instruction::Ld(Load::V8V8 { dest, source }).text();
    let constant = Instruction::Ld(Load::V8Const { dest, source: n }).text();
    let head = dest.text().len() + 4;
    let prefix = "LD "@ + dest.text() + ","@;
    assert(copy =~= prefix + source.text());
    assert(constant =~= prefix + decimal_text(n as nat));
    assert(prefix.len() == head);
    assert(copy.take(head as int) =~= prefix);
    assert(constant.take(head as int) =~= prefix);
    assert(copy.skip(head as int) =~= source.text());
    assert(Instruction::Cp(Operand::V8(source)).text().skip(3) =~= source.text());
}

impl LoadHigh {
    /// Destination and source; the high page address as `$FF00+` and an
    /// offset
    pub open spec fn text(self) -> Seq<char> {
        match self {
            LoadHigh::AC => "a,[$FF00+c]"@,
            LoadHigh::AConst(v) => "a,[$FF00+$"@ + hex_byte_text(v) + "]"@,
            LoadHigh::CA => "[$FF00+c],a"@,
            LoadHigh::ConstA(v) => "[$FF00+$"@ + hex_byte_text(v) + "],a"@,
        }
    }

    /// Append the text to `out`
    pub fn push_text(&self, out: &mut String)
        ensures
            final(out)@ == old(out)@ + self.text(),
    {
        match self {
            LoadHigh::AC => out.append("a,[$FF00+c]"),
            LoadHigh::AConst(v) => {
                out.append("a,[$FF00+$");
                push_hex_byte_text(out, *v);
                out.append("]");
            },
            LoadHigh::CA => out.append("[$FF00+c],a"),
            LoadHigh::ConstA(v) => {
                out.append("[$FF00+$");
                push_hex_byte_text(out, *v);
                out.append("],a");
            },
        }
        assert(final(out)@ =~= old(out)@ + self.text());
    }
}

/// A bit index in decimal
pub open spec fn bit_text(bit: Bit) -> Seq<char> {
    decimal_text(bit.0 as nat)
}

/// Append `prefix` and an operand
fn push_operand_text(out: &mut String, prefix: &str, op: &Operand)
    ensures
        final(out)@ == old(out)@ + (prefix@ + op.text()),
{
    out.append(prefix);
    op.push_text(out);
    assert(final(out)@ =~= old(out)@ + (prefix@ + op.text()));
}

/// Append `prefix` and an 8-bit value
fn push_value_text(out: &mut String, prefix: &str, value: &Value8)
    ensures
        final(out)@ == old(out)@ + (prefix@ + value.text()),
{
    out.append(prefix);
    value.push_text(out);
    assert(final(out)@ =~= old(out)@ + (prefix@ + value.text()));
}

/// Append `prefix` and the operands of an `ADD`
fn push_add_text(out: &mut String, prefix: &str, a: &Add)
    ensures
        final(out)@ == old(out)@ + (prefix@ + a.text()),
{
    out.append(prefix);
    a.push_text(out);
    assert(final(out)@ =~= old(out)@ + (prefix@ + a.text()));
}

/// Append `prefix` and the operand of a `DEC` or `INC`
fn push_dec_inc_text(out: &mut String, prefix: &str, d: &DecInc)
    ensures
        final(out)@ == old(out)@ + (prefix@ + d.text()),
{
    out.append(prefix);
    d.push_text(out);
    assert(final(out)@ =~= old(out)@ + (prefix@ + d.text()));
}

/// Append `prefix` and the operands of a `JP`
fn push_jump_text(out: &mut String, prefix: &str, j: &Jump)
    ensures
        final(out)@ == old(out)@ + (prefix@ + j.text()),
{
    out.append(prefix);
    j.push_text(out);
    assert(final(out)@ =~= old(out)@ + (prefix@ + j.text()));
}

/// Append `prefix` and the operands of an `LD`
fn push_load_text(out: &mut String, prefix: &str, l: &Load)
    ensures
        final(out)@ == old(out)@ + (prefix@ + l.text()),
{
    out.append(prefix);
    l.push_text(out);
    assert(final(out)@ =~= old(out)@ + (prefix@ + l.text()));
}

/// Append `prefix` and the operands of an `LDH`
fn push_load_high_text(out: &mut String, prefix: &str, l: &LoadHigh)
    ensures
        final(out)@ == old(out)@ + (prefix@ + l.text()),
{
    out.append(prefix);
    l.push_text(out);
    assert(final(out)@ =~= old(out)@ + (prefix@ + l.text()));
}

/// Append `prefix` and a stack register
fn push_stack_text(out: &mut String, prefix: &str, r: &Register16Stack)
    ensures
        final(out)@ == old(out)@ + (prefix@ + r.text()),
{
    out.append(prefix);
    r.push_text(out);
    assert(final(out)@ =~= old(out)@ + (prefix@ + r.text()));
}

/// Append `prefix`, a bit index and a value
fn push_bit_text(out: &mut String, prefix: &str, bit: Bit, value: &Value8)
    ensures
        final(out)@ == old(out)@ + (prefix@ + bit_text(bit) + ","@ + value.text()),
{
    out.append(prefix);
    push_decimal_text(out, bit.0 as u64);
    out.append(",");
    value.push_text(out);
    assert(final(out)@ =~= old(out)@ + (prefix@ + bit_text(bit) + ","@ + value.text()));
}

/// The text of a `CALL`
pub open spec fn call_text(address: Address, condition: Option<ConditionCode>) -> Seq<char> {
    match condition {
        None => "CALL "@ + address_text(address),
        Some(c) => "CALL "@ + c.text() + ","@ + address_text(address),
    }
}

/// The text of a `JR`
pub open spec fn jr_text(offset: i8, condition: Option<ConditionCode>) -> Seq<char> {
    match condition {
        None => "JR "@ + signed_text(offset as int),
        Some(c) => "JR "@ + c.text() + ","@ + signed_text(offset as int),
    }
}

/// The text of a `RET`
pub open spec fn ret_text(condition: Option<ConditionCode>) -> Seq<char> {
    match condition {
        None => "RET"@,
        Some(c) => "RET "@ + c.text(),
    }
}

/// Append the text of a `CALL`
fn push_call_text(out: &mut String, address: Address, condition: Option<ConditionCode>)
    ensures
        final(out)@ == old(out)@ + call_text(address, condition),
{
    out.append("CALL ");
    if let Some(c) = condition {
        c.push_text(out);
        out.append(",");
    }
    push_address_text(out, address);
    assert(final(out)@ =~= old(out)@ + call_text(address, condition));
}

/// Append the text of a `JR`
fn push_jr_text(out: &mut String, offset: i8, condition: Option<ConditionCode>)
    ensures
        final(out)@ == old(out)@ + jr_text(offset, condition),
{
    out.append("JR ");
    if let Some(c) = condition {
        c.push_text(out);
        out.append(",");
    }
    push_signed_text(out, offset);
    assert(final(out)@ =~= old(out)@ + jr_text(offset, condition));
}

/// Append the text of a `RET`
fn push_ret_text(out: &mut String, condition: Option<ConditionCode>)
    ensures
        final(out)@ == old(out)@ + ret_text(condition),
{
    match condition {
        None => out.append("RET"),
        Some(c) => {
            out.append("RET ");
            c.push_text(out);
            assert(final(out)@ =~= old(out)@ + ret_text(condition));
        },
    }
}

/// Append the text of a `RST`
fn push_rst_text(out: &mut String, address: Address)
    ensures
        final(out)@ == old(out)@ + ("RST "@ + address_text(address)),
{
    out.append("RST ");
    push_address_text(out, address);
    assert(final(out)@ =~= old(out)@ + ("RST "@ + address_text(address)));
}

impl Instruction {
    /// Assembly text of the instruction: the mnemonic, then its operands
    /// after a space, separated by commas
    pub open spec fn text(self) -> Seq<char> {
        match self {
            Instruction::Ccf => "CCF"@,
            Instruction::Cpl => "CPL"@,
            Instruction::Daa => "DAA"@,
            Instruction::Di => "DI"@,
            Instruction::Ei => "EI"@,
            Instruction::Halt => "HALT"@,
            Instruction::Nop => "NOP"@,
            Instruction::Reti => "RETI"@,
            Instruction::Rla => "RLA"@,
            Instruction::Rlca => "RLCA"@,
            Instruction::Rra => "RRA"@,
            Instruction::Rrca => "RRCA"@,
            Instruction::Scf => "SCF"@,
            Instruction::Stop => "STOP"@,
            Instruction::Invalid => "INVALID"@,
            Instruction::Adc(op) => "ADC "@ + op.text(),
            Instruction::And(op) => "AND "@ + op.text(),
            Instruction::Cp(op) => "CP "@ + op.text(),
            Instruction::Or(op) => "OR "@ + op.text(),
            Instruction::Sbc(op) => "SBC "@ + op.text(),
            Instruction::Sub(op) => "SUB "@ + op.text(),
            Instruction::Xor(op) => "XOR "@ + op.text(),
            Instruction::Rl(value) => "RL "@ + value.text(),
            Instruction::Rlc(value) => "RLC "@ + value.text(),
            Instruction::Rr(value) => "RR "@ + value.text(),
            Instruction::Rrc(value) => "RRC "@ + value.text(),
            Instruction::Sla(value) => "SLA "@ + value.text(),
            Instruction::Sra(value) => "SRA "@ + value.text(),
            Instruction::Srl(value) => "SRL "@ + value.text(),
            Instruction::Swap(value) => "SWAP "@ + value.text(),
            Instruction::Add(a) => "ADD "@ + a.text(),
            Instruction::Dec(d) => "DEC "@ + d.text(),
            Instruction::Inc(d) => "INC "@ + d.text(),
            Instruction::Jp(j) => "JP "@ + j.text(),
            Instruction::Ld(l) => "LD "@ + l.text(),
            Instruction::Ldh(l) => "LDH "@ + l.text(),
            Instruction::Pop(r) => "POP "@ + r.text(),
            Instruction::Push(r) => "PUSH "@ + r.text(),
            Instruction::Bit(bit, value) => "BIT "@ + bit_text(bit) + ","@ + value.text(),
            Instruction::Res(bit, value) => "RES "@ + bit_text(bit) + ","@ + value.text(),
            Instruction::SetBit(bit, value) => "SET "@ + bit_text(bit) + ","@ + value.text(),
            Instruction::Call { address, condition } => call_text(address, condition),
            Instruction::Jr { offset, condition } => jr_text(offset, condition),
            Instruction::Ret(condition) => ret_text(condition),
            Instruction::Rst(address) => "RST "@ + address_text(address),
        }
    }

    /// Append the assembly text of the instruction to `out`
    pub fn push_text(&self, out: &mut String)
        ensures
            final(out)@ == old(out)@ + self.text(),
    {
        match self {
            Instruction::Ccf => out.append("CCF"),
            Instruction::Cpl => out.append("CPL"),
            Instruction::Daa => out.append("DAA"),
            Instruction::Di => out.append("DI"),
            Instruction::Ei => out.append("EI"),
            Instruction::Halt => out.append("HALT"),
            Instruction::Nop => out.append("NOP"),
            Instruction::Reti => out.append("RETI"),
            Instruction::Rla => out.append("RLA"),
            Instruction::Rlca => out.append("RLCA"),
            Instruction::Rra => out.append("RRA"),
            Instruction::Rrca => out.append("RRCA"),
            Instruction::Scf => out.append("SCF"),
            Instruction::Stop => out.append("STOP"),
            Instruction::Invalid => out.append("INVALID"),
            Instruction::Adc(op) => push_operand_text(out, "ADC ", op),
            Instruction::And(op) => push_operand_text(out, "AND ", op),
            Instruction::Cp(op) => push_operand_text(out, "CP ", op),
            Instruction::Or(op) => push_operand_text(out, "OR ", op),
            Instruction::Sbc(op) => push_operand_text(out, "SBC ", op),
            Instruction::Sub(op) => push_operand_text(out, "SUB ", op),
            Instruction::Xor(op) => push_operand_text(out, "XOR ", op),
            Instruction::Rl(value) => push_value_text(out, "RL ", value),
            Instruction::Rlc(value) => push_value_text(out, "RLC ", value),
            Instruction::Rr(value) => push_value_text(out, "RR ", value),
            Instruction::Rrc(value) => push_value_text(out, "RRC ", value),
            Instruction::Sla(value) => push_value_text(out, "SLA ", value),
            Instruction::Sra(value) => push_value_text(out, "SRA ", value),
            Instruction::Srl(value) => push_value_text(out, "SRL ", value),
            Instruction::Swap(value) => push_value_text(out, "SWAP ", value),
            Instruction::Add(a) => push_add_text(out, "ADD ", a),
            Instruction::Dec(d) => push_dec_inc_text(out, "DEC ", d),
            Instruction::Inc(d) => push_dec_inc_text(out, "INC ", d),
            Instruction::Jp(j) => push_jump_text(out, "JP ", j),
            Instruction::Ld(l) => push_load_text(out, "LD ", l),
            Instruction::Ldh(l) => push_load_high_text(out, "LDH ", l),
            Instruction::Pop(r) => push_stack_text(out, "POP ", r),
            Instruction::Push(r) => push_stack_text(out, "PUSH ", r),
            Instruction::Bit(bit, value) => push_bit_text(out, "BIT ", *bit, value),
            Instruction::Res(bit, value) => push_bit_text(out, "RES ", *bit, value),
            Instruction::SetBit(bit, value) => push_bit_text(out, "SET ", *bit, value),
            Instruction::Call { address, condition } => push_call_text(out, *address, *condition),
            Instruction::Jr { offset, condition } => push_jr_text(out, *offset, *condition),
            Instruction::Ret(condition) => push_ret_text(out, *condition),
            Instruction::Rst(address) => push_rst_text(out, *address),
        }
    }

    /// Assembly text of the instruction, e.g. `LD a,[hl+]`
    pub fn to_string(&self) -> (r: String)
        ensures
            r@ == self.text(),
    {
        let mut out = String::new();
        self.push_text(&mut out);
        assert(out@ =~= self.text());
        out
    }
}

} // verus!
