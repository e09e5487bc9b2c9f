//! CPU registers and instruction handling

pub mod math;

use vstd::prelude::*;
use crate::emu::Fault;
use crate::emu::clock::{Clock, Cycles};
use crate::emu::cpu::math::{
    add8, daa, half_carry16, half_carry8, spec_add8, spec_daa, spec_half_carry16, spec_half_carry8,
    spec_sub8, sub8, adc8, sbc8, spec_adc8, spec_sbc8,
};
use crate::emu::instruction::{
    Add, ConditionCode, DecInc, Instruction, Jump, Load, LoadHigh, Operand, Register16,
    Register16Memory, Register16Stack, Register8, Value8, hi, is_encodable, lo,
};
use crate::emu::memory::{
    Address, BusView, FetchError, MemoryBus, bus_get16, bus_get8, bus_set16, bus_set8, code_source,
    law_read_after_write, law_write_elsewhere, memory_set8, sizes_ok,
};
use crate::emu::rom::{decode_truncated, decodes_to, lemma_decode_unique};
use crate::util::{Bit, FlagBits, Flags, bit_is_set, spec_bit_set, spec_pack};

verus! {

/// The `f` register holds a set of 4 flags providing feedback about the
/// previous operation, for use with Binary Coded Decimal values
///
/// https://gbdev.io/pandocs/CPU_Registers_and_Flags.html#the-flags-register-lower-8-bits-of-af-register
#[derive(Clone, Copy, Debug, Default, PartialEq, Eq, Structural)]
pub struct BcdFlags {
    /// Was the result of the operation zero? (bit 7)
    pub zero: bool,
    /// Was the operation a subtraction? (bit 6)
    pub subtract: bool,
    /// Did the result overflow from bit 3 (bit 11 for 16-bit ops)? (bit 5)
    pub half_carry: bool,
    /// Did the result overflow the value and wrap? (bit 4)
    pub carry: bool,
}

impl Flags for BcdFlags {
    open spec fn used(bit: u8) -> bool {
        4 <= bit < 8
    }

    open spec fn flag(&self, bit: u8) -> bool {
        if bit == 7 {
            self.zero
        } else if bit == 6 {
            self.subtract
        } else if bit == 5 {
            self.half_carry
        } else if bit == 4 {
            self.carry
        } else {
            false
        }
    }

    open spec fn spec_unpack(bits: u8) -> Self {
        BcdFlags {
            zero: bit_is_set(bits, 7),
            subtract: bit_is_set(bits, 6),
            half_carry: bit_is_set(bits, 5),
            carry: bit_is_set(bits, 4),
        }
    }

    proof fn lemma_unpack(bits: u8) {
    }

    proof fn lemma_unused_clear(&self, bit: u8) {
    }

    proof fn lemma_flags_ext(a: Self, b: Self) {
        assert(a.flag(4) == b.flag(4));
        assert(a.flag(5) == b.flag(5));
        assert(a.flag(6) == b.flag(6));
        assert(a.flag(7) == b.flag(7));
    }

    fn cleared() -> (r: Self) {
        BcdFlags { zero: false, subtract: false, half_carry: false, carry: false }
    }

    fn get_bit(&self, bit: Bit) -> (r: bool) {
        match bit.0 {
            7 => self.zero,
            6 => self.subtract,
            5 => self.half_carry,
            4 => self.carry,
            _ => false,
        }
    }

    fn set_bit(&mut self, bit: Bit, value: bool) {
        match bit.0 {
            7 => self.zero = value,
            6 => self.subtract = value,
            5 => self.half_carry = value,
            4 => self.carry = value,
            _ => {},
        }
    }
}

/// A flag as text: `1` when set, `0` when clear
pub open spec fn flag_text(flag: bool) -> Seq<char> {
    if flag {
        "1"@
    } else {
        "0"@
    }
}

impl BcdFlags {
    /// Render the flags as `z=_,n=_,h=_,c=_`, each `0` or `1`
    pub fn to_string(&self) -> (r: String)
        ensures
            r@ == "z="@ + flag_text(self.zero) + ",n="@ + flag_text(self.subtract) + ",h="@ + flag_text(
                self.half_carry,
            ) + ",c="@ + flag_text(self.carry),
    {
        let mut s = String::new();
        s.append("z=");
        s.append(if self.zero { "1" } else { "0" });
        s.append(",n=");
        s.append(if self.subtract { "1" } else { "0" });
        s.append(",h=");
        s.append(if self.half_carry { "1" } else { "0" });
        s.append(",c=");
        s.append(if self.carry { "1" } else { "0" });
        assert(s@ =~= "z="@ + flag_text(self.zero) + ",n="@ + flag_text(self.subtract) + ",h="@
            + flag_text(self.half_carry) + ",c="@ + flag_text(self.carry));
        s
    }
}

/// The 16-bit value of a register pair
pub open spec fn pair(high: u8, low: u8) -> u16 {
    (high * 256 + low) as u16
}

/// Registers in a Game Boy CPU
///
/// The 8-bit registers pair up into 16-bit registers `af`, `bc`, `de` and
/// `hl`, the first of each pair being the high byte.
#[derive(Clone, Copy, Debug)]
pub struct Registers {
    pub a: u8,
    pub f: FlagBits<BcdFlags>,
    pub b: u8,
    pub c: u8,
    pub d: u8,
    pub e: u8,
    pub h: u8,
    pub l: u8,
    /// Program counter
    pub pc: Address,
    /// Stack pointer
    ///
    /// The stack is a series of 16-bit values at the high end of RAM, growing
    /// backward. This points to the *last occupied slot on the stack*, so it
    /// is decremented *before* pushing and incremented *after* popping.
    pub sp: Address,
}

impl Registers {
    /// `af` as a 16-bit value
    pub open spec fn spec_af(self) -> u16 {
        pair(self.a, self.f.value)
    }

    /// `bc` as a 16-bit value
    pub open spec fn spec_bc(self) -> u16 {
        pair(self.b, self.c)
    }

    /// `de` as a 16-bit value
    pub open spec fn spec_de(self) -> u16 {
        pair(self.d, self.e)
    }

    /// `hl` as a 16-bit value
    pub open spec fn spec_hl(self) -> u16 {
        pair(self.h, self.l)
    }

    /// The flags held in `f`
    pub open spec fn spec_flags(self) -> BcdFlags {
        BcdFlags::spec_unpack(self.f.value)
    }

    /// The registers with `f` holding the given flags
    pub open spec fn with_flags(self, flags: BcdFlags) -> Registers {
        Registers { f: FlagBits { value: spec_pack(flags), ty: self.f.ty }, ..self }
    }

    /// The value of an 8-bit register
    pub open spec fn spec_r8(self, r: Register8) -> u8 {
        match r {
            Register8::A => self.a,
            Register8::B => self.b,
            Register8::C => self.c,
            Register8::D => self.d,
            Register8::E => self.e,
            Register8::H => self.h,
            Register8::L => self.l,
        }
    }

    /// The registers with an 8-bit register replaced
    pub open spec fn with_r8(self, r: Register8, v: u8) -> Registers {
        match r {
            Register8::A => Registers { a: v, ..self },
            Register8::B => Registers { b: v, ..self },
            Register8::C => Registers { c: v, ..self },
            Register8::D => Registers { d: v, ..self },
            Register8::E => Registers { e: v, ..self },
            Register8::H => Registers { h: v, ..self },
            Register8::L => Registers { l: v, ..self },
        }
    }

    /// The value of a 16-bit register
    pub open spec fn spec_r16(self, r: Register16) -> u16 {
        match r {
            Register16::Bc => self.spec_bc(),
            Register16::De => self.spec_de(),
            Register16::Hl => self.spec_hl(),
            Register16::Sp => self.sp.0,
        }
    }

    /// The registers with `hl` replaced
    pub open spec fn with_hl(self, v: u16) -> Registers {
        Registers { h: (v / 256) as u8, l: (v % 256) as u8, ..self }
    }

    /// The registers with a 16-bit register replaced
    pub open spec fn with_r16(self, r: Register16, v: u16) -> Registers {
        match r {
            Register16::Bc => Registers { b: (v / 256) as u8, c: (v % 256) as u8, ..self },
            Register16::De => Registers { d: (v / 256) as u8, e: (v % 256) as u8, ..self },
            Register16::Hl => self.with_hl(v),
            Register16::Sp => Registers { sp: Address(v), ..self },
        }
    }

    /// The value of a register pair that can be pushed
    pub open spec fn spec_r16stk(self, r: Register16Stack) -> u16 {
        match r {
            Register16Stack::Bc => self.spec_bc(),
            Register16Stack::De => self.spec_de(),
            Register16Stack::Hl => self.spec_hl(),
            Register16Stack::Af => self.spec_af(),
        }
    }

    /// The registers with a register pair that can be popped replaced
    pub open spec fn with_r16stk(self, r: Register16Stack, v: u16) -> Registers {
        match r {
            Register16Stack::Bc => Registers { b: (v / 256) as u8, c: (v % 256) as u8, ..self },
            Register16Stack::De => Registers { d: (v / 256) as u8, e: (v % 256) as u8, ..self },
            Register16Stack::Hl => self.with_hl(v),
            Register16Stack::Af => Registers {
                a: (v / 256) as u8,
                f: FlagBits { value: (v % 256) as u8, ty: self.f.ty },
                ..self
            },
        }
    }

    /// All registers zeroed
    pub open spec fn spec_new() -> Registers {
        Registers {
            a: 0,
            f: FlagBits { value: 0, ty: std::marker::PhantomData },
            b: 0,
            c: 0,
            d: 0,
            e: 0,
            h: 0,
            l: 0,
            pc: Address(0),
            sp: Address(0),
        }
    }

    /// All registers zeroed
    #[verifier::spinoff_prover]
    pub fn new() -> (r: Self)
        ensures
            r == Self::spec_new(),
    {
        Registers {
            a: 0,
            f: FlagBits::new(0),
            b: 0,
            c: 0,
            d: 0,
            e: 0,
            h: 0,
            l: 0,
            pc: Address(0),
            sp: Address(0),
        }
    }

    /// Register `a`
    pub fn a(&self) -> (r: u8)
        ensures
            r == self.a,
    {
        self.a
    }

    /// Register `f` as a raw byte
    pub fn f(&self) -> (r: u8)
        ensures
            r == self.f.value,
    {
        self.f.value
    }

    /// Register `b`
    pub fn b(&self) -> (r: u8)
        ensures
            r == self.b,
    {
        self.b
    }

    /// Register `c`
    pub fn c(&self) -> (r: u8)
        ensures
            r == self.c,
    {
        self.c
    }

    /// Register `d`
    pub fn d(&self) -> (r: u8)
        ensures
            r == self.d,
    {
        self.d
    }

    /// Register `e`
    pub fn e(&self) -> (r: u8)
        ensures
            r == self.e,
    {
        self.e
    }

    /// Register `h`
    pub fn h(&self) -> (r: u8)
        ensures
            r == self.h,
    {
        self.h
    }

    /// Register `l`
    pub fn l(&self) -> (r: u8)
        ensures
            r == self.l,
    {
        self.l
    }

    /// Program counter
    pub fn pc(&self) -> (r: Address)
        ensures
            r == self.pc,
    {
        self.pc
    }

    /// Stack pointer
    pub fn sp(&self) -> (r: Address)
        ensures
            r == self.sp,
    {
        self.sp
    }

    /// Get the value of the `af` register pair
    pub fn af(&self) -> (r: u16)
        ensures
            r == self.spec_af(),
    {
        self.a as u16 * 256 + self.f.value as u16
    }

    /// Get the value of the `bc` register pair
    pub fn bc(&self) -> (r: u16)
        ensures
            r == self.spec_bc(),
    {
        self.b as u16 * 256 + self.c as u16
    }

    /// Get the value of the `de` register pair
    pub fn de(&self) -> (r: u16)
        ensures
            r == self.spec_de(),
    {
        self.d as u16 * 256 + self.e as u16
    }

    /// Get the value of the `hl` register pair
    pub fn hl(&self) -> (r: u16)
        ensures
            r == self.spec_hl(),
    {
        self.h as u16 * 256 + self.l as u16
    }

    /// Set the `af` register pair
    pub fn set_af(&mut self, value: u16)
        ensures
            *final(self) == old(self).with_r16stk(Register16Stack::Af, value),
    {
        self.a = (value / 256) as u8;
        self.f = FlagBits::new((value % 256) as u8);
    }

    /// Set the `bc` register pair
    pub fn set_bc(&mut self, value: u16)
        ensures
            *final(self) == old(self).with_r16(Register16::Bc, value),
    {
        self.b = (value / 256) as u8;
        self.c = (value % 256) as u8;
    }

    /// Set the `de` register pair
    pub fn set_de(&mut self, value: u16)
        ensures
            *final(self) == old(self).with_r16(Register16::De, value),
    {
        self.d = (value / 256) as u8;
        self.e = (value % 256) as u8;
    }

    /// Set the `hl` register pair
    pub fn set_hl(&mut self, value: u16)
        ensures
            *final(self) == old(self).with_hl(value),
    {
        self.h = (value / 256) as u8;
        self.l = (value % 256) as u8;
    }

    /// Read bit flags from the `f` register
    pub fn flags(&self) -> (r: BcdFlags)
        ensures
            r == self.spec_flags(),
    {
        self.f.unpack()
    }

    /// Set the `f` register to the given flags
    pub fn set_flags(&mut self, flags: BcdFlags)
        ensures
            *final(self) == old(self).with_flags(flags),
    {
        self.f = FlagBits::pack(flags);
    }
}

/// Writing a register pair and reading it back gives the written value, and
/// each half of the pair holds its byte of it.
pub proof fn law_register_pairs(registers: Registers, value: u16)
    ensures
        registers.with_r16(Register16::Bc, value).spec_bc() == value,
        registers.with_r16(Register16::De, value).spec_de() == value,
        registers.with_r16(Register16::Hl, value).spec_hl() == value,
        registers.with_r16stk(Register16Stack::Af, value).spec_af() == value,
        registers.with_r16(Register16::Bc, value).b == value / 256,
        registers.with_r16(Register16::Bc, value).c == value % 256,
{
}

/// Flags packed into `f` read back unchanged.
pub proof fn law_flags_round_trip(registers: Registers, flags: BcdFlags)
    ensures
        registers.with_flags(flags).spec_flags() == flags,
{
    crate::util::law_flags_pack_unpack(flags);
}


/// Does a condition hold for the given flags?
pub open spec fn spec_condition(flags: BcdFlags, condition: ConditionCode) -> bool {
    match condition {
        ConditionCode::Z => flags.zero,
        ConditionCode::Nz => !flags.zero,
        ConditionCode::C => flags.carry,
        ConditionCode::Nc => !flags.carry,
    }
}

/// Does an optional condition hold? No condition always holds.
pub open spec fn condition_holds(flags: BcdFlags, condition: Option<ConditionCode>) -> bool {
    match condition {
        Some(c) => spec_condition(flags, c),
        None => true,
    }
}

/// The value of an 8-bit register or of the byte `hl` points to
pub open spec fn spec_value8(regs: Registers, rom: Seq<u8>, m: BusView, v: Value8) -> u8 {
    match v {
        Value8::Register(r) => regs.spec_r8(r),
        Value8::Hl => bus_get8(rom, m, regs.spec_hl()),
    }
}

/// The value of an 8-bit math operand
pub open spec fn spec_operand(regs: Registers, rom: Seq<u8>, m: BusView, o: Operand) -> u8 {
    match o {
        Operand::V8(v) => spec_value8(regs, rom, m, v),
        Operand::Const(c) => c,
    }
}

/// The registers and memory after storing a byte in an 8-bit register or at
/// `hl`
pub open spec fn spec_store8(regs: Registers, m: BusView, v: Value8, x: u8) -> (Registers, BusView) {
    match v {
        Value8::Register(r) => (regs.with_r8(r, x), m),
        Value8::Hl => (regs, bus_set8(m, regs.spec_hl(), x)),
    }
}

/// Is an address within high RAM (`0xFF80-0xFFFE`), where the stack lives?
pub open spec fn in_high_ram(address: int) -> bool {
    0xFF80 <= address <= 0xFFFE
}

/// Pushing a 16-bit value: the stack pointer moves down two bytes, then the
/// value is written there. The stack must stay in high RAM.
pub open spec fn spec_push(regs: Registers, m: BusView, value: u16) -> Option<(Registers, BusView)> {
    let sp = regs.sp.0 - 2;
    if in_high_ram(sp) {
        Some((Registers { sp: Address(sp as u16), ..regs }, bus_set16(m, sp as u16, value)))
    } else {
        None
    }
}

/// Popping a 16-bit value: it is read at the stack pointer, which then moves
/// up two bytes. The stack must stay in high RAM.
pub open spec fn spec_pop(regs: Registers, rom: Seq<u8>, m: BusView) -> Option<(Registers, u16)> {
    let sp = regs.sp.0 + 2;
    if in_high_ram(sp) {
        Some((Registers { sp: Address(sp as u16), ..regs }, bus_get16(rom, m, regs.sp.0)))
    } else {
        None
    }
}

/// A 16-bit value written to two bytes of high RAM reads back unchanged.
proof fn lemma_high_ram_word(rom: Seq<u8>, m: BusView, address: u16, value: u16)
    requires
        sizes_ok(m.0, m.1),
        0xFF80 <= address <= 0xFFFD,
    ensures
        bus_get16(rom, bus_set16(m, address, value), address) == value,
{
    let m1 = bus_set8(m, address, lo(value));
    let next = (address + 1) as u16;
    law_read_after_write(rom, m.0, m.1, address, lo(value));
    reveal(memory_set8);
    assert(sizes_ok(m1.0, m1.1));
    law_read_after_write(rom, m1.0, m1.1, next, hi(value));
    law_write_elsewhere(rom, m1.0, m1.1, next, hi(value), address);
}

/// Pushing a value and popping it back gives the value, and the registers
/// as they were, while the stack stays in high RAM.
pub proof fn law_push_pop(regs: Registers, rom: Seq<u8>, m: BusView, value: u16)
    requires
        sizes_ok(m.0, m.1),
        in_high_ram(regs.sp.0 - 2),
        in_high_ram(regs.sp.0 as int),
    ensures
        spec_push(regs, m, value) matches Some((pushed, m2)) && spec_pop(pushed, rom, m2) == Some(
            (regs, value),
        ),
{
    lemma_high_ram_word(rom, m, (regs.sp.0 - 2) as u16, value);
}

/// A call followed by a return comes back to the instruction after the
/// call, with the stack pointer as it was, while the stack stays in high RAM.
pub proof fn law_call_ret(regs: Registers, rom: Seq<u8>, m: BusView, size: u16, target: Address)
    requires
        sizes_ok(m.0, m.1),
        in_high_ram(regs.sp.0 - 2),
        in_high_ram(regs.sp.0 as int),
        regs.pc.0 + size <= 0xFFFF,
    ensures
        spec_call(regs, m, size, target, None) matches Some((called, m2)) && spec_ret(called, rom, m2, None)
            == Some(Registers { pc: Address((regs.pc.0 + size) as u16), ..regs }),
{
    let ret = (regs.pc.0 + size) as u16;
    law_push_pop(regs, rom, m, ret);
    let (pushed, m2) = spec_push(regs, m, ret).unwrap();
    let called = Registers { pc: target, ..pushed };
    assert(spec_pop(called, rom, m2) == Some((Registers { pc: target, ..regs }, ret)));
}

/// A call of `target` by an instruction of `size` bytes: the address of the
/// next instruction is pushed and the program counter jumps
pub open spec fn spec_call(
    regs: Registers,
    m: BusView,
    size: u16,
    target: Address,
    condition: Option<ConditionCode>,
) -> Option<(Registers, BusView)> {
    if condition_holds(regs.spec_flags(), condition) {
        let ret = regs.pc.0 + size;
        if ret > 0xFFFF {
            None
        } else {
            match spec_push(regs, m, ret as u16) {
                Some((pushed, m2)) => Some((Registers { pc: target, ..pushed }, m2)),
                None => None,
            }
        }
    } else {
        Some((regs, m))
    }
}

/// A return: the program counter is popped from the stack
pub open spec fn spec_ret(regs: Registers, rom: Seq<u8>, m: BusView, condition: Option<ConditionCode>) -> Option<
    Registers,
> {
    if condition_holds(regs.spec_flags(), condition) {
        match spec_pop(regs, rom, m) {
            Some((popped, value)) => Some(Registers { pc: Address(value), ..popped }),
            None => None,
        }
    } else {
        Some(regs)
    }
}

/// A bit rotation or shift
#[derive(Clone, Copy, Debug, PartialEq, Eq, Structural)]
pub enum UnaryOp {
    /// Rotate left through the carry flag
    Rl,
    /// Rotate left; bit 7 goes to bit 0 and the carry flag
    Rlc,
    /// Rotate right through the carry flag
    Rr,
    /// Rotate right; bit 0 goes to bit 7 and the carry flag
    Rrc,
    /// Shift left; bit 7 goes to the carry flag
    Sla,
    /// Shift right keeping bit 7; bit 0 goes to the carry flag
    Sra,
    /// Shift right; bit 0 goes to the carry flag
    Srl,
    /// Swap the two nibbles
    Swap,
}

/// The result of a rotation or shift of `v`, and the new carry flag
pub open spec fn spec_unary(op: UnaryOp, v: u8, carry: bool) -> (u8, bool) {
    let c: int = if carry { 1 } else { 0 };
    match op {
        UnaryOp::Rl => (((v % 128) * 2 + c) as u8, v >= 128),
        UnaryOp::Rlc => (((v % 128) * 2 + v / 128) as u8, v >= 128),
        UnaryOp::Rr => ((v / 2 + c * 128) as u8, v % 2 == 1),
        UnaryOp::Rrc => ((v / 2 + (v % 2) * 128) as u8, v % 2 == 1),
        UnaryOp::Sla => (((v % 128) * 2) as u8, v >= 128),
        UnaryOp::Sra => ((v / 2 + (v / 128) * 128) as u8, v % 2 == 1),
        UnaryOp::Srl => ((v / 2) as u8, v % 2 == 1),
        UnaryOp::Swap => (((v % 16) * 16 + v / 16) as u8, false),
    }
}

/// Rotating left through the carry (`RL`): every bit moves up one place,
/// bit 7 leaves into the carry flag and the old carry flag enters bit 0.
/// Rotating right through the carry (`RR`) undoes it, carry included, and
/// `RL` differs from `RLC` whenever the carry differs from bit 7.
pub proof fn law_rotate_left_through_carry(v: u8, carry: bool)
    ensures
        spec_unary(UnaryOp::Rl, v, carry).0 == ((v << 1u8) | (if carry {
            1u8
        } else {
            0u8
        })),
        spec_unary(UnaryOp::Rl, v, carry).1 == (v & 0x80u8 != 0),
        spec_unary(UnaryOp::Rr, spec_unary(UnaryOp::Rl, v, carry).0, spec_unary(UnaryOp::Rl, v, carry).1) == (
            v,
            carry,
        ),
        carry != (v & 0x80u8 != 0) ==> spec_unary(UnaryOp::Rl, v, carry).0 != spec_unary(UnaryOp::Rlc, v, carry).0,
{
    let c: u8 = if carry {
        1
    } else {
        0
    };
    assert((((v % 128) * 2 + c) as u8) == ((v << 1u8) | c)) by (bit_vector)
        requires
            c <= 1,
    ;
    assert((v & 0x80u8 != 0) == (v >= 128)) by (bit_vector);
}

/// Rotate or shift a byte, returning the new value and carry flag
pub fn unary(op: UnaryOp, v: u8, carry: bool) -> (r: (u8, bool))
    ensures
        r == spec_unary(op, v, carry),
{
    let c: u8 = if carry { 1 } else { 0 };
    match op {
        UnaryOp::Rl => ((v % 128) * 2 + c, v >= 128),
        UnaryOp::Rlc => ((v % 128) * 2 + v / 128, v >= 128),
        UnaryOp::Rr => (v / 2 + c * 128, v % 2 == 1),
        UnaryOp::Rrc => (v / 2 + (v % 2) * 128, v % 2 == 1),
        UnaryOp::Sla => ((v % 128) * 2, v >= 128),
        UnaryOp::Sra => (v / 2 + (v / 128) * 128, v % 2 == 1),
        UnaryOp::Srl => (v / 2, v % 2 == 1),
        UnaryOp::Swap => ((v % 16) * 16 + v / 16, false),
    }
}

/// `lhs + offset` wrapped to 16 bits, and whether it wrapped
pub open spec fn spec_add_signed(lhs: u16, offset: i8) -> (u16, bool) {
    let sum = lhs + offset;
    (((sum + 65536) % 65536) as u16, sum < 0 || sum > 65535)
}

/// The address, and the registers after the optional `hl` step, of a
/// `[r16]` memory operand
pub open spec fn spec_r16mem(regs: Registers, r: Register16Memory) -> (u16, Registers) {
    match r {
        Register16Memory::Bc => (regs.spec_bc(), regs),
        Register16Memory::De => (regs.spec_de(), regs),
        Register16Memory::Hli => (regs.spec_hl(), regs.with_hl(((regs.spec_hl() + 1) % 65536) as u16)),
        Register16Memory::Hld => (regs.spec_hl(), regs.with_hl(((regs.spec_hl() + 65535) % 65536) as u16)),
    }
}

/// The flags after a bitwise `AND`/`OR`/`XOR` giving `x`
pub open spec fn logic_flags(x: u8, half_carry: bool) -> BcdFlags {
    BcdFlags { zero: x == 0, subtract: false, half_carry, carry: false }
}

/// The effect of an `LD` instruction
pub open spec fn spec_load(regs: Registers, ime: bool, rom: Seq<u8>, m: BusView, load: Load) -> Option<
    (Registers, bool, BusView),
> {
    match load {
        Load::AddressA { dest } => Some((regs, ime, bus_set8(m, dest.0, regs.a))),
        Load::AAddress { source } => Some((regs.with_r8(Register8::A, bus_get8(rom, m, source.0)), ime, m)),
        Load::AddressSp { dest } => if dest.0 < 0xFFFF {
            Some((regs, ime, bus_set16(m, dest.0, regs.sp.0)))
        } else {
            None
        },
        Load::HlSpOffset { offset } => {
            let lhs = regs.sp.0;
            let (value, carry) = spec_add_signed(lhs, offset);
            let flags = BcdFlags {
                zero: false,
                subtract: false,
                half_carry: spec_half_carry16(lhs, ((offset + 65536) % 65536) as u16, value),
                carry,
            };
            Some((regs.with_hl(value).with_flags(flags), ime, m))
        },
        Load::SpHl => Some((Registers { sp: Address(regs.spec_hl()), ..regs }, ime, m)),
        Load::V8Const { dest, source } => {
            let (r2, m2) = spec_store8(regs, m, dest, source);
            Some((r2, ime, m2))
        },
        Load::V8V8 { dest, source } => if dest == Value8::Hl && source == Value8::Hl {
            None
        } else {
            let (r2, m2) = spec_store8(regs, m, dest, spec_value8(regs, rom, m, source));
            Some((r2, ime, m2))
        },
        Load::R16Const { dest, source } => Some((regs.with_r16(dest, source), ime, m)),
        Load::R16MemA { dest } => {
            let (address, r2) = spec_r16mem(regs, dest);
            Some((r2, ime, bus_set8(m, address, r2.a)))
        },
        Load::AR16Mem { source } => {
            let (address, r2) = spec_r16mem(regs, source);
            Some((r2.with_r8(Register8::A, bus_get8(rom, m, address)), ime, m))
        },
    }
}

/// The effect of an `LDH` instruction, which addresses `0xFF00 + n`
pub open spec fn spec_load_high(regs: Registers, ime: bool, rom: Seq<u8>, m: BusView, load: LoadHigh) -> (
    Registers,
    bool,
    BusView,
) {
    match load {
        LoadHigh::AC => (regs.with_r8(Register8::A, bus_get8(rom, m, (0xFF00 + regs.c) as u16)), ime, m),
        LoadHigh::AConst(n) => (regs.with_r8(Register8::A, bus_get8(rom, m, (0xFF00 + n) as u16)), ime, m),
        LoadHigh::CA => (regs, ime, bus_set8(m, (0xFF00 + regs.c) as u16, regs.a)),
        LoadHigh::ConstA(n) => (regs, ime, bus_set8(m, (0xFF00 + n) as u16, regs.a)),
    }
}

/// The effect of a rotation or shift of an 8-bit register or of `[hl]`
pub open spec fn spec_unary_v8(regs: Registers, ime: bool, rom: Seq<u8>, m: BusView, op: UnaryOp, dest: Value8) -> (
    Registers,
    bool,
    BusView,
) {
    let (x, carry) = spec_unary(op, spec_value8(regs, rom, m, dest), regs.spec_flags().carry);
    let (r2, m2) = spec_store8(regs, m, dest, x);
    (r2.with_flags(BcdFlags { zero: x == 0, subtract: false, half_carry: false, carry }), ime, m2)
}

/// The effect of a rotation of `a` (`RLA`, `RLCA`, `RRA`, `RRCA`), which
/// always clears the zero flag
pub open spec fn spec_unary_a(regs: Registers, op: UnaryOp) -> Registers {
    let (x, carry) = spec_unary(op, regs.a, regs.spec_flags().carry);
    regs.with_r8(Register8::A, x).with_flags(BcdFlags { zero: false, subtract: false, half_carry: false, carry })
}

/// The effect of `INC`/`DEC`: 8-bit ones keep the carry flag, 16-bit ones
/// keep every flag
pub open spec fn spec_dec_inc(regs: Registers, ime: bool, rom: Seq<u8>, m: BusView, dec_inc: DecInc, subtract: bool) -> (
    Registers,
    bool,
    BusView,
) {
    match dec_inc {
        DecInc::V8(dest) => {
            let lhs = spec_value8(regs, rom, m, dest);
            let out = (if subtract {
                (lhs + 255) % 256
            } else {
                (lhs + 1) % 256
            }) as u8;
            let (r2, m2) = spec_store8(regs, m, dest, out);
            // Half-carry is the carry out of bit 3 for `INC` and the borrow
            // from bit 4 for `DEC`, as for adding or subtracting 1
            let half_carry = if subtract {
                spec_sub8(lhs, 1).1.half_carry
            } else {
                spec_add8(lhs, 1).1.half_carry
            };
            let flags = BcdFlags { zero: out == 0, subtract, half_carry, carry: regs.spec_flags().carry };
            (r2.with_flags(flags), ime, m2)
        },
        DecInc::R16(r) => {
            let v = regs.spec_r16(r);
            let out = (if subtract {
                (v + 65535) % 65536
            } else {
                (v + 1) % 65536
            }) as u16;
            (regs.with_r16(r, out), ime, m)
        },
    }
}

/// The effect of an `ADD`
pub open spec fn spec_add(regs: Registers, rom: Seq<u8>, m: BusView, add: Add) -> Registers {
    match add {
        Add::A(o) => {
            let (sum, flags) = spec_add8(regs.a, spec_operand(regs, rom, m, o));
            regs.with_r8(Register8::A, sum).with_flags(flags)
        },
        Add::Hl(r) => {
            let lhs = regs.spec_hl();
            let rhs = regs.spec_r16(r);
            let new = ((lhs + rhs) % 65536) as u16;
            let flags = BcdFlags {
                zero: new == 0,
                subtract: false,
                half_carry: spec_half_carry16(lhs, rhs, new),
                carry: lhs + rhs > 65535,
            };
            regs.with_hl(new).with_flags(flags)
        },
        Add::Sp(offset) => {
            let lhs = regs.sp.0;
            let (new, carry) = spec_add_signed(lhs, offset);
            // Half-carry uses 8-bit rules here (bit 3->4)
            let flags = BcdFlags {
                zero: new == 0,
                subtract: false,
                half_carry: spec_half_carry8(
                    (lhs % 256) as u8,
                    (if offset < 0 {
                        -1 - offset
                    } else {
                        offset as int
                    }) as u8,
                    (new % 256) as u8,
                ),
                carry,
            };
            Registers { sp: Address(new), ..regs }.with_flags(flags)
        },
    }
}

/// The effect of executing one instruction: the registers, the interrupt
/// enable flag and the memory afterwards, or `None` when it faults
///
/// https://rgbds.gbdev.io/docs/v1.0.1/gbz80.7
pub open spec fn spec_execute(regs: Registers, ime: bool, rom: Seq<u8>, m: BusView, i: Instruction) -> Option<
    (Registers, bool, BusView),
> {
    let flags = regs.spec_flags();
    match i {
        Instruction::Adc(o) => {
            let (sum, f) = spec_adc8(regs.a, spec_operand(regs, rom, m, o), flags.carry);
            Some((regs.with_r8(Register8::A, sum).with_flags(f), ime, m))
        },
        Instruction::Add(add) => Some((spec_add(regs, rom, m, add), ime, m)),
        Instruction::And(o) => {
            let x = regs.a & spec_operand(regs, rom, m, o);
            Some((regs.with_r8(Register8::A, x).with_flags(logic_flags(x, true)), ime, m))
        },
        Instruction::Bit(b, v) => Some((
            regs.with_flags(
                BcdFlags {
                    zero: !bit_is_set(spec_value8(regs, rom, m, v), b.0),
                    subtract: false,
                    half_carry: true,
                    carry: flags.carry,
                },
            ),
            ime,
            m,
        )),
        Instruction::Call { address, condition } => match spec_call(regs, m, 3, address, condition) {
            Some((r2, m2)) => Some((r2, ime, m2)),
            None => None,
        },
        Instruction::Ccf => Some((
            regs.with_flags(BcdFlags { subtract: false, half_carry: false, carry: !flags.carry, ..flags }),
            ime,
            m,
        )),
        Instruction::Cp(o) => Some((regs.with_flags(spec_sub8(regs.a, spec_operand(regs, rom, m, o)).1), ime, m)),
        Instruction::Cpl => Some((
            regs.with_r8(Register8::A, (255 - regs.a) as u8).with_flags(
                BcdFlags { subtract: true, half_carry: true, ..flags },
            ),
            ime,
            m,
        )),
        Instruction::Daa => {
            let (a, f) = spec_daa(regs.a, flags);
            Some((regs.with_r8(Register8::A, a).with_flags(f), ime, m))
        },
        Instruction::Dec(d) => Some(spec_dec_inc(regs, ime, rom, m, d, true)),
        Instruction::Di => Some((regs, false, m)),
        Instruction::Ei => Some((regs, true, m)),
        Instruction::Halt => None,
        Instruction::Inc(d) => Some(spec_dec_inc(regs, ime, rom, m, d, false)),
        Instruction::Jp(jump) => match jump {
            Jump::Address(a) => Some((Registers { pc: a, ..regs }, ime, m)),
            Jump::AddressCc(c, a) => if spec_condition(flags, c) {
                Some((Registers { pc: a, ..regs }, ime, m))
            } else {
                Some((regs, ime, m))
            },
            Jump::Hl => Some((Registers { pc: Address(regs.spec_hl()), ..regs }, ime, m)),
        },
        Instruction::Jr { offset, condition } => if condition_holds(flags, condition) {
            // Relative to the instruction after the 2-byte jump
            let target = regs.pc.0 + offset;
            if target < 0 || target + 2 > 0xFFFF {
                None
            } else {
                Some((Registers { pc: Address((target + 2) as u16), ..regs }, ime, m))
            }
        } else {
            Some((regs, ime, m))
        },
        Instruction::Ld(load) => spec_load(regs, ime, rom, m, load),
        Instruction::Ldh(load) => Some(spec_load_high(regs, ime, rom, m, load)),
        Instruction::Nop => Some((regs, ime, m)),
        Instruction::Or(o) => {
            let x = regs.a | spec_operand(regs, rom, m, o);
            Some((regs.with_r8(Register8::A, x).with_flags(logic_flags(x, false)), ime, m))
        },
        Instruction::Pop(r) => match spec_pop(regs, rom, m) {
            Some((r2, value)) => Some((r2.with_r16stk(r, value), ime, m)),
            None => None,
        },
        Instruction::Push(r) => match spec_push(regs, m, regs.spec_r16stk(r)) {
            Some((r2, m2)) => Some((r2, ime, m2)),
            None => None,
        },
        Instruction::Res(b, v) => {
            let (r2, m2) = spec_store8(regs, m, v, spec_bit_set(spec_value8(regs, rom, m, v), b.0, false));
            Some((r2, ime, m2))
        },
        Instruction::Ret(condition) => match spec_ret(regs, rom, m, condition) {
            Some(r2) => Some((r2, ime, m)),
            None => None,
        },
        Instruction::Reti => match spec_ret(regs, rom, m, None) {
            Some(r2) => Some((r2, true, m)),
            None => None,
        },
        Instruction::Rl(v) => Some(spec_unary_v8(regs, ime, rom, m, UnaryOp::Rl, v)),
        Instruction::Rla => Some((spec_unary_a(regs, UnaryOp::Rl), ime, m)),
        Instruction::Rlc(v) => Some(spec_unary_v8(regs, ime, rom, m, UnaryOp::Rlc, v)),
        Instruction::Rlca => Some((spec_unary_a(regs, UnaryOp::Rlc), ime, m)),
        Instruction::Rr(v) => Some(spec_unary_v8(regs, ime, rom, m, UnaryOp::Rr, v)),
        Instruction::Rra => Some((spec_unary_a(regs, UnaryOp::Rr), ime, m)),
        Instruction::Rrc(v) => Some(spec_unary_v8(regs, ime, rom, m, UnaryOp::Rrc, v)),
        Instruction::Rrca => Some((spec_unary_a(regs, UnaryOp::Rrc), ime, m)),
        Instruction::Rst(address) => match spec_call(regs, m, 1, address, None) {
            Some((r2, m2)) => Some((r2, ime, m2)),
            None => None,
        },
        Instruction::Sbc(o) => {
            let (difference, f) = spec_sbc8(regs.a, spec_operand(regs, rom, m, o), flags.carry);
            Some((regs.with_r8(Register8::A, difference).with_flags(f), ime, m))
        },
        Instruction::Scf => Some((
            regs.with_flags(BcdFlags { subtract: false, half_carry: false, carry: true, ..flags }),
            ime,
            m,
        )),
        Instruction::SetBit(b, v) => {
            let (r2, m2) = spec_store8(regs, m, v, spec_bit_set(spec_value8(regs, rom, m, v), b.0, true));
            Some((r2, ime, m2))
        },
        Instruction::Sla(v) => Some(spec_unary_v8(regs, ime, rom, m, UnaryOp::Sla, v)),
        Instruction::Sra(v) => Some(spec_unary_v8(regs, ime, rom, m, UnaryOp::Sra, v)),
        Instruction::Srl(v) => Some(spec_unary_v8(regs, ime, rom, m, UnaryOp::Srl, v)),
        Instruction::Sub(o) => {
            let (difference, f) = spec_sub8(regs.a, spec_operand(regs, rom, m, o));
            Some((regs.with_r8(Register8::A, difference).with_flags(f), ime, m))
        },
        Instruction::Swap(v) => Some(spec_unary_v8(regs, ime, rom, m, UnaryOp::Swap, v)),
        Instruction::Stop => None,
        Instruction::Xor(o) => {
            let x = regs.a ^ spec_operand(regs, rom, m, o);
            Some((regs.with_r8(Register8::A, x).with_flags(logic_flags(x, false)), ime, m))
        },
        Instruction::Invalid => Some((regs, ime, m)),
    }
}

/// Number of cycles an instruction takes, given the flags it will see;
/// `None` for the instructions the emulator does not support
pub open spec fn spec_cycles(i: Instruction, flags: BcdFlags) -> Option<u64> {
    match i {
        Instruction::Adc(o) | Instruction::Add(Add::A(o)) | Instruction::And(o) | Instruction::Cp(o)
        | Instruction::Or(o) | Instruction::Sbc(o) | Instruction::Sub(o) | Instruction::Xor(o) => match o {
            Operand::V8(Value8::Register(_)) => Some(1),
            _ => Some(2),
        },
        Instruction::Add(Add::Hl(_)) => Some(2),
        Instruction::Add(Add::Sp(_)) => Some(4),
        Instruction::Bit(_, v) => match v {
            Value8::Register(_) => Some(2),
            Value8::Hl => Some(3),
        },
        Instruction::Call { condition, .. } => if condition_holds(flags, condition) {
            Some(6)
        } else {
            Some(3)
        },
        Instruction::Ccf | Instruction::Cpl | Instruction::Daa | Instruction::Di | Instruction::Ei
        | Instruction::Nop | Instruction::Rla | Instruction::Rlca | Instruction::Rra | Instruction::Rrca
        | Instruction::Scf => Some(1),
        Instruction::Dec(d) | Instruction::Inc(d) => match d {
            DecInc::V8(Value8::Register(_)) => Some(1),
            DecInc::V8(Value8::Hl) => Some(3),
            DecInc::R16(_) => Some(2),
        },
        Instruction::Halt | Instruction::Stop => None,
        Instruction::Jp(jump) => match jump {
            Jump::AddressCc(c, _) => if spec_condition(flags, c) {
                Some(4)
            } else {
                Some(3)
            },
            Jump::Address(_) => Some(4),
            Jump::Hl => Some(1),
        },
        Instruction::Jr { condition, .. } => if condition_holds(flags, condition) {
            Some(3)
        } else {
            Some(2)
        },
        Instruction::Ld(load) => match load {
            Load::AddressA { .. } | Load::AAddress { .. } => Some(4),
            Load::AddressSp { .. } => Some(5),
            Load::HlSpOffset { .. } => Some(3),
            Load::SpHl => Some(2),
            Load::V8Const { dest, .. } => match dest {
                Value8::Register(_) => Some(2),
                Value8::Hl => Some(3),
            },
            Load::V8V8 { dest, source } => match (dest, source) {
                (Value8::Register(_), Value8::Register(_)) => Some(1),
                (Value8::Hl, Value8::Hl) => None,
                _ => Some(2),
            },
            Load::R16Const { .. } => Some(3),
            Load::R16MemA { .. } | Load::AR16Mem { .. } => Some(2),
        },
        Instruction::Ldh(load) => match load {
            LoadHigh::AC | LoadHigh::CA => Some(2),
            LoadHigh::AConst(_) | LoadHigh::ConstA(_) => Some(3),
        },
        Instruction::Pop(_) => Some(3),
        Instruction::Push(_) => Some(4),
        Instruction::Res(_, v) | Instruction::SetBit(_, v) | Instruction::Rl(v) | Instruction::Rlc(v)
        | Instruction::Rr(v) | Instruction::Rrc(v) | Instruction::Sla(v) | Instruction::Sra(v)
        | Instruction::Srl(v) | Instruction::Swap(v) => match v {
            Value8::Register(_) => Some(2),
            Value8::Hl => Some(4),
        },
        Instruction::Ret(None) | Instruction::Reti => Some(4),
        Instruction::Ret(Some(c)) => if spec_condition(flags, c) {
            Some(5)
        } else {
            Some(2)
        },
        Instruction::Rst(_) => Some(4),
        Instruction::Invalid => Some(0),
    }
}

/// Is the instruction arithmetic or logic on `a` or the flags?
pub open spec fn is_alu(i: Instruction) -> bool {
    matches!(i, Instruction::Adc(..) | Instruction::Add(..) | Instruction::And(..) | Instruction::Ccf | Instruction::Cp(..) | Instruction::Cpl | Instruction::Daa | Instruction::Or(..) | Instruction::Sbc(..) | Instruction::Scf | Instruction::Sub(..) | Instruction::Xor(..))
}

/// Is the instruction a bit test, bit update, rotation or shift?
pub open spec fn is_bit_op(i: Instruction) -> bool {
    matches!(i, Instruction::Bit(..) | Instruction::Res(..) | Instruction::Rl(..) | Instruction::Rla | Instruction::Rlc(..) | Instruction::Rlca | Instruction::Rr(..) | Instruction::Rra | Instruction::Rrc(..) | Instruction::Rrca | Instruction::SetBit(..) | Instruction::Sla(..) | Instruction::Sra(..) | Instruction::Srl(..) | Instruction::Swap(..))
}

/// Is the instruction a load, increment or decrement?
pub open spec fn is_load(i: Instruction) -> bool {
    matches!(i, Instruction::Dec(..) | Instruction::Inc(..) | Instruction::Ld(..) | Instruction::Ldh(..))
}

/// Is the instruction arithmetic or logic on `a` or the flags?
fn is_alu_op(i: Instruction) -> (r: bool)
    ensures
        r == is_alu(i),
{
    matches!(i, Instruction::Adc(..) | Instruction::Add(..) | Instruction::And(..) | Instruction::Ccf | Instruction::Cp(..) | Instruction::Cpl | Instruction::Daa | Instruction::Or(..) | Instruction::Sbc(..) | Instruction::Scf | Instruction::Sub(..) | Instruction::Xor(..))
}

/// Is the instruction a bit test, bit update, rotation or shift?
fn is_bit_instruction(i: Instruction) -> (r: bool)
    ensures
        r == is_bit_op(i),
{
    matches!(i, Instruction::Bit(..) | Instruction::Res(..) | Instruction::Rl(..) | Instruction::Rla | Instruction::Rlc(..) | Instruction::Rlca | Instruction::Rr(..) | Instruction::Rra | Instruction::Rrc(..) | Instruction::Rrca | Instruction::SetBit(..) | Instruction::Sla(..) | Instruction::Sra(..) | Instruction::Srl(..) | Instruction::Swap(..))
}

/// Is the instruction a load, increment or decrement?
fn is_load_op(i: Instruction) -> (r: bool)
    ensures
        r == is_load(i),
{
    matches!(i, Instruction::Dec(..) | Instruction::Inc(..) | Instruction::Ld(..) | Instruction::Ldh(..))
}

/// Can the CPU be handed this instruction? Every decoded instruction can.
pub open spec fn instruction_ok(i: Instruction) -> bool {
    i == Instruction::Invalid || is_encodable(i)
}


/// `lhs + offset` wrapped to 16 bits, and whether it wrapped
pub fn add_signed(lhs: u16, offset: i8) -> (r: (u16, bool))
    ensures
        r == spec_add_signed(lhs, offset),
{
    let sum: i32 = lhs as i32 + offset as i32;
    if sum < 0 {
        ((sum + 65536) as u16, true)
    } else if sum > 65535 {
        ((sum - 65536) as u16, true)
    } else {
        (sum as u16, false)
    }
}

/// An instruction loaded for execution, with its timing
#[derive(Clone, Copy, Debug, PartialEq, Eq, Structural)]
pub struct InstructionInfo {
    /// The instruction
    pub instruction: Instruction,
    /// Number of cycles it takes
    pub duration: Cycles,
    /// Clock cycle at which it is executed
    pub end: Cycles,
    /// Size of the instruction in bytes
    pub size: u16,
}

/// Central Processing Unit for a Game Boy
///
/// This holds the CPU registers and executes instructions. Each instruction
/// is loaded when the previous one is executed, and runs once its duration
/// has elapsed on the clock.
#[derive(Clone, Copy, Debug)]
pub struct Cpu {
    /// Mutable values directly in the CPU
    pub registers: Registers,
    /// IME flag
    pub interrupts_enabled: bool,
    /// The instruction waiting to be executed
    pub current_instruction: InstructionInfo,
    /// Most recently executed instruction (`None` only on startup)
    pub previous_instruction: Option<InstructionInfo>,
}

/// Exposed debug state for the CPU
#[derive(Clone, Copy, Debug)]
pub struct CpuDebugInfo {
    pub a: u8,
    pub f: u8,
    pub af: u16,
    pub b: u8,
    pub c: u8,
    pub bc: u16,
    pub d: u8,
    pub e: u8,
    pub de: u16,
    pub h: u8,
    pub l: u8,
    pub hl: u16,
    pub pc: Address,
    pub sp: Address,
    /// Interrupt enable flag
    pub interrupts_enabled: bool,
    /// Most recently executed instruction (`None` only on startup)
    pub previous_instruction: Option<InstructionInfo>,
    /// Next instruction to execute, loaded from memory at the program
    /// counter: `(instruction, duration, size in bytes)`
    pub next_instruction: (Instruction, Cycles, u16),
}

impl Cpu {
    /// The state of a CPU that has loaded an instruction
    pub open spec fn wf(&self) -> bool {
        instruction_ok(self.current_instruction.instruction)
    }

    /// Evaluate a [ConditionCode] against the current flags
    pub fn condition(&self, condition: ConditionCode) -> (r: bool)
        ensures
            r == spec_condition(self.registers.spec_flags(), condition),
    {
        let flags = self.registers.flags();
        match condition {
            ConditionCode::Z => flags.zero,
            ConditionCode::Nz => !flags.zero,
            ConditionCode::C => flags.carry,
            ConditionCode::Nc => !flags.carry,
        }
    }

    /// Evaluate an optional condition; no condition always holds
    fn condition_holds(&self, condition: Option<ConditionCode>) -> (r: bool)
        ensures
            r == condition_holds(self.registers.spec_flags(), condition),
    {
        match condition {
            Some(c) => self.condition(c),
            None => true,
        }
    }

    /// Get the value of an 8-bit register
    pub fn register8(&self, register: Register8) -> (r: u8)
        ensures
            r == self.registers.spec_r8(register),
    {
        match register {
            Register8::A => self.registers.a,
            Register8::B => self.registers.b,
            Register8::C => self.registers.c,
            Register8::D => self.registers.d,
            Register8::E => self.registers.e,
            Register8::H => self.registers.h,
            Register8::L => self.registers.l,
        }
    }

    /// Set the value of an 8-bit register
    fn set_register8(&mut self, register: Register8, value: u8)
        ensures
            *final(self) == (Cpu { registers: old(self).registers.with_r8(register, value), ..*old(self) }),
    {
        match register {
            Register8::A => self.registers.a = value,
            Register8::B => self.registers.b = value,
            Register8::C => self.registers.c = value,
            Register8::D => self.registers.d = value,
            Register8::E => self.registers.e = value,
            Register8::H => self.registers.h = value,
            Register8::L => self.registers.l = value,
        }
    }

    /// Get the value of a 16-bit register
    pub fn register16(&self, register: Register16) -> (r: u16)
        ensures
            r == self.registers.spec_r16(register),
    {
        match register {
            Register16::Bc => self.registers.bc(),
            Register16::De => self.registers.de(),
            Register16::Hl => self.registers.hl(),
            Register16::Sp => self.registers.sp.0,
        }
    }

    /// Set the value of a 16-bit register
    fn set_register16(&mut self, register: Register16, value: u16)
        ensures
            *final(self) == (Cpu { registers: old(self).registers.with_r16(register, value), ..*old(self) }),
    {
        match register {
            Register16::Bc => self.registers.set_bc(value),
            Register16::De => self.registers.set_de(value),
            Register16::Hl => self.registers.set_hl(value),
            Register16::Sp => self.registers.sp = Address(value),
        }
    }

    /// Get the address of a `[r16]` operand
    ///
    /// The `Hli` and `Hld` variants step the `hl` register *after* reporting
    /// its value. This does NOT set flags.
    fn register16_mem(&mut self, register: Register16Memory) -> (r: u16)
        ensures
            (r, final(self).registers) == spec_r16mem(old(self).registers, register),
            *final(self) == (Cpu { registers: final(self).registers, ..*old(self) }),
    {
        match register {
            Register16Memory::Bc => self.registers.bc(),
            Register16Memory::De => self.registers.de(),
            Register16Memory::Hli => {
                let value = self.registers.hl();
                self.registers.set_hl(value.wrapping_add(1));
                value
            },
            Register16Memory::Hld => {
                let value = self.registers.hl();
                self.registers.set_hl(value.wrapping_sub(1));
                value
            },
        }
    }

    /// Set the value of a register pair that can be popped
    fn set_register16_stack(&mut self, register: Register16Stack, value: u16)
        ensures
            *final(self) == (Cpu { registers: old(self).registers.with_r16stk(register, value), ..*old(self) }),
    {
        match register {
            Register16Stack::Bc => self.registers.set_bc(value),
            Register16Stack::De => self.registers.set_de(value),
            Register16Stack::Hl => self.registers.set_hl(value),
            Register16Stack::Af => self.registers.set_af(value),
        }
    }

    /// Get the value of a register pair that can be pushed
    fn register16_stack(&self, register: Register16Stack) -> (r: u16)
        ensures
            r == self.registers.spec_r16stk(register),
    {
        match register {
            Register16Stack::Bc => self.registers.bc(),
            Register16Stack::De => self.registers.de(),
            Register16Stack::Hl => self.registers.hl(),
            Register16Stack::Af => self.registers.af(),
        }
    }

    /// Get the value of an 8-bit register or of the byte `hl` points to
    fn value8(&self, memory: &MemoryBus, value: Value8) -> (r: u8)
        requires
            memory.wf(),
        ensures
            r == spec_value8(self.registers, memory.rom.data@, memory@, value),
    {
        match value {
            Value8::Register(register) => self.register8(register),
            Value8::Hl => memory.get8(Address(self.registers.hl())),
        }
    }

    /// Evaluate an 8-bit math operand
    fn operand(&self, memory: &MemoryBus, operand: Operand) -> (r: u8)
        requires
            memory.wf(),
        ensures
            r == spec_operand(self.registers, memory.rom.data@, memory@, operand),
    {
        match operand {
            Operand::V8(value) => self.value8(memory, value),
            Operand::Const(value) => value,
        }
    }

    /// Store a byte in an 8-bit register or at `hl`
    fn store8(&mut self, memory: &mut MemoryBus, dest: Value8, value: u8)
        requires
            old(memory).wf(),
        ensures
            final(memory).wf(),
            *final(memory).rom == *old(memory).rom,
            *final(final(memory).ram) == *final(old(memory).ram),
            *final(final(memory).vram) == *final(old(memory).vram),
            ({
                let (regs, m) = spec_store8(old(self).registers, old(memory)@, dest, value);
                &&& *final(self) == (Cpu { registers: regs, ..*old(self) })
                &&& final(memory)@ == m
            }),
    {
        match dest {
            Value8::Register(register) => self.set_register8(register, value),
            Value8::Hl => memory.set8(Address(self.registers.hl()), value),
        }
    }

    /// Push a 16-bit value onto the stack
    fn push(&mut self, memory: &mut MemoryBus, value: u16) -> (r: Result<(), Fault>)
        requires
            old(memory).wf(),
        ensures
            final(memory).wf(),
            *final(memory).rom == *old(memory).rom,
            *final(final(memory).ram) == *final(old(memory).ram),
            *final(final(memory).vram) == *final(old(memory).vram),
            match spec_push(old(self).registers, old(memory)@, value) {
                Some((regs, m)) => r is Ok && *final(self) == (Cpu { registers: regs, ..*old(self) })
                    && final(memory)@ == m,
                None => r is Err,
            },
    {
        // SP points to the LAST OCCUPIED slot, so we have to move it back
        // BEFORE writing
        if self.registers.sp.0 < 0xFF82 {
            return Err(Fault::from_str("Stack pointer is outside high RAM"));
        }
        self.registers.sp = Address(self.registers.sp.0 - 2);
        memory.set16(self.registers.sp, value);
        Ok(())
    }

    /// Pop a 16-bit value from the top of the stack
    fn pop(&mut self, memory: &MemoryBus) -> (r: Result<u16, Fault>)
        requires
            memory.wf(),
        ensures
            match spec_pop(old(self).registers, memory.rom.data@, memory@) {
                Some((regs, value)) => r == Ok::<u16, Fault>(value) && *final(self) == (Cpu {
                    registers: regs,
                    ..*old(self)
                }),
                None => r is Err,
            },
    {
        if self.registers.sp.0 < 0xFF7E || self.registers.sp.0 > 0xFFFC {
            return Err(Fault::from_str("Stack pointer is outside high RAM"));
        }
        let value = memory.get16(self.registers.sp);
        // SP points to the LAST OCCUPIED slot, so we need to increment it to
        // "deallocate" the value we just popped.
        self.registers.sp = Address(self.registers.sp.0 + 2);
        Ok(value)
    }

    /// Execute a function call: push the address of the instruction after
    /// this one (`size` bytes long) and jump to `target`
    fn call(&mut self, memory: &mut MemoryBus, size: u16, target: Address, condition: Option<ConditionCode>) -> (r:
        Result<(), Fault>)
        requires
            old(memory).wf(),
            size <= 3,
        ensures
            final(memory).wf(),
            *final(memory).rom == *old(memory).rom,
            *final(final(memory).ram) == *final(old(memory).ram),
            *final(final(memory).vram) == *final(old(memory).vram),
            match spec_call(old(self).registers, old(memory)@, size, target, condition) {
                Some((regs, m)) => r is Ok && *final(self) == (Cpu { registers: regs, ..*old(self) })
                    && final(memory)@ == m,
                None => r is Err,
            },
    {
        if self.condition_holds(condition) {
            if self.registers.pc.0 as u32 + size as u32 > 0xFFFF {
                return Err(Fault::from_str("Return address is past the end of memory"));
            }
            let ret = self.registers.pc.0 + size;
            self.push(memory, ret)?;
            self.registers.pc = target;
        }
        Ok(())
    }

    /// Return from the current function
    fn ret(&mut self, memory: &MemoryBus, condition: Option<ConditionCode>) -> (r: Result<(), Fault>)
        requires
            memory.wf(),
        ensures
            match spec_ret(old(self).registers, memory.rom.data@, memory@, condition) {
                Some(regs) => r is Ok && *final(self) == (Cpu { registers: regs, ..*old(self) }),
                None => r is Err,
            },
    {
        if self.condition_holds(condition) {
            let address = self.pop(memory)?;
            self.registers.pc = Address(address);
        }
        Ok(())
    }
}


impl Cpu {
    /// Execute an `LD` instruction
    #[verifier::spinoff_prover]
    fn load(&mut self, memory: &mut MemoryBus, load: Load) -> (r: Result<(), Fault>)
        requires
            old(memory).wf(),
        ensures
            final(memory).wf(),
            *final(memory).rom == *old(memory).rom,
            *final(final(memory).ram) == *final(old(memory).ram),
            *final(final(memory).vram) == *final(old(memory).vram),
            match spec_load(old(self).registers, old(self).interrupts_enabled, old(memory).rom.data@, old(memory)@, load) {
                Some((regs, ime, m)) => r is Ok && *final(self) == (Cpu {
                    registers: regs,
                    interrupts_enabled: ime,
                    ..*old(self)
                }) && final(memory)@ == m,
                None => r is Err,
            },
    {
        match load {
            Load::AddressA { dest } => memory.set8(dest, self.registers.a),
            Load::AAddress { source } => {
                let value = memory.get8(source);
                self.registers.a = value;
            },
            Load::AddressSp { dest } => {
                if dest.0 == 0xFFFF {
                    return Err(Fault::from_str("16-bit write past the end of memory"));
                }
                memory.set16(dest, self.registers.sp.0);
            },
            Load::HlSpOffset { offset } => {
                let lhs = self.registers.sp.0;
                let (value, carry) = add_signed(lhs, offset);
                let offset16: u16 = if offset < 0 {
                    (65536i32 + offset as i32) as u16
                } else {
                    offset as u16
                };
                self.registers.set_hl(value);
                self.registers.set_flags(
                    BcdFlags { zero: false, subtract: false, half_carry: half_carry16(lhs, offset16, value), carry },
                );
            },
            Load::SpHl => self.registers.sp = Address(self.registers.hl()),
            Load::V8Const { dest, source } => self.store8(memory, dest, source),
            Load::V8V8 { dest, source } => {
                if matches!(dest, Value8::Hl) && matches!(source, Value8::Hl) {
                    // That's the opcode of HALT
                    return Err(Fault::from_str("LD [HL],[HL] is not an instruction"));
                }
                let value = self.value8(memory, source);
                self.store8(memory, dest, value);
            },
            Load::R16Const { dest, source } => self.set_register16(dest, source),
            Load::R16MemA { dest } => {
                let address = self.register16_mem(dest);
                memory.set8(Address(address), self.registers.a);
            },
            Load::AR16Mem { source } => {
                let address = self.register16_mem(source);
                let value = memory.get8(Address(address));
                self.registers.a = value;
            },
        }
        Ok(())
    }

    /// Execute an `LDH` instruction, which addresses `0xFF00 + n`
    #[verifier::spinoff_prover]
    fn load_high(&mut self, memory: &mut MemoryBus, load: LoadHigh)
        requires
            old(memory).wf(),
        ensures
            final(memory).wf(),
            *final(memory).rom == *old(memory).rom,
            *final(final(memory).ram) == *final(old(memory).ram),
            *final(final(memory).vram) == *final(old(memory).vram),
            ({
                let (regs, ime, m) = spec_load_high(
                    old(self).registers,
                    old(self).interrupts_enabled,
                    old(memory).rom.data@,
                    old(memory)@,
                    load,
                );
                &&& *final(self) == (Cpu { registers: regs, interrupts_enabled: ime, ..*old(self) })
                &&& final(memory)@ == m
            }),
    {
        match load {
            LoadHigh::AC => {
                let value = memory.get8(Address(0xFF00 + self.registers.c as u16));
                self.registers.a = value;
            },
            LoadHigh::AConst(source) => {
                let value = memory.get8(Address(0xFF00 + source as u16));
                self.registers.a = value;
            },
            LoadHigh::CA => memory.set8(Address(0xFF00 + self.registers.c as u16), self.registers.a),
            LoadHigh::ConstA(dest) => memory.set8(Address(0xFF00 + dest as u16), self.registers.a),
        }
    }

    /// Execute a `DEC` or `INC` instruction
    #[verifier::rlimit(40)]
    #[verifier::spinoff_prover]
    pub fn dec_inc(&mut self, memory: &mut MemoryBus, dec_inc: DecInc, subtract: bool)
        requires
            old(memory).wf(),
        ensures
            final(memory).wf(),
            *final(memory).rom == *old(memory).rom,
            *final(final(memory).ram) == *final(old(memory).ram),
            *final(final(memory).vram) == *final(old(memory).vram),
            ({
                let (regs, ime, m) = spec_dec_inc(
                    old(self).registers,
                    old(self).interrupts_enabled,
                    old(memory).rom.data@,
                    old(memory)@,
                    dec_inc,
                    subtract,
                );
                &&& *final(self) == (Cpu { registers: regs, interrupts_enabled: ime, ..*old(self) })
                &&& final(memory)@ == m
            }),
    {
        match dec_inc {
            DecInc::V8(dest) => self.dec_inc8(memory, dest, subtract),
            DecInc::R16(register) => {
                let value = self.register16(register);
                let out = if subtract {
                    if value == 0 {
                        0xFFFF
                    } else {
                        value - 1
                    }
                } else {
                    if value == 0xFFFF {
                        0
                    } else {
                        value + 1
                    }
                };
                // Does not affect BCD flags
                self.set_register16(register, out);
            },
        }
    }

    /// Execute an 8-bit `DEC` or `INC`, which keeps the carry flag
    #[verifier::spinoff_prover]
    #[verifier::rlimit(40)]
    fn dec_inc8(&mut self, memory: &mut MemoryBus, dest: Value8, subtract: bool)
        requires
            old(memory).wf(),
        ensures
            final(memory).wf(),
            *final(memory).rom == *old(memory).rom,
            *final(final(memory).ram) == *final(old(memory).ram),
            *final(final(memory).vram) == *final(old(memory).vram),
            ({
                let (regs, ime, m) = spec_dec_inc(
                    old(self).registers,
                    old(self).interrupts_enabled,
                    old(memory).rom.data@,
                    old(memory)@,
                    DecInc::V8(dest),
                    subtract,
                );
                &&& *final(self) == (Cpu { registers: regs, interrupts_enabled: ime, ..*old(self) })
                &&& final(memory)@ == m
            }),
    {
        let lhs = self.value8(memory, dest);
        let out: u8 = if subtract {
            if lhs == 0 {
                255
            } else {
                lhs - 1
            }
        } else {
            if lhs == 255 {
                0
            } else {
                lhs + 1
            }
        };
        let carry = self.registers.flags().carry;
        self.store8(memory, dest, out);
        let half_carry = if subtract {
            lhs % 16 == 0
        } else {
            lhs % 16 == 15
        };
        self.registers.set_flags(BcdFlags { zero: out == 0, subtract, half_carry, carry });
    }

    /// Execute an `ADD` instruction
    fn add(&mut self, memory: &MemoryBus, add: Add)
        requires
            memory.wf(),
        ensures
            *final(self) == (Cpu { registers: spec_add(old(self).registers, memory.rom.data@, memory@, add), ..*old(self) }),
    {
        match add {
            Add::A(operand) => {
                let rhs = self.operand(memory, operand);
                let (sum, flags) = add8(self.registers.a, rhs);
                self.registers.a = sum;
                self.registers.set_flags(flags);
            },
            Add::Hl(register) => {
                let rhs = self.register16(register);
                let lhs = self.registers.hl();
                let wide = lhs as u32 + rhs as u32;
                let new = (wide % 65536) as u16;
                self.registers.set_hl(new);
                self.registers.set_flags(
                    BcdFlags {
                        zero: new == 0,
                        subtract: false,
                        half_carry: half_carry16(lhs, rhs, new),
                        carry: wide > 65535,
                    },
                );
            },
            Add::Sp(rhs) => {
                let lhs = self.registers.sp.0;
                let (new, carry) = add_signed(lhs, rhs);
                self.registers.sp = Address(new);
                // Half-carry uses 8-bit rules here (bit 3->4). The offset is
                // forced positive first.
                let positive: i8 = if rhs < 0 {
                    -1 - rhs
                } else {
                    rhs
                };
                self.registers.set_flags(
                    BcdFlags {
                        // This is always false, even if the offset is negative
                        zero: new == 0,
                        subtract: false,
                        half_carry: half_carry8((lhs % 256) as u8, positive as u8, (new % 256) as u8),
                        carry,
                    },
                );
            },
        }
    }

    /// Execute a rotation or shift of an 8-bit register or of `[hl]`
    fn bit_unary(&mut self, memory: &mut MemoryBus, op: UnaryOp, dest: Value8)
        requires
            old(memory).wf(),
        ensures
            final(memory).wf(),
            *final(memory).rom == *old(memory).rom,
            *final(final(memory).ram) == *final(old(memory).ram),
            *final(final(memory).vram) == *final(old(memory).vram),
            ({
                let (regs, ime, m) = spec_unary_v8(
                    old(self).registers,
                    old(self).interrupts_enabled,
                    old(memory).rom.data@,
                    old(memory)@,
                    op,
                    dest,
                );
                &&& *final(self) == (Cpu { registers: regs, interrupts_enabled: ime, ..*old(self) })
                &&& final(memory)@ == m
            }),
    {
        let value = self.value8(memory, dest);
        let (new, carry) = unary(op, value, self.registers.flags().carry);
        self.store8(memory, dest, new);
        self.registers.set_flags(BcdFlags { zero: new == 0, subtract: false, half_carry: false, carry });
    }

    /// Execute a rotation of `a` (`RLA`, `RLCA`, `RRA`, `RRCA`)
    fn unary_a(&mut self, op: UnaryOp)
        ensures
            *final(self) == (Cpu { registers: spec_unary_a(old(self).registers, op), ..*old(self) }),
    {
        let (new, carry) = unary(op, self.registers.a, self.registers.flags().carry);
        self.registers.a = new;
        self.registers.set_flags(BcdFlags { zero: false, subtract: false, half_carry: false, carry });
    }

    /// Execute a `SET` or `RES` instruction
    ///
    /// These instructions do not modify any flags.
    fn bit_set(&mut self, memory: &mut MemoryBus, bit: Bit, dest: Value8, value: bool)
        requires
            old(memory).wf(),
            bit.wf(),
        ensures
            final(memory).wf(),
            *final(memory).rom == *old(memory).rom,
            *final(final(memory).ram) == *final(old(memory).ram),
            *final(final(memory).vram) == *final(old(memory).vram),
            ({
                let (regs, m) = spec_store8(
                    old(self).registers,
                    old(memory)@,
                    dest,
                    spec_bit_set(spec_value8(old(self).registers, old(memory).rom.data@, old(memory)@, dest), bit.0, value),
                );
                &&& *final(self) == (Cpu { registers: regs, ..*old(self) })
                &&& final(memory)@ == m
            }),
    {
        let current = self.value8(memory, dest);
        self.store8(memory, dest, bit.set(current, value));
    }
}


impl Cpu {
    /// Execute a single CPU instruction
    ///
    /// On a fault the CPU and memory are left in an unspecified state.
    #[verifier::spinoff_prover]
    pub fn execute(&mut self, memory: &mut MemoryBus, instruction: Instruction) -> (r: Result<(), Fault>)
        requires
            old(memory).wf(),
            instruction_ok(instruction),
        ensures
            final(memory).wf(),
            *final(memory).rom == *old(memory).rom,
            *final(final(memory).ram) == *final(old(memory).ram),
            *final(final(memory).vram) == *final(old(memory).vram),
            match spec_execute(
                old(self).registers,
                old(self).interrupts_enabled,
                old(memory).rom.data@,
                old(memory)@,
                instruction,
            ) {
                Some((regs, ime, m)) => r is Ok && *final(self) == (Cpu {
                    registers: regs,
                    interrupts_enabled: ime,
                    ..*old(self)
                }) && final(memory)@ == m,
                None => r is Err,
            },
    {
        if is_alu_op(instruction) {
            self.execute_alu(memory, instruction)
        } else if is_bit_instruction(instruction) {
            self.execute_bits(memory, instruction)
        } else if is_load_op(instruction) {
            self.execute_load(memory, instruction)
        } else {
            self.execute_control(memory, instruction)
        }
    }

    /// Execute arithmetic and logic instructions
    /// Execute an `ADC` instruction: add the operand plus the carry flag to `a`
    fn add_carry(&mut self, memory: &MemoryBus, rhs: Operand)
        requires
            memory.wf(),
        ensures
            spec_execute(old(self).registers, old(self).interrupts_enabled, memory.rom.data@, memory@, Instruction::Adc(rhs))
                == Some((final(self).registers, old(self).interrupts_enabled, memory@)),
            *final(self) == (Cpu { registers: final(self).registers, ..*old(self) }),
    {
        let rhs = self.operand(memory, rhs);
        let (sum, flags) = adc8(self.registers.a, rhs, self.registers.flags().carry);
        self.registers.a = sum;
        self.registers.set_flags(flags);
    }

    /// Execute an `AND` instruction
    fn and(&mut self, memory: &MemoryBus, rhs: Operand)
        requires
            memory.wf(),
        ensures
            spec_execute(old(self).registers, old(self).interrupts_enabled, memory.rom.data@, memory@, Instruction::And(rhs))
                == Some((final(self).registers, old(self).interrupts_enabled, memory@)),
            *final(self) == (Cpu { registers: final(self).registers, ..*old(self) }),
    {
        let value = self.registers.a & self.operand(memory, rhs);
        self.registers.a = value;
        self.registers.set_flags(BcdFlags { zero: value == 0, subtract: false, half_carry: true, carry: false });
    }

    /// Execute a `CCF` instruction: complement the carry flag
    fn complement_carry(&mut self)
        ensures
            forall|rom: Seq<u8>, m: BusView|
                spec_execute(old(self).registers, old(self).interrupts_enabled, rom, m, Instruction::Ccf)
                    == Some((final(self).registers, old(self).interrupts_enabled, m)),
            *final(self) == (Cpu { registers: final(self).registers, ..*old(self) }),
    {
        let flags = self.registers.flags();
        self.registers.set_flags(
            BcdFlags { zero: flags.zero, subtract: false, half_carry: false, carry: !flags.carry },
        );
    }

    /// Execute a `CP` instruction: set the flags of `a - operand` without keeping it
    fn compare(&mut self, memory: &MemoryBus, rhs: Operand)
        requires
            memory.wf(),
        ensures
            spec_execute(old(self).registers, old(self).interrupts_enabled, memory.rom.data@, memory@, Instruction::Cp(rhs))
                == Some((final(self).registers, old(self).interrupts_enabled, memory@)),
            *final(self) == (Cpu { registers: final(self).registers, ..*old(self) }),
    {
        let rhs = self.operand(memory, rhs);
        let (_, flags) = sub8(self.registers.a, rhs);
        self.registers.set_flags(flags);
    }

    /// Execute a `CPL` instruction: complement `a`
    fn complement(&mut self)
        ensures
            forall|rom: Seq<u8>, m: BusView|
                spec_execute(old(self).registers, old(self).interrupts_enabled, rom, m, Instruction::Cpl)
                    == Some((final(self).registers, old(self).interrupts_enabled, m)),
            *final(self) == (Cpu { registers: final(self).registers, ..*old(self) }),
    {
        self.registers.a = 255 - self.registers.a;
        let flags = self.registers.flags();
        self.registers.set_flags(
            BcdFlags { zero: flags.zero, subtract: true, half_carry: true, carry: flags.carry },
        );
    }

    /// Execute a `DAA` instruction
    fn decimal_adjust(&mut self)
        ensures
            forall|rom: Seq<u8>, m: BusView|
                spec_execute(old(self).registers, old(self).interrupts_enabled, rom, m, Instruction::Daa)
                    == Some((final(self).registers, old(self).interrupts_enabled, m)),
            *final(self) == (Cpu { registers: final(self).registers, ..*old(self) }),
    {
        let (a, flags) = daa(self.registers.a, self.registers.flags());
        self.registers.a = a;
        self.registers.set_flags(flags);
    }

    /// Execute an `OR` instruction
    fn or(&mut self, memory: &MemoryBus, rhs: Operand)
        requires
            memory.wf(),
        ensures
            spec_execute(old(self).registers, old(self).interrupts_enabled, memory.rom.data@, memory@, Instruction::Or(rhs))
                == Some((final(self).registers, old(self).interrupts_enabled, memory@)),
            *final(self) == (Cpu { registers: final(self).registers, ..*old(self) }),
    {
        let value = self.registers.a | self.operand(memory, rhs);
        self.registers.a = value;
        self.registers.set_flags(BcdFlags { zero: value == 0, subtract: false, half_carry: false, carry: false });
    }

    /// Execute an `SBC` instruction: subtract the operand plus the carry flag from `a`
    fn subtract_carry(&mut self, memory: &MemoryBus, rhs: Operand)
        requires
            memory.wf(),
        ensures
            spec_execute(old(self).registers, old(self).interrupts_enabled, memory.rom.data@, memory@, Instruction::Sbc(rhs))
                == Some((final(self).registers, old(self).interrupts_enabled, memory@)),
            *final(self) == (Cpu { registers: final(self).registers, ..*old(self) }),
    {
        let rhs = self.operand(memory, rhs);
        let (difference, flags) = sbc8(self.registers.a, rhs, self.registers.flags().carry);
        self.registers.a = difference;
        self.registers.set_flags(flags);
    }

    /// Execute an `SCF` instruction: set the carry flag
    fn set_carry(&mut self)
        ensures
            forall|rom: Seq<u8>, m: BusView|
                spec_execute(old(self).registers, old(self).interrupts_enabled, rom, m, Instruction::Scf)
                    == Some((final(self).registers, old(self).interrupts_enabled, m)),
            *final(self) == (Cpu { registers: final(self).registers, ..*old(self) }),
    {
        let flags = self.registers.flags();
        self.registers.set_flags(BcdFlags { zero: flags.zero, subtract: false, half_carry: false, carry: true });
    }

    /// Execute a `SUB` instruction
    fn subtract(&mut self, memory: &MemoryBus, rhs: Operand)
        requires
            memory.wf(),
        ensures
            spec_execute(old(self).registers, old(self).interrupts_enabled, memory.rom.data@, memory@, Instruction::Sub(rhs))
                == Some((final(self).registers, old(self).interrupts_enabled, memory@)),
            *final(self) == (Cpu { registers: final(self).registers, ..*old(self) }),
    {
        let rhs = self.operand(memory, rhs);
        let (difference, flags) = sub8(self.registers.a, rhs);
        self.registers.a = difference;
        self.registers.set_flags(flags);
    }

    /// Execute an `XOR` instruction
    fn xor(&mut self, memory: &MemoryBus, rhs: Operand)
        requires
            memory.wf(),
        ensures
            spec_execute(old(self).registers, old(self).interrupts_enabled, memory.rom.data@, memory@, Instruction::Xor(rhs))
                == Some((final(self).registers, old(self).interrupts_enabled, memory@)),
            *final(self) == (Cpu { registers: final(self).registers, ..*old(self) }),
    {
        let value = self.registers.a ^ self.operand(memory, rhs);
        self.registers.a = value;
        self.registers.set_flags(BcdFlags { zero: value == 0, subtract: false, half_carry: false, carry: false });
    }

    #[verifier::spinoff_prover]

    fn execute_alu(&mut self, memory: &mut MemoryBus, instruction: Instruction) -> (r: Result<(), Fault>)
        requires
            old(memory).wf(),
            instruction_ok(instruction),
            is_alu(instruction),
        ensures
            final(memory).wf(),
            *final(memory).rom == *old(memory).rom,
            *final(final(memory).ram) == *final(old(memory).ram),
            *final(final(memory).vram) == *final(old(memory).vram),
            match spec_execute(
                old(self).registers,
                old(self).interrupts_enabled,
                old(memory).rom.data@,
                old(memory)@,
                instruction,
            ) {
                Some((regs, ime, m)) => r is Ok && *final(self) == (Cpu {
                    registers: regs,
                    interrupts_enabled: ime,
                    ..*old(self)
                }) && final(memory)@ == m,
                None => r is Err,
            },
    {
        match instruction {
            Instruction::Adc(rhs) => self.add_carry(memory, rhs),
            Instruction::Add(add) => self.add(memory, add),
            Instruction::And(rhs) => self.and(memory, rhs),
            Instruction::Ccf => self.complement_carry(),
            Instruction::Cp(rhs) => self.compare(memory, rhs),
            Instruction::Cpl => self.complement(),
            Instruction::Daa => self.decimal_adjust(),
            Instruction::Or(rhs) => self.or(memory, rhs),
            Instruction::Sbc(rhs) => self.subtract_carry(memory, rhs),
            Instruction::Scf => self.set_carry(),
            Instruction::Sub(rhs) => self.subtract(memory, rhs),
            Instruction::Xor(rhs) => self.xor(memory, rhs),
            _ => {},
        }
        Ok(())
    }

    /// Execute bit tests, bit updates, rotations and shifts
    #[verifier::rlimit(60)]
    fn execute_bits(&mut self, memory: &mut MemoryBus, instruction: Instruction) -> (r: Result<(), Fault>)
        requires
            old(memory).wf(),
            instruction_ok(instruction),
            is_bit_op(instruction),
        ensures
            final(memory).wf(),
            *final(memory).rom == *old(memory).rom,
            *final(final(memory).ram) == *final(old(memory).ram),
            *final(final(memory).vram) == *final(old(memory).vram),
            match spec_execute(
                old(self).registers,
                old(self).interrupts_enabled,
                old(memory).rom.data@,
                old(memory)@,
                instruction,
            ) {
                Some((regs, ime, m)) => r is Ok && *final(self) == (Cpu {
                    registers: regs,
                    interrupts_enabled: ime,
                    ..*old(self)
                }) && final(memory)@ == m,
                None => r is Err,
            },
    {
        match instruction {
            Instruction::Bit(bit, source) => {
                let value = self.value8(memory, source);
                let flags = self.registers.flags();
                self.registers.set_flags(
                    BcdFlags {
                        zero: !bit.get(value),
                        // These two flags are hard-coded
                        subtract: false,
                        half_carry: true,
                        // This flag retains its value
                        carry: flags.carry,
                    },
                );
            },
            Instruction::Res(bit, dest) => self.bit_set(memory, bit, dest, false),
            Instruction::Rl(dest) => self.bit_unary(memory, UnaryOp::Rl, dest),
            Instruction::Rla => self.unary_a(UnaryOp::Rl),
            Instruction::Rlc(dest) => self.bit_unary(memory, UnaryOp::Rlc, dest),
            Instruction::Rlca => self.unary_a(UnaryOp::Rlc),
            Instruction::Rr(dest) => self.bit_unary(memory, UnaryOp::Rr, dest),
            Instruction::Rra => self.unary_a(UnaryOp::Rr),
            Instruction::Rrc(dest) => self.bit_unary(memory, UnaryOp::Rrc, dest),
            Instruction::Rrca => self.unary_a(UnaryOp::Rrc),
            Instruction::SetBit(bit, dest) => self.bit_set(memory, bit, dest, true),
            Instruction::Sla(dest) => self.bit_unary(memory, UnaryOp::Sla, dest),
            Instruction::Sra(dest) => self.bit_unary(memory, UnaryOp::Sra, dest),
            Instruction::Srl(dest) => self.bit_unary(memory, UnaryOp::Srl, dest),
            Instruction::Swap(dest) => self.bit_unary(memory, UnaryOp::Swap, dest),
            _ => {},
        }
        Ok(())
    }

    /// Execute loads, increments and decrements
    #[verifier::spinoff_prover]
    fn execute_load(&mut self, memory: &mut MemoryBus, instruction: Instruction) -> (r: Result<(), Fault>)
        requires
            old(memory).wf(),
            instruction_ok(instruction),
            is_load(instruction),
        ensures
            final(memory).wf(),
            *final(memory).rom == *old(memory).rom,
            *final(final(memory).ram) == *final(old(memory).ram),
            *final(final(memory).vram) == *final(old(memory).vram),
            match spec_execute(
                old(self).registers,
                old(self).interrupts_enabled,
                old(memory).rom.data@,
                old(memory)@,
                instruction,
            ) {
                Some((regs, ime, m)) => r is Ok && *final(self) == (Cpu {
                    registers: regs,
                    interrupts_enabled: ime,
                    ..*old(self)
                }) && final(memory)@ == m,
                None => r is Err,
            },
    {
        match instruction {
            Instruction::Dec(dec_inc) => self.dec_inc(memory, dec_inc, true),
            Instruction::Inc(dec_inc) => self.dec_inc(memory, dec_inc, false),
            Instruction::Ld(load) => self.load(memory, load)?,
            Instruction::Ldh(load) => self.load_high(memory, load),
            _ => {},
        }
        Ok(())
    }

    /// Execute jumps, calls, returns, stack and control instructions
    #[verifier::spinoff_prover]
    fn execute_control(&mut self, memory: &mut MemoryBus, instruction: Instruction) -> (r: Result<(), Fault>)
        requires
            old(memory).wf(),
            instruction_ok(instruction),
            !is_alu(instruction) && !is_bit_op(instruction) && !is_load(instruction),
        ensures
            final(memory).wf(),
            *final(memory).rom == *old(memory).rom,
            *final(final(memory).ram) == *final(old(memory).ram),
            *final(final(memory).vram) == *final(old(memory).vram),
            match spec_execute(
                old(self).registers,
                old(self).interrupts_enabled,
                old(memory).rom.data@,
                old(memory)@,
                instruction,
            ) {
                Some((regs, ime, m)) => r is Ok && *final(self) == (Cpu {
                    registers: regs,
                    interrupts_enabled: ime,
                    ..*old(self)
                }) && final(memory)@ == m,
                None => r is Err,
            },
    {
        match instruction {
            // CALL instruction is 3 bytes
            Instruction::Call { address, condition } => self.call(memory, 3, address, condition)?,
            Instruction::Di => self.interrupts_enabled = false,
            Instruction::Ei => self.interrupts_enabled = true,
            Instruction::Halt => return Err(Fault::from_str("HALT is not supported")),
            Instruction::Jp(jump) => match jump {
                Jump::Address(address) => self.registers.pc = address,
                Jump::AddressCc(condition, address) => {
                    if self.condition(condition) {
                        self.registers.pc = address;
                    }
                },
                Jump::Hl => self.registers.pc = Address(self.registers.hl()),
            },
            Instruction::Jr { offset, condition } => {
                if self.condition_holds(condition) {
                    // Offset is relative to the instruction *after* the jump,
                    // and this instruction is always 2 bytes
                    let target = self.registers.pc.0 as i32 + offset as i32;
                    if target < 0 || target + 2 > 0xFFFF {
                        return Err(Fault::from_str("Relative jump outside memory"));
                    }
                    self.registers.pc = Address((target + 2) as u16);
                }
            },
            Instruction::Nop => {},
            Instruction::Pop(register) => {
                let value = self.pop(memory)?;
                self.set_register16_stack(register, value);
            },
            Instruction::Push(register) => {
                let value = self.register16_stack(register);
                self.push(memory, value)?;
            },
            Instruction::Ret(condition) => self.ret(memory, condition)?,
            Instruction::Reti => {
                self.ret(memory, None)?;
                self.interrupts_enabled = true;
            },
            Instruction::Rst(address) => self.call(memory, 1, address, None)?,
            // STOP is hard
            // https://gbdev.io/pandocs/Reducing_Power_Consumption.html
            Instruction::Stop => return Err(Fault::from_str("STOP is not supported")),
            // An undefined opcode does nothing
            Instruction::Invalid => {},
            _ => {},
        }
        Ok(())
    }

    /// How many CPU cycles will this instruction take to execute?
    ///
    /// Conditional jumps, calls and returns take longer when they are taken,
    /// which depends on the current flags.
    #[verifier::spinoff_prover]
    pub fn cycles(&self, instruction: Instruction) -> (r: Result<Cycles, Fault>)
        ensures
            match spec_cycles(instruction, self.registers.spec_flags()) {
                Some(c) => r == Ok::<Cycles, Fault>(Cycles(c)),
                None => r is Err,
            },
    {
        let cycles: u64 = match instruction {
            Instruction::Adc(operand) | Instruction::Add(Add::A(operand)) | Instruction::And(operand)
            | Instruction::Cp(operand) | Instruction::Or(operand) | Instruction::Sbc(operand)
            | Instruction::Sub(operand) | Instruction::Xor(operand) => match operand {
                Operand::V8(Value8::Register(_)) => 1,
                _ => 2,
            },
            Instruction::Add(Add::Hl(_)) => 2,
            Instruction::Add(Add::Sp(_)) => 4,
            Instruction::Bit(_, value) => match value {
                Value8::Register(_) => 2,
                Value8::Hl => 3,
            },
            // 6 if the call is made
            Instruction::Call { condition, .. } => if self.condition_holds(condition) {
                6
            } else {
                3
            },
            Instruction::Ccf | Instruction::Cpl | Instruction::Daa | Instruction::Di | Instruction::Ei
            | Instruction::Nop | Instruction::Rla | Instruction::Rlca | Instruction::Rra
            | Instruction::Rrca | Instruction::Scf => 1,
            Instruction::Dec(dec_inc) | Instruction::Inc(dec_inc) => match dec_inc {
                DecInc::V8(Value8::Register(_)) => 1,
                DecInc::V8(Value8::Hl) => 3,
                DecInc::R16(_) => 2,
            },
            Instruction::Halt | Instruction::Stop => {
                return Err(Fault::from_str("HALT and STOP are not supported"));
            },
            Instruction::Jp(jump) => match jump {
                // 3 if the jump is NOT taken
                Jump::AddressCc(condition, _) => if self.condition(condition) {
                    4
                } else {
                    3
                },
                Jump::Address(_) => 4,
                Jump::Hl => 1,
            },
            Instruction::Jr { condition, .. } => if self.condition_holds(condition) {
                3
            } else {
                2
            },
            Instruction::Ld(load) => match load {
                Load::AddressA { .. } | Load::AAddress { .. } => 4,
                Load::AddressSp { .. } => 5,
                Load::HlSpOffset { .. } => 3,
                Load::SpHl => 2,
                Load::V8Const { dest, .. } => match dest {
                    Value8::Register(_) => 2,
                    Value8::Hl => 3,
                },
                Load::V8V8 { dest, source } => match (dest, source) {
                    (Value8::Register(_), Value8::Register(_)) => 1,
                    (Value8::Hl, Value8::Hl) => {
                        return Err(Fault::from_str("LD [HL],[HL] is not an instruction"));
                    },
                    _ => 2,
                },
                Load::R16Const { .. } => 3,
                Load::R16MemA { .. } | Load::AR16Mem { .. } => 2,
            },
            Instruction::Ldh(load) => match load {
                LoadHigh::AC | LoadHigh::CA => 2,
                LoadHigh::AConst(_) | LoadHigh::ConstA(_) => 3,
            },
            Instruction::Pop(_) => 3,
            Instruction::Push(_) => 4,
            Instruction::Res(_, value) | Instruction::SetBit(_, value) | Instruction::Rl(value)
            | Instruction::Rlc(value) | Instruction::Rr(value) | Instruction::Rrc(value)
            | Instruction::Sla(value) | Instruction::Sra(value) | Instruction::Srl(value)
            | Instruction::Swap(value) => match value {
                Value8::Register(_) => 2,
                Value8::Hl => 4,
            },
            Instruction::Ret(None) | Instruction::Reti => 4,
            Instruction::Ret(Some(condition)) => if self.condition(condition) {
                5
            } else {
                2
            },
            Instruction::Rst(_) => 4,
            Instruction::Invalid => 0,
        };
        Ok(Cycles(cycles))
    }
}


/// Can the instruction at the program counter be loaded? It must lie in the
/// code being run, be complete, and be one the emulator supports.
pub open spec fn spec_fetch_ok(regs: Registers, rom: Seq<u8>, bank: u8) -> bool {
    let source = code_source(rom, bank);
    let a = regs.pc.0 as int;
    &&& a <= 0x7FFF
    &&& a <= source.len()
    &&& !decode_truncated(source.skip(a))
    &&& forall|i: Instruction, n: nat|
        decodes_to(source.skip(a), i, n) ==> spec_cycles(i, regs.spec_flags()) is Some
}

/// Is `info` the instruction at the program counter, loaded at clock cycle
/// `now`?
pub open spec fn loaded(info: InstructionInfo, regs: Registers, rom: Seq<u8>, bank: u8, now: int) -> bool {
    let source = code_source(rom, bank);
    &&& decodes_to(source.skip(regs.pc.0 as int), info.instruction, info.size as nat)
    &&& spec_cycles(info.instruction, regs.spec_flags()) == Some(info.duration.0)
    &&& info.end.0 == now + info.duration.0
}

/// The state after executing the loaded instruction: when the instruction
/// did not move the program counter, it advances past the instruction
pub open spec fn spec_step(cpu: Cpu, rom: Seq<u8>, m: BusView) -> Option<(Registers, bool, BusView)> {
    let current = cpu.current_instruction;
    match spec_execute(cpu.registers, cpu.interrupts_enabled, rom, m, current.instruction) {
        Some((regs, ime, m2)) => if regs.pc == cpu.registers.pc {
            if cpu.registers.pc.0 + current.size > 0xFFFF {
                None
            } else {
                Some((Registers { pc: Address((cpu.registers.pc.0 + current.size) as u16), ..regs }, ime, m2))
            }
        } else {
            Some((regs, ime, m2))
        },
        None => None,
    }
}

/// What a CPU tick at clock cycle `now` does, from state `old` and memory
/// `m_old` to `new` and `m_new`, succeeding when `ok`
///
/// Before the loaded instruction's end nothing happens. From then on, the
/// instruction is executed and the next one is loaded.
#[verifier::opaque]
pub open spec fn spec_tick(old: Cpu, new: Cpu, rom: Seq<u8>, m_old: BusView, m_new: BusView, now: int, ok: bool) -> bool {
    if now < old.current_instruction.end.0 {
        ok && new == old && m_new == m_old
    } else {
        match spec_step(old, rom, m_old) {
            Some((regs, ime, m)) => {
                &&& m_new == m
                &&& ok <==> spec_fetch_ok(regs, rom, m.0.3)
                &&& ok ==> new.registers == regs && new.interrupts_enabled == ime
                    && new.previous_instruction == Some(old.current_instruction) && loaded(
                    new.current_instruction,
                    regs,
                    rom,
                    m.0.3,
                    now,
                )
            },
            None => !ok,
        }
    }
}

/// A CPU tick is determined by the state it starts from: whether it
/// succeeds, and on success the CPU and memory it leaves.
pub proof fn lemma_tick_determined(
    old: Cpu,
    new1: Cpu,
    new2: Cpu,
    rom: Seq<u8>,
    m: BusView,
    m1: BusView,
    m2: BusView,
    now: int,
    ok1: bool,
    ok2: bool,
)
    requires
        spec_tick(old, new1, rom, m, m1, now, ok1),
        spec_tick(old, new2, rom, m, m2, now, ok2),
    ensures
        ok1 == ok2,
        ok1 ==> new1 == new2 && m1 == m2,
{
    reveal(spec_tick);
    if now >= old.current_instruction.end.0 {
        if let Some((regs, ime, m3)) = spec_step(old, rom, m) {
            if ok1 && ok2 {
                let source = code_source(rom, m3.0.3).skip(regs.pc.0 as int);
                let (c1, c2) = (new1.current_instruction, new2.current_instruction);
                lemma_decode_unique(source, c1.instruction, c1.size as nat, c2.instruction, c2.size as nat);
                assert(c1 == c2);
            }
        }
    }
}

impl Cpu {
    /// A CPU at power-on: registers zeroed, interrupts disabled, and the
    /// instruction at address 0 loaded
    #[verifier::spinoff_prover]
    pub fn new(memory: &MemoryBus) -> (r: Result<Cpu, Fault>)
        requires
            memory.wf(),
        ensures
            ({
                let regs = Registers::spec_new();
                let bank = memory.spec_ram().bank;
                &&& r is Ok <==> spec_fetch_ok(regs, memory.rom.data@, bank)
                &&& r matches Ok(cpu) ==> cpu.registers == regs && !cpu.interrupts_enabled
                    && cpu.previous_instruction is None && cpu.wf() && loaded(
                    cpu.current_instruction,
                    regs,
                    memory.rom.data@,
                    bank,
                    0,
                )
            }),
    {
        let mut cpu = Self::power_on();
        cpu.load_instruction(memory, 0)?;
        Ok(cpu)
    }

    /// A CPU at power-on, before any instruction is loaded: registers zeroed,
    /// interrupts disabled, and a `NOP` placeholder
    pub fn power_on() -> (r: Cpu)
        ensures
            r.registers == Registers::spec_new(),
            !r.interrupts_enabled,
            r.previous_instruction is None,
            r.current_instruction == (InstructionInfo {
                instruction: Instruction::Nop,
                duration: Cycles(0),
                end: Cycles(0),
                size: 0,
            }),
    {
        Cpu {
            registers: Registers::new(),
            interrupts_enabled: false,
            current_instruction: InstructionInfo {
                instruction: Instruction::Nop,
                duration: Cycles(0),
                end: Cycles(0),
                size: 0,
            },
            previous_instruction: None,
        }
    }

    /// Load the instruction at the program counter, to be executed once its
    /// duration has elapsed from clock cycle `now`
    fn load_instruction(&mut self, memory: &MemoryBus, now: u64) -> (r: Result<(), Fault>)
        requires
            memory.wf(),
            now + 6 <= u64::MAX,
        ensures
            ({
                let bank = memory.spec_ram().bank;
                &&& r is Ok <==> spec_fetch_ok(old(self).registers, memory.rom.data@, bank)
                &&& r is Ok ==> *final(self) == (Cpu {
                    current_instruction: final(self).current_instruction,
                    ..*old(self)
                }) && final(self).wf() && loaded(
                    final(self).current_instruction,
                    old(self).registers,
                    memory.rom.data@,
                    bank,
                    now as int,
                )
            }),
    {
        let ghost source = code_source(memory.rom.data@, memory.spec_ram().bank);
        let ghost a = self.registers.pc.0 as int;
        match memory.fetch_instruction(self.registers.pc) {
            Ok((instruction, size)) => {
                proof {
                    assert forall|i: Instruction, n: nat| decodes_to(source.skip(a), i, n) implies i == instruction by {
                        lemma_decode_unique(source.skip(a), i, n, instruction, size as nat);
                    }
                }
                let duration = self.cycles(instruction)?;
                self.current_instruction = InstructionInfo {
                    instruction,
                    duration,
                    end: Cycles(now + duration.0),
                    size,
                };
                Ok(())
            },
            Err(FetchError::OutOfRange { .. }) => Err(Fault::from_str("Instruction fetch outside the code being run")),
            Err(FetchError::Truncated(_)) => Err(Fault::from_str("Instruction runs past the end of the code")),
        }
    }

    /// Advance the CPU one clock cycle
    ///
    /// Once the loaded instruction's duration has elapsed it is executed and
    /// the next instruction is loaded; on other cycles nothing happens.
    #[verifier::spinoff_prover]
    pub fn tick(&mut self, clock: &Clock, memory: &mut MemoryBus) -> (r: Result<(), Fault>)
        requires
            old(memory).wf(),
            old(self).wf(),
            clock.cycles.0 + 6 <= u64::MAX,
        ensures
            final(memory).wf(),
            *final(memory).rom == *old(memory).rom,
            *final(final(memory).ram) == *final(old(memory).ram),
            *final(final(memory).vram) == *final(old(memory).vram),
            r is Ok ==> final(self).wf(),
            spec_tick(
                *old(self),
                *final(self),
                old(memory).rom.data@,
                old(memory)@,
                final(memory)@,
                clock.cycles.0 as int,
                r is Ok,
            ),
    {
        reveal(spec_tick);
        let current = self.current_instruction;
        if clock.cycles.0 < current.end.0 {
            return Ok(());
        }
        let pc = self.registers.pc;
        self.execute(memory, current.instruction)?;
        // If the instruction didn't modify the PC (e.g. jumps), then advance
        // it automatically
        if self.registers.pc == pc {
            if pc.0 as u32 + current.size as u32 > 0xFFFF {
                return Err(Fault::from_str("Program counter ran past the end of memory"));
            }
            self.registers.pc = Address(pc.0 + current.size);
        }
        self.previous_instruction = Some(current);
        self.load_instruction(memory, clock.cycles.0)
    }

    /// Get the CPU registers
    pub fn registers(&self) -> (r: &Registers)
        ensures
            *r == self.registers,
    {
        &self.registers
    }

    /// The instruction waiting to be executed
    pub fn current_instruction(&self) -> (r: InstructionInfo)
        ensures
            r == self.current_instruction,
    {
        self.current_instruction
    }

    /// The most recently executed instruction
    pub fn previous_instruction(&self) -> (r: Option<InstructionInfo>)
        ensures
            r == self.previous_instruction,
    {
        self.previous_instruction
    }

    /// Is the interrupt master enable flag set?
    pub fn interrupts_enabled(&self) -> (r: bool)
        ensures
            r == self.interrupts_enabled,
    {
        self.interrupts_enabled
    }

    /// Get debug info about the CPU
    ///
    /// This is a read-only summary of current CPU state for the debugger. This
    /// needs the memory bus to load the next instruction from memory, which
    /// must be there and be one the emulator supports.
    pub fn debug_info(&self, memory: &MemoryBus) -> (r: CpuDebugInfo)
        requires
            memory.wf(),
            spec_fetch_ok(self.registers, memory.rom.data@, memory.spec_ram().bank),
        ensures
            decodes_to(
                code_source(memory.rom.data@, memory.spec_ram().bank).skip(self.registers.pc.0 as int),
                r.next_instruction.0,
                r.next_instruction.2 as nat,
            ),
            spec_cycles(r.next_instruction.0, self.registers.spec_flags()) == Some(r.next_instruction.1.0),
            r.a == self.registers.a && r.f == self.registers.f.value && r.b == self.registers.b
                && r.c == self.registers.c && r.d == self.registers.d && r.e == self.registers.e
                && r.h == self.registers.h && r.l == self.registers.l,
            r.af == self.registers.spec_af() && r.bc == self.registers.spec_bc()
                && r.de == self.registers.spec_de() && r.hl == self.registers.spec_hl(),
            r.pc == self.registers.pc && r.sp == self.registers.sp,
            r.interrupts_enabled == self.interrupts_enabled,
            r.previous_instruction == self.previous_instruction,
    {
        let (instruction, size) = memory.get_instruction(self.registers.pc);
        let duration = match self.cycles(instruction) {
            Ok(duration) => duration,
            Err(_) => vstd::pervasive::unreached(),
        };
        let reg = &self.registers;
        CpuDebugInfo {
            a: reg.a,
            f: reg.f.value,
            af: reg.af(),
            b: reg.b,
            c: reg.c,
            bc: reg.bc(),
            d: reg.d,
            e: reg.e,
            de: reg.de(),
            h: reg.h,
            l: reg.l,
            hl: reg.hl(),
            pc: reg.pc,
            sp: reg.sp,
            interrupts_enabled: self.interrupts_enabled,
            previous_instruction: self.previous_instruction,
            next_instruction: (instruction, duration, size),
        }
    }
}

} // verus!
