//! ROM contents and instruction decoding
//!
//! Decoding reads an opcode byte as the fields `x` (bits 7-6), `y` (bits 5-3)
//! and `z` (bits 2-0), with `y` split further into `p` (bits 5-4) and `q`
//! (bit 3). https://gbdev.io/pandocs/CPU_Instruction_Set.html

use vstd::prelude::*;
use crate::emu::instruction::{
    law_encode_injective, law_read_encoding,
    Add, ConditionCode, DecInc, Instruction, Jump, Load, LoadHigh, Operand, Register16,
    Register16Memory, Register16Stack, Register8, Value8, cond_code, encode, encode_alu,
    i8_byte, instruction_len, is_encodable, is_invalid_opcode, hi, lo, r16_code, r16mem_code,
    r16stk_code, r8_code,
};
use crate::emu::memory::Address;
use crate::emu::instruction::text::{address_text, decimal_text, push_address_text, push_char, push_decimal_text};
use crate::util::{Bit, BytesDisplayMode, byte_list_text, push_byte_list};

verus! {

/// Does `bytes` begin with the machine code of `i`, which is `n` bytes long?
///
/// An undefined opcode reads as the one-byte [Instruction::Invalid].
pub open spec fn decodes_to(bytes: Seq<u8>, i: Instruction, n: nat) -> bool {
    &&& bytes.len() > 0
    &&& if is_invalid_opcode(bytes[0]) {
        i == Instruction::Invalid && n == 1
    } else {
        &&& is_encodable(i)
        &&& encode(i).len() == n
        &&& n <= bytes.len()
        &&& bytes.take(n as int) =~= encode(i)
    }
}

/// Is `bytes` too short to hold the instruction it begins with?
pub open spec fn decode_truncated(bytes: Seq<u8>) -> bool {
    bytes.len() == 0 || (!is_invalid_opcode(bytes[0]) && bytes.len() < instruction_len(bytes[0]))
}

/// Contract shared by the decoding functions, over the input from `at` on
pub open spec fn decode_result(
    source: Seq<u8>,
    at: int,
    r: Result<(Instruction, usize), RomParseError>,
) -> bool {
    let bytes = source.skip(at);
    &&& r is Err <==> decode_truncated(bytes)
    &&& r matches Ok((i, n)) ==> decodes_to(bytes, i, n as nat)
    &&& r matches Err(e) ==> e.offset == at && e.needed == (if bytes.len() == 0 {
        1
    } else {
        instruction_len(bytes[0])
    }) && e.available == bytes.len()
}

/// A GameBoy ROM (cartridge)
///
/// The ROM has two sections:
/// - [Header](https://gbdev.io/pandocs/The_Cartridge_Header.html)
/// - [Instructions](https://gbdev.io/pandocs/CPU_Instruction_Set.html)
#[derive(Debug)]
pub struct Rom {
    /// The entire ROM binary data
    pub data: Vec<u8>,
}

impl Rom {
    /// Wrap ROM bytes that were loaded from somewhere
    pub fn new(data: Vec<u8>) -> (r: Self)
        ensures
            r.data@ == data@,
    {
        Self { data }
    }

    /// Create an empty ROM
    ///
    /// Useful for testing when the ROM doesn't matter.
    pub fn empty() -> (r: Rom)
        ensures
            r.data@.len() == 0,
    {
        Self { data: Vec::new() }
    }

    /// Parse the CPU instruction at the given address
    ///
    /// Return the instruction as well as the number of bytes it consumed. This
    /// is the number of bytes that the PC should advance.
    pub fn get_instruction(&self, address: Address) -> (r: Result<(Instruction, usize), RomParseError>)
        requires
            address.0 <= self.data@.len(),
        ensures
            decode_result(self.data@, address.0 as int, r),
    {
        parse_instruction(self.data.as_slice(), address.0 as usize)
    }

    /// Get the raw ROM bytes
    pub fn bytes(&self) -> (r: &[u8])
        ensures
            r@ == self.data@,
    {
        self.data.as_slice()
    }
}

/// Error for an instruction that runs past the end of its input
#[derive(Clone, Debug)]
pub struct RomParseError {
    /// A subslice of the parsing input, with up to
    /// [RomParseError::WINDOW_SIZE] bytes before/after the error location
    pub input: Vec<u8>,
    /// Index of the first byte in `input`, relative to the whole parsed input
    pub input_start: usize,
    /// Index of the instruction that failed to parse
    pub offset: usize,
    /// Number of bytes the instruction needs
    pub needed: usize,
    /// Number of bytes that were left in the input
    pub available: usize,
}

impl RomParseError {
    /// How many bytes before/after the error to retain
    pub const WINDOW_SIZE: usize = 16;

    /// Build the error for the instruction at `offset`, keeping a window of
    /// the input around it
    pub fn new(input: &[u8], offset: usize, needed: usize) -> (r: Self)
        requires
            offset <= input@.len(),
        ensures
            r.offset == offset,
            r.needed == needed,
            r.available == input@.len() - offset,
            r.input_start == (if offset >= 16 {
                offset - 16
            } else {
                0
            }),
            r.input@ == input@.subrange(
                r.input_start as int,
                if offset + 16 <= input@.len() {
                    offset + 16
                } else {
                    input@.len() as int
                },
            ),
    {
        let start = offset.saturating_sub(Self::WINDOW_SIZE);
        let end = if input.len() >= Self::WINDOW_SIZE && offset <= input.len() - Self::WINDOW_SIZE {
            offset + Self::WINDOW_SIZE
        } else {
            input.len()
        };
        let mut window: Vec<u8> = Vec::new();
        let mut k = start;
        while k < end
            invariant
                start <= k <= end,
                end <= input@.len(),
                window@ == input@.subrange(start as int, k as int),
            decreases end - k,
        {
            window.push(input[k]);
            k = k + 1;
            assert(window@ =~= input@.subrange(start as int, k as int));
        }
        Self { input: window, input_start: start, offset, needed, available: input.len() - offset }
    }
}

/// `n` spaces
pub open spec fn spaces(n: nat) -> Seq<char> {
    Seq::new(n, |i: int| ' ')
}

/// Row `k` of an error's byte dump: the address of its first byte, then up
/// to four bytes in binary; under the row holding the failed instruction, a
/// caret points at the instruction's first byte
pub open spec fn dump_row(input: Seq<u8>, input_start: int, offset: int, k: int) -> Seq<char> {
    let first = 4 * k;
    let last = if first + 4 <= input.len() {
        first + 4
    } else {
        input.len() as int
    };
    let address = input_start + first;
    let line = address_text(Address((address % 65536) as u16)) + " | "@ + byte_list_text(
        input.subrange(first, last),
        BytesDisplayMode::Binary,
    ) + "\n"@;
    if address <= offset < address + 4 {
        line + spaces((8 + 9 * (offset - address)) as nat) + "^\n"@
    } else {
        line
    }
}

/// The first `n` rows of an error's byte dump
pub open spec fn dump_rows(input: Seq<u8>, input_start: int, offset: int, n: nat) -> Seq<char>
    decreases n,
{
    if n == 0 {
        Seq::empty()
    } else {
        dump_rows(input, input_start, offset, (n - 1) as nat) + dump_row(input, input_start, offset, n - 1)
    }
}

impl RomParseError {
    /// The error as text: where parsing failed, a dump of the bytes around it
    /// in rows of four with a caret under the failed instruction, and how
    /// many bytes were missing
    pub open spec fn text(&self) -> Seq<char> {
        let rows = (self.input@.len() + 3) / 4;
        "Parse error at byte "@ + address_text(Address((self.offset % 65536) as u16)) + "\n"@ + dump_rows(
            self.input@,
            self.input_start as int,
            self.offset as int,
            rows as nat,
        ) + "Instruction needs "@ + decimal_text(self.needed as nat) + " bytes, "@ + decimal_text(
            self.available as nat,
        ) + " left\n"@
    }

    /// The error as text, for reporting
    pub fn to_string(&self) -> (r: String)
        requires
            self.input_start + self.input@.len() + 4 <= usize::MAX,
        ensures
            r@ == self.text(),
    {
        let mut out = String::new();
        out.append("Parse error at byte ");
        push_address_text(&mut out, Address((self.offset % 65536) as u16));
        out.append("\n");
        let ghost header = out@;
        let len = self.input.len();
        let rows = (len + 3) / 4;
        let mut k: usize = 0;
        while k < rows
            invariant
                rows == (self.input@.len() + 3) / 4,
                len == self.input@.len(),
                k <= rows,
                self.input_start + self.input@.len() + 4 <= usize::MAX,
                out@ == header + dump_rows(self.input@, self.input_start as int, self.offset as int, k as nat),
            decreases rows - k,
        {
            push_dump_row(&mut out, self.input.as_slice(), self.input_start, self.offset, k);
            assert(out@ =~= header + dump_rows(self.input@, self.input_start as int, self.offset as int, (k + 1) as nat));
            k = k + 1;
        }
        out.append("Instruction needs ");
        push_decimal_text(&mut out, self.needed as u64);
        out.append(" bytes, ");
        push_decimal_text(&mut out, self.available as u64);
        out.append(" left\n");
        assert(out@ =~= self.text());
        out
    }
}

/// Append row `k` of an error's byte dump
fn push_dump_row(out: &mut String, input: &[u8], input_start: usize, offset: usize, k: usize)
    requires
        4 * k < input@.len(),
        input_start + input@.len() + 4 <= usize::MAX,
    ensures
        final(out)@ == old(out)@ + dump_row(input@, input_start as int, offset as int, k as int),
{
    let len = input.len();
    let first = 4 * k;
    let last = if first + 4 <= len {
        first + 4
    } else {
        len
    };
    let address = input_start + first;
    push_address_text(out, Address((address % 65536) as u16));
    out.append(" | ");
    push_byte_list(out, input, first, last, BytesDisplayMode::Binary);
    out.append("\n");
    if address <= offset && offset < address + 4 {
        push_spaces(out, 8 + 9 * (offset - address));
        out.append("^\n");
    }
    assert(final(out)@ =~= old(out)@ + dump_row(input@, input_start as int, offset as int, k as int));
}

/// Append `n` spaces
fn push_spaces(out: &mut String, n: usize)
    ensures
        final(out)@ == old(out)@ + spaces(n as nat),
{
    let ghost start = out@;
    let mut i: usize = 0;
    while i < n
        invariant
            i <= n,
            out@ == start + spaces(i as nat),
        decreases n - i,
    {
        push_char(out, ' ');
        i = i + 1;
        assert(out@ =~= start + spaces(i as nat));
    }
}

/// Error for a bit parameter outside the range its field can hold
#[derive(Clone, Copy, Debug, PartialEq, Eq, Structural)]
pub struct BitParameterError {
    /// The extracted bits
    pub bits: u8,
    /// Number of values the parameter can take
    pub limit: u8,
}

/// A type that can be parsed from an opcode bit parameter
///
/// Bit parameters are values packed into either 2 or 3 bits of an opcode.
/// The input byte is the parameter shifted down to the least significant
/// bits; any value the field cannot hold is an error.
pub trait BitParameter: Sized {
    /// Number of distinct codes
    spec fn limit() -> int;

    /// The code of a parameter value
    spec fn code(self) -> int;

    /// Is the value one that a field can hold?
    spec fn valid(self) -> bool;

    /// Map the bit parameter to a semantic value
    fn from_byte(input: u8) -> (r: Result<Self, BitParameterError>)
        ensures
            r is Ok <==> input < Self::limit(),
            r matches Ok(v) ==> v.code() == input && v.valid(),
            r matches Err(e) ==> e.bits == input && e.limit == Self::limit(),
    ;
}

/// Parse `bit` parameter
impl BitParameter for Bit {
    open spec fn limit() -> int {
        8
    }

    open spec fn code(self) -> int {
        self.0 as int
    }

    open spec fn valid(self) -> bool {
        self.0 < 8
    }

    fn from_byte(input: u8) -> (r: Result<Self, BitParameterError>) {
        if input <= 0b111 {
            Ok(Bit(input))
        } else {
            Err(BitParameterError { bits: input, limit: 8 })
        }
    }
}

/// Parse `cond` parameter
impl BitParameter for ConditionCode {
    open spec fn limit() -> int {
        4
    }

    open spec fn code(self) -> int {
        cond_code(self)
    }

    open spec fn valid(self) -> bool {
        true
    }

    fn from_byte(input: u8) -> (r: Result<Self, BitParameterError>) {
        match input {
            0 => Ok(Self::Nz),
            1 => Ok(Self::Z),
            2 => Ok(Self::Nc),
            3 => Ok(Self::C),
            _ => Err(BitParameterError { bits: input, limit: 4 }),
        }
    }
}

/// Parse `r8` parameter
impl BitParameter for Value8 {
    open spec fn limit() -> int {
        8
    }

    open spec fn code(self) -> int {
        r8_code(self)
    }

    open spec fn valid(self) -> bool {
        true
    }

    fn from_byte(input: u8) -> (r: Result<Self, BitParameterError>) {
        match input {
            0 => Ok(Self::Register(Register8::B)),
            1 => Ok(Self::Register(Register8::C)),
            2 => Ok(Self::Register(Register8::D)),
            3 => Ok(Self::Register(Register8::E)),
            4 => Ok(Self::Register(Register8::H)),
            5 => Ok(Self::Register(Register8::L)),
            6 => Ok(Self::Hl),
            7 => Ok(Self::Register(Register8::A)),
            _ => Err(BitParameterError { bits: input, limit: 8 }),
        }
    }
}

/// Parse `r16` parameter
impl BitParameter for Register16 {
    open spec fn limit() -> int {
        4
    }

    open spec fn code(self) -> int {
        r16_code(self)
    }

    open spec fn valid(self) -> bool {
        true
    }

    fn from_byte(input: u8) -> (r: Result<Self, BitParameterError>) {
        match input {
            0 => Ok(Self::Bc),
            1 => Ok(Self::De),
            2 => Ok(Self::Hl),
            3 => Ok(Self::Sp),
            _ => Err(BitParameterError { bits: input, limit: 4 }),
        }
    }
}

/// Parse `r16mem` parameter
impl BitParameter for Register16Memory {
    open spec fn limit() -> int {
        4
    }

    open spec fn code(self) -> int {
        r16mem_code(self)
    }

    open spec fn valid(self) -> bool {
        true
    }

    fn from_byte(input: u8) -> (r: Result<Self, BitParameterError>) {
        match input {
            0 => Ok(Self::Bc),
            1 => Ok(Self::De),
            2 => Ok(Self::Hli),
            3 => Ok(Self::Hld),
            _ => Err(BitParameterError { bits: input, limit: 4 }),
        }
    }
}

/// Parse `r16stk` parameter
impl BitParameter for Register16Stack {
    open spec fn limit() -> int {
        4
    }

    open spec fn code(self) -> int {
        r16stk_code(self)
    }

    open spec fn valid(self) -> bool {
        true
    }

    fn from_byte(input: u8) -> (r: Result<Self, BitParameterError>) {
        match input {
            0 => Ok(Self::Bc),
            1 => Ok(Self::De),
            2 => Ok(Self::Hl),
            3 => Ok(Self::Af),
            _ => Err(BitParameterError { bits: input, limit: 4 }),
        }
    }
}

/// Parse `tgt3` parameter (for the `RST` instruction)
///
/// It's a 1-byte address encoded into 3 bits of the opcode
impl BitParameter for Address {
    open spec fn limit() -> int {
        8
    }

    open spec fn code(self) -> int {
        self.0 as int / 8
    }

    open spec fn valid(self) -> bool {
        self.0 % 8 == 0 && self.0 < 64
    }

    fn from_byte(input: u8) -> (r: Result<Self, BitParameterError>) {
        if input <= 0b111 {
            Ok(Address((input as u16) * 8))
        } else {
            Err(BitParameterError { bits: input, limit: 8 })
        }
    }
}

/// Extract a parameter that is known to fit its field
fn param<T: BitParameter>(input: u8) -> (r: T)
    requires
        input < T::limit(),
    ensures
        r.code() == input,
        r.valid(),
    decreases 0nat,
{
    match T::from_byte(input) {
        Ok(v) => v,
        Err(_) => {
            proof {
                assert(false);
            }
            param::<T>(input)
        },
    }
}

/// The fields of an opcode byte
proof fn lemma_opcode_fields(op: u8)
    ensures
        op == 64 * (op / 64) + 8 * ((op / 8) % 8) + op % 8,
        (op / 8) % 8 == 2 * (((op / 8) % 8) / 2) + ((op / 8) % 8) % 2,
        op / 64 < 4,
{
}

/// Parse one byte as a constant value
fn imm8(source: &[u8], at: usize) -> (r: u8)
    requires
        at + 1 < source.len(),
    ensures
        r == source@[at + 1],
{
    source[at + 1]
}

/// Parse one signed byte as a constant value
fn imm8_signed(source: &[u8], at: usize) -> (r: i8)
    requires
        at + 1 < source.len(),
    ensures
        i8_byte(r) == source@[at + 1],
{
    let b = source[at + 1];
    if b < 128 {
        b as i8
    } else {
        ((b as i16) - 256) as i8
    }
}

/// Parse two little-endian bytes as a constant value
fn imm16(source: &[u8], at: usize) -> (r: u16)
    requires
        at + 2 < source.len(),
    ensures
        lo(r) == source@[at + 1],
        hi(r) == source@[at + 2],
{
    let low = source[at + 1] as u16;
    let high = source[at + 2] as u16;
    low + 256 * high
}

/// Parse a 2-byte little-endian address from the input
fn address(source: &[u8], at: usize) -> (r: Address)
    requires
        at + 2 < source.len(),
    ensures
        lo(r.0) == source@[at + 1],
        hi(r.0) == source@[at + 2],
{
    Address(imm16(source, at))
}

/// Build the error for an instruction that does not fit in the input
fn truncated(source: &[u8], at: usize, needed: usize) -> (r: Result<(Instruction, usize), RomParseError>)
    requires
        at <= source@.len(),
    ensures
        r matches Err(e) && e.offset == at && e.needed == needed && e.available == source@.len() - at,
{
    Err(RomParseError::new(source, at, needed))
}

/// Parse the CPU instruction starting at byte `at` of `source`
///
/// Return the instruction and its length in bytes, or an error if the input
/// ends before the instruction does.
#[verifier::spinoff_prover]
pub fn parse_instruction(source: &[u8], at: usize) -> (r: Result<(Instruction, usize), RomParseError>)
    requires
        at <= source@.len(),
    ensures
        decode_result(source@, at as int, r),
{
    if at == source.len() {
        return truncated(source, at, 1);
    }
    let op = source[at];
    proof {
        lemma_opcode_fields(op);
    }
    let x = op / 64;
    if x == 0 {
        parse_block0(source, at)
    } else if x == 1 {
        parse_block1(source, at)
    } else if x == 2 {
        parse_block2(source, at)
    } else {
        parse_block3(source, at)
    }
}

/// Build an 8-bit ALU instruction; `k` selects the operation:
/// `ADD ADC SUB SBC AND XOR OR CP`
fn alu(k: u8, operand: Operand) -> (r: Instruction)
    requires
        k < 8,
    ensures
        is_encodable(r),
        encode(r) == encode_alu(k as int, operand),
{
    match k {
        0 => Instruction::Add(Add::A(operand)),
        1 => Instruction::Adc(operand),
        2 => Instruction::Sub(operand),
        3 => Instruction::Sbc(operand),
        4 => Instruction::And(operand),
        5 => Instruction::Xor(operand),
        6 => Instruction::Or(operand),
        _ => Instruction::Cp(operand),
    }
}

/// Parse an opcode from block 0 (`$00-$3F`)
#[verifier::rlimit(50)]
fn parse_block0(source: &[u8], at: usize) -> (r: Result<(Instruction, usize), RomParseError>)
    requires
        at < source@.len(),
        source@[at as int] / 64 == 0,
    ensures
        decode_result(source@, at as int, r),
{
    let op = source[at];
    proof {
        lemma_opcode_fields(op);
    }
    let len = source.len();
    let y = (op / 8) % 8;
    let z = op % 8;
    let p = y / 2;
    let q = y % 2;
    let ghost bytes = source@.skip(at as int);
    assert(bytes[0] == op);
    if z == 0 {
        if y == 0 {
            Ok((Instruction::Nop, 1))
        } else if y == 1 {
            if len - at > 2 {
                Ok((Instruction::Ld(Load::AddressSp { dest: address(source, at) }), 3))
            } else {
                truncated(source, at, 3)
            }
        } else if y == 2 {
            Ok((Instruction::Stop, 1))
        } else if len - at > 1 {
            let offset = imm8_signed(source, at);
            if y == 3 {
                Ok((Instruction::Jr { offset, condition: None }, 2))
            } else {
                let cond = param::<ConditionCode>(y - 4);
                Ok((Instruction::Jr { offset, condition: Some(cond) }, 2))
            }
        } else {
            truncated(source, at, 2)
        }
    } else if z == 1 {
        if q == 0 {
            if len - at > 2 {
                let dest = param::<Register16>(p);
                Ok((Instruction::Ld(Load::R16Const { dest, source: imm16(source, at) }), 3))
            } else {
                truncated(source, at, 3)
            }
        } else {
            Ok((Instruction::Add(Add::Hl(param::<Register16>(p))), 1))
        }
    } else if z == 2 {
        if q == 0 {
            Ok((Instruction::Ld(Load::R16MemA { dest: param::<Register16Memory>(p) }), 1))
        } else {
            Ok((Instruction::Ld(Load::AR16Mem { source: param::<Register16Memory>(p) }), 1))
        }
    } else if z == 3 {
        if q == 0 {
            Ok((Instruction::Inc(DecInc::R16(param::<Register16>(p))), 1))
        } else {
            Ok((Instruction::Dec(DecInc::R16(param::<Register16>(p))), 1))
        }
    } else if z == 4 {
        Ok((Instruction::Inc(DecInc::V8(param::<Value8>(y))), 1))
    } else if z == 5 {
        Ok((Instruction::Dec(DecInc::V8(param::<Value8>(y))), 1))
    } else if z == 6 {
        if len - at > 1 {
            let dest = param::<Value8>(y);
            Ok((Instruction::Ld(Load::V8Const { dest, source: imm8(source, at) }), 2))
        } else {
            truncated(source, at, 2)
        }
    } else {
        let i = match y {
            0 => Instruction::Rlca,
            1 => Instruction::Rrca,
            2 => Instruction::Rla,
            3 => Instruction::Rra,
            4 => Instruction::Daa,
            5 => Instruction::Cpl,
            6 => Instruction::Scf,
            _ => Instruction::Ccf,
        };
        Ok((i, 1))
    }
}

/// Parse an opcode from block 1 (`$40-$7F`): `LD r8,r8` and `HALT`
#[verifier::spinoff_prover]
fn parse_block1(source: &[u8], at: usize) -> (r: Result<(Instruction, usize), RomParseError>)
    requires
        at < source@.len(),
        source@[at as int] / 64 == 1,
    ensures
        decode_result(source@, at as int, r),
{
    let op = source[at];
    proof {
        lemma_opcode_fields(op);
    }
    let y = (op / 8) % 8;
    let z = op % 8;
    let ghost bytes = source@.skip(at as int);
    assert(bytes[0] == op);
    if y == 6 && z == 6 {
        // Would be LD [HL],[HL]
        Ok((Instruction::Halt, 1))
    } else {
        let dest = param::<Value8>(y);
        let src = param::<Value8>(z);
        Ok((Instruction::Ld(Load::V8V8 { dest, source: src }), 1))
    }
}

/// Parse an opcode from block 2 (`$80-$BF`): 8-bit math on a register
#[verifier::spinoff_prover]
fn parse_block2(source: &[u8], at: usize) -> (r: Result<(Instruction, usize), RomParseError>)
    requires
        at < source@.len(),
        source@[at as int] / 64 == 2,
    ensures
        decode_result(source@, at as int, r),
{
    let op = source[at];
    proof {
        lemma_opcode_fields(op);
    }
    let y = (op / 8) % 8;
    let z = op % 8;
    let ghost bytes = source@.skip(at as int);
    assert(bytes[0] == op);
    let operand = Operand::V8(param::<Value8>(z));
    Ok((alu(y, operand), 1))
}

/// Parse the second byte of a `$CB`-prefixed instruction
#[verifier::spinoff_prover]
fn parse_cb(op: u8) -> (r: Instruction)
    ensures
        is_encodable(r),
        encode(r) =~= seq![0xCBu8, op],
{
    proof {
        lemma_opcode_fields(op);
    }
    let x = op / 64;
    let y = (op / 8) % 8;
    let z = op % 8;
    let v = param::<Value8>(z);
    if x == 0 {
        match y {
            0 => Instruction::Rlc(v),
            1 => Instruction::Rrc(v),
            2 => Instruction::Rl(v),
            3 => Instruction::Rr(v),
            4 => Instruction::Sla(v),
            5 => Instruction::Sra(v),
            6 => Instruction::Swap(v),
            _ => Instruction::Srl(v),
        }
    } else if x == 1 {
        Instruction::Bit(param::<Bit>(y), v)
    } else if x == 2 {
        Instruction::Res(param::<Bit>(y), v)
    } else {
        Instruction::SetBit(param::<Bit>(y), v)
    }
}

/// Parse an opcode from block 3 (`$C0-$FF`)
#[verifier::spinoff_prover]
fn parse_block3(source: &[u8], at: usize) -> (r: Result<(Instruction, usize), RomParseError>)
    requires
        at < source@.len(),
        source@[at as int] / 64 == 3,
    ensures
        decode_result(source@, at as int, r),
{
    let op = source[at];
    proof {
        lemma_opcode_fields(op);
    }
    let len = source.len();
    let y = (op / 8) % 8;
    let z = op % 8;
    let p = y / 2;
    let q = y % 2;
    let ghost bytes = source@.skip(at as int);
    assert(bytes[0] == op);
    if z == 0 {
        if y < 4 {
            Ok((Instruction::Ret(Some(param::<ConditionCode>(y))), 1))
        } else if len - at > 1 {
            if y == 4 {
                Ok((Instruction::Ldh(LoadHigh::ConstA(imm8(source, at))), 2))
            } else if y == 5 {
                Ok((Instruction::Add(Add::Sp(imm8_signed(source, at))), 2))
            } else if y == 6 {
                Ok((Instruction::Ldh(LoadHigh::AConst(imm8(source, at))), 2))
            } else {
                Ok((Instruction::Ld(Load::HlSpOffset { offset: imm8_signed(source, at) }), 2))
            }
        } else {
            truncated(source, at, 2)
        }
    } else if z == 1 {
        if q == 0 {
            Ok((Instruction::Pop(param::<Register16Stack>(p)), 1))
        } else if p == 0 {
            Ok((Instruction::Ret(None), 1))
        } else if p == 1 {
            Ok((Instruction::Reti, 1))
        } else if p == 2 {
            Ok((Instruction::Jp(Jump::Hl), 1))
        } else {
            Ok((Instruction::Ld(Load::SpHl), 1))
        }
    } else if z == 2 {
        if y == 4 {
            Ok((Instruction::Ldh(LoadHigh::CA), 1))
        } else if y == 6 {
            Ok((Instruction::Ldh(LoadHigh::AC), 1))
        } else if len - at > 2 {
            let a = address(source, at);
            if y < 4 {
                Ok((Instruction::Jp(Jump::AddressCc(param::<ConditionCode>(y), a)), 3))
            } else if y == 5 {
                Ok((Instruction::Ld(Load::AddressA { dest: a }), 3))
            } else {
                Ok((Instruction::Ld(Load::AAddress { source: a }), 3))
            }
        } else {
            truncated(source, at, 3)
        }
    } else if z == 3 {
        if y == 0 {
            if len - at > 2 {
                Ok((Instruction::Jp(Jump::Address(address(source, at))), 3))
            } else {
                truncated(source, at, 3)
            }
        } else if y == 1 {
            if len - at > 1 {
                let i = parse_cb(source[at + 1]);
                assert(bytes.take(2) =~= seq![0xCBu8, source@[at + 1]]);
                Ok((i, 2))
            } else {
                truncated(source, at, 2)
            }
        } else if y == 6 {
            Ok((Instruction::Di, 1))
        } else if y == 7 {
            Ok((Instruction::Ei, 1))
        } else {
            Ok((Instruction::Invalid, 1))
        }
    } else if z == 4 {
        if y < 4 {
            if len - at > 2 {
                let cond = param::<ConditionCode>(y);
                Ok((Instruction::Call { address: address(source, at), condition: Some(cond) }, 3))
            } else {
                truncated(source, at, 3)
            }
        } else {
            Ok((Instruction::Invalid, 1))
        }
    } else if z == 5 {
        if q == 0 {
            Ok((Instruction::Push(param::<Register16Stack>(p)), 1))
        } else if p == 0 {
            if len - at > 2 {
                Ok((Instruction::Call { address: address(source, at), condition: None }, 3))
            } else {
                truncated(source, at, 3)
            }
        } else {
            Ok((Instruction::Invalid, 1))
        }
    } else if z == 6 {
        if len - at > 1 {
            Ok((alu(y, Operand::Const(imm8(source, at))), 2))
        } else {
            truncated(source, at, 2)
        }
    } else {
        let target = param::<Address>(y);
        Ok((Instruction::Rst(target), 1))
    }
}

/// Decoding the machine code of an instruction, whatever follows it, yields
/// exactly that instruction and its length, and never runs short.
pub proof fn law_decode_encoding(i: Instruction, rest: Seq<u8>)
    requires
        is_encodable(i),
    ensures
        !decode_truncated(encode(i) + rest),
        decodes_to(encode(i) + rest, i, encode(i).len()),
        forall|j: Instruction, n: nat|
            decodes_to(encode(i) + rest, j, n) ==> j == i && n == encode(i).len(),
{
    let bytes = encode(i) + rest;
    law_read_encoding(i);
    assert(bytes.take(encode(i).len() as int) =~= encode(i));
    assert forall|j: Instruction, n: nat| decodes_to(bytes, j, n) implies j == i && n == encode(i).len() by {
        law_read_encoding(j);
        assert(encode(j)[0] == bytes[0]);
        assert(encode(j) =~= bytes.take(n as int));
        assert(encode(j) =~= encode(i));
        law_encode_injective(i, j);
    }
}

/// A decoded instruction is one to three bytes long.
pub proof fn lemma_decoded_len(bytes: Seq<u8>, i: Instruction, n: nat)
    requires
        decodes_to(bytes, i, n),
    ensures
        1 <= n <= 3,
{
    if !is_invalid_opcode(bytes[0]) {
        law_read_encoding(i);
    }
}

/// The bytes at an address decode to at most one instruction.
pub proof fn lemma_decode_unique(bytes: Seq<u8>, i: Instruction, n: nat, j: Instruction, m: nat)
    requires
        decodes_to(bytes, i, n),
        decodes_to(bytes, j, m),
    ensures
        i == j,
        n == m,
{
    if !is_invalid_opcode(bytes[0]) {
        law_read_encoding(i);
        law_read_encoding(j);
        assert(encode(i) =~= encode(j));
        law_encode_injective(i, j);
    }
}

impl Clone for Rom {
    fn clone(&self) -> (r: Self)
        ensures
            r.data@ == self.data@,
    {
        let data = self.data.clone();
        assert(data@ =~= self.data@);
        Rom { data }
    }
}

} // verus!
