//! Game Boy CPU instructions and their binary encoding
//!
//! https://gbdev.io/pandocs/CPU_Instruction_Set.html

pub mod text;

use vstd::prelude::*;
use crate::emu::memory::Address;
use crate::util::Bit;

verus! {

/// CPU instruction
///
/// https://gbdev.io/pandocs/CPU_Instruction_Set.html
#[derive(Clone, Copy, Debug, PartialEq, Eq, Structural)]
pub enum Instruction {
    /// Add a value plus the carry flag to `a`
    Adc(Operand),
    /// Add a value to a register
    Add(Add),
    /// Bitwise AND between `a` and another value (modifies `a`)
    And(Operand),
    /// Get a single bit from a register (output to the `zero` flag)
    Bit(Bit, Value8),
    /// Push a new frame onto the stack, then set `pc` to that address
    Call {
        address: Address,
        /// If defined, only call if true
        condition: Option<ConditionCode>,
    },
    /// Complement (invert) carry flag
    Ccf,
    /// Compare register `a` with another value (modifies flags but NOT `a`)
    Cp(Operand),
    /// Complement (bitwise NOT) register `a`
    Cpl,
    /// Decimal Adjust Accumulator
    Daa,
    /// Decrement a value by 1
    Dec(DecInc),
    /// Disable interrupts
    Di,
    /// Enable interrupts
    Ei,
    /// Enter CPU low-power consumption mode until an interrupt occurs
    Halt,
    /// Increment a value by 1
    Inc(DecInc),
    /// Jump to another address in the code
    Jp(Jump),
    /// Jump a relative number of instructions in the code
    Jr {
        offset: i8,
        /// If defined, only jump when true
        condition: Option<ConditionCode>,
    },
    /// Move a value
    Ld(Load),
    /// Move a value in/out of the `$FF00-$FFFF` page
    Ldh(LoadHigh),
    /// No op
    Nop,
    /// Bitwise OR between `a` and another value (modifies `a`)
    Or(Operand),
    /// Pop a 16-bit value from the stack into a register
    Pop(Register16Stack),
    /// Push a 16-bit register value onto the stack
    Push(Register16Stack),
    /// Set a specific bit in a register to 0
    Res(Bit, Value8),
    /// Return from subroutine
    ///
    /// If the condition is defined, only return if it's true
    Ret(Option<ConditionCode>),
    /// Return from subroutine and enable interrupts
    Reti,
    /// Rotate a register left, through the carry flag
    Rl(Value8),
    /// Rotate register `a` left, through the carry flag
    Rla,
    /// Rotate a register left
    Rlc(Value8),
    /// Rotate register `a` left
    Rlca,
    /// Rotate a register right, through the carry flag
    Rr(Value8),
    /// Rotate register `a` right, through the carry flag
    Rra,
    /// Rotate a register right
    Rrc(Value8),
    /// Rotate register `a` right
    Rrca,
    /// Call a function at one of the eight fixed addresses `$00, $08, .., $38`
    Rst(Address),
    /// Subtract a value and the carry flag from `a`
    Sbc(Operand),
    /// Set carry flag
    Scf,
    /// Set a specific bit in a register to 1
    SetBit(Bit, Value8),
    /// Shift left arithmetically a register
    Sla(Value8),
    /// Shift right arithmetically a register
    Sra(Value8),
    /// Shift right logically a register
    Srl(Value8),
    /// Subtract a value from `a`
    Sub(Operand),
    /// Swap the upper 4 bits of a register with the lower 4
    Swap(Value8),
    /// Enter CPU low power mode
    Stop,
    /// Bitwise XOR between `a` and another value (modifies `a`)
    Xor(Operand),
    /// An invalid instruction from one of the 11 invalid opcodes
    Invalid,
}

impl Instruction {
    /// Construct a `ADD a, *` instruction
    ///
    /// `ADD` has a few more variants than the other math instructions; this
    /// makes it easy to construct the "standard" form.
    pub fn add(operand: Operand) -> (r: Self)
        ensures
            r == Instruction::Add(Add::A(operand)),
    {
        Self::Add(Add::A(operand))
    }
}

impl From<u8> for Operand {
    /// A constant operand
    fn from(value: u8) -> (r: Self) {
        Operand::Const(value)
    }
}

impl vstd::std_specs::convert::FromSpecImpl<u8> for Operand {
    open spec fn obeys_from_spec() -> bool {
        true
    }

    open spec fn from_spec(value: u8) -> Self {
        Operand::Const(value)
    }
}

impl From<Register8> for Operand {
    /// An operand read from a register
    fn from(register: Register8) -> (r: Self) {
        Operand::V8(Value8::Register(register))
    }
}

impl vstd::std_specs::convert::FromSpecImpl<Register8> for Operand {
    open spec fn obeys_from_spec() -> bool {
        true
    }

    open spec fn from_spec(register: Register8) -> Self {
        Operand::V8(Value8::Register(register))
    }
}

impl From<Register8> for DecInc {
    /// Decrement or increment a register
    fn from(register: Register8) -> (r: Self) {
        DecInc::V8(Value8::Register(register))
    }
}

impl vstd::std_specs::convert::FromSpecImpl<Register8> for DecInc {
    open spec fn obeys_from_spec() -> bool {
        true
    }

    open spec fn from_spec(register: Register8) -> Self {
        DecInc::V8(Value8::Register(register))
    }
}

impl From<Register8> for Value8 {
    /// The value in a register
    fn from(register: Register8) -> (r: Self) {
        Value8::Register(register)
    }
}

impl vstd::std_specs::convert::FromSpecImpl<Register8> for Value8 {
    open spec fn obeys_from_spec() -> bool {
        true
    }

    open spec fn from_spec(register: Register8) -> Self {
        Value8::Register(register)
    }
}

/// Right-hand side of a math instruction (`r8` or `imm8`)
#[derive(Clone, Copy, Debug, PartialEq, Eq, Structural)]
pub enum Operand {
    /// Value in a register or memory
    V8(Value8),
    /// Constant value
    Const(u8),
}

/// Variations of the `ADD` instruction
#[derive(Clone, Copy, Debug, PartialEq, Eq, Structural)]
pub enum Add {
    /// Add an 8-bit value to `a`
    A(Operand),
    /// Add a 16-bit register value to `hl`
    Hl(Register16),
    /// Add a signed offset to `sp`
    Sp(i8),
}

/// Variations of the `DEC` (decrement) and `INC` (increment) instructions
#[derive(Clone, Copy, Debug, PartialEq, Eq, Structural)]
pub enum DecInc {
    /// Increment an 8-bit value
    V8(Value8),
    /// Increment a 16-bit register
    R16(Register16),
}

/// Variations of the `JP` (jump) instruction
#[derive(Clone, Copy, Debug, PartialEq, Eq, Structural)]
pub enum Jump {
    /// Jump to a specific memory address
    Address(Address),
    /// Jump to a specific memory address if the condition is true
    AddressCc(ConditionCode, Address),
    /// Jump to the address in `hl`
    Hl,
}

/// Variations of the `LD` (load) instruction
#[allow(inconsistent_fields)]
#[derive(Clone, Copy, Debug, PartialEq, Eq, Structural)]
pub enum Load {
    /// Load from `a` to a memory address
    AddressA { dest: Address },
    /// Load from a memory address to `a`
    AAddress { source: Address },
    /// Load from `sp` to a memory address
    AddressSp { dest: Address },
    /// Add an offset to the value in `sp` and copy that into `hl`
    HlSpOffset { offset: i8 },
    /// Load from `hl` to `sp`
    SpHl,
    /// Load a constant into an 8-bit destination
    V8Const { dest: Value8, source: u8 },
    /// Load from one 8-bit value to another
    V8V8 { dest: Value8, source: Value8 },
    /// Load a constant into a 16-bit register
    R16Const { dest: Register16, source: u16 },
    /// Load from register `a` to the byte pointed to by [Register16Memory]
    R16MemA { dest: Register16Memory },
    /// Load from the byte pointed to by [Register16Memory] into register `a`
    AR16Mem { source: Register16Memory },
}

/// Variations of the `LDH` (load high) instruction
///
/// This is a faster version of `LD` that can only access memory in the range
/// `[0xFF00, 0xFFFF]`. The load address is specified as just the low byte, and
/// the high byte is assumed to be `0xFF`.
#[derive(Clone, Copy, Debug, PartialEq, Eq, Structural)]
pub enum LoadHigh {
    /// Copy the byte at address `$FF00+c` into register `a`
    AC,
    /// Copy the byte at `$FF00+offset` into register `a`
    AConst(u8),
    /// Copy the value in register `a` into the byte at address `$FF00+c`
    CA,
    /// Copy the value in register `a` into the byte at address `$FF00+offset`
    ConstA(u8),
}

/// Source of an 8-bit value (`r8`)
#[derive(Clone, Copy, Debug, PartialEq, Eq, Structural)]
pub enum Value8 {
    /// Value from a register
    Register(Register8),
    /// Byte pointed to by the address in register `hl`
    Hl,
}

/// 8-bit register value (excluding `f`)
#[derive(Clone, Copy, Debug, PartialEq, Eq, Structural)]
pub enum Register8 {
    A,
    B,
    C,
    D,
    E,
    H,
    L,
}

/// Name of a 16-bit register (`r16`)
#[derive(Clone, Copy, Debug, PartialEq, Eq, Structural)]
pub enum Register16 {
    /// Value in register `bc`
    Bc,
    /// Value in register `de`
    De,
    /// Value in register `hl`
    Hl,
    /// Value in register `sp`
    Sp,
}

/// Name of a general purpose 16-bit register for stack operations (`r16stk`)
///
/// Most instructions use [Register16], but `PUSH`/`POP` use `af` instead of
/// `sp`.
#[derive(Clone, Copy, Debug, PartialEq, Eq, Structural)]
pub enum Register16Stack {
    /// Value in register `af`
    Af,
    /// Value in register `bc`
    Bc,
    /// Value in register `de`
    De,
    /// Value in register `hl`
    Hl,
}

/// 16-bit register for load operations (`r16mem`)
///
/// `LD` uses `hli` and `hld` (AKA `hl+` and `hl-`) in place of `hl` and `sp`.
#[derive(Clone, Copy, Debug, PartialEq, Eq, Structural)]
pub enum Register16Memory {
    /// Value in register `bc`
    Bc,
    /// Value in register `de`
    De,
    /// Read from/write to register `hl`, then increment it
    Hli,
    /// Read from/write to register `hl`, then decrement it
    Hld,
}

/// Condition for a conditional jump or call
#[derive(Clone, Copy, Debug, PartialEq, Eq, Structural)]
pub enum ConditionCode {
    /// Execute if `zero` flag is set
    Z,
    /// Execute if `zero` flag is not set
    Nz,
    /// Execute if `carry` flag is set
    C,
    /// Execute if `carry` flag is not set
    Nc,
}

// ===== Binary encoding =====
// Every opcode byte is split into fields `x` (bits 7-6), `y` (bits 5-3) and
// `z` (bits 2-0); `y` is further split into `p` (bits 5-4) and `q` (bit 3).
// The operand codes below are the values those fields take.

/// The `r8` code of an 8-bit operand
pub open spec fn r8_code(v: Value8) -> int {
    match v {
        Value8::Register(Register8::B) => 0,
        Value8::Register(Register8::C) => 1,
        Value8::Register(Register8::D) => 2,
        Value8::Register(Register8::E) => 3,
        Value8::Register(Register8::H) => 4,
        Value8::Register(Register8::L) => 5,
        Value8::Hl => 6,
        Value8::Register(Register8::A) => 7,
    }
}

/// The `r16` code of a 16-bit register
pub open spec fn r16_code(r: Register16) -> int {
    match r {
        Register16::Bc => 0,
        Register16::De => 1,
        Register16::Hl => 2,
        Register16::Sp => 3,
    }
}

/// The `r16stk` code of a 16-bit stack register
pub open spec fn r16stk_code(r: Register16Stack) -> int {
    match r {
        Register16Stack::Bc => 0,
        Register16Stack::De => 1,
        Register16Stack::Hl => 2,
        Register16Stack::Af => 3,
    }
}

/// The `r16mem` code of a 16-bit memory register
pub open spec fn r16mem_code(r: Register16Memory) -> int {
    match r {
        Register16Memory::Bc => 0,
        Register16Memory::De => 1,
        Register16Memory::Hli => 2,
        Register16Memory::Hld => 3,
    }
}

/// The `cond` code of a condition
pub open spec fn cond_code(c: ConditionCode) -> int {
    match c {
        ConditionCode::Nz => 0,
        ConditionCode::Z => 1,
        ConditionCode::Nc => 2,
        ConditionCode::C => 3,
    }
}

/// Low byte of a little-endian 16-bit immediate
pub open spec fn lo(v: u16) -> u8 {
    (v % 256) as u8
}

/// High byte of a little-endian 16-bit immediate
pub open spec fn hi(v: u16) -> u8 {
    (v / 256) as u8
}

/// The two's complement byte of a signed offset
pub open spec fn i8_byte(e: i8) -> u8 {
    (if e < 0 {
        e + 256
    } else {
        e as int
    }) as u8
}

/// A one-byte opcode
pub open spec fn op1(op: int) -> Seq<u8> {
    seq![op as u8]
}

/// An opcode followed by an 8-bit immediate
pub open spec fn op2(op: int, n: u8) -> Seq<u8> {
    seq![op as u8, n]
}

/// An opcode followed by a little-endian 16-bit immediate
pub open spec fn op3(op: int, nn: u16) -> Seq<u8> {
    seq![op as u8, lo(nn), hi(nn)]
}

/// Encoding of the 8-bit ALU instructions; `k` selects the operation:
/// `ADD ADC SUB SBC AND XOR OR CP`
pub open spec fn encode_alu(k: int, operand: Operand) -> Seq<u8> {
    match operand {
        Operand::V8(v) => op1(0x80 + 8 * k + r8_code(v)),
        Operand::Const(n) => op2(0xC6 + 8 * k, n),
    }
}

/// Encoding of a `$CB`-prefixed instruction
pub open spec fn encode_cb(op: int) -> Seq<u8> {
    seq![0xCBu8, op as u8]
}

/// Encoding of an `LD` instruction
pub open spec fn encode_load(load: Load) -> Seq<u8> {
    match load {
        Load::R16Const { dest, source } => op3(0x01 + 16 * r16_code(dest), source),
        Load::R16MemA { dest } => op1(0x02 + 16 * r16mem_code(dest)),
        Load::AR16Mem { source } => op1(0x0A + 16 * r16mem_code(source)),
        Load::AddressSp { dest } => op3(0x08, dest.0),
        Load::V8Const { dest, source } => op2(0x06 + 8 * r8_code(dest), source),
        Load::V8V8 { dest, source } => op1(0x40 + 8 * r8_code(dest) + r8_code(source)),
        Load::AddressA { dest } => op3(0xEA, dest.0),
        Load::AAddress { source } => op3(0xFA, source.0),
        Load::HlSpOffset { offset } => op2(0xF8, i8_byte(offset)),
        Load::SpHl => op1(0xF9),
    }
}

/// The machine code of an instruction
///
/// Instructions are one to three bytes: an opcode (or the `$CB` prefix and a
/// second opcode byte) followed by little-endian immediates.
pub open spec fn encode(i: Instruction) -> Seq<u8> {
    match i {
        Instruction::Nop => op1(0x00),
        Instruction::Ld(load) => encode_load(load),
        Instruction::Inc(DecInc::R16(r)) => op1(0x03 + 16 * r16_code(r)),
        Instruction::Dec(DecInc::R16(r)) => op1(0x0B + 16 * r16_code(r)),
        Instruction::Inc(DecInc::V8(v)) => op1(0x04 + 8 * r8_code(v)),
        Instruction::Dec(DecInc::V8(v)) => op1(0x05 + 8 * r8_code(v)),
        Instruction::Add(Add::Hl(r)) => op1(0x09 + 16 * r16_code(r)),
        Instruction::Add(Add::Sp(e)) => op2(0xE8, i8_byte(e)),
        Instruction::Add(Add::A(operand)) => encode_alu(0, operand),
        Instruction::Adc(operand) => encode_alu(1, operand),
        Instruction::Sub(operand) => encode_alu(2, operand),
        Instruction::Sbc(operand) => encode_alu(3, operand),
        Instruction::And(operand) => encode_alu(4, operand),
        Instruction::Xor(operand) => encode_alu(5, operand),
        Instruction::Or(operand) => encode_alu(6, operand),
        Instruction::Cp(operand) => encode_alu(7, operand),
        Instruction::Rlca => op1(0x07),
        Instruction::Rrca => op1(0x0F),
        Instruction::Rla => op1(0x17),
        Instruction::Rra => op1(0x1F),
        Instruction::Daa => op1(0x27),
        Instruction::Cpl => op1(0x2F),
        Instruction::Scf => op1(0x37),
        Instruction::Ccf => op1(0x3F),
        Instruction::Jr { offset, condition: None } => op2(0x18, i8_byte(offset)),
        Instruction::Jr { offset, condition: Some(c) } => op2(0x20 + 8 * cond_code(c), i8_byte(offset)),
        Instruction::Stop => op1(0x10),
        Instruction::Halt => op1(0x76),
        Instruction::Ret(Some(c)) => op1(0xC0 + 8 * cond_code(c)),
        Instruction::Ret(None) => op1(0xC9),
        Instruction::Reti => op1(0xD9),
        Instruction::Jp(Jump::AddressCc(c, a)) => op3(0xC2 + 8 * cond_code(c), a.0),
        Instruction::Jp(Jump::Address(a)) => op3(0xC3, a.0),
        Instruction::Jp(Jump::Hl) => op1(0xE9),
        Instruction::Call { address, condition: Some(c) } => op3(0xC4 + 8 * cond_code(c), address.0),
        Instruction::Call { address, condition: None } => op3(0xCD, address.0),
        Instruction::Rst(a) => op1(0xC7 + a.0),
        Instruction::Pop(r) => op1(0xC1 + 16 * r16stk_code(r)),
        Instruction::Push(r) => op1(0xC5 + 16 * r16stk_code(r)),
        Instruction::Rlc(v) => encode_cb(0x00 + r8_code(v)),
        Instruction::Rrc(v) => encode_cb(0x08 + r8_code(v)),
        Instruction::Rl(v) => encode_cb(0x10 + r8_code(v)),
        Instruction::Rr(v) => encode_cb(0x18 + r8_code(v)),
        Instruction::Sla(v) => encode_cb(0x20 + r8_code(v)),
        Instruction::Sra(v) => encode_cb(0x28 + r8_code(v)),
        Instruction::Swap(v) => encode_cb(0x30 + r8_code(v)),
        Instruction::Srl(v) => encode_cb(0x38 + r8_code(v)),
        Instruction::Bit(b, v) => encode_cb(0x40 + 8 * b.0 + r8_code(v)),
        Instruction::Res(b, v) => encode_cb(0x80 + 8 * b.0 + r8_code(v)),
        Instruction::SetBit(b, v) => encode_cb(0xC0 + 8 * b.0 + r8_code(v)),
        Instruction::Ldh(LoadHigh::CA) => op1(0xE2),
        Instruction::Ldh(LoadHigh::ConstA(n)) => op2(0xE0, n),
        Instruction::Ldh(LoadHigh::AC) => op1(0xF2),
        Instruction::Ldh(LoadHigh::AConst(n)) => op2(0xF0, n),
        Instruction::Di => op1(0xF3),
        Instruction::Ei => op1(0xFB),
        Instruction::Invalid => Seq::empty(),
    }
}

/// Does the instruction have a machine encoding?
///
/// Bit indexes are `0-7`, `RST` targets are the multiples of 8 up to `$38`,
/// and `LD [HL],[HL]` does not exist (its opcode is `HALT`). [Instruction::Invalid]
/// stands for the unused opcodes and has no encoding of its own.
pub open spec fn is_encodable(i: Instruction) -> bool {
    match i {
        Instruction::Bit(b, _) => b.0 < 8,
        Instruction::Res(b, _) => b.0 < 8,
        Instruction::SetBit(b, _) => b.0 < 8,
        Instruction::Rst(a) => a.0 % 8 == 0 && a.0 <= 0x38,
        Instruction::Ld(Load::V8V8 { dest: Value8::Hl, source: Value8::Hl }) => false,
        Instruction::Invalid => false,
        _ => true,
    }
}

/// Is this one of the 11 opcodes that the CPU does not define?
pub open spec fn is_invalid_opcode(op: u8) -> bool {
    op == 0xD3 || op == 0xDB || op == 0xDD || op == 0xE3 || op == 0xE4 || op == 0xEB || op == 0xEC
        || op == 0xED || op == 0xF4 || op == 0xFC || op == 0xFD
}

/// Length in bytes of the instruction introduced by a (defined) opcode byte
pub open spec fn instruction_len(op: u8) -> nat {
    if op == 0x01 || op == 0x11 || op == 0x21 || op == 0x31 || op == 0x08 || op == 0xC2 || op
        == 0xCA || op == 0xD2 || op == 0xDA || op == 0xC3 || op == 0xC4 || op == 0xCC || op == 0xD4
        || op == 0xDC || op == 0xCD || op == 0xEA || op == 0xFA {
        3
    } else if op == 0x06 || op == 0x0E || op == 0x16 || op == 0x1E || op == 0x26 || op == 0x2E
        || op == 0x36 || op == 0x3E || op == 0x18 || op == 0x20 || op == 0x28 || op == 0x30 || op
        == 0x38 || op == 0xC6 || op == 0xCE || op == 0xD6 || op == 0xDE || op == 0xE6 || op == 0xEE
        || op == 0xF6 || op == 0xFE || op == 0xCB || op == 0xE0 || op == 0xF0 || op == 0xE8 || op
        == 0xF8 {
        2
    } else {
        1
    }
}

} // verus!

verus! {

/// The operand with a given `r8` code
pub open spec fn r8_of(c: int) -> Value8 {
    if c == 0 {
        Value8::Register(Register8::B)
    } else if c == 1 {
        Value8::Register(Register8::C)
    } else if c == 2 {
        Value8::Register(Register8::D)
    } else if c == 3 {
        Value8::Register(Register8::E)
    } else if c == 4 {
        Value8::Register(Register8::H)
    } else if c == 5 {
        Value8::Register(Register8::L)
    } else if c == 6 {
        Value8::Hl
    } else {
        Value8::Register(Register8::A)
    }
}

/// The register with a given `r16` code
pub open spec fn r16_of(c: int) -> Register16 {
    if c == 0 {
        Register16::Bc
    } else if c == 1 {
        Register16::De
    } else if c == 2 {
        Register16::Hl
    } else {
        Register16::Sp
    }
}

/// The register with a given `r16stk` code
pub open spec fn r16stk_of(c: int) -> Register16Stack {
    if c == 0 {
        Register16Stack::Bc
    } else if c == 1 {
        Register16Stack::De
    } else if c == 2 {
        Register16Stack::Hl
    } else {
        Register16Stack::Af
    }
}

/// The register with a given `r16mem` code
pub open spec fn r16mem_of(c: int) -> Register16Memory {
    if c == 0 {
        Register16Memory::Bc
    } else if c == 1 {
        Register16Memory::De
    } else if c == 2 {
        Register16Memory::Hli
    } else {
        Register16Memory::Hld
    }
}

/// The condition with a given `cond` code
pub open spec fn cond_of(c: int) -> ConditionCode {
    if c == 0 {
        ConditionCode::Nz
    } else if c == 1 {
        ConditionCode::Z
    } else if c == 2 {
        ConditionCode::Nc
    } else {
        ConditionCode::C
    }
}

/// The 8-bit ALU instruction selected by `k`
pub open spec fn alu_of(k: int, operand: Operand) -> Instruction {
    if k == 0 {
        Instruction::Add(Add::A(operand))
    } else if k == 1 {
        Instruction::Adc(operand)
    } else if k == 2 {
        Instruction::Sub(operand)
    } else if k == 3 {
        Instruction::Sbc(operand)
    } else if k == 4 {
        Instruction::And(operand)
    } else if k == 5 {
        Instruction::Xor(operand)
    } else if k == 6 {
        Instruction::Or(operand)
    } else {
        Instruction::Cp(operand)
    }
}

/// The signed offset with a given two's complement byte
pub open spec fn byte_i8(b: u8) -> i8 {
    (if b < 128 {
        b as int
    } else {
        b - 256
    }) as i8
}

/// The `$CB`-prefixed instruction with a given second byte
pub open spec fn read_cb(byte: u8) -> Instruction {
    let op = byte as int;
    let x = op / 64;
    let y = (op / 8) % 8;
    let v = r8_of(op % 8);
    if x == 0 {
        if y == 0 {
            Instruction::Rlc(v)
        } else if y == 1 {
            Instruction::Rrc(v)
        } else if y == 2 {
            Instruction::Rl(v)
        } else if y == 3 {
            Instruction::Rr(v)
        } else if y == 4 {
            Instruction::Sla(v)
        } else if y == 5 {
            Instruction::Sra(v)
        } else if y == 6 {
            Instruction::Swap(v)
        } else {
            Instruction::Srl(v)
        }
    } else if x == 1 {
        Instruction::Bit(Bit(y as u8), v)
    } else if x == 2 {
        Instruction::Res(Bit(y as u8), v)
    } else {
        Instruction::SetBit(Bit(y as u8), v)
    }
}

/// Read back the instruction whose machine code starts `b`, one opcode field
/// at a time (the reverse of [encode])
pub open spec fn read_encoding(b: Seq<u8>) -> Instruction {
    let op = b[0] as int;
    let x = op / 64;
    let y = (op / 8) % 8;
    let z = op % 8;
    let p = y / 2;
    let q = y % 2;
    let n = b[1];
    let e = byte_i8(b[1]);
    let nn = Address((b[1] + 256 * b[2]) as u16);
    if x == 0 {
        if z == 0 {
            if y == 0 {
                Instruction::Nop
            } else if y == 1 {
                Instruction::Ld(Load::AddressSp { dest: nn })
            } else if y == 2 {
                Instruction::Stop
            } else if y == 3 {
                Instruction::Jr { offset: e, condition: None }
            } else {
                Instruction::Jr { offset: e, condition: Some(cond_of(y - 4)) }
            }
        } else if z == 1 {
            if q == 0 {
                Instruction::Ld(Load::R16Const { dest: r16_of(p), source: nn.0 })
            } else {
                Instruction::Add(Add::Hl(r16_of(p)))
            }
        } else if z == 2 {
            if q == 0 {
                Instruction::Ld(Load::R16MemA { dest: r16mem_of(p) })
            } else {
                Instruction::Ld(Load::AR16Mem { source: r16mem_of(p) })
            }
        } else if z == 3 {
            if q == 0 {
                Instruction::Inc(DecInc::R16(r16_of(p)))
            } else {
                Instruction::Dec(DecInc::R16(r16_of(p)))
            }
        } else if z == 4 {
            Instruction::Inc(DecInc::V8(r8_of(y)))
        } else if z == 5 {
            Instruction::Dec(DecInc::V8(r8_of(y)))
        } else if z == 6 {
            Instruction::Ld(Load::V8Const { dest: r8_of(y), source: n })
        } else if y == 0 {
            Instruction::Rlca
        } else if y == 1 {
            Instruction::Rrca
        } else if y == 2 {
            Instruction::Rla
        } else if y == 3 {
            Instruction::Rra
        } else if y == 4 {
            Instruction::Daa
        } else if y == 5 {
            Instruction::Cpl
        } else if y == 6 {
            Instruction::Scf
        } else {
            Instruction::Ccf
        }
    } else if x == 1 {
        if y == 6 && z == 6 {
            Instruction::Halt
        } else {
            Instruction::Ld(Load::V8V8 { dest: r8_of(y), source: r8_of(z) })
        }
    } else if x == 2 {
        alu_of(y, Operand::V8(r8_of(z)))
    } else if z == 0 {
        if y < 4 {
            Instruction::Ret(Some(cond_of(y)))
        } else if y == 4 {
            Instruction::Ldh(LoadHigh::ConstA(n))
        } else if y == 5 {
            Instruction::Add(Add::Sp(e))
        } else if y == 6 {
            Instruction::Ldh(LoadHigh::AConst(n))
        } else {
            Instruction::Ld(Load::HlSpOffset { offset: e })
        }
    } else if z == 1 {
        if q == 0 {
            Instruction::Pop(r16stk_of(p))
        } else if p == 0 {
            Instruction::Ret(None)
        } else if p == 1 {
            Instruction::Reti
        } else if p == 2 {
            Instruction::Jp(Jump::Hl)
        } else {
            Instruction::Ld(Load::SpHl)
        }
    } else if z == 2 {
        if y < 4 {
            Instruction::Jp(Jump::AddressCc(cond_of(y), nn))
        } else if y == 4 {
            Instruction::Ldh(LoadHigh::CA)
        } else if y == 5 {
            Instruction::Ld(Load::AddressA { dest: nn })
        } else if y == 6 {
            Instruction::Ldh(LoadHigh::AC)
        } else {
            Instruction::Ld(Load::AAddress { source: nn })
        }
    } else if z == 3 {
        if y == 0 {
            Instruction::Jp(Jump::Address(nn))
        } else if y == 1 {
            read_cb(n)
        } else if y == 6 {
            Instruction::Di
        } else if y == 7 {
            Instruction::Ei
        } else {
            Instruction::Invalid
        }
    } else if z == 4 {
        if y < 4 {
            Instruction::Call { address: nn, condition: Some(cond_of(y)) }
        } else {
            Instruction::Invalid
        }
    } else if z == 5 {
        if q == 0 {
            Instruction::Push(r16stk_of(p))
        } else if p == 0 {
            Instruction::Call { address: nn, condition: None }
        } else {
            Instruction::Invalid
        }
    } else if z == 6 {
        alu_of(y, Operand::Const(n))
    } else {
        Instruction::Rst(Address((8 * y) as u16))
    }
}

/// An opcode assembled from its fields splits back into the same fields.
proof fn lemma_fields(x: int, y: int, z: int)
    requires
        0 <= x < 4,
        0 <= y < 8,
        0 <= z < 8,
    ensures
        ((64 * x + 8 * y + z) as u8) as int == 64 * x + 8 * y + z,
        (64 * x + 8 * y + z) / 64 == x,
        ((64 * x + 8 * y + z) / 8) % 8 == y,
        (64 * x + 8 * y + z) % 8 == z,
        y / 2 * 2 + y % 2 == y,
        y / 2 < 4,
{
    assert((64 * x + 8 * y + z) / 64 == x) by (nonlinear_arith)
        requires
            0 <= x < 4,
            0 <= y < 8,
            0 <= z < 8,
    ;
    assert(((64 * x + 8 * y + z) / 8) % 8 == y) by (nonlinear_arith)
        requires
            0 <= x < 4,
            0 <= y < 8,
            0 <= z < 8,
    ;
    assert((64 * x + 8 * y + z) % 8 == z) by (nonlinear_arith)
        requires
            0 <= x < 4,
            0 <= y < 8,
            0 <= z < 8,
    ;
}

/// A 16-bit immediate is its two bytes, little-endian.
proof fn lemma_u16_bytes(v: u16)
    ensures
        (lo(v) + 256 * hi(v)) as u16 == v,
{
}

/// A signed offset survives the round trip through its byte.
proof fn lemma_i8_byte(e: i8)
    ensures
        byte_i8(i8_byte(e)) == e,
{
}

/// Reading back an `LD` encoding gives the same load.
#[verifier::rlimit(40)]
#[verifier::spinoff_prover]
proof fn lemma_read_load(l: Load)
    requires
        is_encodable(Instruction::Ld(l)),
    ensures
        read_encoding(encode(Instruction::Ld(l))) == Instruction::Ld(l),
        encode(Instruction::Ld(l)).len() == instruction_len(encode(Instruction::Ld(l))[0]),
        !is_invalid_opcode(encode(Instruction::Ld(l))[0]),
{
    reveal(read_encoding);
    match l {
        Load::R16Const { dest, source } => {
            lemma_fields(0, 2 * r16_code(dest), 1);
            lemma_u16_bytes(source);
        },
        Load::R16MemA { dest } => lemma_fields(0, 2 * r16mem_code(dest), 2),
        Load::AR16Mem { source } => lemma_fields(0, 2 * r16mem_code(source) + 1, 2),
        Load::AddressSp { dest } => {
            lemma_fields(0, 1, 0);
            lemma_u16_bytes(dest.0);
        },
        Load::V8Const { dest, source } => lemma_fields(0, r8_code(dest), 6),
        Load::V8V8 { dest, source } => lemma_fields(1, r8_code(dest), r8_code(source)),
        Load::AddressA { dest } => {
            lemma_fields(3, 5, 2);
            lemma_u16_bytes(dest.0);
        },
        Load::AAddress { source } => {
            lemma_fields(3, 7, 2);
            lemma_u16_bytes(source.0);
        },
        Load::HlSpOffset { offset } => {
            lemma_fields(3, 7, 0);
            lemma_i8_byte(offset);
        },
        Load::SpHl => lemma_fields(3, 7, 1),
    }
}

/// Reading back an 8-bit ALU encoding gives the same instruction.
proof fn lemma_read_alu(k: int, operand: Operand)
    requires
        0 <= k < 8,
    ensures
        read_encoding(encode_alu(k, operand)) == alu_of(k, operand),
        encode(alu_of(k, operand)).len() == instruction_len(encode(alu_of(k, operand))[0]),
        !is_invalid_opcode(encode(alu_of(k, operand))[0]),
{
    reveal(read_encoding);
    match operand {
        Operand::V8(v) => lemma_fields(2, k, r8_code(v)),
        Operand::Const(n) => lemma_fields(3, k, 6),
    }
}

/// Instructions behind the `$CB` prefix
spec fn is_cb(i: Instruction) -> bool {
    ||| i matches Instruction::Rlc(_)
    ||| i matches Instruction::Rrc(_)
    ||| i matches Instruction::Rl(_)
    ||| i matches Instruction::Rr(_)
    ||| i matches Instruction::Sla(_)
    ||| i matches Instruction::Sra(_)
    ||| i matches Instruction::Swap(_)
    ||| i matches Instruction::Srl(_)
    ||| i matches Instruction::Bit(_, _)
    ||| i matches Instruction::Res(_, _)
    ||| i matches Instruction::SetBit(_, _)
}

/// The second byte of a `$CB`-prefixed instruction with fields `x`, `y`, `z`
/// reads back as that instruction.
proof fn lemma_read_cb_fields(x: int, y: int, v: Value8)
    requires
        0 <= x < 4,
        0 <= y < 8,
    ensures
        read_cb(((64 * x + 8 * y + r8_code(v)) as u8)) == (if x == 0 {
            if y == 0 {
                Instruction::Rlc(v)
            } else if y == 1 {
                Instruction::Rrc(v)
            } else if y == 2 {
                Instruction::Rl(v)
            } else if y == 3 {
                Instruction::Rr(v)
            } else if y == 4 {
                Instruction::Sla(v)
            } else if y == 5 {
                Instruction::Sra(v)
            } else if y == 6 {
                Instruction::Swap(v)
            } else {
                Instruction::Srl(v)
            }
        } else if x == 1 {
            Instruction::Bit(Bit(y as u8), v)
        } else if x == 2 {
            Instruction::Res(Bit(y as u8), v)
        } else {
            Instruction::SetBit(Bit(y as u8), v)
        }),
{
    lemma_fields(x, y, r8_code(v));
    let op = (64 * x + 8 * y + r8_code(v)) as u8;
    assert(op as int / 64 == x);
    assert((op as int / 8) % 8 == y);
    assert(r8_of(op as int % 8) == v);
}

/// Reading back the second byte of a `$CB`-prefixed encoding gives the same
/// instruction.
proof fn lemma_read_cb_byte(i: Instruction)
    requires
        is_encodable(i),
        is_cb(i),
    ensures
        encode(i).len() == 2,
        encode(i)[0] == 0xCB,
        read_cb(encode(i)[1]) == i,
{
    match i {
        Instruction::Rlc(v) => lemma_read_cb_fields(0, 0, v),
        Instruction::Rrc(v) => lemma_read_cb_fields(0, 1, v),
        Instruction::Rl(v) => lemma_read_cb_fields(0, 2, v),
        Instruction::Rr(v) => lemma_read_cb_fields(0, 3, v),
        Instruction::Sla(v) => lemma_read_cb_fields(0, 4, v),
        Instruction::Sra(v) => lemma_read_cb_fields(0, 5, v),
        Instruction::Swap(v) => lemma_read_cb_fields(0, 6, v),
        Instruction::Srl(v) => lemma_read_cb_fields(0, 7, v),
        Instruction::Bit(b, v) => lemma_read_cb_fields(1, b.0 as int, v),
        Instruction::Res(b, v) => lemma_read_cb_fields(2, b.0 as int, v),
        Instruction::SetBit(b, v) => lemma_read_cb_fields(3, b.0 as int, v),
        _ => {},
    }
}

/// Reading back a `$CB`-prefixed encoding gives the same instruction.
#[verifier::rlimit(40)]
#[verifier::spinoff_prover]
proof fn lemma_read_cb(i: Instruction)
    requires
        is_encodable(i),
        is_cb(i),
    ensures
        read_encoding(encode(i)) == i,
        encode(i).len() == instruction_len(encode(i)[0]),
        !is_invalid_opcode(encode(i)[0]),
{
    reveal(read_encoding);
    lemma_read_cb_byte(i);
    lemma_fields(3, 1, 3);
}

/// Reading back the encoding of a control-flow instruction gives the
/// instruction.
#[verifier::rlimit(40)]
#[verifier::spinoff_prover]
proof fn lemma_read_control(i: Instruction)
    requires
        is_encodable(i),
        i matches Instruction::Jr { .. } || i matches Instruction::Ret(_) || i matches Instruction::Reti
            || i matches Instruction::Jp(_) || i matches Instruction::Call { .. } || i matches Instruction::Rst(_),
    ensures
        read_encoding(encode(i)) == i,
        encode(i).len() == instruction_len(encode(i)[0]),
        !is_invalid_opcode(encode(i)[0]),
{
    reveal(read_encoding);
    match i {
        Instruction::Jr { offset, condition: None } => {
            lemma_fields(0, 3, 0);
            lemma_i8_byte(offset);
        },
        Instruction::Jr { offset, condition: Some(c) } => {
            lemma_fields(0, 4 + cond_code(c), 0);
            lemma_i8_byte(offset);
        },
        Instruction::Ret(Some(c)) => lemma_fields(3, cond_code(c), 0),
        Instruction::Ret(None) => lemma_fields(3, 1, 1),
        Instruction::Reti => lemma_fields(3, 3, 1),
        Instruction::Jp(Jump::AddressCc(c, a)) => {
            lemma_fields(3, cond_code(c), 2);
            lemma_u16_bytes(a.0);
        },
        Instruction::Jp(Jump::Address(a)) => {
            lemma_fields(3, 0, 3);
            lemma_u16_bytes(a.0);
        },
        Instruction::Jp(Jump::Hl) => lemma_fields(3, 5, 1),
        Instruction::Call { address, condition: Some(c) } => {
            lemma_fields(3, cond_code(c), 4);
            lemma_u16_bytes(address.0);
        },
        Instruction::Call { address, condition: None } => {
            lemma_fields(3, 1, 5);
            lemma_u16_bytes(address.0);
        },
        Instruction::Rst(a) => lemma_fields(3, a.0 as int / 8, 7),
        _ => {},
    }
}

/// Instructions outside the load, ALU, control-flow and `$CB` families
spec fn is_misc(i: Instruction) -> bool {
    ||| i matches Instruction::Nop
    ||| i matches Instruction::Stop
    ||| i matches Instruction::Inc(_)
    ||| i matches Instruction::Dec(_)
    ||| i matches Instruction::Add(Add::Hl(_))
    ||| i matches Instruction::Add(Add::Sp(_))
    ||| i matches Instruction::Rlca
    ||| i matches Instruction::Rrca
    ||| i matches Instruction::Rla
    ||| i matches Instruction::Rra
    ||| i matches Instruction::Daa
    ||| i matches Instruction::Cpl
    ||| i matches Instruction::Scf
    ||| i matches Instruction::Ccf
    ||| i matches Instruction::Halt
    ||| i matches Instruction::Pop(_)
    ||| i matches Instruction::Push(_)
    ||| i matches Instruction::Ldh(_)
    ||| i matches Instruction::Di
    ||| i matches Instruction::Ei
}

/// Reading back the encoding of any other instruction gives the instruction.
#[verifier::rlimit(40)]
#[verifier::spinoff_prover]
proof fn lemma_read_other(i: Instruction)
    requires
        is_encodable(i),
        is_misc(i),
    ensures
        read_encoding(encode(i)) == i,
        encode(i).len() == instruction_len(encode(i)[0]),
        !is_invalid_opcode(encode(i)[0]),
{
    reveal(read_encoding);
    match i {
        Instruction::Nop => lemma_fields(0, 0, 0),
        Instruction::Stop => lemma_fields(0, 2, 0),
        Instruction::Inc(DecInc::R16(r)) => lemma_fields(0, 2 * r16_code(r), 3),
        Instruction::Dec(DecInc::R16(r)) => lemma_fields(0, 2 * r16_code(r) + 1, 3),
        Instruction::Inc(DecInc::V8(v)) => lemma_fields(0, r8_code(v), 4),
        Instruction::Dec(DecInc::V8(v)) => lemma_fields(0, r8_code(v), 5),
        Instruction::Add(Add::Hl(r)) => lemma_fields(0, 2 * r16_code(r) + 1, 1),
        Instruction::Add(Add::Sp(e)) => {
            lemma_fields(3, 5, 0);
            lemma_i8_byte(e);
        },
        Instruction::Rlca => lemma_fields(0, 0, 7),
        Instruction::Rrca => lemma_fields(0, 1, 7),
        Instruction::Rla => lemma_fields(0, 2, 7),
        Instruction::Rra => lemma_fields(0, 3, 7),
        Instruction::Daa => lemma_fields(0, 4, 7),
        Instruction::Cpl => lemma_fields(0, 5, 7),
        Instruction::Scf => lemma_fields(0, 6, 7),
        Instruction::Ccf => lemma_fields(0, 7, 7),
        Instruction::Halt => lemma_fields(1, 6, 6),
        Instruction::Pop(r) => lemma_fields(3, 2 * r16stk_code(r), 1),
        Instruction::Push(r) => lemma_fields(3, 2 * r16stk_code(r), 5),
        Instruction::Ldh(LoadHigh::CA) => lemma_fields(3, 4, 2),
        Instruction::Ldh(LoadHigh::ConstA(n)) => lemma_fields(3, 4, 0),
        Instruction::Ldh(LoadHigh::AC) => lemma_fields(3, 6, 2),
        Instruction::Ldh(LoadHigh::AConst(n)) => lemma_fields(3, 6, 0),
        Instruction::Di => lemma_fields(3, 6, 3),
        Instruction::Ei => lemma_fields(3, 7, 3),
        _ => {},
    }
}

/// Reading back the encoding of an instruction gives the instruction; the
/// encoding starts with a defined opcode and is as long as that opcode says.
pub proof fn law_read_encoding(i: Instruction)
    requires
        is_encodable(i),
    ensures
        read_encoding(encode(i)) == i,
        encode(i).len() == instruction_len(encode(i)[0]),
        !is_invalid_opcode(encode(i)[0]),
{
    match i {
        Instruction::Ld(l) => lemma_read_load(l),
        Instruction::Add(Add::A(o)) => lemma_read_alu(0, o),
        Instruction::Adc(o) => lemma_read_alu(1, o),
        Instruction::Sub(o) => lemma_read_alu(2, o),
        Instruction::Sbc(o) => lemma_read_alu(3, o),
        Instruction::And(o) => lemma_read_alu(4, o),
        Instruction::Xor(o) => lemma_read_alu(5, o),
        Instruction::Or(o) => lemma_read_alu(6, o),
        Instruction::Cp(o) => lemma_read_alu(7, o),
        Instruction::Jr { .. } | Instruction::Ret(_) | Instruction::Reti | Instruction::Jp(_)
        | Instruction::Call { .. } | Instruction::Rst(_) => lemma_read_control(i),
        Instruction::Rlc(_) | Instruction::Rrc(_) | Instruction::Rl(_) | Instruction::Rr(_)
        | Instruction::Sla(_) | Instruction::Sra(_) | Instruction::Swap(_) | Instruction::Srl(_)
        | Instruction::Bit(_, _) | Instruction::Res(_, _) | Instruction::SetBit(_, _) => lemma_read_cb(i),
        _ => lemma_read_other(i),
    }
}

/// Distinct encodable instructions have distinct machine code: an encoding
/// can be read back in exactly one way.
pub proof fn law_encode_injective(i: Instruction, j: Instruction)
    requires
        is_encodable(i),
        is_encodable(j),
        encode(i) =~= encode(j),
    ensures
        i == j,
{
    law_read_encoding(i);
    law_read_encoding(j);
}

} // verus!
