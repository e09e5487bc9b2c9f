use sad_boy::emu::cpu::math::{add8, daa, sub8};
use sad_boy::emu::cpu::{BcdFlags, Cpu};
use sad_boy::emu::clock::Cycles;
use sad_boy::emu::gpu::Vram;
use sad_boy::emu::instruction::{
    Add, DecInc, Instruction, Load, Operand, Register16, Register16Stack, Register8, Value8,
};
use sad_boy::emu::memory::{Address, MemoryBus, RandomAccessMemory};
use sad_boy::emu::rom::Rom;

/// Execute an instruction on the CPU
fn execute(cpu: &mut Cpu, instruction: Instruction) {
    let mut memory = RandomAccessMemory::new();
    let rom = Rom::empty();
    let mut vram = Vram::new();
    let mut memory = MemoryBus::new(&rom, &mut memory, &mut vram);
    cpu.execute(&mut memory, instruction).unwrap();
}

fn flags(zero: bool, subtract: bool, half_carry: bool, carry: bool) -> BcdFlags {
    BcdFlags { zero, subtract, half_carry, carry }
}

/// Addition to register `a` (`ADD A,n8`)
#[test]
fn add_a() {
    let cases = [
        (0x00, 0x00, 0x00, flags(true, false, false, false)),
        (0x44, 0x88, 0xCC, flags(false, false, false, false)),
        (0x08, 0x88, 0x90, flags(false, false, true, false)),
        (0xFF, 0x10, 0x0F, flags(false, false, false, true)),
        (0xFF, 0x01, 0x00, flags(true, false, true, true)),
        (0x50, 0xb0, 0x00, flags(true, false, false, true)),
    ];
    for (lhs, rhs, expected_value, expected_flags) in cases {
        let mut cpu = Cpu::power_on();
        cpu.registers.a = lhs;
        execute(&mut cpu, Instruction::Add(Add::A(Operand::Const(rhs))));
        assert_eq!(cpu.registers.a, expected_value, "sum");
        assert_eq!(cpu.registers.flags(), expected_flags, "flags");
    }
}

/// Addition to register `hl` (`ADD HL,r16`)
#[test]
fn add_hl() {
    let cases = [
        (0x0000, 0x0000, 0x0000, flags(true, false, false, false)),
        (0x4488, 0x8844, 0xCCCC, flags(false, false, false, false)),
        // Half-carry is on bits 11->12 (not 7->8)
        (0x0FFF, 0x0001, 0x1000, flags(false, false, true, false)),
        (0xF000, 0x100F, 0x000F, flags(false, false, false, true)),
        (0xFFFF, 0x01, 0x00, flags(true, false, true, true)),
        (0x5000, 0xb000, 0x0000, flags(true, false, false, true)),
    ];
    for (lhs, rhs, expected_value, expected_flags) in cases {
        let mut cpu = Cpu::power_on();
        cpu.registers.set_hl(lhs);
        cpu.registers.set_bc(rhs);
        execute(&mut cpu, Instruction::Add(Add::Hl(Register16::Bc)));
        assert_eq!(cpu.registers.hl(), expected_value, "sum");
        assert_eq!(cpu.registers.flags(), expected_flags, "flags");
    }
}

/// Addition to register `sp` (`ADD SP,e8`)
#[test]
fn add_sp() {
    let cases: [(u16, i8, u16, BcdFlags); 3] = [
        (0x0000, 0x00, 0x0000, flags(true, false, false, false)),
        // Half-carry is on bits 3->4
        (0x011F, 0x01, 0x0120, flags(false, false, true, false)),
        (0x0120, -0x01, 0x011F, flags(false, false, true, false)),
    ];
    for (lhs, rhs, expected_value, expected_flags) in cases {
        let mut cpu = Cpu::power_on();
        cpu.registers.sp = Address(lhs);
        execute(&mut cpu, Instruction::Add(Add::Sp(rhs)));
        assert_eq!(cpu.registers.sp.0, expected_value, "sum");
        assert_eq!(cpu.registers.flags(), expected_flags, "flags");
    }
}

/// Subtraction from register `a` (`SUB A,n8`)
#[test]
fn sub_a() {
    let cases = [
        (0x00, 0x00, 0x00, flags(true, true, false, false)),
        (0x88, 0x44, 0x44, flags(false, true, false, false)),
        (0x90, 0x08, 0x88, flags(false, true, true, false)),
        (0x0F, 0xFF, 0x10, flags(false, true, false, true)),
        (0x01, 0xFF, 0x02, flags(false, true, true, true)),
    ];
    for (lhs, rhs, expected_value, expected_flags) in cases {
        let mut cpu = Cpu::power_on();
        cpu.registers.a = lhs;
        execute(&mut cpu, Instruction::Sub(Operand::Const(rhs)));
        assert_eq!(cpu.registers.a, expected_value, "difference");
        assert_eq!(cpu.registers.flags(), expected_flags, "flags");
    }
}

/// [add8] on every pair of operands
/// - Sum is always `lhs+rhs % 256`
/// - Zero flag is set if sum is 0
/// - Carry flag is set if `lhs+rhs > 255`
/// - Half carry flag is set if the add would overflow the bottom nibble
#[test]
fn add8_all() {
    for lhs in 0..=255u8 {
        for rhs in 0..=255u8 {
            let (sum, flags) = add8(lhs, rhs);
            let lhs: u16 = lhs.into();
            let rhs: u16 = rhs.into();
            let sum16 = lhs + rhs;
            let sum_wrap = (sum16 % 0x100) as u8;
            assert_eq!(sum, sum_wrap, "sum");
            assert_eq!(
                flags,
                BcdFlags {
                    zero: sum_wrap == 0,
                    subtract: false,
                    half_carry: ((lhs & 0xf) + (rhs & 0xf)) != (sum16 & 0xf),
                    carry: sum16 > 0xff,
                },
                "flags"
            );
        }
    }
}

/// [daa] after adding or subtracting any two BCD numbers
/// - Neither hex digit is ever greater than 9
/// - Zero flag is set iff the output is 0
/// - Subtract flag is retained (from the add/sub operation)
/// - Half Carry flag is unset
/// - Carry flag is retained, or set if addition overflowed
#[test]
fn daa_bcd() {
    let bcd: Vec<u8> = (0..=9u8).flat_map(|high| (0..=9u8).map(move |low| (high << 4) | low)).collect();
    for &lhs in &bcd {
        for &rhs in &bcd {
            for subtract in [false, true] {
                let (a, flags) = if subtract { sub8(lhs, rhs) } else { add8(lhs, rhs) };
                let carry = flags.carry;
                let (a_out, flags) = daa(a, flags);
                assert!(a_out & 0xF <= 0x9, "lower digit must be <= 9: {a_out:X}");
                assert!(a_out & 0xF0 <= 0x90, "upper digit must be <= 9: {a_out:X}");
                assert_eq!(
                    flags,
                    BcdFlags {
                        zero: a_out == 0,
                        subtract,
                        half_carry: false,
                        carry: carry || (!subtract && a > 0x99),
                    },
                    "flags"
                );
            }
        }
    }
}

/// `DAA` turns a binary sum back into the decimal sum: 15 + 27 = 42
#[test]
fn daa_decimal_sum() {
    let (a, flags) = add8(0x15, 0x27);
    assert_eq!(a, 0x3C);
    let (a, flags) = daa(a, flags);
    assert_eq!(a, 0x42);
    assert!(!flags.carry);
}

/// Register pairs read back what was written, high byte first
#[test]
fn register_pairs() {
    let mut cpu = Cpu::power_on();
    cpu.registers.set_bc(0x1234);
    cpu.registers.set_de(0xABCD);
    cpu.registers.set_hl(0xBEEF);
    assert_eq!(cpu.registers.bc(), 0x1234);
    assert_eq!(cpu.registers.b(), 0x12);
    assert_eq!(cpu.registers.c(), 0x34);
    assert_eq!(cpu.registers.de(), 0xABCD);
    assert_eq!(cpu.registers.hl(), 0xBEEF);
    assert_eq!(cpu.registers.h(), 0xBE);
    assert_eq!(cpu.registers.l(), 0xEF);
}

/// Flags round-trip through the `f` register, which keeps its low nibble
/// clear
#[test]
fn flags_round_trip() {
    let mut cpu = Cpu::power_on();
    let f = flags(true, false, true, false);
    cpu.registers.set_flags(f);
    assert_eq!(cpu.registers.flags(), f);
    assert_eq!(cpu.registers.f(), 0b1010_0000);
    cpu.registers.set_af(0x12FF);
    assert_eq!(cpu.registers.a(), 0x12);
    assert_eq!(cpu.registers.flags(), flags(true, true, true, true));
}

/// Execute an instruction with the given memory
fn execute_in(cpu: &mut Cpu, memory: &mut MemoryBus, instruction: Instruction) {
    cpu.execute(memory, instruction).unwrap();
}

/// Pushing a register pair and popping it into another copies it, and puts
/// the stack pointer back
#[test]
fn push_pop() {
    let rom = Rom::empty();
    let mut ram = RandomAccessMemory::new();
    let mut vram = Vram::new();
    let mut memory = MemoryBus::new(&rom, &mut ram, &mut vram);
    let mut cpu = Cpu::power_on();
    cpu.registers.sp = Address(0xFFFE);
    cpu.registers.set_bc(0xBEEF);
    execute_in(&mut cpu, &mut memory, Instruction::Push(Register16Stack::Bc));
    assert_eq!(cpu.registers.sp(), Address(0xFFFC));
    assert_eq!(memory.get16(Address(0xFFFC)), 0xBEEF);
    execute_in(&mut cpu, &mut memory, Instruction::Pop(Register16Stack::De));
    assert_eq!(cpu.registers.de(), 0xBEEF);
    assert_eq!(cpu.registers.sp(), Address(0xFFFE));
}

/// A call followed by a return comes back after the call
#[test]
fn call_ret() {
    let rom = Rom::empty();
    let mut ram = RandomAccessMemory::new();
    let mut vram = Vram::new();
    let mut memory = MemoryBus::new(&rom, &mut ram, &mut vram);
    let mut cpu = Cpu::power_on();
    cpu.registers.sp = Address(0xFFFE);
    cpu.registers.pc = Address(0x0150);
    execute_in(&mut cpu, &mut memory, Instruction::Call { address: Address(0x2000), condition: None });
    assert_eq!(cpu.registers.pc(), Address(0x2000));
    assert_eq!(cpu.registers.sp(), Address(0xFFFC));
    execute_in(&mut cpu, &mut memory, Instruction::Ret(None));
    assert_eq!(cpu.registers.pc(), Address(0x0153));
    assert_eq!(cpu.registers.sp(), Address(0xFFFE));
}

/// The stack lives in high RAM: a push below it is a fault
#[test]
fn stack_outside_high_ram() {
    let rom = Rom::empty();
    let mut ram = RandomAccessMemory::new();
    let mut vram = Vram::new();
    let mut memory = MemoryBus::new(&rom, &mut ram, &mut vram);
    let mut cpu = Cpu::power_on();
    cpu.registers.sp = Address(0xC000);
    assert!(cpu.execute(&mut memory, Instruction::Push(Register16Stack::Bc)).is_err());
}

/// `ADC` adds the operand and the carry as one nine-bit sum
#[test]
fn adc_a() {
    let cases = [
        // a, operand, carry in, result, flags
        (0x01, 0xFF, true, 0x01, flags(false, false, true, true)),
        (0x0E, 0x01, true, 0x10, flags(false, false, true, false)),
        (0x00, 0x00, true, 0x01, flags(false, false, false, false)),
        (0xFF, 0x00, true, 0x00, flags(true, false, true, true)),
        (0x12, 0x34, false, 0x46, flags(false, false, false, false)),
    ];
    for (a, operand, carry, expected, expected_flags) in cases {
        let mut cpu = Cpu::power_on();
        cpu.registers.a = a;
        cpu.registers.set_flags(flags(false, false, false, carry));
        execute(&mut cpu, Instruction::Adc(Operand::Const(operand)));
        assert_eq!(cpu.registers.a, expected, "{a:02x} + {operand:02x} + {carry}");
        assert_eq!(cpu.registers.flags(), expected_flags, "{a:02x} + {operand:02x} + {carry}");
    }
}

/// `SBC` subtracts the operand and the carry as one nine-bit difference
#[test]
fn sbc_a() {
    let cases = [
        (0x01, 0xFF, true, 0x01, flags(false, true, true, true)),
        (0x10, 0x0F, true, 0x00, flags(true, true, true, false)),
        (0x00, 0x00, true, 0xFF, flags(false, true, true, true)),
        (0x46, 0x34, false, 0x12, flags(false, true, false, false)),
    ];
    for (a, operand, carry, expected, expected_flags) in cases {
        let mut cpu = Cpu::power_on();
        cpu.registers.a = a;
        cpu.registers.set_flags(flags(false, false, false, carry));
        execute(&mut cpu, Instruction::Sbc(Operand::Const(operand)));
        assert_eq!(cpu.registers.a, expected, "{a:02x} - {operand:02x} - {carry}");
        assert_eq!(cpu.registers.flags(), expected_flags, "{a:02x} - {operand:02x} - {carry}");
    }
}

/// `DEC` sets half-carry on a borrow from bit 4, `INC` on a carry out of
/// bit 3; both keep the carry flag
#[test]
fn dec_inc_half_carry() {
    let cases = [
        // value, decrement?, result, flags (carry set beforehand)
        (0x10, true, 0x0F, flags(false, true, true, true)),
        (0x01, true, 0x00, flags(true, true, false, true)),
        (0x00, true, 0xFF, flags(false, true, true, true)),
        (0x0F, false, 0x10, flags(false, false, true, true)),
        (0xFF, false, 0x00, flags(true, false, true, true)),
        (0x01, false, 0x02, flags(false, false, false, true)),
    ];
    for (value, decrement, expected, expected_flags) in cases {
        let mut cpu = Cpu::power_on();
        cpu.registers.b = value;
        cpu.registers.set_flags(flags(false, false, false, true));
        let target = DecInc::V8(Value8::Register(Register8::B));
        let instruction = if decrement { Instruction::Dec(target) } else { Instruction::Inc(target) };
        execute(&mut cpu, instruction);
        assert_eq!(cpu.registers.b, expected, "{value:02x}");
        assert_eq!(cpu.registers.flags(), expected_flags, "{value:02x} {decrement}");
    }
}

/// Debug info shows the registers and the instruction at the program counter
#[test]
fn debug_info_next_instruction() {
    // While the boot ROM is mapped, instructions come from it
    let rom = Rom::empty();
    let mut ram = RandomAccessMemory::new();
    let mut vram = Vram::new();
    let memory = MemoryBus::new(&rom, &mut ram, &mut vram);
    let mut cpu = Cpu::power_on();
    cpu.registers.b = 0x12;
    cpu.registers.c = 0x34;
    cpu.registers.pc = Address(3);
    let info = cpu.debug_info(&memory);
    assert_eq!(info.b, 0x12);
    assert_eq!(info.c, 0x34);
    assert_eq!(info.bc, 0x1234);
    assert_eq!(info.pc, Address(3));
    assert_eq!(
        info.next_instruction,
        (Instruction::Xor(Operand::V8(Value8::Register(Register8::A))), Cycles(1), 1)
    );
    cpu.registers.pc = Address(0);
    let (instruction, cycles, size) = cpu.debug_info(&memory).next_instruction;
    assert_eq!(instruction, Instruction::Ld(Load::R16Const { dest: Register16::Sp, source: 0xfffe }));
    assert_eq!(cycles, Cycles(3));
    assert_eq!(size, 3);
}

/// Instructions are loaded from the boot ROM while it is mapped
#[test]
fn bus_get_instruction() {
    let rom = Rom::empty();
    let mut ram = RandomAccessMemory::new();
    let mut vram = Vram::new();
    let memory = MemoryBus::new(&rom, &mut ram, &mut vram);
    assert_eq!(
        memory.get_instruction(Address(0)),
        (Instruction::Ld(Load::R16Const { dest: Register16::Sp, source: 0xfffe }), 3)
    );
    assert_eq!(
        memory.get_instruction(Address(3)),
        (Instruction::Xor(Operand::V8(Value8::Register(Register8::A))), 1)
    );
    assert_eq!(
        memory.get_instruction(Address(4)),
        (Instruction::Ld(Load::R16Const { dest: Register16::Hl, source: 0x9fff }), 3)
    );
    assert!(memory.fetch_instruction(Address(0x8000)).is_err());
}

/// `DEC r8` called directly: half-carry is the borrow from bit 4, carry is kept
#[test]
fn dec_inc_direct() {
    let cases = [(0x10, 0x0F, true), (0x00, 0xFF, true), (0x01, 0x00, false)];
    for (value, expected, half_carry) in cases {
        for carry in [false, true] {
            let mut cpu = Cpu::power_on();
            cpu.registers.b = value;
            cpu.registers.set_flags(flags(false, false, false, carry));
            let mut ram = RandomAccessMemory::new();
            let rom = Rom::empty();
            let mut vram = Vram::new();
            let mut memory = MemoryBus::new(&rom, &mut ram, &mut vram);
            cpu.dec_inc(&mut memory, DecInc::V8(Value8::Register(Register8::B)), true);
            assert_eq!(cpu.registers.b, expected);
            assert_eq!(cpu.registers.flags(), flags(expected == 0, true, half_carry, carry));
        }
    }
}
