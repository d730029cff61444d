use dmg_2025::cpu::instructions::{
    decode, decode_prefixed, get_opcode_reg, get_opcode_reg16, opcode_condition, Condition,
    Instruction, Prefixed,
};
use dmg_2025::cpu::alu::{AluOp, RotOp};
use dmg_2025::cpu::opcodes::InvalidOpcode;
use dmg_2025::cpu::registers::{FlagReg, Reg16, Reg8};
use dmg_2025::cpu::CPU;

/// The cost in M-cycles of every opcode of the primary table, for a
/// conditional instruction the cost when the condition fails. Zero marks the
/// escape byte and the bytes without an instruction.
const COST: [[u8; 16]; 16] = [
    [1, 3, 2, 2, 1, 1, 2, 1, 5, 2, 2, 2, 1, 1, 2, 1],
    [1, 3, 2, 2, 1, 1, 2, 1, 3, 2, 2, 2, 1, 1, 2, 1],
    [2, 3, 2, 2, 1, 1, 2, 1, 2, 2, 2, 2, 1, 1, 2, 1],
    [2, 3, 2, 2, 3, 3, 3, 1, 2, 2, 2, 2, 1, 1, 2, 1],
    [1, 1, 1, 1, 1, 1, 2, 1, 1, 1, 1, 1, 1, 1, 2, 1],
    [1, 1, 1, 1, 1, 1, 2, 1, 1, 1, 1, 1, 1, 1, 2, 1],
    [1, 1, 1, 1, 1, 1, 2, 1, 1, 1, 1, 1, 1, 1, 2, 1],
    [2, 2, 2, 2, 2, 2, 1, 2, 1, 1, 1, 1, 1, 1, 2, 1],
    [1, 1, 1, 1, 1, 1, 2, 1, 1, 1, 1, 1, 1, 1, 2, 1],
    [1, 1, 1, 1, 1, 1, 2, 1, 1, 1, 1, 1, 1, 1, 2, 1],
    [1, 1, 1, 1, 1, 1, 2, 1, 1, 1, 1, 1, 1, 1, 2, 1],
    [1, 1, 1, 1, 1, 1, 2, 1, 1, 1, 1, 1, 1, 1, 2, 1],
    [2, 3, 3, 4, 3, 4, 2, 4, 2, 4, 3, 0, 3, 6, 2, 4],
    [2, 3, 3, 0, 3, 4, 2, 4, 2, 4, 3, 0, 3, 0, 2, 4],
    [3, 3, 2, 0, 0, 4, 2, 4, 4, 1, 4, 0, 0, 0, 2, 4],
    [3, 3, 2, 1, 0, 4, 2, 4, 3, 2, 4, 1, 0, 0, 2, 4],
];

const UNASSIGNED: [u8; 11] = [0xD3, 0xDB, 0xDD, 0xE3, 0xE4, 0xEB, 0xEC, 0xED, 0xF4, 0xFC, 0xFD];

/// The conditional opcodes with their condition and their cost when taken.
const CONDITIONAL: [(u8, Condition, u8); 16] = [
    (0x20, Condition::NotZero, 3),
    (0x28, Condition::Zero, 3),
    (0x30, Condition::NotCarry, 3),
    (0x38, Condition::Carry, 3),
    (0xC0, Condition::NotZero, 5),
    (0xC8, Condition::Zero, 5),
    (0xD0, Condition::NotCarry, 5),
    (0xD8, Condition::Carry, 5),
    (0xC2, Condition::NotZero, 4),
    (0xCA, Condition::Zero, 4),
    (0xD2, Condition::NotCarry, 4),
    (0xDA, Condition::Carry, 4),
    (0xC4, Condition::NotZero, 6),
    (0xCC, Condition::Zero, 6),
    (0xD4, Condition::NotCarry, 6),
    (0xDC, Condition::Carry, 6),
];

const PROGRAM: u16 = 0xC000;
const DATA: u16 = 0xC800;
const STACK: u16 = 0xD000;

fn flags(zero: bool, subtract: bool, half_carry: bool, carry: bool) -> FlagReg {
    FlagReg { zero, subtract, half_carry, carry }
}

/// A machine with `program` in work RAM, the program counter at its start, HL
/// at a byte of work RAM and the stack in work RAM.
fn machine(program: &[u8]) -> CPU {
    let mut cpu = match CPU::new(vec![0u8; 0x8000], 48000) {
        Ok(cpu) => cpu,
        Err(e) => panic!("image refused: {:?}", e),
    };
    for (i, byte) in program.iter().enumerate() {
        cpu.write(PROGRAM + i as u16, *byte);
    }
    cpu.reg.pc = PROGRAM;
    cpu.reg.sp = STACK;
    cpu.reg.write_pair(Reg16::HL, DATA);
    cpu.reg.f = flags(false, false, false, false);
    cpu
}

fn run(cpu: &mut CPU) -> u8 {
    match cpu.execute() {
        Ok(cost) => cost,
        Err(fault) => panic!("no instruction: {:?}", fault),
    }
}

fn holds(condition: Condition, f: FlagReg) -> bool {
    match condition {
        Condition::NotZero => !f.zero,
        Condition::Zero => f.zero,
        Condition::NotCarry => !f.carry,
        Condition::Carry => f.carry,
    }
}

#[test]
fn cost_of_every_opcode() {
    for start in [flags(false, false, false, false), flags(true, false, true, true)] {
        for opcode in 0..=255u8 {
            if opcode == 0xCB || UNASSIGNED.contains(&opcode) {
                continue;
            }
            let mut cpu = machine(&[opcode, 0x02, 0xC1]);
            cpu.reg.f = start;
            let mut expected = COST[(opcode >> 4) as usize][(opcode & 0x0F) as usize];
            for (conditional, condition, taken) in CONDITIONAL {
                if conditional == opcode && holds(condition, start) {
                    expected = taken;
                }
            }
            assert_eq!(run(&mut cpu), expected, "opcode {:#04X}", opcode);
        }
    }
}

#[test]
fn cost_of_every_prefixed_opcode() {
    for opcode in 0..=255u8 {
        let mut cpu = machine(&[0xCB, opcode]);
        let on_memory = opcode & 0x07 == 0x06;
        let expected = if !on_memory {
            2
        } else if (0x40..0x80).contains(&opcode) {
            3
        } else {
            4
        };
        assert_eq!(run(&mut cpu), expected, "opcode CB {:#04X}", opcode);
        assert_eq!(cpu.reg.pc, PROGRAM + 2);
    }
}

#[test]
fn length_of_every_opcode() {
    // The bytes that an instruction takes when it does not jump
    for opcode in 0..=255u8 {
        if UNASSIGNED.contains(&opcode) {
            continue;
        }
        let jumps = matches!(opcode, 0x18 | 0xC3 | 0xC9 | 0xCD | 0xD9 | 0xE9)
            || opcode & 0xC7 == 0xC7
            || CONDITIONAL.iter().any(|(c, condition, _)| {
                *c == opcode && matches!(condition, Condition::NotZero | Condition::NotCarry)
            });
        if jumps {
            continue;
        }
        let length = match opcode {
            0x01 | 0x11 | 0x21 | 0x31 | 0x08 | 0xEA | 0xFA => 3,
            0xC2 | 0xCA | 0xD2 | 0xDA | 0xC4 | 0xCC | 0xD4 | 0xDC => 3,
            0x06 | 0x0E | 0x16 | 0x1E | 0x26 | 0x2E | 0x36 | 0x3E => 2,
            0xC6 | 0xCE | 0xD6 | 0xDE | 0xE6 | 0xEE | 0xF6 | 0xFE => 2,
            0x20 | 0x28 | 0x30 | 0x38 | 0xE0 | 0xF0 | 0xE8 | 0xF8 | 0xCB => 2,
            _ => 1,
        };
        let mut cpu = machine(&[opcode, 0x02, 0xC1]);
        run(&mut cpu);
        assert_eq!(cpu.reg.pc, PROGRAM + length, "opcode {:#04X}", opcode);
    }
}

#[test]
fn bytes_without_an_instruction_are_reported() {
    for opcode in UNASSIGNED {
        assert_eq!(decode(opcode), Instruction::Invalid);
        let mut cpu = machine(&[opcode]);
        cpu.reg.a = 0x12;
        assert_eq!(cpu.execute(), Err(InvalidOpcode { opcode, address: PROGRAM }));
        // Nothing has changed
        assert_eq!(cpu.reg.pc, PROGRAM);
        assert_eq!(cpu.reg.a, 0x12);
        assert_eq!(cpu.reg.sp, STACK);
    }
    for opcode in 0..=255u8 {
        assert_eq!(decode(opcode) == Instruction::Invalid, UNASSIGNED.contains(&opcode));
    }
}

#[test]
fn decoding() {
    assert_eq!(decode(0x00), Instruction::Nop);
    assert_eq!(decode(0x10), Instruction::Stop);
    assert_eq!(decode(0x76), Instruction::Halt);
    assert_eq!(decode(0x01), Instruction::LoadPair(Reg16::BC));
    assert_eq!(decode(0x31), Instruction::LoadPair(Reg16::SP));
    assert_eq!(decode(0x39), Instruction::AddPair(Reg16::SP));
    assert_eq!(decode(0x34), Instruction::Increment(None));
    assert_eq!(decode(0x3D), Instruction::Decrement(Some(Reg8::A)));
    assert_eq!(decode(0x0E), Instruction::LoadImmediate(Some(Reg8::C)));
    assert_eq!(decode(0x41), Instruction::Load(Some(Reg8::B), Some(Reg8::C)));
    assert_eq!(decode(0x77), Instruction::Load(None, Some(Reg8::A)));
    assert_eq!(decode(0x7E), Instruction::Load(Some(Reg8::A), None));
    assert_eq!(decode(0x6C), Instruction::Load(Some(Reg8::L), Some(Reg8::H)));
    assert_eq!(decode(0x80), Instruction::Arithmetic(AluOp::Add, Some(Reg8::B)));
    assert_eq!(decode(0x8E), Instruction::Arithmetic(AluOp::Adc, None));
    assert_eq!(decode(0x97), Instruction::Arithmetic(AluOp::Sub, Some(Reg8::A)));
    assert_eq!(decode(0x9A), Instruction::Arithmetic(AluOp::Sbc, Some(Reg8::D)));
    assert_eq!(decode(0xA3), Instruction::Arithmetic(AluOp::And, Some(Reg8::E)));
    assert_eq!(decode(0xAF), Instruction::Arithmetic(AluOp::Xor, Some(Reg8::A)));
    assert_eq!(decode(0xB5), Instruction::Arithmetic(AluOp::Or, Some(Reg8::L)));
    assert_eq!(decode(0xBE), Instruction::Arithmetic(AluOp::Cp, None));
    assert_eq!(decode(0xFE), Instruction::ArithmeticImmediate(AluOp::Cp));
    assert_eq!(decode(0xC1), Instruction::Pop(Reg16::BC));
    assert_eq!(decode(0xF1), Instruction::Pop(Reg16::AF));
    assert_eq!(decode(0xF5), Instruction::Push(Reg16::AF));
    assert_eq!(decode(0x20), Instruction::JumpRelative(Some(Condition::NotZero)));
    assert_eq!(decode(0x18), Instruction::JumpRelative(None));
    assert_eq!(decode(0xDA), Instruction::Jump(Some(Condition::Carry)));
    assert_eq!(decode(0xCC), Instruction::Call(Some(Condition::Zero)));
    assert_eq!(decode(0xD0), Instruction::Return(Some(Condition::NotCarry)));
    assert_eq!(decode(0xC7), Instruction::Restart(0x00));
    assert_eq!(decode(0xEF), Instruction::Restart(0x28));
    assert_eq!(decode(0xFF), Instruction::Restart(0x38));
    assert_eq!(decode(0xCB), Instruction::Prefix);

    assert_eq!(decode_prefixed(0x00), Prefixed::Rotate(RotOp::Rlc, Some(Reg8::B)));
    assert_eq!(decode_prefixed(0x1E), Prefixed::Rotate(RotOp::Rr, None));
    assert_eq!(decode_prefixed(0x37), Prefixed::Rotate(RotOp::Swap, Some(Reg8::A)));
    assert_eq!(decode_prefixed(0x3F), Prefixed::Rotate(RotOp::Srl, Some(Reg8::A)));
    assert_eq!(decode_prefixed(0x40), Prefixed::TestBit(0, Some(Reg8::B)));
    assert_eq!(decode_prefixed(0x7E), Prefixed::TestBit(7, None));
    assert_eq!(decode_prefixed(0x87), Prefixed::ResetBit(0, Some(Reg8::A)));
    assert_eq!(decode_prefixed(0xFD), Prefixed::SetBit(7, Some(Reg8::L)));
}

#[test]
fn eight_bit_loads() {
    let mut cpu = machine(&[0x06, 0x12, 0x48, 0x71, 0x56, 0x36, 0x99, 0x7E]);
    run(&mut cpu); // LD B,0x12
    assert_eq!(cpu.reg.b, 0x12);
    run(&mut cpu); // LD C,B
    assert_eq!(cpu.reg.c, 0x12);
    run(&mut cpu); // LD (HL),C
    assert_eq!(cpu.read(DATA), 0x12);
    run(&mut cpu); // LD D,(HL)
    assert_eq!(cpu.reg.d, 0x12);
    run(&mut cpu); // LD (HL),0x99
    assert_eq!(cpu.read(DATA), 0x99);
    run(&mut cpu); // LD A,(HL)
    assert_eq!(cpu.reg.a, 0x99);
    assert_eq!(cpu.reg.f, flags(false, false, false, false));
}

#[test]
fn sixteen_bit_loads() {
    let mut cpu = machine(&[0x01, 0x34, 0x12, 0x31, 0xFE, 0xDF, 0x08, 0x00, 0xC9, 0xF9]);
    run(&mut cpu); // LD BC,0x1234
    assert_eq!((cpu.reg.b, cpu.reg.c), (0x12, 0x34));
    run(&mut cpu); // LD SP,0xDFFE
    assert_eq!(cpu.reg.sp, 0xDFFE);
    run(&mut cpu); // LD (0xC900),SP
    assert_eq!(cpu.read(0xC900), 0xFE);
    assert_eq!(cpu.read(0xC901), 0xDF);
    run(&mut cpu); // LD SP,HL
    assert_eq!(cpu.reg.sp, DATA);
}

#[test]
fn indirect_loads_step_hl() {
    let mut cpu = machine(&[0x22, 0x32, 0x2A, 0x3A, 0x02, 0x1A]);
    cpu.reg.a = 0x5A;
    run(&mut cpu); // LD (HL+),A
    assert_eq!(cpu.read(DATA), 0x5A);
    assert_eq!(cpu.reg.read_pair(Reg16::HL), DATA + 1);
    cpu.reg.a = 0xA5;
    run(&mut cpu); // LD (HL-),A
    assert_eq!(cpu.read(DATA + 1), 0xA5);
    assert_eq!(cpu.reg.read_pair(Reg16::HL), DATA);
    run(&mut cpu); // LD A,(HL+)
    assert_eq!(cpu.reg.a, 0x5A);
    assert_eq!(cpu.reg.read_pair(Reg16::HL), DATA + 1);
    run(&mut cpu); // LD A,(HL-)
    assert_eq!(cpu.reg.a, 0xA5);
    assert_eq!(cpu.reg.read_pair(Reg16::HL), DATA);
    cpu.reg.write_pair(Reg16::BC, 0xC910);
    cpu.reg.write_pair(Reg16::DE, DATA);
    run(&mut cpu); // LD (BC),A
    assert_eq!(cpu.read(0xC910), 0xA5);
    run(&mut cpu); // LD A,(DE)
    assert_eq!(cpu.reg.a, 0x5A);
}

#[test]
fn high_page_loads() {
    let mut cpu = machine(&[0xE0, 0x80, 0xF0, 0x81, 0xE2, 0xF2, 0xEA, 0x00, 0xC9, 0xFA, 0x01, 0xC9]);
    cpu.reg.a = 0x42;
    run(&mut cpu); // LDH (0x80),A
    assert_eq!(cpu.read(0xFF80), 0x42);
    cpu.write(0xFF81, 0x24);
    run(&mut cpu); // LDH A,(0x81)
    assert_eq!(cpu.reg.a, 0x24);
    cpu.reg.c = 0x90;
    run(&mut cpu); // LD (C),A
    assert_eq!(cpu.read(0xFF90), 0x24);
    cpu.write(0xFF90, 0x77);
    run(&mut cpu); // LD A,(C)
    assert_eq!(cpu.reg.a, 0x77);
    run(&mut cpu); // LD (0xC900),A
    assert_eq!(cpu.read(0xC900), 0x77);
    cpu.write(0xC901, 0x88);
    run(&mut cpu); // LD A,(0xC901)
    assert_eq!(cpu.reg.a, 0x88);
}

#[test]
fn arithmetic_flags() {
    // ADD A,B
    let mut cpu = machine(&[0x80]);
    cpu.reg.a = 0x3A;
    cpu.reg.b = 0xC6;
    run(&mut cpu);
    assert_eq!(cpu.reg.a, 0x00);
    assert_eq!(cpu.reg.f, flags(true, false, true, true));

    // ADC A,(HL)
    let mut cpu = machine(&[0x8E]);
    cpu.reg.a = 0xE1;
    cpu.reg.f.carry = true;
    cpu.write(DATA, 0x1E);
    run(&mut cpu);
    assert_eq!(cpu.reg.a, 0x00);
    assert_eq!(cpu.reg.f, flags(true, false, true, true));

    // SUB d8
    let mut cpu = machine(&[0xD6, 0x0F]);
    cpu.reg.a = 0x3E;
    run(&mut cpu);
    assert_eq!(cpu.reg.a, 0x2F);
    assert_eq!(cpu.reg.f, flags(false, true, true, false));

    // SBC A,H
    let mut cpu = machine(&[0x9C]);
    cpu.reg.a = 0x3B;
    cpu.reg.h = 0x2A;
    cpu.reg.f.carry = true;
    run(&mut cpu);
    assert_eq!(cpu.reg.a, 0x10);
    assert_eq!(cpu.reg.f, flags(false, true, false, false));

    // CP d8
    let mut cpu = machine(&[0xFE, 0x40]);
    cpu.reg.a = 0x3C;
    run(&mut cpu);
    assert_eq!(cpu.reg.a, 0x3C);
    assert_eq!(cpu.reg.f, flags(false, true, false, true));

    // AND, XOR, OR
    let mut cpu = machine(&[0xE6, 0x38, 0xEE, 0x18, 0xF6, 0x01]);
    cpu.reg.a = 0x5A;
    run(&mut cpu);
    assert_eq!(cpu.reg.a, 0x18);
    assert_eq!(cpu.reg.f, flags(false, false, true, false));
    run(&mut cpu);
    assert_eq!(cpu.reg.a, 0x00);
    assert_eq!(cpu.reg.f, flags(true, false, false, false));
    run(&mut cpu);
    assert_eq!(cpu.reg.a, 0x01);
    assert_eq!(cpu.reg.f, flags(false, false, false, false));
}

#[test]
fn increments_and_decrements() {
    let mut cpu = machine(&[0x04, 0x35, 0x03, 0x3B]);
    cpu.reg.b = 0xFF;
    cpu.reg.f.carry = true;
    run(&mut cpu); // INC B
    assert_eq!(cpu.reg.b, 0x00);
    assert_eq!(cpu.reg.f, flags(true, false, true, true));
    cpu.write(DATA, 0x00);
    run(&mut cpu); // DEC (HL)
    assert_eq!(cpu.read(DATA), 0xFF);
    assert_eq!(cpu.reg.f, flags(false, true, true, true));
    // The 16-bit forms leave the flags alone
    cpu.reg.write_pair(Reg16::BC, 0xFFFF);
    run(&mut cpu); // INC BC
    assert_eq!(cpu.reg.read_pair(Reg16::BC), 0x0000);
    assert_eq!(cpu.reg.f, flags(false, true, true, true));
    cpu.reg.sp = 0x0000;
    run(&mut cpu); // DEC SP
    assert_eq!(cpu.reg.sp, 0xFFFF);
    assert_eq!(cpu.reg.f, flags(false, true, true, true));
}

#[test]
fn sixteen_bit_arithmetic() {
    let mut cpu = machine(&[0x09, 0x29, 0xE8, 0x02, 0xF8, 0xFF]);
    cpu.reg.write_pair(Reg16::HL, 0x8A23);
    cpu.reg.write_pair(Reg16::BC, 0x0605);
    cpu.reg.f.zero = true;
    run(&mut cpu); // ADD HL,BC
    assert_eq!(cpu.reg.read_pair(Reg16::HL), 0x9028);
    assert_eq!(cpu.reg.f, flags(true, false, true, false));
    run(&mut cpu); // ADD HL,HL
    assert_eq!(cpu.reg.read_pair(Reg16::HL), 0x2050);
    assert_eq!(cpu.reg.f, flags(true, false, false, true));
    cpu.reg.sp = 0xFFF8;
    run(&mut cpu); // ADD SP,2
    assert_eq!(cpu.reg.sp, 0xFFFA);
    assert_eq!(cpu.reg.f, flags(false, false, false, false));
    run(&mut cpu); // LD HL,SP-1
    assert_eq!(cpu.reg.read_pair(Reg16::HL), 0xFFF9);
    assert_eq!(cpu.reg.sp, 0xFFFA);
    assert_eq!(cpu.reg.f, flags(false, false, true, true));
}

#[test]
fn accumulator_rotations_clear_zero() {
    let mut cpu = machine(&[0x07, 0x17, 0x0F, 0x1F]);
    cpu.reg.a = 0x80;
    run(&mut cpu); // RLCA
    assert_eq!(cpu.reg.a, 0x01);
    assert_eq!(cpu.reg.f, flags(false, false, false, true));
    cpu.reg.a = 0x80;
    cpu.reg.f.carry = false;
    run(&mut cpu); // RLA
    assert_eq!(cpu.reg.a, 0x00);
    assert_eq!(cpu.reg.f, flags(false, false, false, true));
    cpu.reg.a = 0x01;
    run(&mut cpu); // RRCA
    assert_eq!(cpu.reg.a, 0x80);
    assert_eq!(cpu.reg.f, flags(false, false, false, true));
    cpu.reg.a = 0x01;
    cpu.reg.f.carry = false;
    run(&mut cpu); // RRA
    assert_eq!(cpu.reg.a, 0x00);
    assert_eq!(cpu.reg.f, flags(false, false, false, true));
}

#[test]
fn flag_instructions() {
    let mut cpu = machine(&[0x2F, 0x37, 0x3F, 0x3F, 0x27]);
    cpu.reg.a = 0x35;
    cpu.reg.f.zero = true;
    run(&mut cpu); // CPL
    assert_eq!(cpu.reg.a, 0xCA);
    assert_eq!(cpu.reg.f, flags(true, true, true, false));
    run(&mut cpu); // SCF
    assert_eq!(cpu.reg.f, flags(true, false, false, true));
    run(&mut cpu); // CCF
    assert_eq!(cpu.reg.f, flags(true, false, false, false));
    cpu.reg.f = flags(false, true, true, false);
    run(&mut cpu); // CCF
    assert_eq!(cpu.reg.f, flags(false, false, false, true));
    cpu.reg.a = 0x7D;
    cpu.reg.f = flags(false, false, false, false);
    run(&mut cpu); // DAA
    assert_eq!(cpu.reg.a, 0x83);
    assert_eq!(cpu.reg.f, flags(false, false, false, false));
}

#[test]
fn prefixed_rotations() {
    let mut cpu = machine(&[0xCB, 0x00, 0xCB, 0x1E, 0xCB, 0x37, 0xCB, 0x2A, 0xCB, 0x3F, 0xCB, 0x21]);
    cpu.reg.b = 0x85;
    run(&mut cpu); // RLC B
    assert_eq!(cpu.reg.b, 0x0B);
    assert_eq!(cpu.reg.f, flags(false, false, false, true));
    cpu.write(DATA, 0x01);
    cpu.reg.f.carry = false;
    run(&mut cpu); // RR (HL)
    assert_eq!(cpu.read(DATA), 0x00);
    assert_eq!(cpu.reg.f, flags(true, false, false, true));
    cpu.reg.a = 0xF0;
    run(&mut cpu); // SWAP A
    assert_eq!(cpu.reg.a, 0x0F);
    assert_eq!(cpu.reg.f, flags(false, false, false, false));
    cpu.reg.d = 0x8A;
    run(&mut cpu); // SRA D
    assert_eq!(cpu.reg.d, 0xC5);
    assert_eq!(cpu.reg.f, flags(false, false, false, false));
    cpu.reg.a = 0x01;
    run(&mut cpu); // SRL A
    assert_eq!(cpu.reg.a, 0x00);
    assert_eq!(cpu.reg.f, flags(true, false, false, true));
    cpu.reg.c = 0x80;
    run(&mut cpu); // SLA C
    assert_eq!(cpu.reg.c, 0x00);
    assert_eq!(cpu.reg.f, flags(true, false, false, true));
}

#[test]
fn bit_instructions() {
    let mut cpu = machine(&[0xCB, 0x7F, 0xCB, 0x47, 0xCB, 0xBF, 0xCB, 0xC7, 0xCB, 0xDE, 0xCB, 0x9E]);
    cpu.reg.a = 0x80;
    cpu.reg.f.carry = true;
    run(&mut cpu); // BIT 7,A
    assert_eq!(cpu.reg.f, flags(false, false, true, true));
    run(&mut cpu); // BIT 0,A
    assert_eq!(cpu.reg.f, flags(true, false, true, true));
    run(&mut cpu); // RES 7,A
    assert_eq!(cpu.reg.a, 0x00);
    run(&mut cpu); // SET 0,A
    assert_eq!(cpu.reg.a, 0x01);
    cpu.write(DATA, 0x00);
    run(&mut cpu); // SET 3,(HL)
    assert_eq!(cpu.read(DATA), 0x08);
    cpu.write(DATA, 0xFF);
    run(&mut cpu); // RES 3,(HL)
    assert_eq!(cpu.read(DATA), 0xF7);
    // Setting and clearing bits leaves the flags alone
    assert_eq!(cpu.reg.f, flags(true, false, true, true));
}

#[test]
fn every_bit_can_be_tested() {
    for bit in 0..8u8 {
        let mut cpu = machine(&[0xCB, 0x40 | (bit << 3), 0xCB, 0x40 | (bit << 3)]);
        cpu.reg.b = 1 << bit;
        run(&mut cpu);
        assert!(!cpu.reg.f.zero);
        cpu.reg.b = !(1 << bit);
        run(&mut cpu);
        assert!(cpu.reg.f.zero);
    }
}

#[test]
fn relative_jumps() {
    let mut cpu = machine(&[0x18, 0x05]);
    assert_eq!(run(&mut cpu), 3);
    assert_eq!(cpu.reg.pc, PROGRAM + 7);

    let mut cpu = machine(&[0x18, 0xFE]);
    run(&mut cpu);
    assert_eq!(cpu.reg.pc, PROGRAM);

    let mut cpu = machine(&[0x20, 0x80]);
    assert_eq!(run(&mut cpu), 3);
    assert_eq!(cpu.reg.pc, PROGRAM + 2 - 128);

    let mut cpu = machine(&[0x28, 0x10]);
    assert_eq!(run(&mut cpu), 2);
    assert_eq!(cpu.reg.pc, PROGRAM + 2);
}

#[test]
fn jumps_calls_and_returns() {
    let mut cpu = machine(&[0xCD, 0x00, 0xC1]);
    cpu.write(0xC100, 0xC9);
    assert_eq!(run(&mut cpu), 6); // CALL 0xC100
    assert_eq!(cpu.reg.pc, 0xC100);
    assert_eq!(cpu.reg.sp, STACK - 2);
    assert_eq!(cpu.read_16(STACK - 2), PROGRAM + 3);
    assert_eq!(run(&mut cpu), 4); // RET
    assert_eq!(cpu.reg.pc, PROGRAM + 3);
    assert_eq!(cpu.reg.sp, STACK);

    let mut cpu = machine(&[0xC3, 0x34, 0x12]);
    assert_eq!(run(&mut cpu), 4); // JP 0x1234
    assert_eq!(cpu.reg.pc, 0x1234);

    let mut cpu = machine(&[0xE9]);
    assert_eq!(run(&mut cpu), 1); // JP HL
    assert_eq!(cpu.reg.pc, DATA);

    // Not taken: the operand is skipped and the stack is left alone
    let mut cpu = machine(&[0xCC, 0x00, 0xC1, 0xCA, 0x00, 0xC1, 0xC8]);
    assert_eq!(run(&mut cpu), 3); // CALL Z
    assert_eq!(cpu.reg.pc, PROGRAM + 3);
    assert_eq!(cpu.reg.sp, STACK);
    assert_eq!(run(&mut cpu), 3); // JP Z
    assert_eq!(cpu.reg.pc, PROGRAM + 6);
    assert_eq!(run(&mut cpu), 2); // RET Z
    assert_eq!(cpu.reg.pc, PROGRAM + 7);
    assert_eq!(cpu.reg.sp, STACK);
}

#[test]
fn restarts() {
    for (opcode, vector) in
        [(0xC7u8, 0x00u16), (0xCF, 0x08), (0xD7, 0x10), (0xDF, 0x18), (0xE7, 0x20), (0xEF, 0x28), (0xF7, 0x30), (0xFF, 0x38)]
    {
        let mut cpu = machine(&[opcode]);
        assert_eq!(run(&mut cpu), 4);
        assert_eq!(cpu.reg.pc, vector);
        assert_eq!(cpu.read_16(STACK - 2), PROGRAM + 1);
    }
}

#[test]
fn push_and_pop() {
    let mut cpu = machine(&[0xC5, 0xD1, 0xF5, 0xE1, 0xC5, 0xF1]);
    cpu.reg.write_pair(Reg16::BC, 0x12FF);
    run(&mut cpu); // PUSH BC
    assert_eq!(cpu.read(STACK - 1), 0x12);
    assert_eq!(cpu.read(STACK - 2), 0xFF);
    run(&mut cpu); // POP DE
    assert_eq!(cpu.reg.read_pair(Reg16::DE), 0x12FF);
    cpu.reg.a = 0x9A;
    cpu.reg.f = flags(true, false, true, false);
    run(&mut cpu); // PUSH AF
    run(&mut cpu); // POP HL
    assert_eq!(cpu.reg.read_pair(Reg16::HL), 0x9AA0);
    run(&mut cpu); // PUSH BC
    run(&mut cpu); // POP AF
    assert_eq!(cpu.reg.a, 0x12);
    assert_eq!(cpu.reg.f, flags(true, true, true, true));
    // The low nibble is gone
    assert_eq!(cpu.reg.read_pair(Reg16::AF), 0x12F0);
}

#[test]
fn interrupt_control_instructions() {
    let mut cpu = machine(&[0xFB, 0xF3, 0xD9, 0x76]);
    cpu.push(0xC003);
    assert_eq!(run(&mut cpu), 1); // EI
    assert!(cpu.istate.ime);
    assert_eq!(run(&mut cpu), 1); // DI
    assert!(!cpu.istate.ime);
    assert_eq!(run(&mut cpu), 4); // RETI
    assert!(cpu.istate.ime);
    assert_eq!(cpu.reg.pc, 0xC003);
    assert!(!cpu.halt);
    assert_eq!(run(&mut cpu), 1); // HALT
    assert!(cpu.halt);
    assert_eq!(cpu.reg.pc, 0xC004);
}

#[test]
fn operand_fields() {
    let operands = [
        Some(Reg8::B),
        Some(Reg8::C),
        Some(Reg8::D),
        Some(Reg8::E),
        Some(Reg8::H),
        Some(Reg8::L),
        None,
        Some(Reg8::A),
    ];
    for opcode in 0..=255u8 {
        assert_eq!(get_opcode_reg(opcode), operands[(opcode % 8) as usize]);
    }
    assert_eq!(get_opcode_reg16(0x01), Some(Reg16::BC));
    assert_eq!(get_opcode_reg16(0x1B), Some(Reg16::DE));
    assert_eq!(get_opcode_reg16(0x29), Some(Reg16::HL));
    assert_eq!(get_opcode_reg16(0x31), None);
    assert_eq!(get_opcode_reg16(0xE5), Some(Reg16::HL));
    assert_eq!(get_opcode_reg16(0xF5), None);
    assert_eq!(opcode_condition(0xC0), Condition::NotZero);
    assert_eq!(opcode_condition(0xC8), Condition::Zero);
    assert_eq!(opcode_condition(0xD0), Condition::NotCarry);
    assert_eq!(opcode_condition(0xD8), Condition::Carry);
    assert_eq!(opcode_condition(0x20), Condition::NotZero);
    assert_eq!(opcode_condition(0x38), Condition::Carry);
}

#[test]
fn conditions_read_the_flags() {
    let mut cpu = machine(&[]);
    cpu.reg.f = flags(true, false, false, false);
    assert!(!cpu.get_opcode_condition(0xC0));
    assert!(cpu.get_opcode_condition(0xC8));
    assert!(cpu.get_opcode_condition(0xD0));
    assert!(!cpu.get_opcode_condition(0xD8));
    cpu.reg.f = flags(false, true, true, true);
    assert!(cpu.get_opcode_condition(0xC2));
    assert!(!cpu.get_opcode_condition(0xCA));
    assert!(!cpu.get_opcode_condition(0xD4));
    assert!(cpu.get_opcode_condition(0xDC));
}

#[test]
fn accumulator_operations() {
    let mut cpu = machine(&[]);
    cpu.reg.a = 0xF0;
    cpu.add_a(0x10, false);
    assert_eq!(cpu.reg.a, 0x00);
    assert_eq!(cpu.reg.f, flags(true, false, false, true));
    cpu.add_a(0x0F, true);
    assert_eq!(cpu.reg.a, 0x10);
    assert_eq!(cpu.reg.f, flags(false, false, true, false));
    cpu.sub_a(0x01, false, true);
    assert_eq!(cpu.reg.a, 0x0F);
    assert_eq!(cpu.reg.f, flags(false, true, true, false));
    cpu.sub_a(0x0F, false, false);
    assert_eq!(cpu.reg.a, 0x0F);
    assert_eq!(cpu.reg.f, flags(true, true, false, false));
    cpu.and_a(0x05);
    assert_eq!(cpu.reg.a, 0x05);
    assert_eq!(cpu.reg.f, flags(false, false, true, false));
    cpu.xor_a(0x05);
    assert_eq!(cpu.reg.a, 0x00);
    assert_eq!(cpu.reg.f, flags(true, false, false, false));
    cpu.or_a(0x81);
    assert_eq!(cpu.reg.a, 0x81);
    assert_eq!(cpu.reg.f, flags(false, false, false, false));
    assert_eq!(cpu.rotate(RotOp::Rlc, 0x81), 0x03);
    assert_eq!(cpu.reg.f, flags(false, false, false, true));
    assert_eq!(cpu.rotate(RotOp::Rr, 0x02), 0x81);
    assert_eq!(cpu.reg.f, flags(false, false, false, false));
}

#[test]
fn a_rotation_alone_leaves_the_zero_flag_clear() {
    let mut cpu = machine(&[]);
    for op in [
        RotOp::Rlc,
        RotOp::Rrc,
        RotOp::Rl,
        RotOp::Rr,
        RotOp::Sla,
        RotOp::Sra,
        RotOp::Swap,
        RotOp::Srl,
    ] {
        cpu.reg.f = flags(true, true, true, false);
        assert_eq!(cpu.rotate(op, 0x00), 0x00);
        assert_eq!(cpu.reg.f, flags(false, false, false, false));
    }
    cpu.reg.f = flags(true, true, true, false);
    assert_eq!(cpu.rotate(RotOp::Sla, 0x80), 0x00);
    assert_eq!(cpu.reg.f, flags(false, false, false, true));
    assert_eq!(cpu.rotate(RotOp::Rl, 0x00), 0x01);
    assert_eq!(cpu.reg.f, flags(false, false, false, false));
}

#[test]
fn the_instruction_says_what_the_zero_flag_does() {
    // In the secondary table the zero flag follows the result
    let mut cpu = machine(&[0xCB, 0x00, 0xCB, 0x30, 0xCB, 0x26, 0x07, 0x17]);
    cpu.reg.b = 0x00;
    run(&mut cpu); // RLC B
    assert_eq!(cpu.reg.f, flags(true, false, false, false));
    run(&mut cpu); // SWAP B
    assert_eq!(cpu.reg.f, flags(true, false, false, false));
    cpu.write(DATA, 0x80);
    run(&mut cpu); // SLA (HL)
    assert_eq!(cpu.read(DATA), 0x00);
    assert_eq!(cpu.reg.f, flags(true, false, false, true));
    // The accumulator forms leave it clear
    cpu.reg.a = 0x00;
    cpu.reg.f = flags(true, false, false, false);
    run(&mut cpu); // RLCA
    assert_eq!(cpu.reg.a, 0x00);
    assert_eq!(cpu.reg.f, flags(false, false, false, false));
    cpu.reg.f = flags(true, false, false, false);
    run(&mut cpu); // RLA
    assert_eq!(cpu.reg.f, flags(false, false, false, false));
}
