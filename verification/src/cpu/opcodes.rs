//! The instruction engine: what executing one instruction does to the machine
//! and how many M-cycles it costs.
use vstd::prelude::*;
use crate::cpu::alu::{
    add16, add_bytes, add_sp, daa, dec, inc, offset, rot, spec_add16, spec_add_sp, spec_alu, spec_daa,
    spec_dec, spec_inc, spec_offset, spec_rot, spec_sub, sub_bytes, AluOp, RotOp,
};
use crate::cpu::bits::lemma_shift_rotate_u8;
use crate::cpu::instructions::{
    condition_of, decode, decode_prefixed, opcode_condition, spec_decode, spec_decode_prefixed,
    spec_taken, spec_unassigned, taken, Condition, Indirect, Instruction, Prefixed,
};
use crate::cpu::interrupts::InterruptState;
use crate::cpu::registers::{high, low, spec_high, spec_low, FlagReg, Reg16, Reg8, Registers};
use crate::cpu::readwrite::lemma_bus_frame;
use crate::cpu::{CPUState, CPU};

verus! {

/// An opcode byte that stands for no instruction, and where it was met.
#[derive(Clone, Copy, PartialEq, Eq, Structural, Debug)]
pub struct InvalidOpcode {
    pub opcode: u8,
    pub address: u16,
}

/// The machine after an instruction, and the instruction's cost in M-cycles.
pub struct Outcome {
    pub state: CPUState,
    pub cost: u8,
}

/// The cost of an instruction that costs `register` M-cycles on a register
/// and `memory` on the byte at the address in HL.
pub open spec fn spec_operand_cost(target: Option<Reg8>, register: u8, memory: u8) -> u8 {
    if target is None {
        memory
    } else {
        register
    }
}

/// The cost of an instruction by the kind of its operand.
#[verifier::when_used_as_spec(spec_operand_cost)]
pub fn operand_cost(target: Option<Reg8>, register: u8, memory: u8) -> (r: u8)
    ensures
        r == spec_operand_cost(target, register, memory),
{
    if target.is_none() {
        memory
    } else {
        register
    }
}

/// The mask with only the bit of the number given set.
pub open spec fn spec_bit_mask(bit: u8) -> u8 {
    1u8 << bit
}

/// The mask with only the bit of the number given set.
#[verifier::when_used_as_spec(spec_bit_mask)]
pub fn bit_mask(bit: u8) -> (r: u8)
    requires
        bit < 8,
    ensures
        r == spec_bit_mask(bit),
{
    1u8 << bit
}

/// `value` moved one up or one down, modulo 65536, or left where it is.
fn step_word(value: u16, step: i8) -> (r: u16)
    requires
        -1 <= step <= 1,
    ensures
        r == ((value + step) % 65536) as u16,
{
    if step > 0 {
        value.wrapping_add(1)
    } else if step < 0 {
        value.wrapping_sub(1)
    } else {
        value
    }
}

impl Registers {
    /// The register file after the arithmetic unit has combined the
    /// accumulator with `value`.
    pub open spec fn spec_arithmetic(self, op: AluOp, value: u8) -> Registers {
        let r = spec_alu(op, self.a, value, self.f);
        Registers { a: r.value, f: r.flags, ..self }
    }

    /// The register file after one of the four rotations of the accumulator
    /// that clear the zero flag.
    pub open spec fn spec_rotate_accumulator(self, op: RotOp) -> Registers {
        let r = spec_rot(op, self.a, self.f.carry);
        Registers { a: r.value, f: FlagReg { zero: false, ..r.flags }, ..self }
    }

    /// The register file after the decimal adjustment of the accumulator.
    pub open spec fn spec_decimal_adjust(self) -> Registers {
        let r = spec_daa(self.a, self.f);
        Registers { a: r.value, f: r.flags, ..self }
    }

    /// Every bit of the accumulator is turned over.
    pub open spec fn spec_complement(self) -> Registers {
        Registers {
            a: (255 - self.a) as u8,
            f: FlagReg { subtract: true, half_carry: true, ..self.f },
            ..self
        }
    }

    /// The carry flag is set; subtract and half-carry are cleared.
    pub open spec fn spec_set_carry(self) -> Registers {
        Registers {
            f: FlagReg { subtract: false, half_carry: false, carry: true, ..self.f },
            ..self
        }
    }

    /// The carry flag is turned over; subtract and half-carry are cleared.
    pub open spec fn spec_complement_carry(self) -> Registers {
        Registers {
            f: FlagReg { subtract: false, half_carry: false, carry: !self.f.carry, ..self.f },
            ..self
        }
    }

    /// The register file after `pair` has been added to HL.
    pub open spec fn spec_add_pair(self, pair: Reg16) -> Registers {
        let r = spec_add16(self.spec_read_pair(Reg16::HL), self.spec_read_pair(pair), self.f);
        (Registers { f: r.flags, ..self }).spec_write_pair(Reg16::HL, r.value)
    }

    /// The register file after `target` has taken the stack pointer moved by
    /// the signed byte `e`.
    pub open spec fn spec_stack_offset(self, target: Reg16, e: u8) -> Registers {
        let r = spec_add_sp(self.sp, e);
        (Registers { f: r.flags, ..self }).spec_write_pair(target, r.value)
    }

    /// The register file after `pair` has been moved by `step`, modulo 65536.
    pub open spec fn spec_step_pair(self, pair: Reg16, step: int) -> Registers {
        self.spec_write_pair(pair, ((self.spec_read_pair(pair) + step) % 65536) as u16)
    }

    /// The flags after a test of bit `bit` of `value`: zero where the bit is
    /// clear; the carry flag is kept.
    pub open spec fn spec_test_bit(self, bit: u8, value: u8) -> Registers {
        Registers {
            f: FlagReg {
                zero: value & spec_bit_mask(bit) == 0,
                subtract: false,
                half_carry: true,
                ..self.f
            },
            ..self
        }
    }
}

impl CPUState {
    /// The value of an operand: a register, or the byte at the address in HL.
    pub open spec fn load(self, target: Option<Reg8>) -> u8 {
        match target {
            Some(reg) => self.reg.spec_read(reg),
            None => self.read(self.reg.spec_read_pair(Reg16::HL)),
        }
    }

    /// The machine after an operand has taken `value`.
    pub open spec fn store(self, target: Option<Reg8>, value: u8) -> CPUState {
        match target {
            Some(reg) => self.with_reg(self.reg.spec_write(reg, value)),
            None => self.write(self.reg.spec_read_pair(Reg16::HL), value),
        }
    }

    /// The machine with the flags `f`.
    pub open spec fn with_flags(self, f: FlagReg) -> CPUState {
        self.with_reg(Registers { f, ..self.reg })
    }

    /// The machine with the master enable as given.
    pub open spec fn with_ime(self, ime: bool) -> CPUState {
        CPUState { istate: InterruptState { ime, ..self.istate }, ..self }
    }

    /// A relative jump: the signed byte that follows moves the program counter
    /// from behind the instruction. 3 M-cycles if taken, 2 if not.
    #[verifier::opaque]
    pub open spec fn jump_relative(self, condition: Option<Condition>) -> Outcome {
        let next = self.advance(1);
        if spec_taken(condition, self.reg.f) {
            Outcome { state: next.with_pc(spec_offset(next.reg.pc, self.operand())), cost: 3 }
        } else {
            Outcome { state: next, cost: 2 }
        }
    }

    /// A pair takes the 16-bit value that follows. 3 M-cycles.
    #[verifier::opaque]
    pub open spec fn load_pair(self, pair: Reg16) -> Outcome {
        let next = self.advance(2);
        Outcome {
            state: next.with_reg(next.reg.spec_write_pair(pair, self.operand_16())),
            cost: 3,
        }
    }

    /// The accumulator is stored at the address in a pair, and HL steps where
    /// the instruction says so. 2 M-cycles.
    #[verifier::opaque]
    pub open spec fn store_indirect(self, place: Indirect) -> Outcome {
        let written = self.write(self.reg.spec_read_pair(place.spec_pair()), self.reg.a);
        Outcome {
            state: written.with_reg(
                written.reg.spec_step_pair(place.spec_pair(), place.spec_step()),
            ),
            cost: 2,
        }
    }

    /// The accumulator is loaded from the address in a pair, and HL steps
    /// where the instruction says so. 2 M-cycles.
    #[verifier::opaque]
    pub open spec fn load_indirect(self, place: Indirect) -> Outcome {
        let value = self.read(self.reg.spec_read_pair(place.spec_pair()));
        Outcome {
            state: self.with_reg(
                (Registers { a: value, ..self.reg }).spec_step_pair(
                    place.spec_pair(),
                    place.spec_step(),
                ),
            ),
            cost: 2,
        }
    }

    /// A pair goes one up or one down; the flags are kept. 2 M-cycles.
    #[verifier::opaque]
    pub open spec fn step_pair(self, pair: Reg16, step: int) -> Outcome {
        Outcome { state: self.with_reg(self.reg.spec_step_pair(pair, step)), cost: 2 }
    }

    /// An operand goes one up. 1 M-cycle on a register, 3 in memory.
    #[verifier::opaque]
    pub open spec fn increment(self, target: Option<Reg8>) -> Outcome {
        let r = spec_inc(self.load(target), self.reg.f);
        Outcome {
            state: self.with_flags(r.flags).store(target, r.value),
            cost: spec_operand_cost(target, 1, 3),
        }
    }

    /// An operand goes one down. 1 M-cycle on a register, 3 in memory.
    #[verifier::opaque]
    pub open spec fn decrement(self, target: Option<Reg8>) -> Outcome {
        let r = spec_dec(self.load(target), self.reg.f);
        Outcome {
            state: self.with_flags(r.flags).store(target, r.value),
            cost: spec_operand_cost(target, 1, 3),
        }
    }

    /// An operand takes the byte that follows. 2 M-cycles on a register, 3 in
    /// memory.
    #[verifier::opaque]
    pub open spec fn load_immediate(self, target: Option<Reg8>) -> Outcome {
        Outcome {
            state: self.advance(1).store(target, self.operand()),
            cost: spec_operand_cost(target, 2, 3),
        }
    }

    /// The stack pointer is stored low byte first.
    #[verifier::opaque]
    pub open spec fn store_stack_pointer(self) -> Outcome {
        let address = self.operand_16();
        Outcome {
            state: self.advance(2).write(address, spec_low(self.reg.sp)).write(
                ((address + 1) % 65536) as u16,
                spec_high(self.reg.sp),
            ),
            cost: 5,
        }
    }

    /// An operand takes the value of another. 1 M-cycle between registers, 2
    /// with memory.
    #[verifier::opaque]
    pub open spec fn load_operand(self, target: Option<Reg8>, source: Option<Reg8>) -> Outcome {
        Outcome {
            state: self.store(target, self.load(source)),
            cost: if target is None || source is None {
                2
            } else {
                1
            },
        }
    }

    /// The arithmetic unit combines the accumulator with an operand. 1 M-cycle
    /// on a register, 2 in memory.
    #[verifier::opaque]
    pub open spec fn arithmetic_operand(self, op: AluOp, source: Option<Reg8>) -> Outcome {
        Outcome {
            state: self.with_reg(self.reg.spec_arithmetic(op, self.load(source))),
            cost: spec_operand_cost(source, 1, 2),
        }
    }

    /// The arithmetic unit combines the accumulator with the byte that
    /// follows. 2 M-cycles.
    #[verifier::opaque]
    pub open spec fn arithmetic_immediate(self, op: AluOp) -> Outcome {
        let next = self.advance(1);
        Outcome { state: next.with_reg(next.reg.spec_arithmetic(op, self.operand())), cost: 2 }
    }

    /// A return that is taken costs 4 M-cycles without a condition and 5 with
    /// one; one that is not taken costs 2.
    #[verifier::opaque]
    pub open spec fn return_from(self, condition: Option<Condition>) -> Outcome {
        if spec_taken(condition, self.reg.f) {
            Outcome {
                state: self.pop().with_pc(self.top()),
                cost: if condition is None {
                    4
                } else {
                    5
                },
            }
        } else {
            Outcome { state: self, cost: 2 }
        }
    }

    /// A return that sets the master enable. 4 M-cycles.
    #[verifier::opaque]
    pub open spec fn return_enable(self) -> Outcome {
        Outcome { state: self.pop().with_pc(self.top()).with_ime(true), cost: 4 }
    }

    /// A pair takes the top of the stack. 3 M-cycles.
    #[verifier::opaque]
    pub open spec fn pop_pair(self, pair: Reg16) -> Outcome {
        let popped = self.pop();
        Outcome {
            state: popped.with_reg(popped.reg.spec_write_pair(pair, self.top())),
            cost: 3,
        }
    }

    /// A pair is pushed. 4 M-cycles.
    #[verifier::opaque]
    pub open spec fn push_pair(self, pair: Reg16) -> Outcome {
        Outcome { state: self.push(self.reg.spec_read_pair(pair)), cost: 4 }
    }

    /// A jump to the address that follows. 4 M-cycles if taken, 3 if not.
    #[verifier::opaque]
    pub open spec fn jump(self, condition: Option<Condition>) -> Outcome {
        let next = self.advance(2);
        if spec_taken(condition, self.reg.f) {
            Outcome { state: next.with_pc(self.operand_16()), cost: 4 }
        } else {
            Outcome { state: next, cost: 3 }
        }
    }

    /// A call pushes the address of the instruction that follows it.
    #[verifier::opaque]
    pub open spec fn call(self, condition: Option<Condition>) -> Outcome {
        let next = self.advance(2);
        if spec_taken(condition, self.reg.f) {
            Outcome { state: next.push(next.reg.pc).with_pc(self.operand_16()), cost: 6 }
        } else {
            Outcome { state: next, cost: 3 }
        }
    }

    /// A call of a fixed address. 4 M-cycles.
    #[verifier::opaque]
    pub open spec fn restart(self, vector: u8) -> Outcome {
        Outcome { state: self.push(self.reg.pc).with_pc(vector as u16), cost: 4 }
    }

    /// The address in the page at `0xFF00` with the offset given.
    pub open spec fn high_address(low: u8) -> u16 {
        (0xFF00 + low) as u16
    }

    /// The accumulator is stored in the high page at the offset that follows.
    /// 3 M-cycles.
    #[verifier::opaque]
    pub open spec fn store_high(self) -> Outcome {
        Outcome {
            state: self.advance(1).write(Self::high_address(self.operand()), self.reg.a),
            cost: 3,
        }
    }

    /// The accumulator is loaded from the high page at the offset that
    /// follows. 3 M-cycles.
    #[verifier::opaque]
    pub open spec fn load_high(self) -> Outcome {
        let next = self.advance(1);
        Outcome {
            state: next.with_reg(
                Registers { a: self.read(Self::high_address(self.operand())), ..next.reg },
            ),
            cost: 3,
        }
    }

    /// The accumulator is stored in the high page at the offset in C. 2
    /// M-cycles.
    #[verifier::opaque]
    pub open spec fn store_high_c(self) -> Outcome {
        Outcome { state: self.write(Self::high_address(self.reg.c), self.reg.a), cost: 2 }
    }

    /// The accumulator is loaded from the high page at the offset in C. 2
    /// M-cycles.
    #[verifier::opaque]
    pub open spec fn load_high_c(self) -> Outcome {
        Outcome {
            state: self.with_reg(
                Registers { a: self.read(Self::high_address(self.reg.c)), ..self.reg },
            ),
            cost: 2,
        }
    }

    /// The accumulator is stored at the address that follows. 4 M-cycles.
    #[verifier::opaque]
    pub open spec fn store_absolute(self) -> Outcome {
        Outcome { state: self.advance(2).write(self.operand_16(), self.reg.a), cost: 4 }
    }

    /// The accumulator is loaded from the address that follows. 4 M-cycles.
    #[verifier::opaque]
    pub open spec fn load_absolute(self) -> Outcome {
        let next = self.advance(2);
        Outcome {
            state: next.with_reg(Registers { a: self.read(self.operand_16()), ..next.reg }),
            cost: 4,
        }
    }

    /// The stack pointer moved by the signed byte that follows goes to the
    /// stack pointer itself, for 4 M-cycles, or to HL, for 3.
    #[verifier::opaque]
    pub open spec fn stack_offset(self, target: Reg16) -> Outcome {
        let next = self.advance(1);
        Outcome {
            state: next.with_reg(next.reg.spec_stack_offset(target, self.operand())),
            cost: if target == Reg16::SP {
                4
            } else {
                3
            },
        }
    }

    /// The engine stops fetching. 1 M-cycle.
    #[verifier::opaque]
    pub open spec fn halt(self) -> Outcome {
        Outcome { state: CPUState { halt: true, ..self }, cost: 1 }
    }

    /// The master enable is set or cleared. 1 M-cycle.
    #[verifier::opaque]
    pub open spec fn set_ime(self, ime: bool) -> Outcome {
        Outcome { state: self.with_ime(ime), cost: 1 }
    }

    /// A rotation of the accumulator that clears the zero flag. 1 M-cycle.
    #[verifier::opaque]
    pub open spec fn rotate_accumulator(self, op: RotOp) -> Outcome {
        Outcome { state: self.with_reg(self.reg.spec_rotate_accumulator(op)), cost: 1 }
    }

    /// The decimal adjustment of the accumulator. 1 M-cycle.
    #[verifier::opaque]
    pub open spec fn decimal_adjust(self) -> Outcome {
        Outcome { state: self.with_reg(self.reg.spec_decimal_adjust()), cost: 1 }
    }

    /// Every bit of the accumulator is turned over. 1 M-cycle.
    #[verifier::opaque]
    pub open spec fn complement(self) -> Outcome {
        Outcome { state: self.with_reg(self.reg.spec_complement()), cost: 1 }
    }

    /// The carry flag is set, or with `complement` turned over. 1 M-cycle.
    #[verifier::opaque]
    pub open spec fn set_carry(self, complement: bool) -> Outcome {
        Outcome {
            state: self.with_reg(
                if complement {
                    self.reg.spec_complement_carry()
                } else {
                    self.reg.spec_set_carry()
                },
            ),
            cost: 1,
        }
    }

    /// A pair is added to HL. 2 M-cycles.
    #[verifier::opaque]
    pub open spec fn add_pair(self, pair: Reg16) -> Outcome {
        Outcome { state: self.with_reg(self.reg.spec_add_pair(pair)), cost: 2 }
    }

    /// A jump to the address in HL. 1 M-cycle.
    #[verifier::opaque]
    pub open spec fn jump_hl(self) -> Outcome {
        Outcome { state: self.with_pc(self.reg.spec_read_pair(Reg16::HL)), cost: 1 }
    }

    /// The stack pointer takes HL. 2 M-cycles.
    #[verifier::opaque]
    pub open spec fn load_stack_pointer_hl(self) -> Outcome {
        Outcome {
            state: self.with_reg(Registers { sp: self.reg.spec_read_pair(Reg16::HL), ..self.reg }),
            cost: 2,
        }
    }

    /// What an instruction of the secondary table does.
    #[verifier::opaque]
    pub open spec fn run_prefixed(self, instruction: Prefixed) -> Outcome {
        match instruction {
            // The zero flag follows the result
            Prefixed::Rotate(op, target) => {
                let r = spec_rot(op, self.load(target), self.reg.f.carry);
                Outcome {
                    state: self.with_flags(r.flags).store(target, r.value),
                    cost: spec_operand_cost(target, 2, 4),
                }
            },
            Prefixed::TestBit(bit, target) => Outcome {
                state: self.with_reg(self.reg.spec_test_bit(bit, self.load(target))),
                cost: spec_operand_cost(target, 2, 3),
            },
            Prefixed::ResetBit(bit, target) => Outcome {
                state: self.store(target, self.load(target) & !spec_bit_mask(bit)),
                cost: spec_operand_cost(target, 2, 4),
            },
            Prefixed::SetBit(bit, target) => Outcome {
                state: self.store(target, self.load(target) | spec_bit_mask(bit)),
                cost: spec_operand_cost(target, 2, 4),
            },
        }
    }

    /// The byte after the escape selects the instruction.
    #[verifier::opaque]
    pub open spec fn arithmetic(self) -> Outcome {
        self.advance(1).run_prefixed(spec_decode_prefixed(self.operand()))
    }

    /// What an instruction does, with the program counter behind its opcode.
    #[verifier::opaque]
    pub open spec fn run(self, instruction: Instruction) -> Outcome {
        match instruction {
            Instruction::Nop => Outcome { state: self, cost: 1 },
            Instruction::Stop => Outcome { state: self, cost: 1 },
            Instruction::Halt => self.halt(),
            Instruction::DisableInterrupts => self.set_ime(false),
            Instruction::EnableInterrupts => self.set_ime(true),
            Instruction::JumpRelative(condition) => self.jump_relative(condition),
            Instruction::LoadPair(pair) => self.load_pair(pair),
            Instruction::StoreIndirect(place) => self.store_indirect(place),
            Instruction::LoadIndirect(place) => self.load_indirect(place),
            Instruction::IncrementPair(pair) => self.step_pair(pair, 1),
            Instruction::DecrementPair(pair) => self.step_pair(pair, -1),
            Instruction::Increment(target) => self.increment(target),
            Instruction::Decrement(target) => self.decrement(target),
            Instruction::LoadImmediate(target) => self.load_immediate(target),
            Instruction::RotateAccumulator(op) => self.rotate_accumulator(op),
            Instruction::DecimalAdjust => self.decimal_adjust(),
            Instruction::Complement => self.complement(),
            Instruction::SetCarry => self.set_carry(false),
            Instruction::ComplementCarry => self.set_carry(true),
            Instruction::StoreStackPointer => self.store_stack_pointer(),
            Instruction::AddPair(pair) => self.add_pair(pair),
            Instruction::Load(target, source) => self.load_operand(target, source),
            Instruction::Arithmetic(op, source) => self.arithmetic_operand(op, source),
            Instruction::ArithmeticImmediate(op) => self.arithmetic_immediate(op),
            Instruction::Return(condition) => self.return_from(condition),
            Instruction::ReturnEnable => self.return_enable(),
            Instruction::Pop(pair) => self.pop_pair(pair),
            Instruction::Push(pair) => self.push_pair(pair),
            Instruction::Jump(condition) => self.jump(condition),
            Instruction::JumpHL => self.jump_hl(),
            Instruction::Call(condition) => self.call(condition),
            Instruction::Restart(vector) => self.restart(vector),
            Instruction::Prefix => self.arithmetic(),
            Instruction::StoreHigh => self.store_high(),
            Instruction::LoadHigh => self.load_high(),
            Instruction::StoreHighC => self.store_high_c(),
            Instruction::LoadHighC => self.load_high_c(),
            Instruction::StoreAbsolute => self.store_absolute(),
            Instruction::LoadAbsolute => self.load_absolute(),
            Instruction::AddStackPointer => self.stack_offset(Reg16::SP),
            Instruction::LoadHLStackOffset => self.stack_offset(Reg16::HL),
            Instruction::LoadStackPointerHL => self.load_stack_pointer_hl(),
            Instruction::Invalid => Outcome { state: self, cost: 0 },
        }
    }

    /// Whatever the engine executes, the flag register packs into a byte
    /// whose low nibble is zero, and so reads the low byte of AF.
    pub proof fn lemma_flags_low_nibble(self)
        ensures
            self.execute().state.reg.f.spec_bits() % 16 == 0,
            self.execute().state.reg.f.spec_bits() & 0x0F == 0,
            self.execute().state.reg.spec_read_pair(Reg16::AF) % 16 == 0,
    {
        self.execute().state.reg.f.lemma_low_nibble_zero();
    }

    /// The opcode byte that the engine executes next.
    pub open spec fn opcode(self) -> u8 {
        self.read(self.reg.pc)
    }

    /// Whether the next opcode byte stands for no instruction.
    pub open spec fn faults(self) -> bool {
        spec_unassigned(self.opcode())
    }

    /// The machine after the instruction at the program counter. Where the
    /// opcode stands for no instruction nothing changes.
    pub open spec fn execute(self) -> Outcome {
        if self.faults() {
            Outcome { state: self, cost: 0 }
        } else {
            self.advance(1).run(spec_decode(self.opcode()))
        }
    }
}

impl CPU {
    /// Reads an operand: a register, or the byte at the address in HL.
    pub fn load(&self, target: Option<Reg8>) -> (r: u8)
        ensures
            r == self@.load(target),
    {
        match target {
            Some(reg) => self.reg.read(reg),
            None => self.read(self.reg.read_pair(Reg16::HL)),
        }
    }

    /// Writes an operand: a register, or the byte at the address in HL.
    pub fn store(&mut self, target: Option<Reg8>, value: u8)
        ensures
            final(self)@ == old(self)@.store(target, value),
    {
        match target {
            Some(reg) => self.reg.write(reg, value),
            None => self.write(self.reg.read_pair(Reg16::HL), value),
        }
    }

    /// Adds `val`, and with `with_carry` the carry flag, to the accumulator.
    pub fn add_a(&mut self, val: u8, with_carry: bool)
        ensures
            final(self)@ == old(self)@.with_reg(
                old(self).reg.spec_arithmetic(
                    if with_carry {
                        AluOp::Adc
                    } else {
                        AluOp::Add
                    },
                    val,
                ),
            ),
    {
        let r = add_bytes(self.reg.a, val, with_carry && self.reg.f.carry);
        self.reg.a = r.value;
        self.reg.f = r.flags;
    }

    /// Takes `val`, and with `with_carry` the carry flag, from the
    /// accumulator. Without `set_a` the accumulator keeps its value and only
    /// the flags tell the result.
    pub fn sub_a(&mut self, val: u8, with_carry: bool, set_a: bool)
        ensures
            final(self).reg.f == spec_sub(
                old(self).reg.a,
                val,
                with_carry && old(self).reg.f.carry,
            ).flags,
            final(self).reg.a == if set_a {
                spec_sub(old(self).reg.a, val, with_carry && old(self).reg.f.carry).value
            } else {
                old(self).reg.a
            },
            final(self)@ == old(self)@.with_reg(
                Registers { a: final(self).reg.a, f: final(self).reg.f, ..old(self).reg },
            ),
    {
        let r = sub_bytes(self.reg.a, val, with_carry && self.reg.f.carry);
        self.reg.f = r.flags;
        if set_a {
            self.reg.a = r.value;
        }
    }

    /// Combines the accumulator with `val` by bitwise and.
    pub fn and_a(&mut self, val: u8)
        ensures
            final(self)@ == old(self)@.with_reg(old(self).reg.spec_arithmetic(AluOp::And, val)),
    {
        self.reg.a = self.reg.a & val;
        self.reg.f = FlagReg {
            zero: self.reg.a == 0,
            subtract: false,
            half_carry: true,
            carry: false,
        };
    }

    /// Combines the accumulator with `val` by bitwise exclusive or.
    pub fn xor_a(&mut self, val: u8)
        ensures
            final(self)@ == old(self)@.with_reg(old(self).reg.spec_arithmetic(AluOp::Xor, val)),
    {
        self.reg.a = self.reg.a ^ val;
        self.reg.f = FlagReg {
            zero: self.reg.a == 0,
            subtract: false,
            half_carry: false,
            carry: false,
        };
    }

    /// Combines the accumulator with `val` by bitwise or.
    pub fn or_a(&mut self, val: u8)
        ensures
            final(self)@ == old(self)@.with_reg(old(self).reg.spec_arithmetic(AluOp::Or, val)),
    {
        self.reg.a = self.reg.a | val;
        self.reg.f = FlagReg {
            zero: self.reg.a == 0,
            subtract: false,
            half_carry: false,
            carry: false,
        };
    }

    /// Combines the accumulator with `val` by the operation `op`.
    pub fn arithmetic_on(&mut self, op: AluOp, val: u8)
        ensures
            final(self)@ == old(self)@.with_reg(old(self).reg.spec_arithmetic(op, val)),
    {
        match op {
            AluOp::Add => self.add_a(val, false),
            AluOp::Adc => self.add_a(val, true),
            AluOp::Sub => self.sub_a(val, false, true),
            AluOp::Sbc => self.sub_a(val, true, true),
            AluOp::And => self.and_a(val),
            AluOp::Xor => self.xor_a(val),
            AluOp::Or => self.or_a(val),
            AluOp::Cp => self.sub_a(val, false, false),
        }
    }

    /// Shifts or rotates `val` and returns the result. The carry flag takes
    /// the bit moved out and the other three flags are cleared: whether the
    /// zero flag follows the result is for the instruction to say.
    pub fn rotate(&mut self, op: RotOp, val: u8) -> (r: u8)
        ensures
            r == spec_rot(op, val, old(self).reg.f.carry).value,
            final(self)@ == old(self)@.with_flags(
                FlagReg { zero: false, ..spec_rot(op, val, old(self).reg.f.carry).flags },
            ),
    {
        let r = rot(op, val, self.reg.f.carry);
        self.reg.f = FlagReg { zero: false, ..r.flags };
        r.value
    }

    /// Whether the condition that bits 4 and 3 of `opcode` name holds.
    pub fn get_opcode_condition(&self, opcode: u8) -> (r: bool)
        ensures
            r == condition_of((opcode as int / 8) % 4).spec_holds(self.reg.f),
    {
        opcode_condition(opcode).holds(self.reg.f)
    }

    fn jump_relative(&mut self, condition: Option<Condition>) -> (cost: u8)
        ensures
            (Outcome { state: final(self)@, cost }) == old(self)@.jump_relative(condition),
    {
        reveal(CPUState::jump_relative);
        let jump = taken(condition, self.reg.f);
        let step = self.read_operand();
        if jump {
            self.reg.pc = offset(self.reg.pc, step);
            3
        } else {
            2
        }
    }

    fn load_pair(&mut self, pair: Reg16) -> (cost: u8)
        ensures
            (Outcome { state: final(self)@, cost }) == old(self)@.load_pair(pair),
    {
        reveal(CPUState::load_pair);
        let val = self.read_operand_16();
        self.reg.write_pair(pair, val);
        3
    }

    /// Moves `pair` by one step up or down, or leaves it.
    fn step_pair(&mut self, pair: Reg16, step: i8)
        requires
            -1 <= step <= 1,
        ensures
            final(self)@ == old(self)@.with_reg(old(self).reg.spec_step_pair(pair, step as int)),
    {
        let val = self.reg.read_pair(pair);
        let moved = step_word(val, step);
        self.reg.write_pair(pair, moved);
    }

    fn indirect_step(place: Indirect) -> (r: i8)
        ensures
            r == place.spec_step(),
    {
        match place {
            Indirect::HLIncrement => 1,
            Indirect::HLDecrement => -1,
            _ => 0,
        }
    }

    fn store_indirect(&mut self, place: Indirect) -> (cost: u8)
        ensures
            (Outcome { state: final(self)@, cost }) == old(self)@.store_indirect(place),
    {
        reveal(CPUState::store_indirect);
        let address = self.reg.read_pair(place.pair());
        self.write(address, self.reg.a);
        self.step_pair(place.pair(), Self::indirect_step(place));
        2
    }

    fn load_indirect(&mut self, place: Indirect) -> (cost: u8)
        ensures
            (Outcome { state: final(self)@, cost }) == old(self)@.load_indirect(place),
    {
        reveal(CPUState::load_indirect);
        let address = self.reg.read_pair(place.pair());
        self.reg.a = self.read(address);
        self.step_pair(place.pair(), Self::indirect_step(place));
        2
    }

    fn increment(&mut self, target: Option<Reg8>) -> (cost: u8)
        ensures
            (Outcome { state: final(self)@, cost }) == old(self)@.increment(target),
    {
        reveal(CPUState::increment);
        let r = inc(self.load(target), self.reg.f);
        self.reg.f = r.flags;
        self.store(target, r.value);
        operand_cost(target, 1, 3)
    }

    fn decrement(&mut self, target: Option<Reg8>) -> (cost: u8)
        ensures
            (Outcome { state: final(self)@, cost }) == old(self)@.decrement(target),
    {
        reveal(CPUState::decrement);
        let r = dec(self.load(target), self.reg.f);
        self.reg.f = r.flags;
        self.store(target, r.value);
        operand_cost(target, 1, 3)
    }

    fn load_immediate(&mut self, target: Option<Reg8>) -> (cost: u8)
        ensures
            (Outcome { state: final(self)@, cost }) == old(self)@.load_immediate(target),
    {
        reveal(CPUState::load_immediate);
        let val = self.read_operand();
        self.store(target, val);
        operand_cost(target, 2, 3)
    }

    fn store_stack_pointer(&mut self) -> (cost: u8)
        ensures
            (Outcome { state: final(self)@, cost }) == old(self)@.store_stack_pointer(),
    {
        reveal(CPUState::store_stack_pointer);
        let sp = self.reg.sp;
        let address = self.read_operand_16();
        self.write(address, low(sp));
        self.write(address.wrapping_add(1), high(sp));
        5
    }

    fn add_pair(&mut self, pair: Reg16)
        ensures
            final(self)@ == old(self)@.with_reg(old(self).reg.spec_add_pair(pair)),
    {
        let r = add16(self.reg.read_pair(Reg16::HL), self.reg.read_pair(pair), self.reg.f);
        self.reg.f = r.flags;
        self.reg.write_pair(Reg16::HL, r.value);
    }

    fn load_operand(&mut self, target: Option<Reg8>, source: Option<Reg8>) -> (cost: u8)
        ensures
            (Outcome { state: final(self)@, cost }) == old(self)@.load_operand(target, source),
    {
        reveal(CPUState::load_operand);
        let val = self.load(source);
        self.store(target, val);
        if target.is_none() || source.is_none() {
            2
        } else {
            1
        }
    }

    fn arithmetic_operand(&mut self, op: AluOp, source: Option<Reg8>) -> (cost: u8)
        ensures
            (Outcome { state: final(self)@, cost }) == old(self)@.arithmetic_operand(op, source),
    {
        reveal(CPUState::arithmetic_operand);
        let val = self.load(source);
        self.arithmetic_on(op, val);
        operand_cost(source, 1, 2)
    }

    fn arithmetic_immediate(&mut self, op: AluOp) -> (cost: u8)
        ensures
            (Outcome { state: final(self)@, cost }) == old(self)@.arithmetic_immediate(op),
    {
        reveal(CPUState::arithmetic_immediate);
        let val = self.read_operand();
        self.arithmetic_on(op, val);
        2
    }

    fn return_from(&mut self, condition: Option<Condition>) -> (cost: u8)
        ensures
            (Outcome { state: final(self)@, cost }) == old(self)@.return_from(condition),
    {
        reveal(CPUState::return_from);
        if taken(condition, self.reg.f) {
            self.reg.pc = self.pop();
            if condition.is_none() {
                4
            } else {
                5
            }
        } else {
            2
        }
    }

    fn return_enable(&mut self) -> (cost: u8)
        ensures
            (Outcome { state: final(self)@, cost }) == old(self)@.return_enable(),
    {
        reveal(CPUState::return_enable);
        self.reg.pc = self.pop();
        self.istate.ime = true;
        4
    }

    fn pop_pair(&mut self, pair: Reg16) -> (cost: u8)
        ensures
            (Outcome { state: final(self)@, cost }) == old(self)@.pop_pair(pair),
    {
        reveal(CPUState::pop_pair);
        let val = self.pop();
        self.reg.write_pair(pair, val);
        3
    }

    fn jump(&mut self, condition: Option<Condition>) -> (cost: u8)
        ensures
            (Outcome { state: final(self)@, cost }) == old(self)@.jump(condition),
    {
        reveal(CPUState::jump);
        let jump = taken(condition, self.reg.f);
        let address = self.read_operand_16();
        if jump {
            self.reg.pc = address;
            4
        } else {
            3
        }
    }

    fn call(&mut self, condition: Option<Condition>) -> (cost: u8)
        ensures
            (Outcome { state: final(self)@, cost }) == old(self)@.call(condition),
    {
        reveal(CPUState::call);
        let call = taken(condition, self.reg.f);
        let address = self.read_operand_16();
        if call {
            self.push(self.reg.pc);
            self.reg.pc = address;
            6
        } else {
            3
        }
    }

    fn restart(&mut self, vector: u8) -> (cost: u8)
        ensures
            (Outcome { state: final(self)@, cost }) == old(self)@.restart(vector),
    {
        reveal(CPUState::restart);
        self.push(self.reg.pc);
        self.reg.pc = vector as u16;
        4
    }

    fn store_high(&mut self) -> (cost: u8)
        ensures
            (Outcome { state: final(self)@, cost }) == old(self)@.store_high(),
    {
        reveal(CPUState::store_high);
        let low = self.read_operand();
        self.write(0xFF00u16 + (low as u16), self.reg.a);
        3
    }

    fn load_high(&mut self) -> (cost: u8)
        ensures
            (Outcome { state: final(self)@, cost }) == old(self)@.load_high(),
    {
        reveal(CPUState::load_high);
        let low = self.read_operand();
        proof {
            lemma_bus_frame(old(self)@, self.reg, (0xFF00 + low) as u16, 0);
        }
        self.reg.a = self.read(0xFF00u16 + (low as u16));
        3
    }

    fn store_absolute(&mut self) -> (cost: u8)
        ensures
            (Outcome { state: final(self)@, cost }) == old(self)@.store_absolute(),
    {
        reveal(CPUState::store_absolute);
        let address = self.read_operand_16();
        self.write(address, self.reg.a);
        4
    }

    fn load_absolute(&mut self) -> (cost: u8)
        ensures
            (Outcome { state: final(self)@, cost }) == old(self)@.load_absolute(),
    {
        reveal(CPUState::load_absolute);
        let address = self.read_operand_16();
        proof {
            lemma_bus_frame(old(self)@, self.reg, address, 0);
        }
        self.reg.a = self.read(address);
        4
    }

    fn stack_offset(&mut self, target: Reg16) -> (cost: u8)
        ensures
            (Outcome { state: final(self)@, cost }) == old(self)@.stack_offset(target),
    {
        reveal(CPUState::stack_offset);
        let step = self.read_operand();
        let r = add_sp(self.reg.sp, step);
        self.reg.f = r.flags;
        self.reg.write_pair(target, r.value);
        if target == Reg16::SP {
            4
        } else {
            3
        }
    }

    /// Executes an instruction of the secondary table.
    fn run_prefixed(&mut self, instruction: Prefixed) -> (cost: u8)
        requires
            instruction.wf(),
        ensures
            (Outcome { state: final(self)@, cost }) == old(self)@.run_prefixed(instruction),
    {
        reveal(CPUState::run_prefixed);
        match instruction {
            Prefixed::Rotate(op, target) => {
                let val = self.load(target);
                let res = self.rotate(op, val);
                self.reg.f.zero = res == 0;
                self.store(target, res);
                operand_cost(target, 2, 4)
            },
            Prefixed::TestBit(bit, target) => {
                let val = self.load(target);
                let mask = bit_mask(bit);
                self.reg.f = FlagReg {
                    zero: val & mask == 0,
                    subtract: false,
                    half_carry: true,
                    carry: self.reg.f.carry,
                };
                operand_cost(target, 2, 3)
            },
            Prefixed::ResetBit(bit, target) => {
                let val = self.load(target);
                let mask = bit_mask(bit);
                self.store(target, val & !mask);
                operand_cost(target, 2, 4)
            },
            Prefixed::SetBit(bit, target) => {
                let val = self.load(target);
                let mask = bit_mask(bit);
                self.store(target, val | mask);
                operand_cost(target, 2, 4)
            },
        }
    }

    /// Executes the instruction of the secondary table that the byte at the
    /// program counter selects.
    pub fn arithmetic(&mut self) -> (cost: u8)
        ensures
            (Outcome { state: final(self)@, cost }) == old(self)@.arithmetic(),
    {
        reveal(CPUState::arithmetic);
        let opcode = self.read_operand();
        self.run_prefixed(decode_prefixed(opcode))
    }

    fn set_halt(&mut self) -> (cost: u8)
        ensures
            (Outcome { state: final(self)@, cost }) == old(self)@.halt(),
    {
        reveal(CPUState::halt);
        self.halt = true;
        1
    }

    fn set_ime(&mut self, ime: bool) -> (cost: u8)
        ensures
            (Outcome { state: final(self)@, cost }) == old(self)@.set_ime(ime),
    {
        reveal(CPUState::set_ime);
        self.istate.ime = ime;
        1
    }

    fn step_pair_instruction(&mut self, pair: Reg16, step: i8) -> (cost: u8)
        requires
            -1 <= step <= 1,
        ensures
            (Outcome { state: final(self)@, cost }) == old(self)@.step_pair(pair, step as int),
    {
        reveal(CPUState::step_pair);
        self.step_pair(pair, step);
        2
    }

    fn rotate_accumulator(&mut self, op: RotOp) -> (cost: u8)
        ensures
            (Outcome { state: final(self)@, cost }) == old(self)@.rotate_accumulator(op),
    {
        reveal(CPUState::rotate_accumulator);
        self.reg.a = self.rotate(op, self.reg.a);
        1
    }

    fn decimal_adjust(&mut self) -> (cost: u8)
        ensures
            (Outcome { state: final(self)@, cost }) == old(self)@.decimal_adjust(),
    {
        reveal(CPUState::decimal_adjust);
        let r = daa(self.reg.a, self.reg.f);
        self.reg.a = r.value;
        self.reg.f = r.flags;
        1
    }

    fn complement(&mut self) -> (cost: u8)
        ensures
            (Outcome { state: final(self)@, cost }) == old(self)@.complement(),
    {
        reveal(CPUState::complement);
        proof {
            lemma_shift_rotate_u8(self.reg.a);
        }
        self.reg.a = !self.reg.a;
        self.reg.f.subtract = true;
        self.reg.f.half_carry = true;
        1
    }

    fn set_carry(&mut self, complement: bool) -> (cost: u8)
        ensures
            (Outcome { state: final(self)@, cost }) == old(self)@.set_carry(complement),
    {
        reveal(CPUState::set_carry);
        self.reg.f.subtract = false;
        self.reg.f.half_carry = false;
        self.reg.f.carry = if complement { !self.reg.f.carry } else { true };
        1
    }

    fn add_pair_instruction(&mut self, pair: Reg16) -> (cost: u8)
        ensures
            (Outcome { state: final(self)@, cost }) == old(self)@.add_pair(pair),
    {
        reveal(CPUState::add_pair);
        self.add_pair(pair);
        2
    }

    fn push_pair(&mut self, pair: Reg16) -> (cost: u8)
        ensures
            (Outcome { state: final(self)@, cost }) == old(self)@.push_pair(pair),
    {
        reveal(CPUState::push_pair);
        self.push(self.reg.read_pair(pair));
        4
    }

    fn jump_hl(&mut self) -> (cost: u8)
        ensures
            (Outcome { state: final(self)@, cost }) == old(self)@.jump_hl(),
    {
        reveal(CPUState::jump_hl);
        self.reg.pc = self.reg.read_pair(Reg16::HL);
        1
    }

    fn store_high_c(&mut self) -> (cost: u8)
        ensures
            (Outcome { state: final(self)@, cost }) == old(self)@.store_high_c(),
    {
        reveal(CPUState::store_high_c);
        self.write(0xFF00u16 + (self.reg.c as u16), self.reg.a);
        2
    }

    fn load_high_c(&mut self) -> (cost: u8)
        ensures
            (Outcome { state: final(self)@, cost }) == old(self)@.load_high_c(),
    {
        reveal(CPUState::load_high_c);
        self.reg.a = self.read(0xFF00u16 + (self.reg.c as u16));
        2
    }

    fn load_stack_pointer_hl(&mut self) -> (cost: u8)
        ensures
            (Outcome { state: final(self)@, cost }) == old(self)@.load_stack_pointer_hl(),
    {
        reveal(CPUState::load_stack_pointer_hl);
        self.reg.sp = self.reg.read_pair(Reg16::HL);
        2
    }

    /// Executes an instruction whose opcode the program counter has passed.
    /// Returns the amount of M-cycles that the instruction takes.
    pub fn run(&mut self, instruction: Instruction) -> (cost: u8)
        ensures
            (Outcome { state: final(self)@, cost }) == old(self)@.run(instruction),
    {
        reveal(CPUState::run);
        match instruction {
            Instruction::Nop => 1,
            Instruction::Stop => 1,
            Instruction::Halt => self.set_halt(),
            Instruction::DisableInterrupts => self.set_ime(false),
            Instruction::EnableInterrupts => self.set_ime(true),
            Instruction::JumpRelative(condition) => self.jump_relative(condition),
            Instruction::LoadPair(pair) => self.load_pair(pair),
            Instruction::StoreIndirect(place) => self.store_indirect(place),
            Instruction::LoadIndirect(place) => self.load_indirect(place),
            Instruction::IncrementPair(pair) => self.step_pair_instruction(pair, 1),
            Instruction::DecrementPair(pair) => self.step_pair_instruction(pair, -1),
            Instruction::Increment(target) => self.increment(target),
            Instruction::Decrement(target) => self.decrement(target),
            Instruction::LoadImmediate(target) => self.load_immediate(target),
            Instruction::RotateAccumulator(op) => self.rotate_accumulator(op),
            Instruction::DecimalAdjust => self.decimal_adjust(),
            Instruction::Complement => self.complement(),
            Instruction::SetCarry => self.set_carry(false),
            Instruction::ComplementCarry => self.set_carry(true),
            Instruction::StoreStackPointer => self.store_stack_pointer(),
            Instruction::AddPair(pair) => self.add_pair_instruction(pair),
            Instruction::Load(target, source) => self.load_operand(target, source),
            Instruction::Arithmetic(op, source) => self.arithmetic_operand(op, source),
            Instruction::ArithmeticImmediate(op) => self.arithmetic_immediate(op),
            Instruction::Return(condition) => self.return_from(condition),
            Instruction::ReturnEnable => self.return_enable(),
            Instruction::Pop(pair) => self.pop_pair(pair),
            Instruction::Push(pair) => self.push_pair(pair),
            Instruction::Jump(condition) => self.jump(condition),
            Instruction::JumpHL => self.jump_hl(),
            Instruction::Call(condition) => self.call(condition),
            Instruction::Restart(vector) => self.restart(vector),
            Instruction::Prefix => self.arithmetic(),
            Instruction::StoreHigh => self.store_high(),
            Instruction::LoadHigh => self.load_high(),
            Instruction::StoreHighC => self.store_high_c(),
            Instruction::LoadHighC => self.load_high_c(),
            Instruction::StoreAbsolute => self.store_absolute(),
            Instruction::LoadAbsolute => self.load_absolute(),
            Instruction::AddStackPointer => self.stack_offset(Reg16::SP),
            Instruction::LoadHLStackOffset => self.stack_offset(Reg16::HL),
            Instruction::LoadStackPointerHL => self.load_stack_pointer_hl(),
            Instruction::Invalid => 0,
        }
    }

    /// Executes the next instruction at program counter.
    /// Returns the amount of M-cycles that instruction takes. An opcode byte
    /// that stands for no instruction is reported and nothing is changed.
    pub fn execute(&mut self) -> (r: Result<u8, InvalidOpcode>)
        ensures
            final(self)@ == old(self)@.execute().state,
            match r {
                Ok(cost) => !old(self)@.faults() && cost == old(self)@.execute().cost,
                Err(fault) => old(self)@.faults() && fault == (InvalidOpcode {
                    opcode: old(self)@.opcode(),
                    address: old(self).reg.pc,
                }),
            },
    {
        let address = self.reg.pc;
        let opcode = self.read(address);
        let instruction = decode(opcode);
        if instruction == Instruction::Invalid {
            return Err(InvalidOpcode { opcode, address });
        }
        self.reg.pc = address.wrapping_add(1);
        Ok(self.run(instruction))
    }
}

} // verus!
