//! The instruction set: what each opcode byte stands for.
//!
//! An opcode is three fields, `x` in bits 7 and 6, `y` in bits 5 to 3 and `z`
//! in bits 2 to 0; `y` in turn is `p` in its upper two bits and `q` in its
//! lowest. The fields name registers, register pairs, conditions and
//! operations by their place in short tables.
use vstd::prelude::*;
use crate::cpu::alu::{AluOp, RotOp};
use crate::cpu::registers::{FlagReg, Reg16, Reg8};

verus! {

/// The condition of a conditional jump, call or return.
#[derive(Clone, Copy, PartialEq, Eq, Structural, Debug)]
pub enum Condition {
    /// The zero flag is clear.
    NotZero,
    /// The zero flag is set.
    Zero,
    /// The carry flag is clear.
    NotCarry,
    /// The carry flag is set.
    Carry,
}

/// The address of an indirect load or store of the accumulator: a register
/// pair, for HL with a step of the pair after the access.
#[derive(Clone, Copy, PartialEq, Eq, Structural, Debug)]
pub enum Indirect {
    BC,
    DE,
    HLIncrement,
    HLDecrement,
}

/// An instruction of the primary table. An operand of type `Option<Reg8>` is
/// a register, or with `None` the byte in memory at the address in HL.
#[derive(Clone, Copy, PartialEq, Eq, Structural, Debug)]
pub enum Instruction {
    Nop,
    Stop,
    Halt,
    DisableInterrupts,
    EnableInterrupts,
    /// Relative jump by the signed byte that follows, always or on a condition.
    JumpRelative(Option<Condition>),
    /// Load of a pair with the 16-bit value that follows.
    LoadPair(Reg16),
    /// Store of the accumulator at the address in a pair.
    StoreIndirect(Indirect),
    /// Load of the accumulator from the address in a pair.
    LoadIndirect(Indirect),
    IncrementPair(Reg16),
    DecrementPair(Reg16),
    Increment(Option<Reg8>),
    Decrement(Option<Reg8>),
    /// Load of an operand with the byte that follows.
    LoadImmediate(Option<Reg8>),
    /// The four rotations of the accumulator that clear the zero flag.
    RotateAccumulator(RotOp),
    DecimalAdjust,
    Complement,
    SetCarry,
    ComplementCarry,
    /// Store of the stack pointer at the address that follows.
    StoreStackPointer,
    /// Addition of a pair to HL.
    AddPair(Reg16),
    /// Load of the first operand with the second.
    Load(Option<Reg8>, Option<Reg8>),
    /// An operation of the arithmetic unit on the accumulator and an operand.
    Arithmetic(AluOp, Option<Reg8>),
    /// The same with the byte that follows as the operand.
    ArithmeticImmediate(AluOp),
    Return(Option<Condition>),
    ReturnEnable,
    Pop(Reg16),
    Push(Reg16),
    /// Jump to the address that follows, always or on a condition.
    Jump(Option<Condition>),
    /// Jump to the address in HL.
    JumpHL,
    Call(Option<Condition>),
    /// Call of the fixed address given.
    Restart(u8),
    /// The escape to the secondary table: the byte that follows selects an
    /// instruction of it.
    Prefix,
    /// Store of the accumulator in the page at `0xFF00`, at the offset that
    /// follows.
    StoreHigh,
    LoadHigh,
    /// The same with the offset in register C.
    StoreHighC,
    LoadHighC,
    /// Store of the accumulator at the address that follows.
    StoreAbsolute,
    LoadAbsolute,
    /// Addition of the signed byte that follows to the stack pointer.
    AddStackPointer,
    /// Load of HL with the stack pointer plus the signed byte that follows.
    LoadHLStackOffset,
    LoadStackPointerHL,
    /// One of the eleven opcode bytes that stand for nothing.
    Invalid,
}

/// An instruction of the secondary table.
#[derive(Clone, Copy, PartialEq, Eq, Structural, Debug)]
pub enum Prefixed {
    Rotate(RotOp, Option<Reg8>),
    /// Test of the bit with the number given.
    TestBit(u8, Option<Reg8>),
    /// Clearing of the bit with the number given.
    ResetBit(u8, Option<Reg8>),
    /// Setting of the bit with the number given.
    SetBit(u8, Option<Reg8>),
}

impl Prefixed {
    /// The number of a bit is below eight.
    pub open spec fn wf(&self) -> bool {
        match self {
            Prefixed::Rotate(_, _) => true,
            Prefixed::TestBit(bit, _) => *bit < 8,
            Prefixed::ResetBit(bit, _) => *bit < 8,
            Prefixed::SetBit(bit, _) => *bit < 8,
        }
    }
}

impl Condition {
    /// Whether the condition holds of the flags.
    pub open spec fn spec_holds(&self, flags: FlagReg) -> bool {
        match self {
            Condition::NotZero => !flags.zero,
            Condition::Zero => flags.zero,
            Condition::NotCarry => !flags.carry,
            Condition::Carry => flags.carry,
        }
    }

    /// Whether the condition holds of the flags.
    #[verifier::when_used_as_spec(spec_holds)]
    pub fn holds(&self, flags: FlagReg) -> (r: bool)
        ensures
            r == self.spec_holds(flags),
    {
        match self {
            Condition::NotZero => !flags.zero,
            Condition::Zero => flags.zero,
            Condition::NotCarry => !flags.carry,
            Condition::Carry => flags.carry,
        }
    }
}

/// Whether a jump, call or return is taken: always without a condition, and
/// with one where it holds.
pub open spec fn spec_taken(condition: Option<Condition>, flags: FlagReg) -> bool {
    match condition {
        None => true,
        Some(c) => c.spec_holds(flags),
    }
}

/// Whether a jump, call or return is taken: always without a condition, and
/// with one where it holds.
#[verifier::when_used_as_spec(spec_taken)]
pub fn taken(condition: Option<Condition>, flags: FlagReg) -> (r: bool)
    ensures
        r == spec_taken(condition, flags),
{
    match condition {
        None => true,
        Some(c) => c.holds(flags),
    }
}

impl Indirect {
    /// The pair that holds the address.
    pub open spec fn spec_pair(&self) -> Reg16 {
        match self {
            Indirect::BC => Reg16::BC,
            Indirect::DE => Reg16::DE,
            Indirect::HLIncrement => Reg16::HL,
            Indirect::HLDecrement => Reg16::HL,
        }
    }

    /// What the access adds to the pair, modulo 65536.
    pub open spec fn spec_step(&self) -> int {
        match self {
            Indirect::BC => 0,
            Indirect::DE => 0,
            Indirect::HLIncrement => 1,
            Indirect::HLDecrement => -1,
        }
    }

    /// The pair that holds the address.
    #[verifier::when_used_as_spec(spec_pair)]
    pub fn pair(&self) -> (r: Reg16)
        ensures
            r == self.spec_pair(),
    {
        match self {
            Indirect::BC => Reg16::BC,
            Indirect::DE => Reg16::DE,
            Indirect::HLIncrement => Reg16::HL,
            Indirect::HLDecrement => Reg16::HL,
        }
    }
}

/// The operand that a three-bit field names: B, C, D, E, H, L, the byte at
/// the address in HL, A.
pub open spec fn operand_of(field: int) -> Option<Reg8> {
    if field == 0 {
        Some(Reg8::B)
    } else if field == 1 {
        Some(Reg8::C)
    } else if field == 2 {
        Some(Reg8::D)
    } else if field == 3 {
        Some(Reg8::E)
    } else if field == 4 {
        Some(Reg8::H)
    } else if field == 5 {
        Some(Reg8::L)
    } else if field == 7 {
        Some(Reg8::A)
    } else {
        None
    }
}

/// The pair that a two-bit field names where the last of the four is the
/// stack pointer: BC, DE, HL, SP.
pub open spec fn pair_of(field: int) -> Reg16 {
    if field == 0 {
        Reg16::BC
    } else if field == 1 {
        Reg16::DE
    } else if field == 2 {
        Reg16::HL
    } else {
        Reg16::SP
    }
}

/// The pair that a two-bit field names where the last of the four is the
/// accumulator with the flags: BC, DE, HL, AF.
pub open spec fn stack_pair_of(field: int) -> Reg16 {
    if field == 0 {
        Reg16::BC
    } else if field == 1 {
        Reg16::DE
    } else if field == 2 {
        Reg16::HL
    } else {
        Reg16::AF
    }
}

/// The indirect address that a two-bit field names: BC, DE, HL with a step
/// up, HL with a step down.
pub open spec fn indirect_of(field: int) -> Indirect {
    if field == 0 {
        Indirect::BC
    } else if field == 1 {
        Indirect::DE
    } else if field == 2 {
        Indirect::HLIncrement
    } else {
        Indirect::HLDecrement
    }
}

/// The condition that a two-bit field names: not zero, zero, not carry,
/// carry.
pub open spec fn condition_of(field: int) -> Condition {
    if field == 0 {
        Condition::NotZero
    } else if field == 1 {
        Condition::Zero
    } else if field == 2 {
        Condition::NotCarry
    } else {
        Condition::Carry
    }
}

/// The operation of the arithmetic unit that a three-bit field names.
pub open spec fn alu_op_of(field: int) -> AluOp {
    if field == 0 {
        AluOp::Add
    } else if field == 1 {
        AluOp::Adc
    } else if field == 2 {
        AluOp::Sub
    } else if field == 3 {
        AluOp::Sbc
    } else if field == 4 {
        AluOp::And
    } else if field == 5 {
        AluOp::Xor
    } else if field == 6 {
        AluOp::Or
    } else {
        AluOp::Cp
    }
}

/// The shift or rotation that a three-bit field names.
pub open spec fn rot_op_of(field: int) -> RotOp {
    if field == 0 {
        RotOp::Rlc
    } else if field == 1 {
        RotOp::Rrc
    } else if field == 2 {
        RotOp::Rl
    } else if field == 3 {
        RotOp::Rr
    } else if field == 4 {
        RotOp::Sla
    } else if field == 5 {
        RotOp::Sra
    } else if field == 6 {
        RotOp::Swap
    } else {
        RotOp::Srl
    }
}

/// The instructions with `x == 0`.
pub open spec fn decode_block_0(y: int, z: int) -> Instruction {
    let p = y / 2;
    let q = y % 2;
    if z == 0 {
        if y == 0 {
            Instruction::Nop
        } else if y == 1 {
            Instruction::StoreStackPointer
        } else if y == 2 {
            Instruction::Stop
        } else if y == 3 {
            Instruction::JumpRelative(None)
        } else {
            Instruction::JumpRelative(Some(condition_of(y - 4)))
        }
    } else if z == 1 {
        if q == 0 {
            Instruction::LoadPair(pair_of(p))
        } else {
            Instruction::AddPair(pair_of(p))
        }
    } else if z == 2 {
        if q == 0 {
            Instruction::StoreIndirect(indirect_of(p))
        } else {
            Instruction::LoadIndirect(indirect_of(p))
        }
    } else if z == 3 {
        if q == 0 {
            Instruction::IncrementPair(pair_of(p))
        } else {
            Instruction::DecrementPair(pair_of(p))
        }
    } else if z == 4 {
        Instruction::Increment(operand_of(y))
    } else if z == 5 {
        Instruction::Decrement(operand_of(y))
    } else if z == 6 {
        Instruction::LoadImmediate(operand_of(y))
    } else if y == 0 {
        Instruction::RotateAccumulator(RotOp::Rlc)
    } else if y == 1 {
        Instruction::RotateAccumulator(RotOp::Rrc)
    } else if y == 2 {
        Instruction::RotateAccumulator(RotOp::Rl)
    } else if y == 3 {
        Instruction::RotateAccumulator(RotOp::Rr)
    } else if y == 4 {
        Instruction::DecimalAdjust
    } else if y == 5 {
        Instruction::Complement
    } else if y == 6 {
        Instruction::SetCarry
    } else {
        Instruction::ComplementCarry
    }
}

/// The instructions with `x == 3`.
pub open spec fn decode_block_3(y: int, z: int) -> Instruction {
    let p = y / 2;
    let q = y % 2;
    if z == 0 {
        if y < 4 {
            Instruction::Return(Some(condition_of(y)))
        } else if y == 4 {
            Instruction::StoreHigh
        } else if y == 5 {
            Instruction::AddStackPointer
        } else if y == 6 {
            Instruction::LoadHigh
        } else {
            Instruction::LoadHLStackOffset
        }
    } else if z == 1 {
        if q == 0 {
            Instruction::Pop(stack_pair_of(p))
        } else if p == 0 {
            Instruction::Return(None)
        } else if p == 1 {
            Instruction::ReturnEnable
        } else if p == 2 {
            Instruction::JumpHL
        } else {
            Instruction::LoadStackPointerHL
        }
    } else if z == 2 {
        if y < 4 {
            Instruction::Jump(Some(condition_of(y)))
        } else if y == 4 {
            Instruction::StoreHighC
        } else if y == 5 {
            Instruction::StoreAbsolute
        } else if y == 6 {
            Instruction::LoadHighC
        } else {
            Instruction::LoadAbsolute
        }
    } else if z == 3 {
        if y == 0 {
            Instruction::Jump(None)
        } else if y == 1 {
            Instruction::Prefix
        } else if y == 6 {
            Instruction::DisableInterrupts
        } else if y == 7 {
            Instruction::EnableInterrupts
        } else {
            Instruction::Invalid
        }
    } else if z == 4 {
        if y < 4 {
            Instruction::Call(Some(condition_of(y)))
        } else {
            Instruction::Invalid
        }
    } else if z == 5 {
        if q == 0 {
            Instruction::Push(stack_pair_of(p))
        } else if p == 0 {
            Instruction::Call(None)
        } else {
            Instruction::Invalid
        }
    } else if z == 6 {
        Instruction::ArithmeticImmediate(alu_op_of(y))
    } else {
        Instruction::Restart((8 * y) as u8)
    }
}

/// The instruction that an opcode byte of the primary table stands for.
pub open spec fn spec_decode(opcode: u8) -> Instruction {
    let x = opcode as int / 64;
    let y = (opcode as int / 8) % 8;
    let z = opcode as int % 8;
    if x == 0 {
        decode_block_0(y, z)
    } else if x == 1 {
        if opcode == 0x76 {
            Instruction::Halt
        } else {
            Instruction::Load(operand_of(y), operand_of(z))
        }
    } else if x == 2 {
        Instruction::Arithmetic(alu_op_of(y), operand_of(z))
    } else {
        decode_block_3(y, z)
    }
}

/// The instruction that an opcode byte of the secondary table stands for.
pub open spec fn spec_decode_prefixed(opcode: u8) -> Prefixed {
    let x = opcode as int / 64;
    let y = (opcode as int / 8) % 8;
    let z = opcode as int % 8;
    if x == 0 {
        Prefixed::Rotate(rot_op_of(y), operand_of(z))
    } else if x == 1 {
        Prefixed::TestBit(y as u8, operand_of(z))
    } else if x == 2 {
        Prefixed::ResetBit(y as u8, operand_of(z))
    } else {
        Prefixed::SetBit(y as u8, operand_of(z))
    }
}

/// The opcode bytes that stand for no instruction.
pub open spec fn spec_unassigned(opcode: u8) -> bool {
    opcode == 0xD3 || opcode == 0xDB || opcode == 0xDD || opcode == 0xE3 || opcode == 0xE4
        || opcode == 0xEB || opcode == 0xEC || opcode == 0xED || opcode == 0xF4 || opcode == 0xFC
        || opcode == 0xFD
}

/// The operand that the low three bits of an opcode name.
pub fn get_opcode_reg(opcode: u8) -> (r: Option<Reg8>)
    ensures
        r == operand_of(opcode as int % 8),
{
    let mut nibble = opcode % 16;
    if nibble >= 0x08 {
        nibble -= 0x08;
    }
    match nibble {
        0x00 => Some(Reg8::B),
        0x01 => Some(Reg8::C),
        0x02 => Some(Reg8::D),
        0x03 => Some(Reg8::E),
        0x04 => Some(Reg8::H),
        0x05 => Some(Reg8::L),
        0x07 => Some(Reg8::A),
        _ => None,
    }
}

/// The pair that the high nibble of an opcode names, if it is one of the
/// three that every table of pairs has in common.
pub fn get_opcode_reg16(opcode: u8) -> (r: Option<Reg16>)
    ensures
        r == (if (opcode / 16) % 4 == 3 { None } else { Some(pair_of((opcode as int / 16) % 4)) }),
{
    let nibble = (opcode / 16) % 4;
    match nibble {
        0x00 => Some(Reg16::BC),
        0x01 => Some(Reg16::DE),
        0x02 => Some(Reg16::HL),
        _ => None,
    }
}

/// The pair that the high nibble of an opcode names, with the stack pointer
/// as the fourth.
fn opcode_pair(opcode: u8) -> (r: Reg16)
    ensures
        r == pair_of((opcode as int / 16) % 4),
{
    match get_opcode_reg16(opcode) {
        Some(pair) => pair,
        None => Reg16::SP,
    }
}

/// The pair that the high nibble of an opcode names, with the accumulator and
/// the flags as the fourth.
fn opcode_stack_pair(opcode: u8) -> (r: Reg16)
    ensures
        r == stack_pair_of((opcode as int / 16) % 4),
{
    match get_opcode_reg16(opcode) {
        Some(pair) => pair,
        None => Reg16::AF,
    }
}

fn opcode_indirect(opcode: u8) -> (r: Indirect)
    ensures
        r == indirect_of((opcode as int / 16) % 4),
{
    match (opcode / 16) % 4 {
        0 => Indirect::BC,
        1 => Indirect::DE,
        2 => Indirect::HLIncrement,
        _ => Indirect::HLDecrement,
    }
}

/// The condition that bits 4 and 3 of an opcode name.
pub fn opcode_condition(opcode: u8) -> (r: Condition)
    ensures
        r == condition_of((opcode as int / 8) % 4),
{
    match (opcode / 8) % 4 {
        0 => Condition::NotZero,
        1 => Condition::Zero,
        2 => Condition::NotCarry,
        _ => Condition::Carry,
    }
}

/// The operation that bits 5 to 3 of an opcode name.
fn opcode_alu_op(opcode: u8) -> (r: AluOp)
    ensures
        r == alu_op_of((opcode as int / 8) % 8),
{
    match (opcode / 8) % 8 {
        0 => AluOp::Add,
        1 => AluOp::Adc,
        2 => AluOp::Sub,
        3 => AluOp::Sbc,
        4 => AluOp::And,
        5 => AluOp::Xor,
        6 => AluOp::Or,
        _ => AluOp::Cp,
    }
}

fn opcode_rot_op(opcode: u8) -> (r: RotOp)
    ensures
        r == rot_op_of((opcode as int / 8) % 8),
{
    match (opcode / 8) % 8 {
        0 => RotOp::Rlc,
        1 => RotOp::Rrc,
        2 => RotOp::Rl,
        3 => RotOp::Rr,
        4 => RotOp::Sla,
        5 => RotOp::Sra,
        6 => RotOp::Swap,
        _ => RotOp::Srl,
    }
}

/// Decodes an opcode of the first quarter of the primary table.
fn decode_low(opcode: u8) -> (r: Instruction)
    requires
        opcode < 0x40,
    ensures
        r == spec_decode(opcode),
{
    // Mask out the first nibble for easier pattern matching
    let nibble = opcode % 16;
    match nibble {
        0x0 => match opcode {
            0x00 => Instruction::Nop,
            0x10 => Instruction::Stop,
            _ => Instruction::JumpRelative(Some(opcode_condition(opcode))),
        },
        0x1 => Instruction::LoadPair(opcode_pair(opcode)),
        0x2 => Instruction::StoreIndirect(opcode_indirect(opcode)),
        0xA => Instruction::LoadIndirect(opcode_indirect(opcode)),
        0x3 => Instruction::IncrementPair(opcode_pair(opcode)),
        0xB => Instruction::DecrementPair(opcode_pair(opcode)),
        0x4 | 0xC => Instruction::Increment(get_opcode_reg(opcode / 8)),
        0x5 | 0xD => Instruction::Decrement(get_opcode_reg(opcode / 8)),
        0x6 | 0xE => Instruction::LoadImmediate(get_opcode_reg(opcode / 8)),
        0x7 => match opcode {
            0x07 => Instruction::RotateAccumulator(RotOp::Rlc),
            0x17 => Instruction::RotateAccumulator(RotOp::Rl),
            0x27 => Instruction::DecimalAdjust,
            _ => Instruction::SetCarry,
        },
        0x8 => match opcode {
            0x08 => Instruction::StoreStackPointer,
            0x18 => Instruction::JumpRelative(None),
            _ => Instruction::JumpRelative(Some(opcode_condition(opcode))),
        },
        0x9 => Instruction::AddPair(opcode_pair(opcode)),
        _ => match opcode {
            0x0F => Instruction::RotateAccumulator(RotOp::Rrc),
            0x1F => Instruction::RotateAccumulator(RotOp::Rr),
            0x2F => Instruction::Complement,
            _ => Instruction::ComplementCarry,
        },
    }
}

/// Decodes an opcode of the last quarter of the primary table.
fn decode_high(opcode: u8) -> (r: Instruction)
    requires
        opcode >= 0xC0,
    ensures
        r == spec_decode(opcode),
{
    match opcode {
        0xC0 | 0xC8 | 0xD0 | 0xD8 => Instruction::Return(Some(opcode_condition(opcode))),
        0xC1 | 0xD1 | 0xE1 | 0xF1 => Instruction::Pop(opcode_stack_pair(opcode)),
        0xC2 | 0xCA | 0xD2 | 0xDA => Instruction::Jump(Some(opcode_condition(opcode))),
        0xC3 => Instruction::Jump(None),
        0xC4 | 0xCC | 0xD4 | 0xDC => Instruction::Call(Some(opcode_condition(opcode))),
        0xC5 | 0xD5 | 0xE5 | 0xF5 => Instruction::Push(opcode_stack_pair(opcode)),
        0xC6 | 0xCE | 0xD6 | 0xDE | 0xE6 | 0xEE | 0xF6 | 0xFE => Instruction::ArithmeticImmediate(
            opcode_alu_op(opcode),
        ),
        0xC7 | 0xCF | 0xD7 | 0xDF | 0xE7 | 0xEF | 0xF7 | 0xFF => Instruction::Restart(
            opcode - 0xC7,
        ),
        0xC9 => Instruction::Return(None),
        0xCB => Instruction::Prefix,
        0xCD => Instruction::Call(None),
        0xD9 => Instruction::ReturnEnable,
        0xE0 => Instruction::StoreHigh,
        0xE2 => Instruction::StoreHighC,
        0xE8 => Instruction::AddStackPointer,
        0xE9 => Instruction::JumpHL,
        0xEA => Instruction::StoreAbsolute,
        0xF0 => Instruction::LoadHigh,
        0xF2 => Instruction::LoadHighC,
        0xF3 => Instruction::DisableInterrupts,
        0xF8 => Instruction::LoadHLStackOffset,
        0xF9 => Instruction::LoadStackPointerHL,
        0xFA => Instruction::LoadAbsolute,
        0xFB => Instruction::EnableInterrupts,
        _ => Instruction::Invalid,
    }
}

/// Decodes an opcode of the primary table.
#[verifier::when_used_as_spec(spec_decode)]
pub fn decode(opcode: u8) -> (r: Instruction)
    ensures
        r == spec_decode(opcode),
        r == Instruction::Invalid <==> spec_unassigned(opcode),
{
    match opcode {
        0x00..=0x3F => decode_low(opcode),
        0x76 => Instruction::Halt,
        0x40..=0x7F => Instruction::Load(get_opcode_reg(opcode / 8), get_opcode_reg(opcode)),
        0x80..=0xBF => Instruction::Arithmetic(opcode_alu_op(opcode), get_opcode_reg(opcode)),
        _ => decode_high(opcode),
    }
}

/// Decodes an opcode of the secondary table.
#[verifier::when_used_as_spec(spec_decode_prefixed)]
pub fn decode_prefixed(opcode: u8) -> (r: Prefixed)
    ensures
        r == spec_decode_prefixed(opcode),
        r.wf(),
{
    let reg = get_opcode_reg(opcode);
    let bit = (opcode / 8) % 8;
    match opcode {
        0x00..=0x3F => Prefixed::Rotate(opcode_rot_op(opcode), reg),
        0x40..=0x7F => Prefixed::TestBit(bit, reg),
        0x80..=0xBF => Prefixed::ResetBit(bit, reg),
        _ => Prefixed::SetBit(bit, reg),
    }
}

/// The primary table has an entry for every byte but eleven, and those eleven
/// lie in its last quarter.
pub proof fn lemma_table_coverage(opcode: u8)
    ensures
        spec_decode(opcode) == Instruction::Invalid <==> spec_unassigned(opcode),
        opcode < 0xC0 ==> spec_decode(opcode) != Instruction::Invalid,
{
    let x = opcode as int / 64;
    let y = (opcode as int / 8) % 8;
    let z = opcode as int % 8;
    assert(opcode == 64 * x + 8 * y + z);
}

} // verus!
