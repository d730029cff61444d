//! The arithmetic unit: what each 8-bit and 16-bit operation computes and how
//! it sets the flags, stated over integers, and the bit-level code that
//! computes it.
use vstd::prelude::*;
use crate::cpu::bits::{lemma_end_bits, lemma_low_nibble, lemma_shift_rotate_u8};
use crate::cpu::registers::FlagReg;

verus! {

/// The eight operations that combine the accumulator with an operand.
#[derive(Clone, Copy, PartialEq, Eq, Structural, Debug)]
pub enum AluOp {
    Add,
    Adc,
    Sub,
    Sbc,
    And,
    Xor,
    Or,
    Cp,
}

/// The eight operations that shift or rotate a single byte.
#[derive(Clone, Copy, PartialEq, Eq, Structural, Debug)]
pub enum RotOp {
    Rlc,
    Rrc,
    Rl,
    Rr,
    Sla,
    Sra,
    Swap,
    Srl,
}

/// The byte an operation produces and the flags it leaves.
#[derive(Clone, Copy, PartialEq, Eq, Structural, Debug)]
pub struct AluResult {
    pub value: u8,
    pub flags: FlagReg,
}

/// The 16-bit value an operation produces and the flags it leaves.
#[derive(Clone, Copy, PartialEq, Eq, Structural, Debug)]
pub struct AluResult16 {
    pub value: u16,
    pub flags: FlagReg,
}

/// The carry flag as a number.
pub open spec fn carry_value(carry: bool) -> int {
    if carry {
        1
    } else {
        0
    }
}

/// A byte read as a two's-complement number.
pub open spec fn signed(e: u8) -> int {
    if e < 128 {
        e as int
    } else {
        e - 256
    }
}

/// `a + v + carry`: the sum modulo 256, half-carry out of bit 3, carry out of
/// bit 7.
pub open spec fn spec_add(a: u8, v: u8, carry_in: bool) -> AluResult {
    let c = carry_value(carry_in);
    AluResult {
        value: ((a + v + c) % 256) as u8,
        flags: FlagReg {
            zero: (a + v + c) % 256 == 0,
            subtract: false,
            half_carry: a % 16 + v % 16 + c > 15,
            carry: a + v + c > 255,
        },
    }
}

/// `a - v - carry`: the difference modulo 256, borrow into bit 3, borrow into
/// bit 7.
pub open spec fn spec_sub(a: u8, v: u8, carry_in: bool) -> AluResult {
    let c = carry_value(carry_in);
    AluResult {
        value: ((a - v - c) % 256) as u8,
        flags: FlagReg {
            zero: (a - v - c) % 256 == 0,
            subtract: true,
            half_carry: a % 16 < v % 16 + c,
            carry: a < v + c,
        },
    }
}

/// Bitwise and: half-carry is set, carry is cleared.
pub open spec fn spec_and(a: u8, v: u8) -> AluResult {
    AluResult {
        value: a & v,
        flags: FlagReg { zero: a & v == 0, subtract: false, half_carry: true, carry: false },
    }
}

/// Bitwise exclusive or: only the zero flag can be set.
pub open spec fn spec_xor(a: u8, v: u8) -> AluResult {
    AluResult {
        value: a ^ v,
        flags: FlagReg { zero: a ^ v == 0, subtract: false, half_carry: false, carry: false },
    }
}

/// Bitwise or: only the zero flag can be set.
pub open spec fn spec_or(a: u8, v: u8) -> AluResult {
    AluResult {
        value: a | v,
        flags: FlagReg { zero: a | v == 0, subtract: false, half_carry: false, carry: false },
    }
}

/// The accumulator operation `op` on accumulator `a` and operand `v`. The
/// value of a compare is the accumulator itself: only the flags change.
pub open spec fn spec_alu(op: AluOp, a: u8, v: u8, flags: FlagReg) -> AluResult {
    match op {
        AluOp::Add => spec_add(a, v, false),
        AluOp::Adc => spec_add(a, v, flags.carry),
        AluOp::Sub => spec_sub(a, v, false),
        AluOp::Sbc => spec_sub(a, v, flags.carry),
        AluOp::And => spec_and(a, v),
        AluOp::Xor => spec_xor(a, v),
        AluOp::Or => spec_or(a, v),
        AluOp::Cp => AluResult { value: a, flags: spec_sub(a, v, false).flags },
    }
}

/// Increment: the carry flag is kept.
pub open spec fn spec_inc(v: u8, flags: FlagReg) -> AluResult {
    AluResult {
        value: ((v + 1) % 256) as u8,
        flags: FlagReg {
            zero: v == 255,
            subtract: false,
            half_carry: v % 16 == 15,
            carry: flags.carry,
        },
    }
}

/// Decrement: the carry flag is kept.
pub open spec fn spec_dec(v: u8, flags: FlagReg) -> AluResult {
    AluResult {
        value: ((v - 1) % 256) as u8,
        flags: FlagReg {
            zero: v == 1,
            subtract: true,
            half_carry: v % 16 == 0,
            carry: flags.carry,
        },
    }
}

/// The byte that a shift or rotation produces.
pub open spec fn spec_rot_value(op: RotOp, v: u8, carry_in: bool) -> u8 {
    (match op {
        RotOp::Rlc => (v * 2) % 256 + v / 128,
        RotOp::Rrc => v / 2 + (v % 2) * 128,
        RotOp::Rl => (v * 2) % 256 + carry_value(carry_in),
        RotOp::Rr => v / 2 + carry_value(carry_in) * 128,
        RotOp::Sla => (v * 2) % 256,
        RotOp::Sra => v / 2 + (v / 128) * 128,
        RotOp::Swap => (v % 16) * 16 + v / 16,
        RotOp::Srl => (v / 2) as int,
    }) as u8
}

/// The bit that a shift or rotation moves into the carry flag.
pub open spec fn spec_rot_carry(op: RotOp, v: u8) -> bool {
    match op {
        RotOp::Rlc | RotOp::Rl | RotOp::Sla => v >= 128,
        RotOp::Rrc | RotOp::Rr | RotOp::Sra | RotOp::Srl => v % 2 == 1,
        RotOp::Swap => false,
    }
}

/// A shift or rotation with its flags: zero by the result, carry by the bit
/// moved out.
pub open spec fn spec_rot(op: RotOp, v: u8, carry_in: bool) -> AluResult {
    AluResult {
        value: spec_rot_value(op, v, carry_in),
        flags: FlagReg {
            zero: spec_rot_value(op, v, carry_in) == 0,
            subtract: false,
            half_carry: false,
            carry: spec_rot_carry(op, v),
        },
    }
}

/// The correction that the decimal adjustment adds to, or after a subtraction
/// takes from, the accumulator.
pub open spec fn spec_daa_adjust(a: u8, flags: FlagReg) -> int {
    if flags.subtract {
        (if flags.half_carry { 0x06int } else { 0 }) + (if flags.carry { 0x60int } else { 0 })
    } else {
        (if flags.half_carry || a % 16 > 9 { 0x06int } else { 0 }) + (if flags.carry || a
            > 0x99 { 0x60int } else { 0 })
    }
}

/// Decimal adjustment of the accumulator after an addition or subtraction of
/// packed decimal digits.
pub open spec fn spec_daa(a: u8, flags: FlagReg) -> AluResult {
    let adjust = spec_daa_adjust(a, flags);
    let value = if flags.subtract {
        ((a - adjust) % 256) as u8
    } else {
        ((a + adjust) % 256) as u8
    };
    AluResult {
        value,
        flags: FlagReg {
            zero: value == 0,
            subtract: flags.subtract,
            half_carry: false,
            carry: flags.carry || (!flags.subtract && a > 0x99),
        },
    }
}

/// The byte that holds the decimal digits `tens` and `ones`, one in each
/// nibble.
pub open spec fn packed_decimal(tens: int, ones: int) -> u8 {
    (16 * tens + ones) as u8
}

/// The decimal adjustment turns the binary sum of two packed decimal numbers
/// into their packed decimal sum, modulo one hundred, and sets the carry where
/// the sum reaches one hundred.
pub proof fn lemma_decimal_adjust_sum(a_tens: u8, a_ones: u8, b_tens: u8, b_ones: u8, carry: bool)
    requires
        a_tens < 10,
        a_ones < 10,
        b_tens < 10,
        b_ones < 10,
    ensures
        ({
            let sum = spec_add(
                packed_decimal(a_tens as int, a_ones as int),
                packed_decimal(b_tens as int, b_ones as int),
                carry,
            );
            let total = 10 * (a_tens + b_tens) + a_ones + b_ones + carry_value(carry);
            &&& spec_daa(sum.value, sum.flags).value == packed_decimal(
                (total / 10) % 10,
                total % 10,
            )
            &&& spec_daa(sum.value, sum.flags).flags.carry == (total >= 100)
        }),
{
    let c: u32 = if carry { 1 } else { 0 };
    let a: u32 = (16 * a_tens + a_ones) as u32;
    let b: u32 = (16 * b_tens + b_ones) as u32;
    let total: u32 = (10 * (a_tens + b_tens) + a_ones + b_ones + c) as u32;
    let binary: u32 = (a + b + c) as u32;
    let value: u32 = binary % 256;
    let half: bool = a % 16 + b % 16 + c > 15;
    let over: bool = binary > 255 || value > 0x99;
    let low: u32 = if half || value % 16 > 9 { 6 } else { 0 };
    let high: u32 = if over { 0x60 } else { 0 };
    let adjusted: u32 = ((value + low + high) % 256) as u32;
    lemma_decimal_sum_bits(a_tens as u32, a_ones as u32, b_tens as u32, b_ones as u32, c);
    assert(adjusted == 16 * ((total / 10) % 10) + total % 10);
    assert(over == (total >= 100));
}

/// The arithmetic behind the decimal adjustment of a sum.
proof fn lemma_decimal_sum_bits(a1: u32, a0: u32, b1: u32, b0: u32, c: u32)
    by (bit_vector)
    requires
        a1 < 10,
        a0 < 10,
        b1 < 10,
        b0 < 10,
        c <= 1,
    ensures
        ({
            let a: u32 = (16 * a1 + a0) as u32;
            let b: u32 = (16 * b1 + b0) as u32;
            let total: u32 = (10 * (a1 + b1) + a0 + b0 + c) as u32;
            let binary: u32 = (a + b + c) as u32;
            let value: u32 = binary % 256;
            let low: u32 = if a % 16 + b % 16 + c > 15 || value % 16 > 9 { 6u32 } else { 0u32 };
            let high: u32 = if binary > 255 || value > 0x99 { 0x60u32 } else { 0u32 };
            &&& ((value + low + high) % 256) as u32 == (16 * ((total / 10) % 10) + total % 10) as u32
            &&& (binary > 255 || value > 0x99) == (total >= 100)
        }),
{
}

/// The decimal adjustment turns the binary difference of two packed decimal
/// numbers into their packed decimal difference, modulo one hundred, and
/// leaves the carry set where the second number, with the borrow, is the
/// greater.
pub proof fn lemma_decimal_adjust_difference(
    a_tens: u8,
    a_ones: u8,
    b_tens: u8,
    b_ones: u8,
    carry: bool,
)
    requires
        a_tens < 10,
        a_ones < 10,
        b_tens < 10,
        b_ones < 10,
    ensures
        ({
            let difference = spec_sub(
                packed_decimal(a_tens as int, a_ones as int),
                packed_decimal(b_tens as int, b_ones as int),
                carry,
            );
            let total = 100 + 10 * a_tens + a_ones - 10 * b_tens - b_ones - carry_value(carry);
            &&& spec_daa(difference.value, difference.flags).value == packed_decimal(
                (total / 10) % 10,
                total % 10,
            )
            &&& spec_daa(difference.value, difference.flags).flags.carry == (total < 100)
        }),
{
    let c: u16 = if carry { 1 } else { 0 };
    let a: u16 = (16 * a_tens + a_ones) as u16;
    let b: u16 = (16 * b_tens + b_ones) as u16;
    let total: u16 = (100 + 10 * a_tens + a_ones - 10 * b_tens - b_ones - c) as u16;
    let value: u16 = ((256 + a - b - c) % 256) as u16;
    let low: u16 = if a % 16 < b % 16 + c { 6 } else { 0 };
    let high: u16 = if a < b + c { 0x60 } else { 0 };
    let adjusted: u16 = ((256 + value - low - high) % 256) as u16;
    lemma_decimal_difference_bits(a_tens as u16, a_ones as u16, b_tens as u16, b_ones as u16, c);
    lemma_wrap_byte(a - b - c);
    lemma_wrap_byte(value - low - high);
    let difference = spec_sub(a as u8, b as u8, carry);
    assert(difference.value == value);
    assert(spec_daa_adjust(difference.value, difference.flags) == low + high);
    assert(spec_daa(difference.value, difference.flags).value == adjusted);
}

/// A byte and the byte 256 above it are the same modulo 256.
proof fn lemma_wrap_byte(x: int)
    ensures
        (x + 256) % 256 == x % 256,
{
}

/// The arithmetic behind the decimal adjustment of a difference.
#[verifier::rlimit(100)]
proof fn lemma_decimal_difference_bits(a1: u16, a0: u16, b1: u16, b0: u16, c: u16)
    by (bit_vector)
    requires
        a1 < 10,
        a0 < 10,
        b1 < 10,
        b0 < 10,
        c <= 1,
    ensures
        ({
            let a: u16 = (16 * a1 + a0) as u16;
            let b: u16 = (16 * b1 + b0) as u16;
            let total: u16 = (100 + 10 * a1 + a0 - 10 * b1 - b0 - c) as u16;
            let value: u16 = ((256 + a - b - c) % 256) as u16;
            let low: u16 = if a % 16 < b % 16 + c { 6u16 } else { 0u16 };
            let high: u16 = if a < b + c { 0x60u16 } else { 0u16 };
            &&& ((256 + value - low - high) % 256) as u16 == (16 * ((total / 10) % 10) + total
                % 10) as u16
            &&& (a < b + c) == (total < 100)
        }),
{
}

/// 16-bit addition to HL: the zero flag is kept, half-carry is out of bit 11.
pub open spec fn spec_add16(hl: u16, v: u16, flags: FlagReg) -> AluResult16 {
    AluResult16 {
        value: ((hl + v) % 65536) as u16,
        flags: FlagReg {
            zero: flags.zero,
            subtract: false,
            half_carry: hl % 4096 + v % 4096 > 4095,
            carry: hl + v > 65535,
        },
    }
}

/// The stack pointer plus a signed byte. The flags are those of adding the
/// byte, unsigned, to the low byte of the stack pointer.
pub open spec fn spec_add_sp(sp: u16, e: u8) -> AluResult16 {
    AluResult16 {
        value: ((sp + signed(e)) % 65536) as u16,
        flags: FlagReg {
            zero: false,
            subtract: false,
            half_carry: sp % 16 + e % 16 > 15,
            carry: sp % 256 + e > 255,
        },
    }
}

/// `base` moved by the signed byte `e`, modulo 65536.
pub open spec fn spec_offset(base: u16, e: u8) -> u16 {
    ((base + signed(e)) % 65536) as u16
}

/// `base` moved by the signed byte `e`, modulo 65536.
#[verifier::when_used_as_spec(spec_offset)]
pub fn offset(base: u16, e: u8) -> (r: u16)
    ensures
        r == spec_offset(base, e),
{
    if e < 128 {
        base.wrapping_add(e as u16)
    } else {
        base.wrapping_sub(256 - (e as u16))
    }
}

/// Adds `v` and the carry to `a`.
pub fn add_bytes(a: u8, v: u8, carry_in: bool) -> (r: AluResult)
    ensures
        r == spec_add(a, v, carry_in),
{
    let c: u8 = if carry_in { 1 } else { 0 };
    let value = a.wrapping_add(v).wrapping_add(c);
    proof {
        lemma_low_nibble(a);
        lemma_low_nibble(v);
    }
    AluResult {
        value,
        flags: FlagReg {
            zero: value == 0,
            subtract: false,
            half_carry: (a & 0x0F) + (v & 0x0F) + c > 0x0F,
            carry: (a as u16) + (v as u16) + (c as u16) > 0xFF,
        },
    }
}

/// Takes `v` and the carry from `a`.
pub fn sub_bytes(a: u8, v: u8, carry_in: bool) -> (r: AluResult)
    ensures
        r == spec_sub(a, v, carry_in),
{
    let c: u8 = if carry_in { 1 } else { 0 };
    let value = a.wrapping_sub(v).wrapping_sub(c);
    proof {
        lemma_low_nibble(a);
        lemma_low_nibble(v);
    }
    AluResult {
        value,
        flags: FlagReg {
            zero: value == 0,
            subtract: true,
            half_carry: (a & 0x0F) < (v & 0x0F) + c,
            carry: (a as u16) < (v as u16) + (c as u16),
        },
    }
}

/// Combines the accumulator `a` with the operand `v`.
pub fn alu(op: AluOp, a: u8, v: u8, flags: FlagReg) -> (r: AluResult)
    ensures
        r == spec_alu(op, a, v, flags),
{
    match op {
        AluOp::Add => add_bytes(a, v, false),
        AluOp::Adc => add_bytes(a, v, flags.carry),
        AluOp::Sub => sub_bytes(a, v, false),
        AluOp::Sbc => sub_bytes(a, v, flags.carry),
        AluOp::And => AluResult {
            value: a & v,
            flags: FlagReg { zero: a & v == 0, subtract: false, half_carry: true, carry: false },
        },
        AluOp::Xor => AluResult {
            value: a ^ v,
            flags: FlagReg { zero: a ^ v == 0, subtract: false, half_carry: false, carry: false },
        },
        AluOp::Or => AluResult {
            value: a | v,
            flags: FlagReg { zero: a | v == 0, subtract: false, half_carry: false, carry: false },
        },
        AluOp::Cp => AluResult { value: a, flags: sub_bytes(a, v, false).flags },
    }
}

/// Increments `v`.
pub fn inc(v: u8, flags: FlagReg) -> (r: AluResult)
    ensures
        r == spec_inc(v, flags),
{
    proof {
        lemma_low_nibble(v);
    }
    let value = v.wrapping_add(1);
    AluResult {
        value,
        flags: FlagReg {
            zero: value == 0,
            subtract: false,
            half_carry: (v & 0x0F) == 0x0F,
            carry: flags.carry,
        },
    }
}

/// Decrements `v`.
pub fn dec(v: u8, flags: FlagReg) -> (r: AluResult)
    ensures
        r == spec_dec(v, flags),
{
    proof {
        lemma_low_nibble(v);
    }
    let value = v.wrapping_sub(1);
    AluResult {
        value,
        flags: FlagReg {
            zero: value == 0,
            subtract: true,
            half_carry: (v & 0x0F) == 0x00,
            carry: flags.carry,
        },
    }
}

/// Shifts or rotates `v`.
pub fn rot(op: RotOp, v: u8, carry_in: bool) -> (r: AluResult)
    ensures
        r == spec_rot(op, v, carry_in),
{
    proof {
        lemma_end_bits(v);
        lemma_shift_rotate_u8(v);
    }
    let value: u8 = match op {
        RotOp::Rlc => (v << 1) | (v >> 7),
        RotOp::Rrc => (v >> 1) | (v << 7),
        RotOp::Rl => if carry_in { (v << 1) | 1 } else { v << 1 },
        RotOp::Rr => if carry_in { (v >> 1) | 0x80 } else { v >> 1 },
        RotOp::Sla => v << 1,
        RotOp::Sra => (v >> 1) | (v & 0x80),
        RotOp::Swap => (v << 4) | (v >> 4),
        RotOp::Srl => v >> 1,
    };
    let carry = match op {
        RotOp::Rlc | RotOp::Rl | RotOp::Sla => v & 0x80 != 0,
        RotOp::Rrc | RotOp::Rr | RotOp::Sra | RotOp::Srl => v & 0x01 != 0,
        RotOp::Swap => false,
    };
    AluResult {
        value,
        flags: FlagReg { zero: value == 0, subtract: false, half_carry: false, carry },
    }
}

/// Adjusts the accumulator to packed decimal digits.
pub fn daa(a: u8, flags: FlagReg) -> (r: AluResult)
    ensures
        r == spec_daa(a, flags),
{
    proof {
        lemma_low_nibble(a);
    }
    let mut adjust: u8 = 0;
    let mut carry = flags.carry;
    let value = if flags.subtract {
        if flags.half_carry {
            adjust += 0x06;
        }
        if flags.carry {
            adjust += 0x60;
        }
        a.wrapping_sub(adjust)
    } else {
        if flags.half_carry || (a & 0x0F) > 0x09 {
            adjust += 0x06;
        }
        if flags.carry || a > 0x99 {
            adjust += 0x60;
            carry = true;
        }
        a.wrapping_add(adjust)
    };
    AluResult {
        value,
        flags: FlagReg { zero: value == 0, subtract: flags.subtract, half_carry: false, carry },
    }
}

/// Adds `v` to `hl`.
pub fn add16(hl: u16, v: u16, flags: FlagReg) -> (r: AluResult16)
    ensures
        r == spec_add16(hl, v, flags),
{
    AluResult16 {
        value: hl.wrapping_add(v),
        flags: FlagReg {
            zero: flags.zero,
            subtract: false,
            half_carry: (hl % 4096) + (v % 4096) > 4095,
            carry: (hl as u32) + (v as u32) > 0xFFFF,
        },
    }
}

/// Moves the stack pointer by the signed byte `e`.
pub fn add_sp(sp: u16, e: u8) -> (r: AluResult16)
    ensures
        r == spec_add_sp(sp, e),
{
    AluResult16 {
        value: offset(sp, e),
        flags: FlagReg {
            zero: false,
            subtract: false,
            half_carry: (sp % 16) + ((e % 16) as u16) > 15,
            carry: (sp % 256) + (e as u16) > 255,
        },
    }
}

} // verus!
