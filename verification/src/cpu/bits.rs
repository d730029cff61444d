//! Facts that tie the bit-level operations of the executable code to the
//! arithmetic in which the machine's behaviour is stated.
use vstd::prelude::*;

verus! {

/// Two to the power `n`.
pub open spec fn pow2(n: nat) -> int
    decreases n,
{
    if n == 0 {
        1
    } else {
        2 * pow2((n - 1) as nat)
    }
}

/// Powers of two grow with the exponent and are at least one.
pub proof fn lemma_pow2_bounds(n: nat, m: nat)
    requires
        n <= m,
    ensures
        1 <= pow2(n) <= pow2(m),
        pow2(15) == 32768,
    decreases m,
{
    reveal_with_fuel(pow2, 16);
    if n < m {
        lemma_pow2_bounds(n, (m - 1) as nat);
    } else if n > 0 {
        lemma_pow2_bounds((n - 1) as nat, (m - 1) as nat);
    }
}

/// The top bit of a byte is set from 128 on, the bottom bit in odd bytes,
/// and a shift to the right by one bit halves.
pub proof fn lemma_end_bits(v: u8)
    by (bit_vector)
    ensures
        v & 0x80 != 0 <==> v >= 128,
        v & 0x01 != 0 <==> v % 2 == 1,
        v >> 1 == v / 2,
{
}

/// A bitwise `and` is no greater than either operand.
pub proof fn lemma_and_bounds(a: u8, b: u8)
    by (bit_vector)
    ensures
        a & b <= a,
        a & b <= b,
{
}

/// The low nibble of a byte, taken with a mask, is its remainder by sixteen.
pub proof fn lemma_low_nibble(v: u8)
    by (bit_vector)
    ensures
        v & 0x0F == v % 16,
{
}

/// One-bit shifts and rotations of a byte, stated as arithmetic.
pub proof fn lemma_shift_rotate_u8(v: u8)
    ensures
        (v << 1) == (v * 2) % 256,
        (v << 1) | (v >> 7) == (v * 2) % 256 + v / 128,
        (v >> 1) | (v << 7) == v / 2 + (v % 2) * 128,
        (v << 1) | 1 == (v * 2) % 256 + 1,
        (v >> 1) | 0x80 == v / 2 + 128,
        (v >> 1) | (v & 0x80) == v / 2 + (v / 128) * 128,
        (v << 4) | (v >> 4) == (v % 16) * 16 + v / 16,
        !v == 255 - v,
{
    assert((v << 1) as int == (v as int * 2) % 256 && ((v << 1) | (v >> 7)) as int == (v as int
        * 2) % 256 + v as int / 128) by (bit_vector);
    assert(((v >> 1) | (v << 7)) as int == v as int / 2 + (v as int % 2) * 128) by (bit_vector);
    assert(((v << 1) | 1) as int == (v as int * 2) % 256 + 1) by (bit_vector);
    assert(((v >> 1) | 0x80) as int == v as int / 2 + 128 && ((v >> 1) | (v & 0x80)) as int == v as int
        / 2 + (v as int / 128) * 128 && ((v << 4) | (v >> 4)) as int == (v as int % 16) * 16
        + v as int / 16 && (!v) as int == 255 - v as int) by (bit_vector);
}

/// What the three bitwise operations of the arithmetic unit do to single bits.
pub proof fn lemma_bitwise_bits(a: u8, b: u8, n: u8)
    by (bit_vector)
    requires
        n < 8,
    ensures
        ((a & b) >> n) & 1 == ((a >> n) & 1) & ((b >> n) & 1),
        ((a | b) >> n) & 1 == ((a >> n) & 1) | ((b >> n) & 1),
        ((a ^ b) >> n) & 1 == ((a >> n) & 1) ^ ((b >> n) & 1),
        (a & (1u8 << n) != 0) == ((a >> n) & 1 == 1),
        ((a | (1u8 << n)) >> n) & 1 == 1,
        ((a & !(1u8 << n)) >> n) & 1 == 0,
        (a >> n) & 1 <= 1,
{
}

} // verus!
