//! The register file: seven 8-bit registers, the four flags, the stack pointer
//! and the program counter, with the 16-bit pair views over them.
use vstd::prelude::*;

verus! {

/// The four condition flags. Packed into a byte they occupy bits 7 to 4; the
/// low nibble of the packed byte is always zero.
#[derive(Clone, Copy, PartialEq, Eq, Structural, Debug)]
pub struct FlagReg {
    pub zero: bool,
    pub subtract: bool,
    pub half_carry: bool,
    pub carry: bool,
}

impl FlagReg {
    pub const ZERO: u8 = 0b1000_0000;

    pub const SUBTRACT: u8 = 0b0100_0000;

    pub const HALF_CARRY: u8 = 0b0010_0000;

    pub const CARRY: u8 = 0b0001_0000;

    /// The packed byte: zero, subtract, half-carry, carry in bits 7, 6, 5, 4.
    pub open spec fn spec_bits(&self) -> u8 {
        ((if self.zero { 128int } else { 0 }) + (if self.subtract { 64int } else { 0 }) + (
        if self.half_carry { 32int } else { 0 }) + (if self.carry { 16int } else { 0 })) as u8
    }

    /// The flags held by bits 7 to 4 of `bits`; the low nibble is dropped.
    pub open spec fn spec_from_bits(bits: u8) -> FlagReg {
        FlagReg {
            zero: bits >= 128,
            subtract: (bits / 64) % 2 == 1,
            half_carry: (bits / 32) % 2 == 1,
            carry: (bits / 16) % 2 == 1,
        }
    }

    /// The flags with none set.
    pub open spec fn cleared() -> FlagReg {
        FlagReg { zero: false, subtract: false, half_carry: false, carry: false }
    }

    /// The packed byte: zero, subtract, half-carry, carry in bits 7, 6, 5, 4.
    #[verifier::when_used_as_spec(spec_bits)]
    pub fn bits(&self) -> (r: u8)
        ensures
            r == self.spec_bits(),
            r % 16 == 0,
    {
        let z: u8 = if self.zero { FlagReg::ZERO } else { 0 };
        let n: u8 = if self.subtract { FlagReg::SUBTRACT } else { 0 };
        let h: u8 = if self.half_carry { FlagReg::HALF_CARRY } else { 0 };
        let c: u8 = if self.carry { FlagReg::CARRY } else { 0 };
        z + n + h + c
    }

    /// The register that `bits` stands for.
    #[verifier::when_used_as_spec(spec_from_bits)]
    pub fn from_bits_truncate(bits: u8) -> (r: FlagReg)
        ensures
            r == FlagReg::spec_from_bits(bits),
            r.spec_bits() == bits - bits % 16,
    {
        FlagReg {
            zero: bits >= 128,
            subtract: (bits / 64) % 2 == 1,
            half_carry: (bits / 32) % 2 == 1,
            carry: (bits / 16) % 2 == 1,
        }
    }

    /// Packing never sets a bit of the low nibble.
    pub proof fn lemma_low_nibble_zero(self)
        ensures
            self.spec_bits() % 16 == 0,
            self.spec_bits() & 0x0F == 0,
    {
        let b = self.spec_bits();
        assert(b & 0x0F == b % 16) by (bit_vector);
    }

    /// Unpacking a packed byte gives the flags back.
    pub proof fn lemma_pack_unpack(self)
        ensures
            FlagReg::spec_from_bits(self.spec_bits()) == self,
    {
    }

    /// Packing an unpacked byte clears exactly its low nibble.
    pub proof fn lemma_unpack_pack(bits: u8)
        ensures
            FlagReg::spec_from_bits(bits).spec_bits() == bits - bits % 16,
    {
    }
}

/// An 8-bit register.
#[derive(Clone, Copy, PartialEq, Eq, Structural, Debug)]
pub enum Reg8 {
    A,
    B,
    C,
    D,
    E,
    H,
    L,
}

/// A 16-bit register or register pair. Of a pair the first letter names the
/// high byte.
#[derive(Clone, Copy, PartialEq, Eq, Structural, Debug)]
pub enum Reg16 {
    BC,
    DE,
    HL,
    SP,
    AF,
    PC,
}

#[derive(Clone, Copy, PartialEq, Eq, Structural, Debug)]
pub struct Registers {
    pub a: u8,
    pub b: u8,
    pub c: u8,
    pub d: u8,
    pub e: u8,
    pub h: u8,
    pub l: u8,
    pub f: FlagReg,
    pub sp: u16,
    pub pc: u16,
}

/// The 16-bit value whose high byte is `high` and whose low byte is `low`.
pub open spec fn spec_word(high: u8, low: u8) -> u16 {
    (high * 256 + low) as u16
}

/// The high byte of a 16-bit value.
pub open spec fn spec_high(v: u16) -> u8 {
    (v / 256) as u8
}

/// The low byte of a 16-bit value.
pub open spec fn spec_low(v: u16) -> u8 {
    (v % 256) as u8
}

/// The 16-bit value whose high byte is `high` and whose low byte is `low`.
#[verifier::when_used_as_spec(spec_word)]
pub fn word(high: u8, low: u8) -> (r: u16)
    ensures
        r == spec_word(high, low),
{
    (high as u16) * 256 + (low as u16)
}

/// The high byte of a 16-bit value.
#[verifier::when_used_as_spec(spec_high)]
pub fn high(v: u16) -> (r: u8)
    ensures
        r == spec_high(v),
{
    (v / 256) as u8
}

/// The low byte of a 16-bit value.
#[verifier::when_used_as_spec(spec_low)]
pub fn low(v: u16) -> (r: u8)
    ensures
        r == spec_low(v),
{
    (v % 256) as u8
}

/// A 16-bit value is the word of its two bytes.
pub proof fn lemma_word_parts(v: u16)
    ensures
        spec_word(spec_high(v), spec_low(v)) == v,
        spec_high(v) * 256 + spec_low(v) == v,
{
}

/// The two bytes of a word are the bytes that it was made of.
pub proof fn lemma_parts_word(high: u8, low: u8)
    ensures
        spec_high(spec_word(high, low)) == high,
        spec_low(spec_word(high, low)) == low,
{
}

impl Registers {
    /// The register values that the console's boot program leaves behind.
    pub open spec fn power_on() -> Registers {
        Registers {
            a: 0x01,
            b: 0x00,
            c: 0x13,
            d: 0x00,
            e: 0xD8,
            h: 0x01,
            l: 0x4D,
            f: FlagReg { zero: true, subtract: false, half_carry: true, carry: true },
            sp: 0xFFFE,
            pc: 0x0100,
        }
    }

    /// The register file at power-on.
    pub fn new() -> (r: Registers)
        ensures
            r == Registers::power_on(),
    {
        Registers {
            a: 0x01,
            b: 0x00,
            c: 0x13,
            d: 0x00,
            e: 0xD8,
            h: 0x01,
            l: 0x4D,
            f: FlagReg { zero: true, subtract: false, half_carry: true, carry: true },
            sp: 0xFFFE,
            pc: 0x0100,
        }
    }

    /// The value of an 8-bit register.
    pub open spec fn spec_read(&self, reg: Reg8) -> u8 {
        match reg {
            Reg8::A => self.a,
            Reg8::B => self.b,
            Reg8::C => self.c,
            Reg8::D => self.d,
            Reg8::E => self.e,
            Reg8::H => self.h,
            Reg8::L => self.l,
        }
    }

    /// The register file with an 8-bit register replaced.
    pub open spec fn spec_write(self, reg: Reg8, value: u8) -> Registers {
        match reg {
            Reg8::A => Registers { a: value, ..self },
            Reg8::B => Registers { b: value, ..self },
            Reg8::C => Registers { c: value, ..self },
            Reg8::D => Registers { d: value, ..self },
            Reg8::E => Registers { e: value, ..self },
            Reg8::H => Registers { h: value, ..self },
            Reg8::L => Registers { l: value, ..self },
        }
    }

    /// A pair reads big-endian: the first register is the high byte. The low
    /// byte of AF is the packed flag register.
    pub open spec fn spec_read_pair(&self, reg: Reg16) -> u16 {
        match reg {
            Reg16::BC => spec_word(self.b, self.c),
            Reg16::DE => spec_word(self.d, self.e),
            Reg16::HL => spec_word(self.h, self.l),
            Reg16::SP => self.sp,
            Reg16::AF => spec_word(self.a, self.f.spec_bits()),
            Reg16::PC => self.pc,
        }
    }

    /// The register file with a pair replaced, high byte into the first
    /// register. Of a value written to AF the low nibble is dropped.
    pub open spec fn spec_write_pair(self, reg: Reg16, value: u16) -> Registers {
        match reg {
            Reg16::BC => Registers { b: spec_high(value), c: spec_low(value), ..self },
            Reg16::DE => Registers { d: spec_high(value), e: spec_low(value), ..self },
            Reg16::HL => Registers { h: spec_high(value), l: spec_low(value), ..self },
            Reg16::SP => Registers { sp: value, ..self },
            Reg16::AF => Registers {
                a: spec_high(value),
                f: FlagReg::spec_from_bits(spec_low(value)),
                ..self
            },
            Reg16::PC => Registers { pc: value, ..self },
        }
    }

    /// Reads an 8-bit register.
    #[verifier::when_used_as_spec(spec_read)]
    pub fn read(&self, reg: Reg8) -> (r: u8)
        ensures
            r == self.spec_read(reg),
    {
        match reg {
            Reg8::A => self.a,
            Reg8::B => self.b,
            Reg8::C => self.c,
            Reg8::D => self.d,
            Reg8::E => self.e,
            Reg8::H => self.h,
            Reg8::L => self.l,
        }
    }

    /// Writes an 8-bit register.
    pub fn write(&mut self, reg: Reg8, value: u8)
        ensures
            *final(self) == old(self).spec_write(reg, value),
    {
        match reg {
            Reg8::A => self.a = value,
            Reg8::B => self.b = value,
            Reg8::C => self.c = value,
            Reg8::D => self.d = value,
            Reg8::E => self.e = value,
            Reg8::H => self.h = value,
            Reg8::L => self.l = value,
        }
    }

    /// A pair reads big-endian: the first register is the high byte. The low
    /// byte of AF is the packed flag register.
    #[verifier::when_used_as_spec(spec_read_pair)]
    pub fn read_pair(&self, reg: Reg16) -> (r: u16)
        ensures
            r == self.spec_read_pair(reg),
    {
        match reg {
            Reg16::BC => word(self.b, self.c),
            Reg16::DE => word(self.d, self.e),
            Reg16::HL => word(self.h, self.l),
            Reg16::SP => self.sp,
            Reg16::AF => word(self.a, self.f.bits()),
            Reg16::PC => self.pc,
        }
    }

    /// Writes a 16-bit register or a pair.
    pub fn write_pair(&mut self, reg: Reg16, value: u16)
        ensures
            *final(self) == old(self).spec_write_pair(reg, value),
    {
        match reg {
            Reg16::BC => {
                self.b = high(value);
                self.c = low(value);
            },
            Reg16::DE => {
                self.d = high(value);
                self.e = low(value);
            },
            Reg16::HL => {
                self.h = high(value);
                self.l = low(value);
            },
            Reg16::SP => self.sp = value,
            Reg16::AF => {
                self.a = high(value);
                self.f = FlagReg::from_bits_truncate(low(value));
            },
            Reg16::PC => self.pc = value,
        }
    }

    /// Writing a pair and reading it back gives the value written. For AF this
    /// holds of the values whose low nibble is zero: the flag register has no
    /// low nibble to keep.
    pub proof fn lemma_pair_round_trip(self, reg: Reg16, value: u16)
        requires
            reg == Reg16::AF ==> value % 16 == 0,
        ensures
            self.spec_write_pair(reg, value).spec_read_pair(reg) == value,
    {
        lemma_word_parts(value);
        if reg == Reg16::AF {
            self.lemma_af_round_trip(value);
        }
    }

    /// Writing AF and reading it back clears the low nibble and keeps the rest.
    pub proof fn lemma_af_round_trip(self, value: u16)
        ensures
            self.spec_write_pair(Reg16::AF, value).spec_read_pair(Reg16::AF) == value - value
                % 16,
    {
        lemma_word_parts(value);
        let h = spec_high(value);
        let l = spec_low(value);
        FlagReg::lemma_unpack_pack(l);
        let packed = FlagReg::spec_from_bits(l).spec_bits();
        assert(packed == l - l % 16);
        assert(l % 16 == value % 16) by {
            assert(l == value % 256);
            assert((value % 256) % 16 == value % 16) by (nonlinear_arith);
        }
        assert(self.spec_write_pair(Reg16::AF, value).spec_read_pair(Reg16::AF) == spec_word(
            h,
            packed,
        ));
    }

    /// Writing the pair that a read returned changes nothing.
    pub proof fn lemma_pair_write_read(self, reg: Reg16)
        ensures
            self.spec_write_pair(reg, self.spec_read_pair(reg)) == self,
    {
    }

    /// Whatever is written to whichever pair, the packed flag register keeps a
    /// zero low nibble.
    pub proof fn lemma_flags_low_nibble(self, reg: Reg16, value: u16)
        ensures
            self.spec_write_pair(reg, value).f.spec_bits() % 16 == 0,
            self.spec_write_pair(reg, value).spec_read_pair(Reg16::AF) % 16 == 0,
    {
    }
}

} // verus!
