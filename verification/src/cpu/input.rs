//! The joypad: eight button lines behind a register that shows one group of
//! four at a time.
use vstd::prelude::*;
use core::ops::RangeInclusive;
use crate::cpu::readwrite::{in_ranges, MemoryAccess};

verus! {

/// The eight button lines, one bit each. A set bit is a released button.
#[derive(Clone, Copy, PartialEq, Eq, Structural, Debug, Hash)]
pub struct InputFlag(pub u8);

impl InputFlag {
    pub const START: u8 = 0b1000_0000;

    pub const SELECT: u8 = 0b0100_0000;

    pub const B: u8 = 0b0010_0000;

    pub const A: u8 = 0b0001_0000;

    pub const DOWN: u8 = 0b0000_1000;

    pub const UP: u8 = 0b0000_0100;

    pub const LEFT: u8 = 0b0000_0010;

    pub const RIGHT: u8 = 0b0000_0001;

    /// The eight lines as a byte.
    pub open spec fn spec_bits(&self) -> u8 {
        self.0
    }

    /// Whether a line of `mask` is set.
    pub open spec fn spec_intersects(&self, mask: u8) -> bool {
        self.0 & mask != 0
    }

    /// The lines of `mask` set if `on`, cleared if not; the others kept.
    pub open spec fn spec_set(self, mask: u8, on: bool) -> InputFlag {
        if on {
            InputFlag(self.0 | mask)
        } else {
            InputFlag(self.0 & !mask)
        }
    }

    /// The lines that `bits` holds: every bit stands for one.
    pub fn from_bits_truncate(bits: u8) -> (r: InputFlag)
        ensures
            r.0 == bits,
    {
        InputFlag(bits)
    }

    /// The register as a byte.
    #[verifier::when_used_as_spec(spec_bits)]
    pub fn bits(&self) -> (r: u8)
        ensures
            r == self.0,
    {
        self.0
    }

    /// Whether a bit of `mask` is set.
    #[verifier::when_used_as_spec(spec_intersects)]
    pub fn intersects(&self, mask: u8) -> (r: bool)
        ensures
            r == self.spec_intersects(mask),
    {
        self.0 & mask != 0
    }

    /// Sets or clears the lines of `mask`.
    pub fn set(&mut self, mask: u8, on: bool)
        ensures
            *final(self) == old(self).spec_set(mask, on),
    {
        if on {
            self.0 = self.0 | mask;
        } else {
            self.0 = self.0 & !mask;
        }
    }
}

/// The joypad register. Writing it selects the group of lines to show, the
/// action buttons or the direction pad; reading it shows the selected lines in
/// the low nibble, a zero bit for a pressed button.
#[derive(Clone, Copy, PartialEq, Eq, Structural, Debug)]
pub struct InputReg {
    pub select_button: bool,
    pub select_dpad: bool,
    pub flags: InputFlag,
}

impl InputReg {
    /// The state at power-on.
    pub open spec fn power_on() -> InputReg {
        InputReg { select_button: false, select_dpad: false, flags: InputFlag(0xFF) }
    }

    /// The address of the joypad register.
    pub open spec fn spec_handles(address: u16) -> bool {
        address == 0xFF00
    }

    /// The four lines that the register shows: those of every selected group,
    /// pulled low where a button of the group is pressed; all high where no
    /// group is selected.
    pub open spec fn spec_lines(&self) -> u8 {
        let buttons: u8 = if self.select_button {
            self.flags.0 >> 4
        } else {
            0x0F
        };
        let dpad: u8 = if self.select_dpad {
            self.flags.0 & 0x0F
        } else {
            0x0F
        };
        buttons & dpad
    }

    /// Bits 7 and 6 read as one, bits 5 and 4 are the two select lines, low for
    /// a selected group, and the low nibble shows the lines.
    pub open spec fn spec_read(&self) -> u8 {
        0xC0 | (if self.select_button { 0x00u8 } else { 0x20u8 }) | (if self.select_dpad {
            0x00u8
        } else {
            0x10u8
        }) | self.spec_lines()
    }

    /// A group is selected by writing a zero to its select bit.
    pub open spec fn spec_write(self, value: u8) -> InputReg {
        InputReg {
            select_button: value & 0x20 == 0,
            select_dpad: value & 0x10 == 0,
            ..self
        }
    }

    /// A button changes state: its line is cleared when pressed and set when
    /// released.
    pub open spec fn spec_update(self, input: InputFlag, pressed: bool) -> InputReg {
        InputReg { flags: self.flags.spec_set(input.0, !pressed), ..self }
    }

    /// The joypad with exactly the buttons of `pressed` held down.
    pub open spec fn spec_apply(self, pressed: InputFlag) -> InputReg {
        InputReg { flags: InputFlag(!pressed.0), ..self }
    }

    /// Whether `pressed` holds a button that is not held down now.
    pub open spec fn spec_newly_pressed(&self, pressed: InputFlag) -> bool {
        pressed.0 & self.flags.0 != 0
    }

    /// The state at power-on.
    pub fn new() -> (r: InputReg)
        ensures
            r == InputReg::power_on(),
    {
        InputReg {
            select_button: false,
            select_dpad: false,
            flags: InputFlag::from_bits_truncate(0xFF),
        }
    }

    /// Reads the register.
    #[verifier::when_used_as_spec(spec_read)]
    pub fn read(&self) -> (r: u8)
        ensures
            r == self.spec_read(),
    {
        let buttons: u8 = if self.select_button { self.flags.bits() >> 4 } else { 0x0F };
        let dpad: u8 = if self.select_dpad { self.flags.bits() & 0x0F } else { 0x0F };
        let select_high: u8 = if self.select_button { 0x00 } else { 0x20 };
        let select_low: u8 = if self.select_dpad { 0x00 } else { 0x10 };
        0xC0 | select_high | select_low | (buttons & dpad)
    }

    /// Selects the groups of lines to show.
    pub fn write(&mut self, value: u8)
        ensures
            *final(self) == old(self).spec_write(value),
    {
        self.select_button = value & 0b0010_0000 == 0;
        self.select_dpad = value & 0b0001_0000 == 0;
    }

    /// Whether `pressed` holds a button that is not held down now.
    #[verifier::when_used_as_spec(spec_newly_pressed)]
    pub fn newly_pressed(&self, pressed: InputFlag) -> (r: bool)
        ensures
            r == self.spec_newly_pressed(pressed),
    {
        pressed.0 & self.flags.0 != 0
    }

    /// Holds exactly the buttons of `pressed` down.
    pub fn apply(&mut self, pressed: InputFlag)
        ensures
            *final(self) == old(self).spec_apply(pressed),
    {
        self.flags = InputFlag(!pressed.0);
    }

    /// Presses or releases the buttons of `input`.
    pub fn update(&mut self, input: InputFlag, pressed: bool)
        ensures
            *final(self) == old(self).spec_update(input, pressed),
    {
        self.flags.set(input.0, !pressed);
    }

    /// With no group selected the four lines read high, whatever is pressed.
    pub proof fn lemma_unselected_reads_high(self)
        requires
            !self.select_button,
            !self.select_dpad,
        ensures
            self.spec_read() == 0xFF,
    {
        assert(0xC0u8 | 0x20u8 | 0x10u8 | (0x0Fu8 & 0x0Fu8) == 0xFFu8) by (bit_vector);
    }

    /// With the direction pad selected, a direction reads as zero exactly when
    /// it is pressed.
    pub proof fn lemma_dpad_line(self, mask: u8)
        requires
            self.select_dpad,
            !self.select_button,
            mask == InputFlag::RIGHT || mask == InputFlag::LEFT || mask == InputFlag::UP || mask
                == InputFlag::DOWN,
        ensures
            self.spec_read() & mask == 0 <==> !self.flags.spec_intersects(mask),
    {
        let f = self.flags.0;
        assert((mask == 1 || mask == 2 || mask == 4 || mask == 8) ==> (((0xC0u8 | 0x20u8 | 0x00u8
            | (0x0Fu8 & (f & 0x0Fu8))) & mask == 0) <==> !(f & mask != 0))) by (bit_vector);
    }

    /// With the action buttons selected, a button reads as zero, in the low
    /// nibble, exactly when it is pressed.
    pub proof fn lemma_button_line(self, mask: u8)
        requires
            self.select_button,
            !self.select_dpad,
            mask == InputFlag::A || mask == InputFlag::B || mask == InputFlag::SELECT || mask
                == InputFlag::START,
        ensures
            self.spec_read() & (mask >> 4) == 0 <==> !self.flags.spec_intersects(mask),
    {
        let f = self.flags.0;
        assert((mask == 16 || mask == 32 || mask == 64 || mask == 128) ==> (((0xC0u8 | 0x00u8
            | 0x10u8 | ((f >> 4) & 0x0Fu8)) & (mask >> 4) == 0) <==> !(f & mask != 0)))
            by (bit_vector);
    }
}

impl View for InputReg {
    type V = InputReg;

    open spec fn view(&self) -> InputReg {
        *self
    }
}

impl MemoryAccess for InputReg {
    open spec fn handles(address: u16) -> bool {
        InputReg::spec_handles(address)
    }

    open spec fn peek(state: Self::V, address: u16) -> u8 {
        state.spec_read()
    }

    open spec fn poke(state: Self::V, address: u16, value: u8) -> Self::V {
        state.spec_write(value)
    }

    fn get_range(&self) -> (ranges: Vec<RangeInclusive<u16>>) {
        let mut ranges: Vec<RangeInclusive<u16>> = Vec::new();
        ranges.push(RangeInclusive::new(0xFF00, 0xFF00));
        assert forall|address: u16| in_ranges(ranges@, address) <==> Self::handles(address) by {
            if address == 0xFF00 {
                assert(ranges@[0]@.start <= address <= ranges@[0]@.end);
            }
        }
        ranges
    }

    fn mem_read(&self, _address: u16) -> (r: u8) {
        self.read()
    }

    fn mem_write(&mut self, _address: u16, value: u8) {
        self.write(value);
    }
}

} // verus!
