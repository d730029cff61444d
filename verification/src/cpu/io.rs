//! The timer, and the block of input/output registers that holds it together
//! with the joypad and the serial data byte.
use vstd::prelude::*;
use core::ops::RangeInclusive;
use crate::cpu::readwrite::{in_ranges, MemoryAccess};
use crate::cpu::input::InputReg;

verus! {

/// The timer's control register: bit 2 enables the counter, bits 1 and 0
/// select its rate.
#[derive(Clone, Copy, PartialEq, Eq, Structural, Debug)]
pub struct TimerControl(pub u8);

impl TimerControl {
    pub const ENABLE: u8 = 0b0000_0100;

    pub const CONTROL1: u8 = 0b0000_0010;

    pub const CONTROL2: u8 = 0b0000_0001;

    /// The register that the low three bits of `bits` stand for.
    pub open spec fn spec_from_bits(bits: u8) -> TimerControl {
        TimerControl(bits & 0x07)
    }

    /// The register as a byte.
    pub open spec fn spec_bits(&self) -> u8 {
        self.0
    }

    /// Whether a bit of `mask` is set.
    pub open spec fn spec_intersects(&self, mask: u8) -> bool {
        self.0 & mask != 0
    }

    /// The number of hardware cycles between two increments of the counter:
    /// 256, 4, 16 or 64 for a rate select of 0, 1, 2 or 3.
    pub open spec fn spec_period(&self) -> u16 {
        let select = self.0 & 0x03;
        if select == 1 {
            4
        } else if select == 2 {
            16
        } else if select == 3 {
            64
        } else {
            256
        }
    }

    /// The register that `bits` stands for.
    #[verifier::when_used_as_spec(spec_from_bits)]
    pub fn from_bits_truncate(bits: u8) -> (r: TimerControl)
        ensures
            r == TimerControl::spec_from_bits(bits),
    {
        TimerControl(bits & 0x07)
    }

    /// The register as a byte.
    #[verifier::when_used_as_spec(spec_bits)]
    pub fn bits(&self) -> (r: u8)
        ensures
            r == self.0,
    {
        self.0
    }

    /// Whether a bit of `mask` is set.
    #[verifier::when_used_as_spec(spec_intersects)]
    pub fn intersects(&self, mask: u8) -> (r: bool)
        ensures
            r == self.spec_intersects(mask),
    {
        self.0 & mask != 0
    }

    /// The number of hardware cycles between two increments of the counter:
    /// 256, 4, 16 or 64 for a rate select of 0, 1, 2 or 3.
    #[verifier::when_used_as_spec(spec_period)]
    pub fn period(&self) -> (r: u16)
        ensures
            r == self.spec_period(),
    {
        match self.0 & 0b11 {
            0b01 => 4,
            0b10 => 16,
            0b11 => 64,
            _ => 256,
        }
    }
}

/// The timer: a free-running 16-bit divider and an 8-bit counter that the
/// divider clocks at the selected rate.
#[derive(Clone, Copy, PartialEq, Eq, Structural, Debug)]
pub struct Timer {
    /// Counts hardware cycles, modulo 65536, whether or not the counter runs.
    pub divider: u16,
    /// The value the counter restarts from after it overflows.
    pub modulo: u8,
    pub counter: u8,
    pub control: TimerControl,
    pub enabled: bool,
    /// Whether the counter overflowed in the last cycle.
    pub overflowed: bool,
}

/// The divider after one more hardware cycle.
pub open spec fn next_divider(divider: u16) -> u16 {
    ((divider + 1) % 65536) as u16
}

impl Timer {
    /// The state at power-on.
    pub open spec fn power_on() -> Timer {
        Timer {
            divider: 0,
            modulo: 0,
            counter: 0,
            control: TimerControl(0),
            enabled: false,
            overflowed: false,
        }
    }

    /// Whether the next cycle clocks the counter: the timer is enabled and the
    /// divider reaches a multiple of the period, which is when the divider bit
    /// that the rate selects falls from one to zero.
    pub open spec fn spec_ticks(&self) -> bool {
        self.enabled && next_divider(self.divider) % self.control.spec_period() == 0
    }

    /// One hardware cycle. The divider always advances. When the counter is
    /// clocked it goes up by one, or from 255 back to the modulo, and only then
    /// is an overflow reported.
    pub open spec fn spec_cycle(self) -> Timer {
        if self.spec_ticks() {
            if self.counter == 255 {
                Timer {
                    divider: next_divider(self.divider),
                    counter: self.modulo,
                    overflowed: true,
                    ..self
                }
            } else {
                Timer {
                    divider: next_divider(self.divider),
                    counter: (self.counter + 1) as u8,
                    overflowed: false,
                    ..self
                }
            }
        } else {
            Timer { divider: next_divider(self.divider), overflowed: false, ..self }
        }
    }

    /// A write to the control register: the low three bits are kept, bit 2
    /// enables the counter.
    pub open spec fn spec_control(self, value: u8) -> Timer {
        Timer {
            control: TimerControl::spec_from_bits(value),
            enabled: value & 0x04 != 0,
            ..self
        }
    }

    /// The state after `n` hardware cycles.
    pub open spec fn spec_run(self, n: nat) -> Timer
        decreases n,
    {
        if n == 0 {
            self
        } else {
            self.spec_run((n - 1) as nat).spec_cycle()
        }
    }

    /// How many of the next `n` hardware cycles clock the counter.
    pub open spec fn spec_tick_count(self, n: nat) -> nat
        decreases n,
    {
        if n == 0 {
            0
        } else {
            self.spec_tick_count((n - 1) as nat) + if self.spec_run((n - 1) as nat).spec_ticks() {
                1nat
            } else {
                0nat
            }
        }
    }

    /// How many of the next `n` hardware cycles report an overflow.
    pub open spec fn spec_overflow_count(self, n: nat) -> nat
        decreases n,
    {
        if n == 0 {
            0
        } else {
            self.spec_overflow_count((n - 1) as nat) + if self.spec_run(n).overflowed {
                1nat
            } else {
                0nat
            }
        }
    }

    /// The state at power-on.
    pub fn new() -> (r: Timer)
        ensures
            r == Timer::power_on(),
    {
        Timer {
            divider: 0,
            modulo: 0,
            counter: 0,
            control: TimerControl(0),
            enabled: false,
            overflowed: false,
        }
    }

    /// Advances the timer by one hardware cycle.
    pub fn cycle(&mut self)
        ensures
            *final(self) == old(self).spec_cycle(),
    {
        let before = self.divider;
        let after = before.wrapping_add(1);
        let period = self.control.period();
        let mask: u16 = period / 2;
        proof {
            lemma_falling_edge(before, after, mask);
        }
        self.divider = after;
        self.overflowed = false;
        if self.enabled && (before & mask != 0) && (after & mask == 0) {
            if self.counter == 255 {
                self.overflowed = true;
                self.counter = self.modulo;
            } else {
                self.counter += 1;
            }
        }
    }

    /// Writes the control register.
    pub fn control(&mut self, value: u8)
        ensures
            *final(self) == old(self).spec_control(value),
    {
        self.control = TimerControl::from_bits_truncate(value);
        self.enabled = value & TimerControl::ENABLE != 0;
    }
}

impl Timer {
    /// The cycle, counted from zero, at which an enabled timer next clocks its
    /// counter.
    pub open spec fn spec_next_tick(&self) -> nat {
        let period = self.control.spec_period() as int;
        (period - 1 - self.divider % (period as u16)) as nat
    }

    /// The counter after it has been clocked once.
    pub open spec fn spec_bumped(&self) -> u8 {
        if self.counter == 255 {
            self.modulo
        } else {
            (self.counter + 1) as u8
        }
    }

    /// Where an enabled timer stands after `n` cycles, for `n` up to one
    /// period: the counter has been clocked once if the divider has passed a
    /// multiple of the period, and not at all if it has not.
    pub proof fn lemma_run_within_period(self, n: nat)
        requires
            self.enabled,
            n <= self.control.spec_period(),
        ensures
            self.spec_run(n).divider == (self.divider + n) % 65536,
            self.spec_run(n).enabled,
            self.spec_run(n).control == self.control,
            self.spec_run(n).modulo == self.modulo,
            self.spec_run(n).counter == if n > self.spec_next_tick() {
                self.spec_bumped()
            } else {
                self.counter
            },
            self.spec_run(n).overflowed == if n == 0 {
                self.overflowed
            } else {
                n == self.spec_next_tick() + 1 && self.counter == 255
            },
            self.spec_tick_count(n) == if n > self.spec_next_tick() {
                1nat
            } else {
                0nat
            },
            self.spec_overflow_count(n) == if n > self.spec_next_tick() && self.counter == 255 {
                1nat
            } else {
                0nat
            },
        decreases n,
    {
        if n > 0 {
            let m = (n - 1) as nat;
            self.lemma_run_within_period(m);
            let prev = self.spec_run(m);
            let period = self.control.spec_period();
            lemma_multiple_reached(self.divider as int, m as int, period as int);
            assert(prev.spec_ticks() <==> m == self.spec_next_tick());
        }
    }

    /// An enabled timer clocks its counter exactly once in every period of the
    /// selected rate. The counter then stands one higher, or, if it stood at
    /// 255, at the modulo, and an overflow is reported in exactly one cycle of
    /// the period in the second case and in none in the first.
    pub proof fn lemma_one_tick_per_period(self)
        requires
            self.enabled,
        ensures
            self.spec_tick_count(self.control.spec_period() as nat) == 1,
            self.spec_run(self.control.spec_period() as nat).counter == self.spec_bumped(),
            self.spec_overflow_count(self.control.spec_period() as nat) == if self.counter == 255 {
                1nat
            } else {
                0nat
            },
            self.spec_run(self.control.spec_period() as nat).divider == (self.divider
                + self.control.spec_period()) % 65536,
    {
        self.lemma_run_within_period(self.control.spec_period() as nat);
    }

    /// A timer that is not enabled keeps its counter and reports no overflow,
    /// while its divider goes on counting.
    pub proof fn lemma_disabled_holds(self, n: nat)
        requires
            !self.enabled,
        ensures
            self.spec_run(n).counter == self.counter,
            self.spec_run(n).divider == (self.divider + n) % 65536,
            !self.spec_run(n).enabled,
            self.spec_tick_count(n) == 0,
            self.spec_overflow_count(n) == 0,
        decreases n,
    {
        if n > 0 {
            self.lemma_disabled_holds((n - 1) as nat);
        }
    }
}

/// Counting up from `d`, modulo 65536, the step after the `m`th reaches a
/// multiple of the period `p` exactly when `m` is what `d` lacks to one.
pub proof fn lemma_multiple_reached(d: int, m: int, p: int)
    requires
        0 <= d < 65536,
        0 <= m < p,
        p == 4 || p == 16 || p == 64 || p == 256,
    ensures
        (((d + m) % 65536 + 1) % 65536) % p == 0 <==> m == p - 1 - d % p,
{
    let dv: u32 = d as u32;
    let mv: u32 = m as u32;
    let pv: u32 = p as u32;
    assert(dv < 65536 && mv < pv && (pv == 4 || pv == 16 || pv == 64 || pv == 256) ==> ((((dv + mv)
        % 65536 + 1) % 65536) % (pv as int) == 0 <==> mv + dv % pv + 1 == pv)) by (bit_vector);
}

/// A divider bit falls from one to zero, when the divider goes up by one,
/// exactly when the divider reaches a multiple of twice the bit's weight.
pub proof fn lemma_falling_edge(before: u16, after: u16, mask: u16)
    requires
        after == next_divider(before),
        mask == 2 || mask == 8 || mask == 32 || mask == 128,
    ensures
        (before & mask != 0 && after & mask == 0) <==> after % ((2 * mask) as u16) == 0,
{
    let wrapped: u16 = if before == 0xFFFF { 0 } else { (before + 1) as u16 };
    assert(wrapped == after);
    assert(wrapped == (if before == 0xFFFFu16 { 0u16 } else { (before + 1) as u16 }) && (mask == 2
        || mask == 8 || mask == 32 || mask == 128) ==> ((before & mask != 0 && wrapped & mask == 0)
        <==> wrapped % ((2 * mask) as u16) == 0)) by (bit_vector);
}

/// The block of input/output registers at the bottom of the register page.
#[derive(Clone, Copy, PartialEq, Eq, Structural, Debug)]
#[allow(clippy::upper_case_acronyms)]
pub struct IO {
    pub input: InputReg,
    /// The serial data byte.
    pub serial: u8,
    pub timer: Timer,
}

impl IO {
    /// The state at power-on.
    pub open spec fn power_on() -> IO {
        IO { input: InputReg::power_on(), serial: 0, timer: Timer::power_on() }
    }

    /// The window of the block on the bus.
    pub open spec fn spec_handles(address: u16) -> bool {
        0xFF00 <= address <= 0xFF07
    }

    /// The joypad, the serial data byte, the visible byte of the divider, the
    /// counter, the modulo and the control register; `0xFF` where the window
    /// holds no register.
    pub open spec fn spec_mem_read(&self, address: u16) -> u8 {
        if address == 0xFF00 {
            self.input.spec_read()
        } else if address == 0xFF01 {
            self.serial
        } else if address == 0xFF04 {
            ((self.timer.divider / 64) % 256) as u8
        } else if address == 0xFF05 {
            self.timer.counter
        } else if address == 0xFF06 {
            self.timer.modulo
        } else if address == 0xFF07 {
            self.timer.control.0
        } else {
            0xFF
        }
    }

    /// A write to the divider's address sets the divider to zero, whatever the
    /// value; a write where the window holds no register is dropped.
    pub open spec fn spec_mem_write(self, address: u16, value: u8) -> IO {
        if address == 0xFF00 {
            IO { input: self.input.spec_write(value), ..self }
        } else if address == 0xFF01 {
            IO { serial: value, ..self }
        } else if address == 0xFF04 {
            IO { timer: Timer { divider: 0, ..self.timer }, ..self }
        } else if address == 0xFF05 {
            IO { timer: Timer { counter: value, ..self.timer }, ..self }
        } else if address == 0xFF06 {
            IO { timer: Timer { modulo: value, ..self.timer }, ..self }
        } else if address == 0xFF07 {
            IO { timer: self.timer.spec_control(value), ..self }
        } else {
            self
        }
    }

    /// The state at power-on.
    pub fn new() -> (r: IO)
        ensures
            r == IO::power_on(),
    {
        IO { input: InputReg::new(), serial: 0, timer: Timer::new() }
    }
}

impl View for IO {
    type V = IO;

    open spec fn view(&self) -> IO {
        *self
    }
}

impl MemoryAccess for IO {
    open spec fn handles(address: u16) -> bool {
        IO::spec_handles(address)
    }

    open spec fn peek(state: Self::V, address: u16) -> u8 {
        state.spec_mem_read(address)
    }

    open spec fn poke(state: Self::V, address: u16, value: u8) -> Self::V {
        state.spec_mem_write(address, value)
    }

    fn get_range(&self) -> (ranges: Vec<RangeInclusive<u16>>) {
        let mut ranges: Vec<RangeInclusive<u16>> = Vec::new();
        ranges.push(RangeInclusive::new(0xFF00, 0xFF07));
        assert forall|address: u16| in_ranges(ranges@, address) <==> Self::handles(address) by {
            if 0xFF00 <= address <= 0xFF07 {
                assert(ranges@[0]@.start <= address <= ranges@[0]@.end);
            }
        }
        ranges
    }

    fn mem_read(&self, address: u16) -> (r: u8)
    {
        match address {
            0xFF00 => self.input.read(),
            0xFF01 => self.serial,
            0xFF04 => ((self.timer.divider / 64) % 256) as u8,
            0xFF05 => self.timer.counter,
            0xFF06 => self.timer.modulo,
            0xFF07 => self.timer.control.bits(),
            _ => 0xFF,
        }
    }

    fn mem_write(&mut self, address: u16, value: u8)
    {
        match address {
            0xFF00 => self.input.write(value),
            0xFF01 => self.serial = value,
            0xFF04 => self.timer.divider = 0,
            0xFF05 => self.timer.counter = value,
            0xFF06 => self.timer.modulo = value,
            0xFF07 => self.timer.control(value),
            _ => {},
        }
    }
}

} // verus!
