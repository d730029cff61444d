//! The audio processing unit: two square-wave channels, each with a duty
//! pattern, a period divider, a volume envelope and a length timer, and an
//! output stage that samples them into a buffer for the caller to drain.
//!
//! A sample is a level from 0 to 15, fifteen being full scale.
use vstd::prelude::*;
use core::ops::RangeInclusive;
use crate::cpu::readwrite::{in_ranges, MemoryAccess};

verus! {

/// The loudest level that a channel or the mixed output takes.
pub const FULL_SCALE: u8 = 15;

/// The length timer stops at this count.
pub const LENGTH_END: u8 = 64;

/// The period divider overflows when it has reached this count.
pub const PERIOD_END: u16 = 0x7FF;

/// The ticks of the system clock in a second.
pub const CLOCK_RATE: u32 = 4194304;

/// A square-wave channel.
#[derive(Clone, Copy, PartialEq, Eq, Structural, Debug)]
pub struct SquareChannel {
    // State variables
    pub on: bool,
    pub sweep: bool,
    pub period_div: u16,
    pub duty_cycle_pointer: u8,
    pub length_timer: u8,
    pub volume: u8,
    pub envelope_timer: u8,
    // Register variables
    pub duty_cycle_index: u8,
    pub initial_length_timer: u8,
    pub length_timer_enabled: bool,
    pub period_value: u16,
    pub initial_volume: u8,
    pub envelope_increase: bool,
    pub envelope_pace: u8,
}

/// The eight steps of the waveform that a duty index selects. An index past 3
/// selects silence.
pub open spec fn duty_waveform(duty: u8) -> Seq<u8> {
    if duty == 0 {
        seq![1u8, 1u8, 1u8, 1u8, 1u8, 1u8, 1u8, 0u8]
    } else if duty == 1 {
        seq![0u8, 1u8, 1u8, 1u8, 1u8, 1u8, 1u8, 0u8]
    } else if duty == 2 {
        seq![0u8, 1u8, 1u8, 1u8, 1u8, 0u8, 0u8, 0u8]
    } else if duty == 3 {
        seq![1u8, 0u8, 0u8, 0u8, 0u8, 0u8, 0u8, 1u8]
    } else {
        seq![0u8, 0u8, 0u8, 0u8, 0u8, 0u8, 0u8, 0u8]
    }
}

/// A flag as a bit.
pub open spec fn bit_value(b: bool) -> u8 {
    if b {
        1
    } else {
        0
    }
}

impl SquareChannel {
    /// The state at power-on.
    pub open spec fn power_on(sweep: bool) -> SquareChannel {
        SquareChannel {
            on: false,
            sweep,
            period_div: 0,
            duty_cycle_pointer: 0,
            length_timer: 64,
            volume: 0,
            envelope_timer: 1,
            duty_cycle_index: 0,
            initial_length_timer: 0,
            length_timer_enabled: false,
            period_value: 0,
            initial_volume: 0,
            envelope_increase: false,
            envelope_pace: 0,
        }
    }

    /// The channel's five registers as they read. Register 1 holds the duty
    /// index above the initial length, register 2 the initial volume, the
    /// direction of the envelope and its pace, register 3 the low byte of the
    /// period, register 4 its high bits and, in bit 6, the length enable.
    pub open spec fn spec_read_register(&self, reg_index: u16) -> u8 {
        if reg_index == 0 {
            0x00
        } else if reg_index == 1 {
            (self.duty_cycle_index << 6) | self.initial_length_timer
        } else if reg_index == 2 {
            (self.initial_volume << 4) | (bit_value(self.envelope_increase) << 3)
                | self.envelope_pace
        } else if reg_index == 3 {
            (self.period_value & 0xFF) as u8
        } else if reg_index == 4 {
            ((self.period_value >> 8) & 0xFF) as u8 | (bit_value(self.length_timer_enabled) << 6)
        } else {
            0xFF
        }
    }

    /// The channel after a write to one of its registers. Register 0 takes
    /// nothing; a write to register 3 or 4 keeps the other part of the period.
    pub open spec fn spec_write_register(self, reg_index: u16, value: u8) -> SquareChannel {
        if reg_index == 1 {
            SquareChannel {
                duty_cycle_index: value >> 6,
                initial_length_timer: value & 0x3F,
                ..self
            }
        } else if reg_index == 2 {
            SquareChannel {
                initial_volume: value >> 4,
                envelope_increase: value & 0x08 != 0,
                envelope_pace: value & 0x07,
                ..self
            }
        } else if reg_index == 3 {
            SquareChannel { period_value: (self.period_value & 0xFF00) | (value as u16), ..self }
        } else if reg_index == 4 {
            SquareChannel {
                length_timer_enabled: value & 0x40 != 0,
                period_value: (self.period_value & 0xFF) | (((value & 0x07) as u16) << 8),
                ..self
            }
        } else {
            self
        }
    }

    /// A tick of the length timer: it counts up to 64, and at 64 it switches
    /// the channel off if the length is enabled.
    pub open spec fn spec_update_length_timer(self) -> SquareChannel {
        if self.length_timer >= LENGTH_END {
            if self.length_timer_enabled {
                SquareChannel { on: false, ..self }
            } else {
                self
            }
        } else {
            SquareChannel { length_timer: (self.length_timer + 1) as u8, ..self }
        }
    }

    /// A tick of the envelope. A pace of zero switches the envelope off.
    /// Otherwise every `pace` ticks the volume moves one level in the
    /// envelope's direction, within 0 and 15.
    pub open spec fn spec_update_envelope(self) -> SquareChannel {
        if self.envelope_pace == 0 {
            self
        } else if self.envelope_timer < self.envelope_pace {
            SquareChannel { envelope_timer: (self.envelope_timer + 1) as u8, ..self }
        } else if self.envelope_increase {
            SquareChannel {
                envelope_timer: 1,
                volume: if self.volume < FULL_SCALE {
                    (self.volume + 1) as u8
                } else {
                    self.volume
                },
                ..self
            }
        } else {
            SquareChannel {
                envelope_timer: 1,
                volume: if self.volume > 0 {
                    (self.volume - 1) as u8
                } else {
                    self.volume
                },
                ..self
            }
        }
    }

    /// A tick of the period divider: it counts up to `0x7FF`; from there it
    /// restarts at the period value and the duty pointer moves one step on,
    /// from step 7 back to step 0.
    pub open spec fn spec_update_period(self) -> SquareChannel {
        if self.period_div >= PERIOD_END {
            SquareChannel {
                duty_cycle_pointer: if self.duty_cycle_pointer >= 7 {
                    0
                } else {
                    (self.duty_cycle_pointer + 1) as u8
                },
                period_div: self.period_value,
                ..self
            }
        } else {
            SquareChannel { period_div: (self.period_div + 1) as u16, ..self }
        }
    }

    /// The channel is switched on: divider, volume and envelope timer restart,
    /// and a length timer that has run out is loaded again.
    pub open spec fn spec_trigger(self) -> SquareChannel {
        SquareChannel {
            on: true,
            period_div: self.period_value,
            volume: self.initial_volume,
            envelope_timer: 1,
            length_timer: if self.length_timer == LENGTH_END {
                self.initial_length_timer
            } else {
                self.length_timer
            },
            ..self
        }
    }

    /// Step `index` of the channel's waveform, 0 or 1; 0 past step 7.
    pub open spec fn spec_get_duty_cycle_val(&self, index: u8) -> u8 {
        if index < 8 {
            duty_waveform(self.duty_cycle_index)[index as int]
        } else {
            0
        }
    }

    /// The channel's level: its volume while the waveform is high and the
    /// channel is on, and zero otherwise.
    pub open spec fn spec_get_sample(&self) -> u8 {
        if self.on && self.spec_get_duty_cycle_val(self.duty_cycle_pointer) == 1 {
            self.volume
        } else {
            0
        }
    }

    /// The state at power-on.
    pub fn new(sweep: bool) -> (r: SquareChannel)
        ensures
            r == SquareChannel::power_on(sweep),
    {
        SquareChannel {
            on: false,
            sweep,
            period_div: 0,
            duty_cycle_pointer: 0,
            length_timer: 64,
            volume: 0,
            envelope_timer: 1,
            duty_cycle_index: 0,
            initial_length_timer: 0,
            length_timer_enabled: false,
            period_value: 0,
            initial_volume: 0,
            envelope_increase: false,
            envelope_pace: 0,
        }
    }

    /// The channel's five registers as they read. Register 1 holds the duty
    /// index above the initial length, register 2 the initial volume, the
    /// direction of the envelope and its pace, register 3 the low byte of the
    /// period, register 4 its high bits and, in bit 6, the length enable.
    #[verifier::when_used_as_spec(spec_read_register)]
    pub fn read_register(&self, reg_index: u16) -> (r: u8)
        ensures
            r == self.spec_read_register(reg_index),
    {
        let increase: u8 = if self.envelope_increase { 1 } else { 0 };
        let enabled: u8 = if self.length_timer_enabled { 1 } else { 0 };
        match reg_index {
            0 => 0x00,
            1 => (self.duty_cycle_index << 6) | self.initial_length_timer,
            2 => (self.initial_volume << 4) | (increase << 3) | self.envelope_pace,
            3 => (self.period_value & 0xFF) as u8,
            4 => ((self.period_value >> 8) & 0xFF) as u8 | (enabled << 6),
            _ => 0xFF,
        }
    }

    /// Writes one of the channel's five registers.
    pub fn write_register(&mut self, reg_index: u16, value: u8)
        ensures
            *final(self) == old(self).spec_write_register(reg_index, value),
    {
        match reg_index {
            1 => {
                self.duty_cycle_index = value >> 6;
                self.initial_length_timer = value & 0b11_1111;
            },
            2 => {
                self.initial_volume = value >> 4;
                self.envelope_increase = value & 0b1000 != 0;
                self.envelope_pace = value & 0b0111;
            },
            3 => self.period_value = (self.period_value & 0xFF00) | (value as u16),
            4 => {
                self.length_timer_enabled = value & 0b0100_0000 != 0;
                self.period_value = (self.period_value & 0xFF) | (((value & 0b111) as u16) << 8);
            },
            _ => {},
        }
    }

    /// A tick of the length timer: it counts up to 64, and at 64 it switches
    /// the channel off if the length is enabled.
    pub fn update_length_timer(&mut self)
        ensures
            *final(self) == old(self).spec_update_length_timer(),
    {
        if self.length_timer >= LENGTH_END {
            if self.length_timer_enabled {
                self.on = false;
            }
        } else {
            self.length_timer += 1;
        }
    }

    /// A tick of the envelope. A pace of zero switches the envelope off.
    /// Otherwise every `pace` ticks the volume moves one level in the
    /// envelope's direction, within 0 and 15.
    pub fn update_envelope(&mut self)
        ensures
            *final(self) == old(self).spec_update_envelope(),
    {
        // Pace of 0 disables the envelope
        if self.envelope_pace == 0 {
            return ;
        }
        if self.envelope_timer < self.envelope_pace {
            self.envelope_timer += 1;
        } else {
            self.envelope_timer = 1;
            if self.envelope_increase {
                if self.volume < FULL_SCALE {
                    self.volume += 1;
                }
            } else if self.volume > 0 {
                self.volume -= 1;
            }
        }
    }

    /// A tick of the period divider: it counts up to `0x7FF`; from there it
    /// restarts at the period value and the duty pointer moves one step on,
    /// from step 7 back to step 0.
    pub fn update_period(&mut self)
        ensures
            *final(self) == old(self).spec_update_period(),
    {
        if self.period_div >= PERIOD_END {
            if self.duty_cycle_pointer >= 7 {
                self.duty_cycle_pointer = 0;
            } else {
                self.duty_cycle_pointer += 1;
            }
            self.period_div = self.period_value;
        } else {
            self.period_div += 1;
        }
    }

    /// The channel is switched on: divider, volume and envelope timer restart,
    /// and a length timer that has run out is loaded again.
    pub fn trigger(&mut self)
        ensures
            *final(self) == old(self).spec_trigger(),
    {
        self.on = true;
        self.period_div = self.period_value;
        self.volume = self.initial_volume;
        self.envelope_timer = 1;
        if self.length_timer == LENGTH_END {
            self.length_timer = self.initial_length_timer;
        }
    }

    /// The channel's level: its volume while the waveform is high and the
    /// channel is on, and zero otherwise.
    #[verifier::when_used_as_spec(spec_get_sample)]
    pub fn get_sample(&self) -> (r: u8)
        ensures
            r == self.spec_get_sample(),
    {
        if self.on && self.get_duty_cycle_val(self.duty_cycle_pointer) == 1 {
            self.volume
        } else {
            0
        }
    }

    /// Step `index` of the channel's waveform, 0 or 1; 0 past step 7.
    #[verifier::when_used_as_spec(spec_get_duty_cycle_val)]
    pub fn get_duty_cycle_val(&self, index: u8) -> (r: u8)
        ensures
            r == self.spec_get_duty_cycle_val(index),
            r <= 1,
    {
        let duty_cycle: [u8; 8] = match self.duty_cycle_index {
            // 12.5 %
            0 => [1, 1, 1, 1, 1, 1, 1, 0],
            // 25 %
            1 => [0, 1, 1, 1, 1, 1, 1, 0],
            // 50 %
            2 => [0, 1, 1, 1, 1, 0, 0, 0],
            // 75 %
            3 => [1, 0, 0, 0, 0, 0, 0, 1],
            _ => [0, 0, 0, 0, 0, 0, 0, 0],
        };
        if index < 8 {
            duty_cycle[index as usize]
        } else {
            0
        }
    }

    /// The waveform of duty index 2 is high for four of its eight steps: the
    /// steps are 0, 1, 1, 1, 1, 0, 0, 0.
    pub proof fn lemma_half_duty(self)
        requires
            self.duty_cycle_index == 2,
        ensures
            duty_waveform(2) == seq![0u8, 1u8, 1u8, 1u8, 1u8, 0u8, 0u8, 0u8],
            forall|i: u8| 1 <= i <= 4 ==> self.spec_get_duty_cycle_val(i) == 1,
            forall|i: u8| i == 0 || 5 <= i ==> self.spec_get_duty_cycle_val(i) == 0,
    {
    }

    /// On a channel that is off no sample is audible, and no sample of any
    /// channel is louder than its volume.
    pub proof fn lemma_sample_bounds(self)
        ensures
            self.spec_get_sample() <= self.volume,
            !self.on ==> self.spec_get_sample() == 0,
    {
    }
}

/// Audio processing unit
#[allow(clippy::upper_case_acronyms)]
pub struct APU {
    pub on: bool,
    /// The samples taken since the buffer was last drained.
    pub buffer: Vec<u8>,
    pub sample_delay_counter: u32,
    /// The cycles that pass between two samples.
    pub sample_delay: u32,
    pub period_delay_counter: u8,
    pub div_apu: u8,
    pub last_div_bit: bool,
    pub square_channel_1: SquareChannel,
    pub square_channel_2: SquareChannel,
}

/// An `APU` as the contracts see it.
pub struct APUState {
    pub on: bool,
    pub buffer: Seq<u8>,
    pub sample_delay_counter: u32,
    pub sample_delay: u32,
    pub period_delay_counter: u8,
    pub div_apu: u8,
    pub last_div_bit: bool,
    pub square_channel_1: SquareChannel,
    pub square_channel_2: SquareChannel,
}

impl View for APU {
    type V = APUState;

    open spec fn view(&self) -> APUState {
        APUState {
            on: self.on,
            buffer: self.buffer@,
            sample_delay_counter: self.sample_delay_counter,
            sample_delay: self.sample_delay,
            period_delay_counter: self.period_delay_counter,
            div_apu: self.div_apu,
            last_div_bit: self.last_div_bit,
            square_channel_1: self.square_channel_1,
            square_channel_2: self.square_channel_2,
        }
    }
}

/// The two channels' levels added up and held at full scale.
pub open spec fn spec_mix(first: u8, second: u8) -> u8 {
    if first + second > FULL_SCALE {
        FULL_SCALE
    } else {
        (first + second) as u8
    }
}

/// Mixes the levels of the two channels.
#[verifier::when_used_as_spec(spec_mix)]
pub fn mix(first: u8, second: u8) -> (r: u8)
    ensures
        r == spec_mix(first, second),
        r <= FULL_SCALE,
{
    let sum: u16 = (first as u16) + (second as u16);
    if sum > FULL_SCALE as u16 {
        FULL_SCALE
    } else {
        sum as u8
    }
}

impl APUState {
    /// The state at power-on.
    pub open spec fn power_on(sample_rate: u32) -> APUState {
        APUState {
            on: true,
            buffer: Seq::empty(),
            sample_delay: CLOCK_RATE / sample_rate,
            sample_delay_counter: 0,
            period_delay_counter: 0,
            div_apu: 0,
            last_div_bit: false,
            square_channel_1: SquareChannel::power_on(true),
            square_channel_2: SquareChannel::power_on(false),
        }
    }

    /// The window of the audio registers on the bus.
    pub open spec fn handles(address: u16) -> bool {
        0xFF10 <= address <= 0xFF3F
    }

    /// The frame sequencer. Bit 12 of the timer's divider clocks it on its
    /// way from one to zero. Every second step ticks the length timers, every
    /// eighth the envelopes.
    pub open spec fn sequence(self, timer_div: u16) -> APUState {
        let div_bit = timer_div & 0x1000 != 0;
        if self.last_div_bit && !div_bit {
            let step = ((self.div_apu + 1) % 256) as u8;
            let first = if step % 2 == 0 {
                self.square_channel_1.spec_update_length_timer()
            } else {
                self.square_channel_1
            };
            let second = if step % 2 == 0 {
                self.square_channel_2.spec_update_length_timer()
            } else {
                self.square_channel_2
            };
            APUState {
                div_apu: step,
                last_div_bit: div_bit,
                square_channel_1: if step % 8 == 0 {
                    first.spec_update_envelope()
                } else {
                    first
                },
                square_channel_2: if step % 8 == 0 {
                    second.spec_update_envelope()
                } else {
                    second
                },
                ..self
            }
        } else {
            APUState { last_div_bit: div_bit, ..self }
        }
    }

    /// Every fourth cycle ticks the period dividers of both channels.
    pub open spec fn divide(self) -> APUState {
        if self.period_delay_counter >= 3 {
            APUState {
                period_delay_counter: 0,
                square_channel_1: self.square_channel_1.spec_update_period(),
                square_channel_2: self.square_channel_2.spec_update_period(),
                ..self
            }
        } else {
            APUState { period_delay_counter: (self.period_delay_counter + 1) as u8, ..self }
        }
    }

    /// The level that the output stage takes now: silence while the unit is
    /// off, the mix of the two channels otherwise.
    pub open spec fn level(self) -> u8 {
        if self.on {
            spec_mix(self.square_channel_1.spec_get_sample(), self.square_channel_2.spec_get_sample())
        } else {
            0
        }
    }

    /// The output stage: once the delay between two samples has passed, the
    /// level is appended to the buffer and the delay starts again.
    pub open spec fn sample(self) -> APUState {
        if self.sample_delay_counter < self.sample_delay {
            APUState { sample_delay_counter: (self.sample_delay_counter + 1) as u32, ..self }
        } else {
            APUState { sample_delay_counter: 0, buffer: self.buffer.push(self.level()), ..self }
        }
    }

    /// One cycle: the frame sequencer, the period dividers, the output stage.
    pub open spec fn spec_cycle(self, timer_div: u16) -> APUState {
        self.sequence(timer_div).divide().sample()
    }

    /// The unit with its buffer drained.
    pub open spec fn drained(self) -> APUState {
        APUState { buffer: Seq::empty(), ..self }
    }

    /// The status register: bit 7 says whether the unit is on, bits 1 and 0
    /// whether the second and the first channel are.
    pub open spec fn status(self) -> u8 {
        (128 * bit_value(self.on) + 2 * bit_value(self.square_channel_2.on) + bit_value(
            self.square_channel_1.on,
        )) as u8
    }

    /// What the audio registers read: the two channels' registers and the
    /// status register; `0xFF` elsewhere in the window.
    pub open spec fn mem_read(self, address: u16) -> u8 {
        if 0xFF10 <= address <= 0xFF14 {
            self.square_channel_1.spec_read_register((address - 0xFF10) as u16)
        } else if 0xFF16 <= address <= 0xFF19 {
            self.square_channel_2.spec_read_register((address - 0xFF15) as u16)
        } else if address == 0xFF26 {
            self.status()
        } else {
            0xFF
        }
    }

    /// A write to a channel's last register with bit 7 set triggers the
    /// channel, after the register has taken the value.
    pub open spec fn mem_write(self, address: u16, value: u8) -> APUState {
        if 0xFF10 <= address <= 0xFF14 {
            let written = self.square_channel_1.spec_write_register(
                (address - 0xFF10) as u16,
                value,
            );
            APUState {
                square_channel_1: if address == 0xFF14 && value & 0x80 != 0 {
                    written.spec_trigger()
                } else {
                    written
                },
                ..self
            }
        } else if 0xFF16 <= address <= 0xFF19 {
            let written = self.square_channel_2.spec_write_register(
                (address - 0xFF15) as u16,
                value,
            );
            APUState {
                square_channel_2: if address == 0xFF19 && value & 0x80 != 0 {
                    written.spec_trigger()
                } else {
                    written
                },
                ..self
            }
        } else if address == 0xFF26 {
            APUState { on: value & 0x80 != 0, ..self }
        } else {
            self
        }
    }

    /// Every sample that a cycle appends is a level within full scale, and a
    /// cycle appends at most one.
    pub proof fn lemma_cycle_appends(self, timer_div: u16)
        ensures
            self.spec_cycle(timer_div).buffer == self.buffer || (exists|level: u8|
                level <= FULL_SCALE && #[trigger] self.buffer.push(level) == self.spec_cycle(
                    timer_div,
                ).buffer),
            self.level() <= FULL_SCALE,
    {
        let before = self.sequence(timer_div).divide();
        if before.sample_delay_counter >= before.sample_delay {
            assert(before.level() <= FULL_SCALE);
            assert(self.buffer.push(before.level()) == self.spec_cycle(timer_div).buffer);
        }
    }
}

impl APU {
    /// An APU that takes `sample_rate` samples in a second of emulated time.
    pub fn new(sample_rate: u32) -> (r: APU)
        requires
            sample_rate > 0,
        ensures
            r@ == APUState::power_on(sample_rate),
    {
        APU {
            on: true,
            buffer: Vec::new(),
            sample_delay: CLOCK_RATE / sample_rate,
            sample_delay_counter: 0,
            period_delay_counter: 0,
            div_apu: 0,
            last_div_bit: false,
            square_channel_1: SquareChannel::new(true),
            square_channel_2: SquareChannel::new(false),
        }
    }

    /// Advances the unit by one cycle. `timer_div` is the timer's divider.
    pub fn cycle(&mut self, timer_div: u16)
        ensures
            final(self)@ == old(self)@.spec_cycle(timer_div),
    {
        // Increment DIV-APU when divider bit 12 goes from 1 to 0
        let div_bit = timer_div & 0b1_0000_0000_0000 != 0;
        if self.last_div_bit && !div_bit {
            self.div_apu = self.div_apu.wrapping_add(1);
            // Update length timers every 2 ticks
            if self.div_apu % 2 == 0 {
                self.square_channel_1.update_length_timer();
                self.square_channel_2.update_length_timer();
            }
            // Update envelopes every 8 ticks

            if self.div_apu % 8 == 0 {
                self.square_channel_1.update_envelope();
                self.square_channel_2.update_envelope();
            }
        }
        self.last_div_bit = div_bit;
        assert(self@ == old(self)@.sequence(timer_div));

        // Increment period dividers every 4 cycles
        if self.period_delay_counter >= 3 {
            self.period_delay_counter = 0;
            self.square_channel_1.update_period();
            self.square_channel_2.update_period();
        } else {
            self.period_delay_counter += 1;
        }
        assert(self@ == old(self)@.sequence(timer_div).divide());

        // Only calculate next sample when needed
        if self.sample_delay_counter < self.sample_delay {
            self.sample_delay_counter += 1;
            return ;
        }
        self.sample_delay_counter = 0;

        // If APU is turned off, just push silence to the buffer
        if !self.on {
            self.buffer.push(0);
            return ;
        }
        let ch1 = self.square_channel_1.get_sample();
        let ch2 = self.square_channel_2.get_sample();
        self.buffer.push(mix(ch1, ch2));
    }

    /// Called from outside:
    /// returns audio buffer for playback, and empties it
    pub fn receive_buffer(&mut self) -> (buf: Vec<u8>)
        ensures
            buf@ == old(self)@.buffer,
            final(self)@ == old(self)@.drained(),
    {
        let mut buf: Vec<u8> = Vec::new();
        core::mem::swap(&mut self.buffer, &mut buf);
        buf
    }
}

impl MemoryAccess for APU {
    open spec fn handles(address: u16) -> bool {
        APUState::handles(address)
    }

    open spec fn peek(state: Self::V, address: u16) -> u8 {
        state.mem_read(address)
    }

    open spec fn poke(state: Self::V, address: u16, value: u8) -> Self::V {
        state.mem_write(address, value)
    }

    fn get_range(&self) -> (ranges: Vec<RangeInclusive<u16>>) {
        let mut ranges: Vec<RangeInclusive<u16>> = Vec::new();
        ranges.push(RangeInclusive::new(0xFF10, 0xFF3F));
        assert forall|address: u16| in_ranges(ranges@, address) <==> Self::handles(address) by {
            if 0xFF10 <= address <= 0xFF3F {
                assert(ranges@[0]@.start <= address <= ranges@[0]@.end);
            }
        }
        ranges
    }

    fn mem_read(&self, address: u16) -> (r: u8)
    {
        match address {
            0xFF10..=0xFF14 => self.square_channel_1.read_register(address - 0xFF10),
            0xFF16..=0xFF19 => self.square_channel_2.read_register(address - 0xFF15),
            0xFF26 => {
                let on: u8 = if self.on { 128 } else { 0 };
                let second: u8 = if self.square_channel_2.on { 2 } else { 0 };
                let first: u8 = if self.square_channel_1.on { 1 } else { 0 };
                on + second + first
            },
            _ => 0xFF,
        }
    }

    fn mem_write(&mut self, address: u16, value: u8)
    {
        match address {
            0xFF10..=0xFF14 => {
                self.square_channel_1.write_register(address - 0xFF10, value);
                if address == 0xFF14 && (value & 0b1000_0000 != 0) {
                    self.square_channel_1.trigger();
                }
            },
            0xFF16..=0xFF19 => {
                self.square_channel_2.write_register(address - 0xFF15, value);
                if address == 0xFF19 && (value & 0b1000_0000 != 0) {
                    self.square_channel_2.trigger();
                }
            },
            0xFF26 => {
                self.on = value & 0b1000_0000 != 0;
            },
            _ => {},
        }
    }
}

} // verus!
