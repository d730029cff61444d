//! The interrupt controller: five request lines, an enable mask, the master
//! enable and the rule that picks the line to serve.
use vstd::prelude::*;
use core::ops::RangeInclusive;
use crate::cpu::readwrite::{in_ranges, MemoryAccess};
use crate::cpu::input::InputFlag;
use crate::cpu::io::IO;
use crate::cpu::{CPUState, CPU};

verus! {

/// A set of interrupt lines, one bit per line. Bit 0 is vertical blank, bit 1
/// the display status, bit 2 the timer, bit 3 the serial port, bit 4 the
/// joypad.
#[derive(Clone, Copy, PartialEq, Eq, Structural, Debug)]
pub struct InterruptFlag(pub u8);

/// One interrupt line. The order of the variants is the order of priority,
/// highest first.
#[derive(Clone, Copy, PartialEq, Eq, Structural, Debug)]
pub enum Interrupt {
    VBlank,
    Lcd,
    Timer,
    Serial,
    Joypad,
}

impl Interrupt {
    /// The bit that stands for this line in the two interrupt registers.
    pub open spec fn spec_mask(&self) -> u8 {
        match self {
            Interrupt::VBlank => 0x01,
            Interrupt::Lcd => 0x02,
            Interrupt::Timer => 0x04,
            Interrupt::Serial => 0x08,
            Interrupt::Joypad => 0x10,
        }
    }

    /// The address of this line's handler.
    pub open spec fn spec_vector(&self) -> u16 {
        match self {
            Interrupt::VBlank => 0x40,
            Interrupt::Lcd => 0x48,
            Interrupt::Timer => 0x50,
            Interrupt::Serial => 0x58,
            Interrupt::Joypad => 0x60,
        }
    }

    /// The place of this line in the order of priority: 0 is served first.
    pub open spec fn rank(&self) -> int {
        match self {
            Interrupt::VBlank => 0,
            Interrupt::Lcd => 1,
            Interrupt::Timer => 2,
            Interrupt::Serial => 3,
            Interrupt::Joypad => 4,
        }
    }

    /// The bit that stands for this line in the two interrupt registers.
    #[verifier::when_used_as_spec(spec_mask)]
    pub fn mask(&self) -> (r: u8)
        ensures
            r == self.spec_mask(),
    {
        match self {
            Interrupt::VBlank => InterruptFlag::VBLANK,
            Interrupt::Lcd => InterruptFlag::LCD,
            Interrupt::Timer => InterruptFlag::TIMER,
            Interrupt::Serial => InterruptFlag::SERIAL,
            Interrupt::Joypad => InterruptFlag::JOYPAD,
        }
    }

    /// The address of this line's handler.
    #[verifier::when_used_as_spec(spec_vector)]
    pub fn vector(&self) -> (r: u16)
        ensures
            r == self.spec_vector(),
            r == 0x40 + 8 * self.rank(),
    {
        match self {
            Interrupt::VBlank => 0x40,
            Interrupt::Lcd => 0x48,
            Interrupt::Timer => 0x50,
            Interrupt::Serial => 0x58,
            Interrupt::Joypad => 0x60,
        }
    }
}

impl InterruptFlag {
    pub const JOYPAD: u8 = 0b0001_0000;

    pub const SERIAL: u8 = 0b0000_1000;

    pub const TIMER: u8 = 0b0000_0100;

    pub const LCD: u8 = 0b0000_0010;

    pub const VBLANK: u8 = 0b0000_0001;

    /// The bits that stand for a line.
    pub const ALL: u8 = 0b0001_1111;

    /// The set that the low five bits of `bits` stand for.
    pub open spec fn spec_from_bits(bits: u8) -> InterruptFlag {
        InterruptFlag(bits & 0x1F)
    }

    /// The set as a byte.
    pub open spec fn spec_bits(&self) -> u8 {
        self.0
    }

    /// Whether the set holds a line of `mask`.
    pub open spec fn spec_intersects(&self, mask: u8) -> bool {
        self.0 & mask != 0
    }

    /// The set with the lines of `mask` added.
    pub open spec fn spec_insert(self, mask: u8) -> InterruptFlag {
        InterruptFlag(self.0 | mask)
    }

    /// The set without the lines of `mask`.
    pub open spec fn spec_remove(self, mask: u8) -> InterruptFlag {
        InterruptFlag(self.0 & !mask)
    }

    /// The highest line in the order of priority whose bit is set in `bits`.
    pub open spec fn spec_highest(bits: u8) -> Option<Interrupt> {
        if bits & 0x01 != 0 {
            Some(Interrupt::VBlank)
        } else if bits & 0x02 != 0 {
            Some(Interrupt::Lcd)
        } else if bits & 0x04 != 0 {
            Some(Interrupt::Timer)
        } else if bits & 0x08 != 0 {
            Some(Interrupt::Serial)
        } else if bits & 0x10 != 0 {
            Some(Interrupt::Joypad)
        } else {
            None
        }
    }

    /// The set with no line in it.
    pub fn empty() -> (r: InterruptFlag)
        ensures
            r.0 == 0,
    {
        InterruptFlag(0)
    }

    /// Keeps the five bits that stand for a line and drops the rest.
    #[verifier::when_used_as_spec(spec_from_bits)]
    pub fn from_bits_truncate(bits: u8) -> (r: InterruptFlag)
        ensures
            r == InterruptFlag::spec_from_bits(bits),
    {
        InterruptFlag(bits & InterruptFlag::ALL)
    }

    /// The register as a byte.
    #[verifier::when_used_as_spec(spec_bits)]
    pub fn bits(&self) -> (r: u8)
        ensures
            r == self.0,
    {
        self.0
    }

    /// Whether a bit of `mask` is set.
    #[verifier::when_used_as_spec(spec_intersects)]
    pub fn intersects(&self, mask: u8) -> (r: bool)
        ensures
            r == self.spec_intersects(mask),
    {
        self.0 & mask != 0
    }

    /// Adds the lines of `mask`.
    pub fn insert(&mut self, mask: u8)
        ensures
            *final(self) == old(self).spec_insert(mask),
    {
        self.0 = self.0 | mask;
    }

    /// Takes the lines of `mask` out.
    pub fn remove(&mut self, mask: u8)
        ensures
            *final(self) == old(self).spec_remove(mask),
    {
        self.0 = self.0 & !mask;
    }

    /// The line to serve first among those set, if any is.
    pub fn highest(&self) -> (r: Option<Interrupt>)
        ensures
            r == InterruptFlag::spec_highest(self.0),
    {
        if self.intersects(InterruptFlag::VBLANK) {
            Some(Interrupt::VBlank)
        } else if self.intersects(InterruptFlag::LCD) {
            Some(Interrupt::Lcd)
        } else if self.intersects(InterruptFlag::TIMER) {
            Some(Interrupt::Timer)
        } else if self.intersects(InterruptFlag::SERIAL) {
            Some(Interrupt::Serial)
        } else if self.intersects(InterruptFlag::JOYPAD) {
            Some(Interrupt::Joypad)
        } else {
            None
        }
    }

    /// A line is picked exactly when one of the five bits is set, the picked
    /// line is set, and no line of higher priority is.
    pub proof fn lemma_highest_is_first(bits: u8)
        ensures
            InterruptFlag::spec_highest(bits) is None <==> bits & 0x1F == 0,
            InterruptFlag::spec_highest(bits) matches Some(line) ==> bits & line.spec_mask() != 0,
            forall|other: Interrupt|
                InterruptFlag::spec_highest(bits) matches Some(line) && other.rank() < line.rank()
                    ==> bits & #[trigger] other.spec_mask() == 0,
    {
        assert(bits & 0x1F == 0 <==> (bits & 0x01 == 0 && bits & 0x02 == 0 && bits & 0x04 == 0
            && bits & 0x08 == 0 && bits & 0x10 == 0)) by (bit_vector);
    }

    /// Setting and clearing one line leaves the other lines as they were.
    pub proof fn lemma_lines_independent(bits: u8, line: Interrupt, other: Interrupt)
        requires
            line != other,
        ensures
            (bits | line.spec_mask()) & line.spec_mask() != 0,
            (bits & !line.spec_mask()) & line.spec_mask() == 0,
            (bits | line.spec_mask()) & other.spec_mask() == bits & other.spec_mask(),
            (bits & !line.spec_mask()) & other.spec_mask() == bits & other.spec_mask(),
    {
        let m = line.spec_mask();
        let o = other.spec_mask();
        assert((m == 1 || m == 2 || m == 4 || m == 8 || m == 16) && (o == 1 || o == 2 || o == 4
            || o == 8 || o == 16) && m != o ==> (bits | m) & m != 0 && (bits & !m) & m == 0 && (bits
            | m) & o == bits & o && (bits & !m) & o == bits & o) by (bit_vector);
    }
}

/// The interrupt controller's registers.
#[derive(Clone, Copy, PartialEq, Eq, Structural, Debug)]
pub struct InterruptState {
    /// Master interrupt enable.
    pub ime: bool,
    /// The lines that may interrupt.
    pub ie: InterruptFlag,
    /// The lines that ask for service.
    pub iflag: InterruptFlag,
    /// Set while the engine is on its way into a handler.
    pub executing: bool,
}

impl InterruptState {
    /// The state at power-on.
    pub open spec fn power_on() -> InterruptState {
        InterruptState {
            ime: false,
            ie: InterruptFlag(0),
            iflag: InterruptFlag(0),
            executing: false,
        }
    }

    /// The addresses of the request register and of the enable register.
    pub open spec fn spec_handles(address: u16) -> bool {
        address == 0xFF0F || address == 0xFFFF
    }

    /// The lines that are both enabled and requested.
    pub open spec fn spec_pending(&self) -> u8 {
        self.ie.0 & self.iflag.0 & 0x1F
    }

    /// The request register at `0xFF0F`, the enable register at `0xFFFF`.
    pub open spec fn spec_mem_read(&self, address: u16) -> u8 {
        if address == 0xFF0F {
            self.iflag.0
        } else if address == 0xFFFF {
            self.ie.0
        } else {
            0xFF
        }
    }

    /// A write keeps the five bits that stand for a line.
    pub open spec fn spec_mem_write(self, address: u16, value: u8) -> InterruptState {
        if address == 0xFF0F {
            InterruptState { iflag: InterruptFlag::spec_from_bits(value), ..self }
        } else if address == 0xFFFF {
            InterruptState { ie: InterruptFlag::spec_from_bits(value), ..self }
        } else {
            self
        }
    }

    /// A request sets bits of the request register and does nothing else.
    /// Only the five bits that stand for a line are taken from `lines`.
    pub open spec fn spec_request(self, lines: InterruptFlag) -> InterruptState {
        InterruptState { iflag: self.iflag.spec_insert(lines.0 & 0x1F), ..self }
    }

    /// Taking a line: its request is cleared, the master enable is cleared and
    /// the engine is on its way into the handler.
    pub open spec fn spec_acknowledge(self, line: Interrupt) -> InterruptState {
        InterruptState {
            iflag: self.iflag.spec_remove(line.spec_mask()),
            ime: false,
            executing: true,
            ..self
        }
    }

    /// The state at power-on.
    pub fn new() -> (r: InterruptState)
        ensures
            r == InterruptState::power_on(),
    {
        InterruptState {
            ime: false,
            iflag: InterruptFlag::empty(),
            ie: InterruptFlag::empty(),
            executing: false,
        }
    }

    /// The lines that are both enabled and requested.
    #[verifier::when_used_as_spec(spec_pending)]
    pub fn pending(&self) -> (r: u8)
        ensures
            r == self.spec_pending(),
    {
        self.ie.0 & self.iflag.0 & InterruptFlag::ALL
    }


    /// Requests the lines of `lines`. A bit of `lines` that stands for no
    /// line is passed over.
    pub fn request(&mut self, lines: InterruptFlag)
        ensures
            *final(self) == old(self).spec_request(lines),
    {
        self.iflag.insert(lines.0 & InterruptFlag::ALL);
    }

    /// Takes the request of `line` on the way into its handler.
    pub fn acknowledge(&mut self, line: Interrupt)
        ensures
            *final(self) == old(self).spec_acknowledge(line),
    {
        self.iflag.remove(line.mask());
        self.ime = false;
        self.executing = true;
    }

    /// A request never enables a line, never touches the master enable and
    /// never clears a request that was there; and it sets no bit of the
    /// request register that stands for no line.
    pub proof fn lemma_request_only_sets(self, lines: InterruptFlag, line: Interrupt)
        ensures
            self.iflag.0 & 0xE0 == 0 ==> self.spec_request(lines).iflag.0 & 0xE0 == 0,
            self.spec_request(lines).ie == self.ie,
            self.spec_request(lines).ime == self.ime,
            self.iflag.spec_intersects(line.spec_mask()) ==> self.spec_request(
                lines,
            ).iflag.spec_intersects(line.spec_mask()),
            lines.spec_intersects(line.spec_mask()) ==> self.spec_request(
                lines,
            ).iflag.spec_intersects(line.spec_mask()),
    {
        let a = self.iflag.0;
        let b = lines.0;
        let m = line.spec_mask();
        assert((m == 1 || m == 2 || m == 4 || m == 8 || m == 16) ==> (a & m != 0 ==> (a | (b
            & 0x1F)) & m != 0) && (b & m != 0 ==> (a | (b & 0x1F)) & m != 0) && (a & 0xE0 == 0
            ==> (a | (b & 0x1F)) & 0xE0 == 0)) by (bit_vector);
    }

    /// With the vertical blank and the joypad both enabled and both requested,
    /// vertical blank is the line picked, and taking it leaves the joypad
    /// request standing.
    pub proof fn lemma_vblank_before_joypad(self)
        requires
            self.ie.spec_intersects(InterruptFlag::VBLANK),
            self.ie.spec_intersects(InterruptFlag::JOYPAD),
            self.iflag.spec_intersects(InterruptFlag::VBLANK),
            self.iflag.spec_intersects(InterruptFlag::JOYPAD),
        ensures
            InterruptFlag::spec_highest(self.spec_pending()) == Some(Interrupt::VBlank),
            !self.spec_acknowledge(Interrupt::VBlank).iflag.spec_intersects(InterruptFlag::VBLANK),
            self.spec_acknowledge(Interrupt::VBlank).iflag.spec_intersects(InterruptFlag::JOYPAD),
            InterruptFlag::spec_highest(self.spec_acknowledge(Interrupt::VBlank).spec_pending())
                != Some(Interrupt::VBlank),
    {
        let e = self.ie.0;
        let f = self.iflag.0;
        assert(e & 0x01 != 0 && f & 0x01 != 0 && e & 0x10 != 0 && f & 0x10 != 0 ==> (e & f & 0x1F)
            & 0x01 != 0 && (f & !0x01u8) & 0x01 == 0 && (f & !0x01u8) & 0x10 != 0 && (e & (f
            & !0x01u8) & 0x1F) & 0x01 == 0) by (bit_vector);
    }
}

impl CPUState {
    /// The machine after the lines of `lines` have been requested.
    pub open spec fn request_interrupt(self, lines: InterruptFlag) -> CPUState {
        CPUState { istate: self.istate.spec_request(lines), ..self }
    }

    /// The machine after a button has changed state: the joypad holds the new
    /// state and the joypad interrupt is requested.
    pub open spec fn update_input(self, input: InputFlag, pressed: bool) -> CPUState {
        (CPUState {
            io: IO { input: self.io.input.spec_update(input, pressed), ..self.io },
            ..self
        }).request_interrupt(InterruptFlag(InterruptFlag::JOYPAD))
    }

    /// The machine after the caller has said which buttons are held down:
    /// the joypad holds exactly those, and the joypad interrupt is requested
    /// if one of them was not held down before.
    pub open spec fn apply_input(self, pressed: InputFlag) -> CPUState {
        let applied = CPUState {
            io: IO { input: self.io.input.spec_apply(pressed), ..self.io },
            ..self
        };
        if self.io.input.spec_newly_pressed(pressed) {
            applied.request_interrupt(InterruptFlag(InterruptFlag::JOYPAD))
        } else {
            applied
        }
    }

    /// The machine on its way into the handler of `line`: the request is
    /// taken, the program counter is pushed and replaced by the handler's
    /// address, and five M-cycles are charged.
    pub open spec fn run_interrupt(self, line: Interrupt) -> CPUState {
        let taken = CPUState { istate: self.istate.spec_acknowledge(line), ..self };
        CPUState { cycles: 5, ..taken.push(self.reg.pc).with_pc(line.spec_vector()) }
    }

    /// The line to serve next: the highest in priority among those that are
    /// both enabled and requested.
    pub open spec fn next_interrupt(self) -> Option<Interrupt> {
        InterruptFlag::spec_highest(self.istate.spec_pending())
    }

    /// Whether an interrupt is dispatched in place of the next instruction: a
    /// line waits to be served and the master enable is set.
    pub open spec fn dispatches(self) -> bool {
        self.next_interrupt() is Some && self.istate.ime
    }

    /// The machine after the check that precedes every instruction. A line
    /// that waits to be served ends the halt, whatever the master enable says,
    /// and is dispatched if the master enable is set.
    pub open spec fn check_for_interrupt(self) -> CPUState {
        match self.next_interrupt() {
            None => self,
            Some(line) => {
                let awake = CPUState { halt: false, ..self };
                if self.istate.ime {
                    awake.run_interrupt(line)
                } else {
                    awake
                }
            },
        }
    }

    /// With the vertical blank and the joypad both enabled and both requested
    /// and the master enable set, the check dispatches the vertical blank: the
    /// program counter stands at its handler.
    pub proof fn lemma_vblank_served_first(self)
        requires
            self.istate.ime,
            self.istate.ie.spec_intersects(InterruptFlag::VBLANK),
            self.istate.ie.spec_intersects(InterruptFlag::JOYPAD),
            self.istate.iflag.spec_intersects(InterruptFlag::VBLANK),
            self.istate.iflag.spec_intersects(InterruptFlag::JOYPAD),
        ensures
            self.next_interrupt() == Some(Interrupt::VBlank),
            self.dispatches(),
            self.check_for_interrupt() == (CPUState { halt: false, ..self }).run_interrupt(
                Interrupt::VBlank,
            ),
            self.check_for_interrupt().reg.pc == 0x40,
            self.check_for_interrupt().cycles == 5,
    {
        self.istate.lemma_vblank_before_joypad();
    }

    /// Without the master enable nothing is dispatched: the check changes
    /// nothing but the halt, which a waiting line ends.
    pub proof fn lemma_no_dispatch_without_enable(self)
        requires
            !self.istate.ime,
        ensures
            !self.dispatches(),
            self.check_for_interrupt() == (CPUState {
                halt: self.halt && self.next_interrupt() is None,
                ..self
            }),
    {
    }
}

impl CPU {
    /// Executed from outside the CPU when input state should be updated
    pub fn update_input(&mut self, input: InputFlag, pressed: bool)
        ensures
            final(self)@ == old(self)@.update_input(input, pressed),
    {
        self.io.input.update(input, pressed);
        self.request_interrupt(InterruptFlag(InterruptFlag::JOYPAD));
    }

    /// Takes the buttons that are held down, as a mask with a set bit for
    /// every one of them, and requests the joypad interrupt if a button has
    /// gone down.
    pub fn apply_input(&mut self, pressed: InputFlag)
        ensures
            final(self)@ == old(self)@.apply_input(pressed),
    {
        let request = self.io.input.newly_pressed(pressed);
        self.io.input.apply(pressed);
        if request {
            self.request_interrupt(InterruptFlag(InterruptFlag::JOYPAD));
        }
    }

    /// Sets corresponding interrupt flag to true
    pub fn request_interrupt(&mut self, interrupt: InterruptFlag)
        ensures
            final(self)@ == old(self)@.request_interrupt(interrupt),
    {
        self.istate.request(interrupt);
    }

    /// Executes interrupt handler
    pub fn run_interrupt(&mut self, interrupt: Interrupt)
        ensures
            final(self)@ == old(self)@.run_interrupt(interrupt),
    {
        let pc = self.reg.pc;
        self.istate.acknowledge(interrupt);
        self.push(pc);
        self.reg.pc = interrupt.vector();
        // Interrupt handling takes 5 M-cycles before executing actual instruction
        self.cycles = 5;
    }

    /// Checks for interrupts,
    /// returns true if interrupt should be ran instead of next instruction
    pub fn check_for_interrupt(&mut self) -> (r: bool)
        ensures
            r == old(self)@.dispatches(),
            final(self)@ == old(self)@.check_for_interrupt(),
    {
        let interrupt_requests = InterruptFlag(self.istate.pending());
        match interrupt_requests.highest() {
            None => false,
            Some(line) => {
                // Exit halt mode even if IME is disabled
                self.halt = false;
                // Handle interrupt
                if self.istate.ime {
                    self.run_interrupt(line);
                    true
                } else {
                    false
                }
            },
        }
    }
}

impl View for InterruptState {
    type V = InterruptState;

    open spec fn view(&self) -> InterruptState {
        *self
    }
}

impl MemoryAccess for InterruptState {
    open spec fn handles(address: u16) -> bool {
        InterruptState::spec_handles(address)
    }

    open spec fn peek(state: Self::V, address: u16) -> u8 {
        state.spec_mem_read(address)
    }

    open spec fn poke(state: Self::V, address: u16, value: u8) -> Self::V {
        state.spec_mem_write(address, value)
    }

    fn get_range(&self) -> (ranges: Vec<RangeInclusive<u16>>) {
        let mut ranges: Vec<RangeInclusive<u16>> = Vec::new();
        ranges.push(RangeInclusive::new(0xFF0F, 0xFF0F));
        ranges.push(RangeInclusive::new(0xFFFF, 0xFFFF));
        assert forall|address: u16| in_ranges(ranges@, address) <==> Self::handles(address) by {
            if 0xFF0F <= address <= 0xFF0F {
                assert(ranges@[0]@.start <= address <= ranges@[0]@.end);
            } else if 0xFFFF <= address <= 0xFFFF {
                assert(ranges@[1]@.start <= address <= ranges@[1]@.end);
            }
        }
        ranges
    }

    fn mem_read(&self, address: u16) -> (r: u8)
    {
        match address {
            0xFF0F => self.iflag.bits(),
            0xFFFF => self.ie.bits(),
            _ => 0xFF,
        }
    }

    fn mem_write(&mut self, address: u16, value: u8)
    {
        match address {
            0xFF0F => self.iflag = InterruptFlag::from_bits_truncate(value),
            0xFFFF => self.ie = InterruptFlag::from_bits_truncate(value),
            _ => {},
        }
    }
}

} // verus!
