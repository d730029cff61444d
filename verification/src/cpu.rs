//! The machine as a whole: the engine's state, the address bus and the step
//! that advances every unit by one dot.
use vstd::prelude::*;
use crate::cpu::apu::{APUState, APU};
use crate::cpu::interrupts::{InterruptFlag, InterruptState};
use crate::cpu::io::IO;
use crate::cpu::memory::{spec_load_error, CartridgeError, Memory, MemoryState};
use crate::cpu::opcodes::InvalidOpcode;
use crate::cpu::ppu::{PPUState, PPU};
use crate::cpu::registers::Registers;

pub mod alu;
pub mod apu;
pub mod bits;
pub mod input;
pub mod instructions;
pub mod interrupts;
pub mod invariants;
pub mod io;
pub mod mbc;
pub mod memory;
pub mod opcodes;
pub mod ppu;
pub mod readwrite;
pub mod registers;
pub mod snapshot;

verus! {

/// The main processing unit
#[allow(clippy::upper_case_acronyms)]
pub struct CPU {
    pub reg: Registers,
    pub mem: Memory,
    pub ppu: PPU,
    pub apu: APU,
    pub io: IO,
    pub istate: InterruptState,
    pub halt: bool,
    /// Remaining M-cycles until executing the next instruction
    pub cycles: u8,
    /// Remaining dots until executing the next M-cycle
    pub dots: u8,
}

/// The machine as the contracts see it: every unit by its own view.
pub struct CPUState {
    pub reg: Registers,
    pub mem: MemoryState,
    pub ppu: PPUState,
    pub apu: APUState,
    pub io: IO,
    pub istate: InterruptState,
    pub halt: bool,
    pub cycles: u8,
    pub dots: u8,
}

impl View for CPU {
    type V = CPUState;

    open spec fn view(&self) -> CPUState {
        CPUState {
            reg: self.reg,
            mem: self.mem@,
            ppu: self.ppu@,
            apu: self.apu@,
            io: self.io,
            istate: self.istate,
            halt: self.halt,
            cycles: self.cycles,
            dots: self.dots,
        }
    }
}

impl CPUState {
    /// The machine as it is when the image `rom` has been loaded.
    pub open spec fn power_on(rom: Seq<u8>, sample_rate: u32) -> CPUState {
        CPUState {
            reg: Registers::power_on(),
            mem: MemoryState::loaded(rom),
            ppu: PPUState::power_on(),
            apu: APUState::power_on(sample_rate),
            io: IO::power_on(),
            istate: InterruptState::power_on(),
            halt: false,
            cycles: 0,
            dots: 0,
        }
    }
}

impl CPUState {
    /// The pixel unit advances by one dot and the lines that it raises are
    /// requested.
    pub open spec fn tick_video(self) -> CPUState {
        (CPUState { ppu: self.ppu.spec_cycle(), ..self }).request_interrupt(
            self.ppu.spec_cycle().interrupt_request,
        )
    }

    /// The timer and the audio unit advance by one hardware cycle, and the
    /// count of dots to the next one starts again. An overflow of the timer's
    /// counter requests the timer interrupt.
    pub open spec fn tick_hardware(self) -> CPUState {
        let timer = self.io.timer.spec_cycle();
        let timed = CPUState { dots: 3, io: IO { timer, ..self.io }, ..self };
        let requested = if timer.overflowed {
            timed.request_interrupt(InterruptFlag(InterruptFlag::TIMER))
        } else {
            timed
        };
        CPUState { apu: requested.apu.spec_cycle(timer.divider), ..requested }
    }

    /// The machine with one M-cycle less to wait for the next instruction.
    pub open spec fn waited(self) -> CPUState {
        CPUState {
            cycles: if self.cycles > 0 {
                (self.cycles - 1) as u8
            } else {
                0
            },
            ..self
        }
    }

    /// Whether the engine, once the wait is over, executes an instruction: no
    /// interrupt is dispatched and the engine does not stay halted.
    pub open spec fn fetches(self) -> bool {
        !self.dispatches() && !self.check_for_interrupt().halt
    }

    /// The machine as it is when the engine fetches: the check for interrupts
    /// is over and the engine is no longer on its way into a handler.
    pub open spec fn ready(self) -> CPUState {
        let checked = self.check_for_interrupt();
        CPUState { istate: InterruptState { executing: false, ..checked.istate }, ..checked }
    }

    /// The machine as the engine leaves it once the wait is over: on its way
    /// into an interrupt handler, or still halted, or behind the next
    /// instruction with its cost to wait for.
    pub open spec fn engine_step(self) -> CPUState {
        if self.fetches() {
            CPUState { cycles: self.ready().execute().cost, ..self.ready().execute().state }
        } else {
            self.check_for_interrupt()
        }
    }

    /// The opcode without an instruction that the engine meets at the end of
    /// the wait, if it meets one.
    pub open spec fn engine_fault(self) -> Option<InvalidOpcode> {
        if self.fetches() && self.ready().faults() {
            Some(InvalidOpcode { opcode: self.ready().opcode(), address: self.ready().reg.pc })
        } else {
            None
        }
    }

    /// Whether the dot that comes is the last of its M-cycle.
    pub open spec fn at_cycle_end(self) -> bool {
        self.dots == 0
    }

    /// Whether the engine's wait ends with the hardware cycle that comes.
    pub open spec fn wait_ends(self) -> bool {
        self.cycles <= 1
    }

    /// The machine after one dot. The pixel unit advances on every dot. On
    /// the last dot of an M-cycle the timer and the audio unit advance too and
    /// the engine waits one M-cycle less; when its wait is over it checks for
    /// interrupts and executes the next instruction.
    #[verifier::opaque]
    pub open spec fn dot(self) -> CPUState {
        let video = self.tick_video();
        if !self.at_cycle_end() {
            CPUState { dots: (self.dots - 1) as u8, ..video }
        } else if !self.wait_ends() {
            video.tick_hardware().waited()
        } else {
            video.tick_hardware().waited().engine_step()
        }
    }

    /// The opcode without an instruction that the engine meets on the dot that
    /// comes, if it meets one.
    #[verifier::opaque]
    pub open spec fn dot_fault(self) -> Option<InvalidOpcode> {
        if self.at_cycle_end() && self.wait_ends() {
            self.tick_video().tick_hardware().waited().engine_fault()
        } else {
            None
        }
    }

    /// The machine after `n` dots, or after fewer if the engine meets an
    /// opcode without an instruction: the run ends with the dot that meets it.
    pub open spec fn run_dots(self, n: nat) -> CPUState
        decreases n,
    {
        if n == 0 {
            self
        } else if self.dot_fault() is Some {
            self.dot()
        } else {
            self.dot().run_dots((n - 1) as nat)
        }
    }

    /// The opcode without an instruction that ends a run of `n` dots, if one
    /// does.
    pub open spec fn run_fault(self, n: nat) -> Option<InvalidOpcode>
        decreases n,
    {
        if n == 0 {
            None
        } else if self.dot_fault() is Some {
            self.dot_fault()
        } else {
            self.dot().run_fault((n - 1) as nat)
        }
    }

    /// The dots up to and with the one that hands the next frame over.
    pub open spec fn dots_to_frame(self) -> nat {
        self.ppu.dots_to_vblank()
    }

    /// The dots up to and with the one on which the engine's wait ends.
    pub open spec fn dots_to_instruction(self) -> nat {
        (1 + self.dots + 4 * (if self.cycles > 0 {
            self.cycles - 1
        } else {
            0
        })) as nat
    }
}

impl CPU {
    /// Sets the machine up around a cartridge image. The image is refused
    /// where the memory refuses it.
    pub fn new(rom_file: Vec<u8>, sample_rate: u32) -> (r: Result<CPU, CartridgeError>)
        requires
            sample_rate > 0,
        ensures
            match spec_load_error(rom_file@) {
                Some(e) => r == Err::<CPU, CartridgeError>(e),
                None => r is Ok && r->Ok_0@ == CPUState::power_on(rom_file@, sample_rate),
            },
    {
        match Memory::new(rom_file) {
            Err(e) => Err(e),
            Ok(mem) => Ok(
                CPU {
                    reg: Registers::new(),
                    ppu: PPU::new(),
                    apu: APU::new(sample_rate),
                    mem,
                    io: IO::new(),
                    istate: InterruptState::new(),
                    halt: false,
                    cycles: 0,
                    dots: 0,
                },
            ),
        }
    }

    /// Emulates the machine for one dot / oscillator tick.
    pub fn dot(&mut self) -> (r: Result<(), InvalidOpcode>)
        ensures
            final(self)@ == old(self)@.dot(),
            match r {
                Ok(_) => old(self)@.dot_fault() is None,
                Err(fault) => old(self)@.dot_fault() == Some(fault),
            },
    {
        reveal(CPUState::dot);
        reveal(CPUState::dot_fault);
        // PPU is cycled on every dot
        self.ppu.cycle();
        self.request_interrupt(self.ppu.interrupt_request);

        // If three dots have been executed since the last M-cycle,
        // reset dot counter and tick the rest of CPU alongside PPU
        if self.dots > 0 {
            self.dots -= 1;
            return Ok(());
        }
        self.dots = 3;

        // Tick timer on every M-cycle
        self.io.timer.cycle();
        // Request interrupt if timer overflows
        if self.io.timer.overflowed {
            self.request_interrupt(InterruptFlag(InterruptFlag::TIMER));
        }
        self.apu.cycle(self.io.timer.divider);
        assert(self@ == old(self)@.tick_video().tick_hardware());

        // Return if CPU is still "executing" last instruction
        if self.cycles > 0 {
            self.cycles -= 1;
        }
        if self.cycles > 0 {
            return Ok(());
        }
        assert(self@ == old(self)@.tick_video().tick_hardware().waited());

        // Check possible interrupt requests
        if self.check_for_interrupt() {
            return Ok(());
        }
        // Execute next CPU instruction if no interrupts should be executed

        if self.halt {
            return Ok(());
        }
        // Reset executing flag as CPU is now done moving to interrupt handler
        self.istate.executing = false;
        match self.execute() {
            Ok(cost) => {
                self.cycles = cost;
                Ok(())
            },
            Err(fault) => {
                self.cycles = 0;
                Err(fault)
            },
        }
    }

    /// Emulates the machine for one dot, or with `run_whole_instruction` for
    /// as many dots as it takes to execute the next instruction. The run ends
    /// early where the engine meets an opcode without an instruction.
    pub fn cycle(&mut self, run_whole_instruction: bool) -> (r: Result<(), InvalidOpcode>)
        ensures
            final(self)@ == old(self)@.run_dots(
                if run_whole_instruction {
                    old(self)@.dots_to_instruction()
                } else {
                    1
                },
            ),
            match r {
                Ok(_) => old(self)@.run_fault(
                    if run_whole_instruction {
                        old(self)@.dots_to_instruction()
                    } else {
                        1
                    },
                ) is None,
                Err(fault) => old(self)@.run_fault(
                    if run_whole_instruction {
                        old(self)@.dots_to_instruction()
                    } else {
                        1
                    },
                ) == Some(fault),
            },
    {
        // When stepping over instructions (run_whole_instruction == true),
        // run as many dots as is needed to set remaining cycles to 0
        // and to run the next instruction
        let n: u32 = if run_whole_instruction {
            // One M-cycle is 4 dots
            let waiting: u32 = if self.cycles > 0 { (self.cycles - 1) as u32 } else { 0 };
            1 + (self.dots as u32) + 4 * waiting
        } else {
            // When cycling from normal clock, cycle only once
            1
        };
        let ghost count: nat = if run_whole_instruction {
            old(self)@.dots_to_instruction()
        } else {
            1
        };
        let mut i: u32 = 0;
        while i < n
            invariant
                i <= n,
                n == count,
                count == (if run_whole_instruction {
                    old(self)@.dots_to_instruction()
                } else {
                    1
                }),
                old(self)@.run_dots(count) == self@.run_dots((n - i) as nat),
                old(self)@.run_fault(count) == self@.run_fault((n - i) as nat),
            decreases n - i,
        {
            match self.dot() {
                Ok(_) => {},
                Err(fault) => {
                    return Err(fault);
                },
            }
            i += 1;
        }
        Ok(())
    }

    /// Emulates the machine up to and with the dot that starts the vertical
    /// blank, on which the finished frame becomes the front buffer. The run
    /// ends early where the engine meets an opcode without an instruction.
    pub fn run_frame(&mut self) -> (r: Result<(), InvalidOpcode>)
        ensures
            final(self)@ == old(self)@.run_dots(old(self)@.dots_to_frame()),
            match r {
                Ok(_) => old(self)@.run_fault(old(self)@.dots_to_frame()) is None,
                Err(fault) => old(self)@.run_fault(old(self)@.dots_to_frame()) == Some(fault),
            },
    {
        let ghost total = self@.dots_to_frame();
        loop
            invariant
                total == old(self)@.dots_to_frame(),
                self@.dots_to_frame() > 0,
                old(self)@.run_dots(total) == self@.run_dots(self@.dots_to_frame()),
                old(self)@.run_fault(total) == self@.run_fault(self@.dots_to_frame()),
            decreases self@.dots_to_frame(),
        {
            let ghost before = self@;
            proof {
                before.lemma_dot_keeps_cartridge();
                before.lemma_front_buffer();
                before.ppu.lemma_dots_to_vblank();
            }
            match self.dot() {
                Ok(_) => {},
                Err(fault) => {
                    return Err(fault);
                },
            }
            assert(self@.run_dots(0) == self@);
            assert(self@.run_fault(0) is None);
            if self.ppu.interrupt_request.intersects(InterruptFlag::VBLANK) {
                assert(before.dots_to_frame() == 1);
                return Ok(());
            }
        }
    }
}

} // verus!
