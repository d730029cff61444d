//! What no step of the machine changes: the cartridge that was loaded stays
//! the cartridge, under the controller that its header names, and every
//! memory keeps its size. And what no instruction changes: where the pixel
//! unit stands and what its frame buffers hold.
use vstd::prelude::*;
use crate::cpu::instructions::{spec_decode, Instruction, Prefixed};
use crate::cpu::memory::spec_load_error;
use crate::cpu::registers::{FlagReg, Reg8, Registers};
use crate::cpu::snapshot::lemma_power_on_consistent;
use crate::cpu::CPUState;

verus! {

impl CPUState {
    /// Whether `other` holds the same cartridge as this machine and is
    /// consistent if this machine is.
    pub open spec fn keeps_cartridge(self, other: CPUState) -> bool {
        &&& self.consistent() ==> other.consistent()
        &&& other.rom() == self.rom()
        &&& other.mem.info == self.mem.info
        &&& other.mem.mbc.kind() == self.mem.mbc.kind()
    }

    /// Whether the pixel unit of `other` stands at the same dot of the same
    /// scanline, in the same mode, with the same lines raised and with the
    /// same two frame buffers as that of this machine.
    pub open spec fn keeps_display(self, other: CPUState) -> bool {
        &&& other.ppu.lx == self.ppu.lx
        &&& other.ppu.ly == self.ppu.ly
        &&& other.ppu.mode == self.ppu.mode
        &&& other.ppu.interrupt_request == self.ppu.interrupt_request
        &&& other.ppu.front_display == self.ppu.front_display
        &&& other.ppu.back_display == self.ppu.back_display
    }

    /// What no instruction and no write can touch: the cartridge and the
    /// display.
    pub open spec fn spares(self, other: CPUState) -> bool {
        self.keeps_cartridge(other) && self.keeps_display(other)
    }

    /// A write spares the cartridge and the display.
    pub proof fn lemma_write_spares(self, address: u16, value: u8)
        ensures
            self.spares(self.write(address, value)),
    {
        reveal(CPUState::consistent);
        reveal(CPUState::write);
    }

    /// A change of the registers or of the engine's own state spares the
    /// cartridge and the display.
    pub proof fn lemma_engine_spares(self, other: CPUState)
        requires
            other.mem == self.mem,
            other.ppu == self.ppu,
        ensures
            self.spares(other),
    {
        reveal(CPUState::consistent);
    }

    /// What the instructions are made of spares both: a change of
    /// the register file or of the master enable, a write, a push, a pop and
    /// a store to an operand.
    pub proof fn lemma_parts_spare()
        ensures
            forall|s: CPUState, reg: Registers|
                s.spares(#[trigger] s.with_reg(reg)),
            forall|s: CPUState, pc: u16|
                s.spares(#[trigger] s.with_pc(pc)),
            forall|s: CPUState, n: int|
                s.spares(#[trigger] s.advance(n)),
            forall|s: CPUState, ime: bool|
                s.spares(#[trigger] s.with_ime(ime)),
            forall|s: CPUState, f: FlagReg|
                s.spares(#[trigger] s.with_flags(f)),
            forall|s: CPUState, a: u16, v: u8|
                s.spares(#[trigger] s.write(a, v)),
            forall|s: CPUState, v: u16| s.spares(#[trigger] s.push(v)),
            forall|s: CPUState, t: Option<Reg8>, v: u8|
                s.spares(#[trigger] s.store(t, v)),
            forall|s: CPUState| s.spares(#[trigger] s.pop()),
    {
        assert forall|s: CPUState, reg: Registers| s.spares(
            #[trigger] s.with_reg(reg),
        ) by {
            s.lemma_engine_spares(s.with_reg(reg));
        }
        assert forall|s: CPUState, pc: u16| s.spares(
            #[trigger] s.with_pc(pc),
        ) by {
            s.lemma_engine_spares(s.with_pc(pc));
        }
        assert forall|s: CPUState, n: int| s.spares(
            #[trigger] s.advance(n),
        ) by {
            s.lemma_engine_spares(s.advance(n));
        }
        assert forall|s: CPUState, ime: bool| s.spares(
            #[trigger] s.with_ime(ime),
        ) by {
            s.lemma_engine_spares(s.with_ime(ime));
        }
        assert forall|s: CPUState, f: FlagReg| s.spares(
            #[trigger] s.with_flags(f),
        ) by {
            s.lemma_engine_spares(s.with_flags(f));
        }
        assert forall|s: CPUState| s.spares(
            #[trigger] s.pop(),
        ) by {
            s.lemma_engine_spares(s.pop());
        }
        assert forall|s: CPUState, a: u16, v: u8| s.spares(
            #[trigger] s.write(a, v),
        ) by {
            s.lemma_write_spares(a, v);
        }
        assert forall|s: CPUState, v: u16| s.spares(
            #[trigger] s.push(v),
        ) by {
            let sp = ((s.reg.sp - 2) % 65536) as u16;
            let moved = CPUState { reg: Registers { sp, ..s.reg }, ..s };
            s.lemma_engine_spares(moved);
        }
        assert forall|s: CPUState, t: Option<Reg8>, v: u8| s.spares(
            #[trigger] s.store(t, v),
        ) by {
            match t {
                Some(reg) => {
                    s.lemma_engine_spares(s.store(t, v));
                },
                None => {},
            }
        }
    }

    /// An instruction of the secondary table spares both.
    pub proof fn lemma_prefixed_spares(self, instruction: Prefixed)
        ensures
            self.spares(self.run_prefixed(instruction).state),
    {
        reveal(CPUState::run_prefixed);
        Self::lemma_parts_spare();
    }

    /// An instruction that jumps, calls or returns, pushes or pops spares
    /// both.
    pub proof fn lemma_flow_spares(self)
        ensures
            forall|c| self.spares(#[trigger] self.jump_relative(c).state),
            forall|c| self.spares(#[trigger] self.jump(c).state),
            forall|c| self.spares(#[trigger] self.call(c).state),
            forall|c| self.spares(#[trigger] self.return_from(c).state),
            forall|v| self.spares(#[trigger] self.restart(v).state),
            forall|pair| self.spares(#[trigger] self.pop_pair(pair).state),
            forall|pair| self.spares(#[trigger] self.push_pair(pair).state),
            self.spares(self.return_enable().state),
    {
        reveal(CPUState::jump_relative);
        reveal(CPUState::jump);
        reveal(CPUState::call);
        reveal(CPUState::return_from);
        reveal(CPUState::restart);
        reveal(CPUState::pop_pair);
        reveal(CPUState::push_pair);
        reveal(CPUState::return_enable);
        Self::lemma_parts_spare();
    }

    /// A load or a store spares both.
    pub proof fn lemma_transfer_spares(self)
        ensures
            forall|pair| self.spares(#[trigger] self.load_pair(pair).state),
            forall|place| self.spares(#[trigger] self.store_indirect(place).state),
            forall|place| self.spares(#[trigger] self.load_indirect(place).state),
            forall|t| self.spares(#[trigger] self.load_immediate(t).state),
            forall|t, s| self.spares(#[trigger] self.load_operand(t, s).state),
            self.spares(self.store_stack_pointer().state),
            self.spares(self.store_high().state),
            self.spares(self.load_high().state),
            self.spares(self.store_high_c().state),
            self.spares(self.load_high_c().state),
            self.spares(self.store_absolute().state),
            self.spares(self.load_absolute().state),
    {
        reveal(CPUState::load_pair);
        reveal(CPUState::store_indirect);
        reveal(CPUState::load_indirect);
        reveal(CPUState::load_immediate);
        reveal(CPUState::load_operand);
        reveal(CPUState::store_stack_pointer);
        reveal(CPUState::store_high);
        reveal(CPUState::load_high);
        reveal(CPUState::store_high_c);
        reveal(CPUState::load_high_c);
        reveal(CPUState::store_absolute);
        reveal(CPUState::load_absolute);
        Self::lemma_parts_spare();
    }

    /// An instruction of the arithmetic unit spares both.
    pub proof fn lemma_arithmetic_spares(self)
        ensures
            forall|pair, step| self.spares(#[trigger] self.step_pair(pair, step).state),
            forall|t| self.spares(#[trigger] self.increment(t).state),
            forall|t| self.spares(#[trigger] self.decrement(t).state),
            forall|op, s| self.spares(#[trigger] self.arithmetic_operand(op, s).state),
            forall|op| self.spares(#[trigger] self.arithmetic_immediate(op).state),
            forall|target| self.spares(#[trigger] self.stack_offset(target).state),
            self.spares(self.arithmetic().state),
    {
        reveal(CPUState::step_pair);
        reveal(CPUState::increment);
        reveal(CPUState::decrement);
        reveal(CPUState::arithmetic_operand);
        reveal(CPUState::arithmetic_immediate);
        reveal(CPUState::stack_offset);
        reveal(CPUState::arithmetic);
        Self::lemma_parts_spare();
        self.advance(1).lemma_prefixed_spares(
            crate::cpu::instructions::spec_decode_prefixed(self.operand()),
        );
    }

    /// An instruction that changes nothing but registers and the engine's
    /// own state spares both.
    pub proof fn lemma_internal_spares(self)
        ensures
            self.spares(self),
            self.spares(self.halt().state),
            forall|ime| self.spares(#[trigger] self.set_ime(ime).state),
            forall|op| self.spares(#[trigger] self.rotate_accumulator(op).state),
            self.spares(self.decimal_adjust().state),
            self.spares(self.complement().state),
            forall|c| self.spares(#[trigger] self.set_carry(c).state),
            forall|pair| self.spares(#[trigger] self.add_pair(pair).state),
            self.spares(self.jump_hl().state),
            self.spares(self.load_stack_pointer_hl().state),
    {
        reveal(CPUState::halt);
        reveal(CPUState::set_ime);
        reveal(CPUState::rotate_accumulator);
        reveal(CPUState::decimal_adjust);
        reveal(CPUState::complement);
        reveal(CPUState::set_carry);
        reveal(CPUState::add_pair);
        reveal(CPUState::jump_hl);
        reveal(CPUState::load_stack_pointer_hl);
        Self::lemma_parts_spare();
        self.lemma_engine_spares(self);
        self.lemma_engine_spares(self.halt().state);
    }

    /// No instruction touches the cartridge or the display.
    pub proof fn lemma_run_spares(self, instruction: Instruction)
        ensures
            self.spares(self.run(instruction).state),
    {
        reveal(CPUState::run);
        self.lemma_flow_spares();
        self.lemma_transfer_spares();
        self.lemma_arithmetic_spares();
        self.lemma_internal_spares();
    }

    /// The check for interrupts spares both.
    pub proof fn lemma_check_spares(self)
        ensures
            self.spares(self.check_for_interrupt()),
            self.spares(self.ready()),
    {
        Self::lemma_parts_spare();
        let awake = CPUState { halt: false, ..self };
        self.lemma_engine_spares(awake);
        self.lemma_engine_spares(self);
        match self.next_interrupt() {
            Some(line) => {
                let taken = CPUState { istate: awake.istate.spec_acknowledge(line), ..awake };
                awake.lemma_engine_spares(taken);
                let pushed = taken.push(awake.reg.pc).with_pc(line.spec_vector());
                pushed.lemma_engine_spares(awake.run_interrupt(line));
            },
            None => {},
        }
        self.check_for_interrupt().lemma_engine_spares(self.ready());
    }

    /// The units that advance on their own keep the cartridge.
    pub proof fn lemma_tick_keeps_cartridge(self)
        ensures
            self.keeps_cartridge(self.tick_video()),
            self.keeps_cartridge(self.tick_video().tick_hardware().waited()),
            self.keeps_cartridge(
                CPUState { dots: (self.dots - 1) as u8, ..self.tick_video() },
            ),
    {
        reveal(CPUState::consistent);
    }

    /// What the engine does at the end of its wait spares the cartridge and
    /// the display.
    pub proof fn lemma_engine_step_spares(self)
        ensures
            self.spares(self.engine_step()),
    {
        self.lemma_check_spares();
        let ready = self.ready();
        if !ready.faults() {
            Self::lemma_parts_spare();
            ready.advance(1).lemma_run_spares(spec_decode(ready.opcode()));
        }
        let outcome = ready.execute().state;
        outcome.lemma_engine_spares(
            CPUState { cycles: ready.execute().cost, ..outcome },
        );
    }

    /// A dot keeps the cartridge: whatever the machine executes, the ROM, the
    /// cartridge facts and the controller in charge stay what the image made
    /// them, and no memory changes its size. And a dot moves the pixel unit as
    /// the pixel unit moves alone: nothing that the engine executes changes
    /// the dot, the scanline, the mode or a frame buffer.
    pub proof fn lemma_dot_keeps_cartridge(self)
        ensures
            self.keeps_cartridge(self.dot()),
            self.tick_video().keeps_display(self.dot()),
    {
        reveal(CPUState::dot);
        self.lemma_tick_keeps_cartridge();
        let waited = self.tick_video().tick_hardware().waited();
        waited.lemma_engine_step_spares();
    }

    /// The front buffer changes on the dot that starts the vertical blank and
    /// on no other, and what it becomes is the back buffer of the dot before.
    pub proof fn lemma_front_buffer(self)
        ensures
            self.dot().ppu.front_display == if self.ppu.enters_vblank() {
                self.ppu.back_display
            } else {
                self.ppu.front_display
            },
            self.dot().ppu.lx == self.ppu.spec_cycle().lx,
            self.dot().ppu.ly == self.ppu.spec_cycle().ly,
            self.dot().ppu.mode == self.ppu.spec_cycle().mode,
            self.dot().ppu.interrupt_request.spec_intersects(
                crate::cpu::interrupts::InterruptFlag::VBLANK,
            ) == self.ppu.enters_vblank(),
    {
        self.lemma_dot_keeps_cartridge();
        self.ppu.lemma_cycle_position();
    }

    /// The display that the machine hands out is a grid of shades: where
    /// both frame buffers hold nothing but the four shades, they do so after
    /// the next dot, whatever the engine executes on it.
    pub proof fn lemma_dot_shaded(self)
        requires
            self.ppu.shaded(),
        ensures
            self.dot().ppu.shaded(),
    {
        self.lemma_dot_keeps_cartridge();
        self.ppu.lemma_cycle_shaded();
    }

    /// Any run of dots keeps the cartridge.
    pub proof fn lemma_run_dots_keeps_cartridge(self, n: nat)
        ensures
            self.keeps_cartridge(self.run_dots(n)),
        decreases n,
    {
        if n > 0 {
            self.lemma_dot_keeps_cartridge();
            if self.dot_fault() is None {
                self.dot().lemma_run_dots_keeps_cartridge((n - 1) as nat);
            }
        } else {
            self.lemma_engine_spares(self);
        }
    }

    /// Every machine that can be reached from an image by running is
    /// consistent with the image, and its cartridge holds the image.
    pub proof fn lemma_reachable_consistent(rom: Seq<u8>, sample_rate: u32, n: nat)
        requires
            spec_load_error(rom) is None,
        ensures
            CPUState::power_on(rom, sample_rate).run_dots(n).consistent(),
            CPUState::power_on(rom, sample_rate).run_dots(n).rom() == rom,
    {
        lemma_power_on_consistent(rom, sample_rate);
        CPUState::power_on(rom, sample_rate).lemma_run_dots_keeps_cartridge(n);
    }
}

} // verus!
