//! The address bus. Every address belongs to exactly one region, and a region
//! to one unit; a read or a write goes to the unit of the address's region.
use vstd::prelude::*;
use core::ops::RangeInclusive;
use crate::cpu::apu::APU;
use crate::cpu::interrupts::InterruptState;
use crate::cpu::io::IO;
use crate::cpu::memory::Memory;
use crate::cpu::ppu::{PPUState, PPU};
use crate::cpu::registers::{high, low, spec_high, spec_low, spec_word, word, Registers};
use crate::cpu::{CPUState, CPU};

verus! {

/// Whether one of the ranges holds the address.
pub open spec fn in_ranges(ranges: Seq<RangeInclusive<u16>>, address: u16) -> bool {
    exists|i: int|
        0 <= i < ranges.len() && !(#[trigger] ranges[i])@.exhausted && ranges[i]@.start <= address
            <= ranges[i]@.end
}

/// Trait implemented by objects whose registers can be accessed from the address bus
pub trait MemoryAccess: View {
    /// Whether the object serves the address.
    spec fn handles(address: u16) -> bool;

    /// What a read of `address` gives while the object is in `state`.
    spec fn peek(state: Self::V, address: u16) -> u8;

    /// What a write of `value` to `address` makes of `state`.
    spec fn poke(state: Self::V, address: u16, value: u8) -> Self::V;

    /// Returns vec of memory address ranges supported by this object
    fn get_range(&self) -> (ranges: Vec<RangeInclusive<u16>>)
        ensures
            forall|address: u16| in_ranges(ranges@, address) <==> Self::handles(address),
    ;

    /// Returns value from given memory address
    fn mem_read(&self, address: u16) -> (r: u8)
        ensures
            r == Self::peek(self@, address),
    ;

    /// Writes given value to given memory address
    fn mem_write(&mut self, address: u16, value: u8)
        ensures
            final(self)@ == Self::poke(old(self)@, address, value),
    ;
}

/// The units behind the bus.
#[derive(Clone, Copy, PartialEq, Eq, Structural, Debug)]
pub enum Region {
    /// Cartridge ROM and RAM, work RAM and high RAM.
    Memory,
    /// Video RAM, the sprite table and the display registers.
    Video,
    /// The audio registers.
    Audio,
    /// The joypad, the serial byte and the timer.
    Io,
    /// The two interrupt registers.
    Interrupts,
    /// No unit: reads give `0xFF` and writes are dropped.
    Unmapped,
}

/// The address of the register that starts a transfer into the sprite table.
pub const DMA_REGISTER: u16 = 0xFF46;

/// The value that a read finds where nothing is mapped.
pub const OPEN_BUS: u8 = 0xFF;

/// The region that an address belongs to.
pub open spec fn spec_region(address: u16) -> Region {
    if address <= 0x7FFF {
        Region::Memory
    } else if address <= 0x9FFF {
        Region::Video
    } else if address <= 0xDFFF {
        Region::Memory
    } else if address <= 0xFDFF {
        Region::Unmapped
    } else if address <= 0xFE9F {
        Region::Video
    } else if address <= 0xFEFF {
        Region::Unmapped
    } else if address <= 0xFF07 {
        Region::Io
    } else if address == 0xFF0F {
        Region::Interrupts
    } else if 0xFF10 <= address <= 0xFF3F {
        Region::Audio
    } else if 0xFF40 <= address <= 0xFF4B {
        Region::Video
    } else if 0xFF80 <= address <= 0xFFFE {
        Region::Memory
    } else if address == 0xFFFF {
        Region::Interrupts
    } else {
        Region::Unmapped
    }
}

/// The region that an address belongs to.
#[verifier::when_used_as_spec(spec_region)]
pub fn region(address: u16) -> (r: Region)
    ensures
        r == spec_region(address),
{
    match address {
        0x0000..=0x7FFF | 0xA000..=0xDFFF | 0xFF80..=0xFFFE => Region::Memory,
        0x8000..=0x9FFF | 0xFE00..=0xFE9F | 0xFF40..=0xFF4B => Region::Video,
        0xFF10..=0xFF3F => Region::Audio,
        0xFF00..=0xFF07 => Region::Io,
        0xFF0F | 0xFFFF => Region::Interrupts,
        _ => Region::Unmapped,
    }
}

/// The windows of the units do not overlap: an address lies in the window of
/// the unit of its region and in no other, and an address of no region lies
/// in none.
pub proof fn lemma_regions_partition(address: u16)
    ensures
        Memory::handles(address) <==> spec_region(address) == Region::Memory,
        PPU::handles(address) <==> spec_region(address) == Region::Video,
        APU::handles(address) <==> spec_region(address) == Region::Audio,
        IO::handles(address) <==> spec_region(address) == Region::Io,
        InterruptState::handles(address) <==> spec_region(address) == Region::Interrupts,
{
}

impl CPUState {
    /// What a read of `address` gives.
    #[verifier::opaque]
    pub open spec fn read(self, address: u16) -> u8 {
        match spec_region(address) {
            Region::Memory => self.mem.mem_read(address),
            Region::Video => self.ppu.mem_read(address),
            Region::Audio => self.apu.mem_read(address),
            Region::Io => self.io.spec_mem_read(address),
            Region::Interrupts => self.istate.spec_mem_read(address),
            Region::Unmapped => OPEN_BUS,
        }
    }

    /// The 16-bit value at `address`, low byte first.
    pub open spec fn read_16(self, address: u16) -> u16 {
        spec_word(self.read(((address + 1) % 65536) as u16), self.read(address))
    }

    /// The sprite table after a transfer from page `page`: its 160 bytes are
    /// what the bus reads at the first 160 addresses of the page.
    pub open spec fn transferred(self, page: u8, count: int) -> Seq<u8> {
        Seq::new(
            0xA0,
            |i: int|
                if i < count {
                    self.read((page * 256 + i) as u16)
                } else {
                    self.ppu.oam[i]
                },
        )
    }

    /// The machine after a transfer from page `page` into the sprite table.
    pub open spec fn oam_dma(self, page: u8) -> CPUState {
        CPUState { ppu: PPUState { oam: self.transferred(page, 0xA0), ..self.ppu }, ..self }
    }

    /// The machine after a write of `value` to `address`. A write to the
    /// transfer register copies a page into the sprite table; any other goes to
    /// the unit of the address's region.
    #[verifier::opaque]
    pub open spec fn write(self, address: u16, value: u8) -> CPUState {
        if address == DMA_REGISTER {
            self.oam_dma(value)
        } else {
            match spec_region(address) {
                Region::Memory => CPUState { mem: self.mem.mem_write(address, value), ..self },
                Region::Video => CPUState { ppu: self.ppu.mem_write(address, value), ..self },
                Region::Audio => CPUState { apu: self.apu.mem_write(address, value), ..self },
                Region::Io => CPUState { io: self.io.spec_mem_write(address, value), ..self },
                Region::Interrupts => CPUState {
                    istate: self.istate.spec_mem_write(address, value),
                    ..self
                },
                Region::Unmapped => self,
            }
        }
    }

    /// The machine with the program counter at `pc`.
    pub open spec fn with_pc(self, pc: u16) -> CPUState {
        CPUState { reg: Registers { pc, ..self.reg }, ..self }
    }

    /// The machine with the program counter moved on by `n` bytes.
    pub open spec fn advance(self, n: int) -> CPUState {
        self.with_pc(((self.reg.pc + n) % 65536) as u16)
    }

    /// The machine with the register file `reg`.
    pub open spec fn with_reg(self, reg: Registers) -> CPUState {
        CPUState { reg, ..self }
    }

    /// The byte at the program counter.
    pub open spec fn operand(self) -> u8 {
        self.read(self.reg.pc)
    }

    /// The 16-bit value at the program counter.
    pub open spec fn operand_16(self) -> u16 {
        self.read_16(self.reg.pc)
    }

    /// The machine after `value` has been pushed: the stack pointer goes down
    /// by two, the high byte is written above the low byte.
    pub open spec fn push(self, value: u16) -> CPUState {
        let sp = ((self.reg.sp - 2) % 65536) as u16;
        let moved = CPUState { reg: Registers { sp, ..self.reg }, ..self };
        moved.write(((sp + 1) % 65536) as u16, spec_high(value)).write(sp, spec_low(value))
    }

    /// The 16-bit value on top of the stack.
    pub open spec fn top(self) -> u16 {
        self.read_16(self.reg.sp)
    }

    /// The machine after the top of the stack has been taken off.
    pub open spec fn pop(self) -> CPUState {
        CPUState { reg: Registers { sp: ((self.reg.sp + 2) % 65536) as u16, ..self.reg }, ..self }
    }
}

/// A read does not depend on the register file, and a write leaves the
/// register file and the engine's own counters as they are.
pub proof fn lemma_bus_frame(state: CPUState, reg: Registers, address: u16, value: u8)
    ensures
        state.with_reg(reg).read(address) == state.read(address),
        state.write(address, value).reg == state.reg,
        state.write(address, value).halt == state.halt,
        state.write(address, value).cycles == state.cycles,
        state.write(address, value).dots == state.dots,
        state.with_reg(reg).write(address, value) == state.write(address, value).with_reg(reg),
{
    reveal(CPUState::read);
    reveal(CPUState::write);
    assert(state.with_reg(reg).transferred(value, 0xA0) =~= state.transferred(value, 0xA0));
}

impl CPU {
    /// Reads from given memory address
    pub fn read(&self, address: u16) -> (r: u8)
        ensures
            r == self@.read(address),
    {
        reveal(CPUState::read);
        match region(address) {
            Region::Memory => self.mem.mem_read(address),
            Region::Video => self.ppu.mem_read(address),
            Region::Audio => self.apu.mem_read(address),
            Region::Io => self.io.mem_read(address),
            Region::Interrupts => self.istate.mem_read(address),
            Region::Unmapped => OPEN_BUS,
        }
    }

    /// Reads 16-bit value from given memory address
    pub fn read_16(&self, address: u16) -> (r: u16)
        ensures
            r == self@.read_16(address),
    {
        word(self.read(address.wrapping_add(1)), self.read(address))
    }

    /// Writes to given memory address
    pub fn write(&mut self, address: u16, value: u8)
        ensures
            final(self)@ == old(self)@.write(address, value),
    {
        reveal(CPUState::write);
        if address == DMA_REGISTER {
            self.oam_dma(value);
            return ;
        }
        match region(address) {
            Region::Memory => self.mem.mem_write(address, value),
            Region::Video => self.ppu.mem_write(address, value),
            Region::Audio => self.apu.mem_write(address, value),
            Region::Io => self.io.mem_write(address, value),
            Region::Interrupts => self.istate.mem_write(address, value),
            Region::Unmapped => {},
        }
    }

    /// Returns the immediate 8-bit operand from memory and moves the program
    /// counter past it.
    pub fn read_operand(&mut self) -> (r: u8)
        ensures
            r == old(self)@.operand(),
            final(self)@ == old(self)@.advance(1),
    {
        let value = self.read(self.reg.pc);
        self.reg.pc = self.reg.pc.wrapping_add(1);
        value
    }

    /// Returns the immediate 16-bit operand from memory and moves the program
    /// counter past it.
    pub fn read_operand_16(&mut self) -> (r: u16)
        ensures
            r == old(self)@.operand_16(),
            final(self)@ == old(self)@.advance(2),
    {
        let value = self.read_16(self.reg.pc);
        self.reg.pc = self.reg.pc.wrapping_add(2);
        value
    }

    /// Pops word from memory stack and increments stack pointer.
    pub fn pop(&mut self) -> (r: u16)
        ensures
            r == old(self)@.top(),
            final(self)@ == old(self)@.pop(),
    {
        let val = self.read_16(self.reg.sp);
        self.reg.sp = self.reg.sp.wrapping_add(2);
        val
    }

    /// Pushes word into memory stack and decrements stack pointer
    pub fn push(&mut self, value: u16)
        ensures
            final(self)@ == old(self)@.push(value),
    {
        let sp = self.reg.sp.wrapping_sub(2);
        self.reg.sp = sp;
        self.write(sp.wrapping_add(1), high(value));
        self.write(sp, low(value));
    }

    /// Starts OAM DMA transfer, which copies memory from given source address to OAM
    pub fn oam_dma(&mut self, address: u8)
        ensures
            final(self)@ == old(self)@.oam_dma(address),
    {
        reveal(CPUState::read);
        let source_address: u16 = (address as u16) * 0x100;
        let mut i: u16 = 0;
        assert(self@.ppu.oam =~= old(self)@.transferred(address, 0));
        while i < 0xA0
            invariant
                i <= 0xA0,
                source_address == address * 256,
                self@ == (CPUState {
                    ppu: PPUState { oam: old(self)@.transferred(address, i as int), ..old(self)@.ppu },
                    ..old(self)@
                }),
            decreases 0xA0 - i,
        {
            reveal(CPUState::read);
            let value = self.read(source_address + i);
            assert(value == old(self)@.read((source_address + i) as u16));
            self.ppu.oam[i as usize] = value;
            assert(self@.ppu.oam =~= old(self)@.transferred(address, i + 1));
            i += 1;
        }
    }
}

} // verus!
