//! Snapshots: the whole state of the machine but the cartridge's ROM, as
//! plain values that can be written out and read back, and the way back from
//! a snapshot and the ROM to a machine.
use vstd::prelude::*;
use vstd::slice::slice_to_vec;
use crate::cpu::apu::{APUState, SquareChannel, APU};
use crate::cpu::interrupts::{InterruptFlag, InterruptState};
use crate::cpu::io::IO;
use crate::cpu::mbc::{
    MBC1State, MBC3State, MBCState, NoMBCState, MBC, MBC1, MBC3, NoMBC, RAM_BANK_SIZE,
};
use crate::cpu::memory::{
    spec_load_error, CartridgeError, CartridgeInfo, MBCType, Memory, MemoryState, HEADER_END,
    HEADER_START, MAX_ROM_SIZE_CODE,
};
use crate::cpu::ppu::{PPUControl, PPUState, STATEnable, PPU};
use crate::cpu::registers::Registers;
use crate::cpu::{CPUState, CPU};

verus! {

/// The version of the snapshot layout. A snapshot of another version is
/// refused.
pub const SNAPSHOT_VERSION: u32 = 1;

/// The banking registers of a cartridge. A controller without one of them
/// leaves it at its power-on value.
#[derive(Clone, Copy, PartialEq, Eq, Structural, Debug)]
pub struct BankRegisters {
    pub rom_bank: u8,
    pub ram_bank: u8,
    pub ram_enabled: bool,
    pub advanced_banking: bool,
}

/// The registers and counters of the pixel unit.
#[derive(Clone, Copy, PartialEq, Eq, Structural, Debug)]
pub struct VideoRegisters {
    pub control: PPUControl,
    pub lx: u16,
    pub ly: u8,
    pub bg_x: u8,
    pub bg_y: u8,
    pub win_x: u8,
    pub win_y: u8,
    pub palette: u8,
    pub interrupt_request: InterruptFlag,
    pub stat_enable: STATEnable,
    pub mode: u8,
    pub lyc: u8,
}

/// The registers and counters of the audio unit.
#[derive(Clone, Copy, PartialEq, Eq, Structural, Debug)]
pub struct AudioRegisters {
    pub on: bool,
    pub sample_delay_counter: u32,
    pub sample_delay: u32,
    pub period_delay_counter: u8,
    pub div_apu: u8,
    pub last_div_bit: bool,
    pub square_channel_1: SquareChannel,
    pub square_channel_2: SquareChannel,
}

/// Everything that the machine holds but the cartridge's ROM and the audio
/// samples that wait to be drained.
pub struct Snapshot {
    pub version: u32,
    pub reg: Registers,
    pub halt: bool,
    pub cycles: u8,
    pub dots: u8,
    pub io: IO,
    pub istate: InterruptState,
    pub info: CartridgeInfo,
    pub banks: BankRegisters,
    pub external_ram: Vec<u8>,
    pub wram: Vec<u8>,
    pub hram: Vec<u8>,
    pub video: VideoRegisters,
    pub vram: Vec<u8>,
    pub oam: Vec<u8>,
    pub front_display: Vec<u8>,
    pub back_display: Vec<u8>,
    pub audio: AudioRegisters,
}

/// A `Snapshot` as the contracts see it.
pub struct SnapshotState {
    pub version: u32,
    pub reg: Registers,
    pub halt: bool,
    pub cycles: u8,
    pub dots: u8,
    pub io: IO,
    pub istate: InterruptState,
    pub info: CartridgeInfo,
    pub banks: BankRegisters,
    pub external_ram: Seq<u8>,
    pub wram: Seq<u8>,
    pub hram: Seq<u8>,
    pub video: VideoRegisters,
    pub vram: Seq<u8>,
    pub oam: Seq<u8>,
    pub front_display: Seq<u8>,
    pub back_display: Seq<u8>,
    pub audio: AudioRegisters,
}

impl View for Snapshot {
    type V = SnapshotState;

    open spec fn view(&self) -> SnapshotState {
        SnapshotState {
            version: self.version,
            reg: self.reg,
            halt: self.halt,
            cycles: self.cycles,
            dots: self.dots,
            io: self.io,
            istate: self.istate,
            info: self.info,
            banks: self.banks,
            external_ram: self.external_ram@,
            wram: self.wram@,
            hram: self.hram@,
            video: self.video,
            vram: self.vram@,
            oam: self.oam@,
            front_display: self.front_display@,
            back_display: self.back_display@,
            audio: self.audio,
        }
    }
}

/// Why a snapshot cannot be turned back into a machine.
#[derive(Clone, Copy, PartialEq, Eq, Structural, Debug)]
pub enum SnapshotError {
    /// The snapshot has the layout of another version.
    Version(u32),
    /// The image cannot be loaded at all.
    Cartridge(CartridgeError),
    /// The snapshot was taken with another cartridge.
    CartridgeMismatch,
    /// A memory of the snapshot has not the size that the machine has.
    Size,
}

impl MBCState {
    /// The banking registers of the controller.
    pub open spec fn banks(self) -> BankRegisters {
        match self {
            MBCState::NoMBC(_) => BankRegisters {
                rom_bank: 1,
                ram_bank: 0,
                ram_enabled: false,
                advanced_banking: false,
            },
            MBCState::MBC1(c) => BankRegisters {
                rom_bank: c.rom_bank,
                ram_bank: c.ram_bank,
                ram_enabled: c.ram_enabled,
                advanced_banking: c.advanced_banking,
            },
            MBCState::MBC3(c) => BankRegisters {
                rom_bank: c.rom_bank,
                ram_bank: c.ram_bank,
                ram_enabled: c.ram_enabled,
                advanced_banking: false,
            },
        }
    }

    /// The controller that `info` names, with the ROM, the RAM and the
    /// registers given.
    pub open spec fn assembled(
        rom: Seq<u8>,
        ram: Seq<u8>,
        banks: BankRegisters,
        info: CartridgeInfo,
    ) -> MBCState {
        match info.mbc {
            MBCType::MBC1 => MBCState::MBC1(
                MBC1State {
                    rom,
                    rom_bank: banks.rom_bank,
                    ram,
                    ram_bank: banks.ram_bank,
                    ram_enabled: banks.ram_enabled,
                    advanced_banking: banks.advanced_banking,
                    info,
                },
            ),
            MBCType::MBC3 => MBCState::MBC3(
                MBC3State {
                    rom,
                    rom_bank: banks.rom_bank,
                    ram,
                    ram_bank: banks.ram_bank,
                    ram_enabled: banks.ram_enabled,
                    info,
                },
            ),
            _ => MBCState::NoMBC(NoMBCState { rom, ram }),
        }
    }

    /// Whether the controller is the one that `info` names and goes by `info`.
    pub open spec fn goes_by(self, info: CartridgeInfo) -> bool {
        match self {
            MBCState::NoMBC(_) => info.mbc == MBCType::NoMBC,
            MBCState::MBC1(c) => info.mbc == MBCType::MBC1 && c.info == info,
            MBCState::MBC3(c) => info.mbc == MBCType::MBC3 && c.info == info,
        }
    }
}

impl PPUState {
    /// The registers and counters of the unit.
    pub open spec fn registers(self) -> VideoRegisters {
        VideoRegisters {
            control: self.control,
            lx: self.lx,
            ly: self.ly,
            bg_x: self.bg_x,
            bg_y: self.bg_y,
            win_x: self.win_x,
            win_y: self.win_y,
            palette: self.palette,
            interrupt_request: self.interrupt_request,
            stat_enable: self.stat_enable,
            mode: self.mode,
            lyc: self.lyc,
        }
    }

    /// The unit with the registers and memories given.
    pub open spec fn assembled(
        registers: VideoRegisters,
        vram: Seq<u8>,
        oam: Seq<u8>,
        front_display: Seq<u8>,
        back_display: Seq<u8>,
    ) -> PPUState {
        PPUState {
            front_display,
            back_display,
            vram,
            oam,
            control: registers.control,
            lx: registers.lx,
            ly: registers.ly,
            bg_x: registers.bg_x,
            bg_y: registers.bg_y,
            win_x: registers.win_x,
            win_y: registers.win_y,
            palette: registers.palette,
            interrupt_request: registers.interrupt_request,
            stat_enable: registers.stat_enable,
            mode: registers.mode,
            lyc: registers.lyc,
        }
    }
}

impl APUState {
    /// The registers and counters of the unit.
    pub open spec fn registers(self) -> AudioRegisters {
        AudioRegisters {
            on: self.on,
            sample_delay_counter: self.sample_delay_counter,
            sample_delay: self.sample_delay,
            period_delay_counter: self.period_delay_counter,
            div_apu: self.div_apu,
            last_div_bit: self.last_div_bit,
            square_channel_1: self.square_channel_1,
            square_channel_2: self.square_channel_2,
        }
    }

    /// The unit with the registers given and an empty buffer.
    pub open spec fn assembled(registers: AudioRegisters) -> APUState {
        APUState {
            on: registers.on,
            buffer: Seq::empty(),
            sample_delay_counter: registers.sample_delay_counter,
            sample_delay: registers.sample_delay,
            period_delay_counter: registers.period_delay_counter,
            div_apu: registers.div_apu,
            last_div_bit: registers.last_div_bit,
            square_channel_1: registers.square_channel_1,
            square_channel_2: registers.square_channel_2,
        }
    }
}

impl CPUState {
    /// The ROM of the loaded cartridge.
    pub open spec fn rom(self) -> Seq<u8> {
        self.mem.mbc.rom()
    }

    /// What holds of every machine that was loaded from an image and stepped
    /// from there: the cartridge facts are those of the image's header, the
    /// controller is the one they name, and every memory has its size.
    pub open spec fn consistent(self) -> bool {
        &&& spec_load_error(self.rom()) is None
        &&& self.mem.info == CartridgeInfo::spec_from_header(self.rom().subrange(0x100, 0x150))
        &&& self.mem.mbc.goes_by(self.mem.info)
        &&& self.mem.mbc.ram().len() == RAM_BANK_SIZE * self.mem.info.ram_banks
        &&& self.mem.wram.len() == 0x2000
        &&& self.mem.hram.len() == 0x7F
        &&& self.ppu.vram.len() == 0x2000
        &&& self.ppu.oam.len() == 0xA0
        &&& self.ppu.front_display.len() == 23040
        &&& self.ppu.back_display.len() == 23040
    }

    /// The machine with no audio sample waiting.
    pub open spec fn drained(self) -> CPUState {
        CPUState { apu: self.apu.drained(), ..self }
    }

    /// The snapshot of the machine.
    pub open spec fn snapshot(self) -> SnapshotState {
        SnapshotState {
            version: SNAPSHOT_VERSION,
            reg: self.reg,
            halt: self.halt,
            cycles: self.cycles,
            dots: self.dots,
            io: self.io,
            istate: self.istate,
            info: self.mem.info,
            banks: self.mem.mbc.banks(),
            external_ram: self.mem.mbc.ram(),
            wram: self.mem.wram,
            hram: self.mem.hram,
            video: self.ppu.registers(),
            vram: self.ppu.vram,
            oam: self.ppu.oam,
            front_display: self.ppu.front_display,
            back_display: self.ppu.back_display,
            audio: self.apu.registers(),
        }
    }
}

impl SnapshotState {
    /// Whether every memory of the snapshot has the size that it has in the
    /// machine; for the external RAM that is 8 KiB for each bank.
    pub open spec fn sized(self) -> bool {
        &&& self.external_ram.len() == RAM_BANK_SIZE * self.info.ram_banks
        &&& self.wram.len() == 0x2000
        &&& self.hram.len() == 0x7F
        &&& self.vram.len() == 0x2000
        &&& self.oam.len() == 0xA0
        &&& self.front_display.len() == 23040
        &&& self.back_display.len() == 23040
    }

    /// Why the snapshot cannot be restored around the image `rom`, if it
    /// cannot: the first of the four checks that fails.
    pub open spec fn restore_error(self, rom: Seq<u8>) -> Option<SnapshotError> {
        if self.version != SNAPSHOT_VERSION {
            Some(SnapshotError::Version(self.version))
        } else if spec_load_error(rom) is Some {
            Some(SnapshotError::Cartridge(spec_load_error(rom)->Some_0))
        } else if self.info != CartridgeInfo::spec_from_header(rom.subrange(0x100, 0x150)) {
            Some(SnapshotError::CartridgeMismatch)
        } else if !self.sized() {
            Some(SnapshotError::Size)
        } else {
            None
        }
    }

    /// The machine that the snapshot describes, with the image `rom` in its
    /// cartridge and no audio sample waiting.
    pub open spec fn restored(self, rom: Seq<u8>) -> CPUState {
        CPUState {
            reg: self.reg,
            mem: MemoryState {
                wram: self.wram,
                hram: self.hram,
                info: self.info,
                mbc: MBCState::assembled(rom, self.external_ram, self.banks, self.info),
            },
            ppu: PPUState::assembled(
                self.video,
                self.vram,
                self.oam,
                self.front_display,
                self.back_display,
            ),
            apu: APUState::assembled(self.audio),
            io: self.io,
            istate: self.istate,
            halt: self.halt,
            cycles: self.cycles,
            dots: self.dots,
        }
    }
}

/// A snapshot of a machine, restored around the machine's own ROM, is
/// accepted and gives the machine back, but for the audio samples that
/// waited to be drained.
pub proof fn lemma_snapshot_round_trip(state: CPUState)
    requires
        state.consistent(),
    ensures
        state.snapshot().restore_error(state.rom()) is None,
        state.snapshot().restored(state.rom()) == state.drained(),
{
    reveal(CPUState::consistent);
    let restored = state.snapshot().restored(state.rom());
    assert(restored.mem.mbc == state.mem.mbc);
    assert(restored.ppu == state.ppu);
    assert(restored.apu == state.apu.drained());
}

/// A machine fresh from its image is consistent.
pub proof fn lemma_power_on_consistent(rom: Seq<u8>, sample_rate: u32)
    requires
        spec_load_error(rom) is None,
    ensures
        CPUState::power_on(rom, sample_rate).consistent(),
{
    reveal(CPUState::consistent);
}

impl MBC {
    /// The banking registers of the controller.
    pub fn banks(&self) -> (r: BankRegisters)
        ensures
            r == self@.banks(),
    {
        match self {
            MBC::NoMBC(_) => BankRegisters {
                rom_bank: 1,
                ram_bank: 0,
                ram_enabled: false,
                advanced_banking: false,
            },
            MBC::MBC1(c) => BankRegisters {
                rom_bank: c.rom_bank,
                ram_bank: c.ram_bank,
                ram_enabled: c.ram_enabled,
                advanced_banking: c.advanced_banking,
            },
            MBC::MBC3(c) => BankRegisters {
                rom_bank: c.rom_bank,
                ram_bank: c.ram_bank,
                ram_enabled: c.ram_enabled,
                advanced_banking: false,
            },
        }
    }

    /// A copy of the external RAM.
    pub fn ram(&self) -> (r: Vec<u8>)
        ensures
            r@ == self@.ram(),
    {
        match self {
            MBC::NoMBC(c) => slice_to_vec(c.ram.as_slice()),
            MBC::MBC1(c) => slice_to_vec(c.ram.as_slice()),
            MBC::MBC3(c) => slice_to_vec(c.ram.as_slice()),
        }
    }

    /// Puts the controller that `info` names together from its parts.
    pub fn assemble(rom: Vec<u8>, ram: Vec<u8>, banks: BankRegisters, info: CartridgeInfo) -> (r:
        MBC)
        ensures
            r@ == MBCState::assembled(rom@, ram@, banks, info),
    {
        match info.mbc {
            MBCType::MBC1 => MBC::MBC1(
                MBC1 {
                    rom,
                    rom_bank: banks.rom_bank,
                    ram,
                    ram_bank: banks.ram_bank,
                    ram_enabled: banks.ram_enabled,
                    advanced_banking: banks.advanced_banking,
                    info,
                },
            ),
            MBCType::MBC3 => MBC::MBC3(
                MBC3 {
                    rom,
                    rom_bank: banks.rom_bank,
                    ram,
                    ram_bank: banks.ram_bank,
                    ram_enabled: banks.ram_enabled,
                    info,
                },
            ),
            _ => MBC::NoMBC(NoMBC { rom, ram }),
        }
    }
}

impl Snapshot {
    /// Whether every memory of the snapshot has the size that it has in the
    /// machine.
    pub fn sized(&self) -> (r: bool)
        ensures
            r == self@.sized(),
    {
        self.external_ram.len() == RAM_BANK_SIZE * (self.info.ram_banks as usize)
            && self.wram.len() == 0x2000 && self.hram.len() == 0x7F && self.vram.len() == 0x2000
            && self.oam.len() == 0xA0 && self.front_display.len() == 23040
            && self.back_display.len() == 23040
    }
}

impl CPU {
    /// Takes a snapshot of the machine.
    pub fn snapshot(&self) -> (r: Snapshot)
        ensures
            r@ == self@.snapshot(),
    {
        Snapshot {
            version: SNAPSHOT_VERSION,
            reg: self.reg,
            halt: self.halt,
            cycles: self.cycles,
            dots: self.dots,
            io: self.io,
            istate: self.istate,
            info: self.mem.info,
            banks: self.mem.mbc.banks(),
            external_ram: self.mem.mbc.ram(),
            wram: slice_to_vec(self.mem.wram.as_slice()),
            hram: slice_to_vec(self.mem.hram.as_slice()),
            video: VideoRegisters {
                control: self.ppu.control,
                lx: self.ppu.lx,
                ly: self.ppu.ly,
                bg_x: self.ppu.bg_x,
                bg_y: self.ppu.bg_y,
                win_x: self.ppu.win_x,
                win_y: self.ppu.win_y,
                palette: self.ppu.palette,
                interrupt_request: self.ppu.interrupt_request,
                stat_enable: self.ppu.stat_enable,
                mode: self.ppu.mode,
                lyc: self.ppu.lyc,
            },
            vram: slice_to_vec(self.ppu.vram.as_slice()),
            oam: slice_to_vec(self.ppu.oam.as_slice()),
            front_display: slice_to_vec(self.ppu.front_display.as_slice()),
            back_display: slice_to_vec(self.ppu.back_display.as_slice()),
            audio: AudioRegisters {
                on: self.apu.on,
                sample_delay_counter: self.apu.sample_delay_counter,
                sample_delay: self.apu.sample_delay,
                period_delay_counter: self.apu.period_delay_counter,
                div_apu: self.apu.div_apu,
                last_div_bit: self.apu.last_div_bit,
                square_channel_1: self.apu.square_channel_1,
                square_channel_2: self.apu.square_channel_2,
            },
        }
    }

    /// Puts a machine together from a snapshot and the image of the cartridge
    /// that the snapshot was taken with. The snapshot is refused if it is of
    /// another version, if the image cannot be loaded, if the image's header
    /// is not the one that the snapshot was taken with, or if one of its
    /// memories has the wrong size; nothing is built then.
    pub fn restore(snapshot: Snapshot, rom_file: Vec<u8>) -> (r: Result<CPU, SnapshotError>)
        ensures
            match snapshot@.restore_error(rom_file@) {
                Some(e) => r == Err::<CPU, SnapshotError>(e),
                None => r is Ok && r->Ok_0@ == snapshot@.restored(rom_file@),
            },
    {
        if snapshot.version != SNAPSHOT_VERSION {
            return Err(SnapshotError::Version(snapshot.version));
        }
        if rom_file.len() < HEADER_END {
            return Err(SnapshotError::Cartridge(CartridgeError::TruncatedHeader));
        }
        if rom_file[0x148] > MAX_ROM_SIZE_CODE {
            return Err(SnapshotError::Cartridge(CartridgeError::RomSize(rom_file[0x148])));
        }
        let header = vstd::slice::slice_subrange(rom_file.as_slice(), HEADER_START, HEADER_END);
        let info = CartridgeInfo::from_header(header);
        match info.mbc {
            MBCType::NoMBC | MBCType::MBC1 | MBCType::MBC3 => {},
            other => {
                return Err(
                    SnapshotError::Cartridge(CartridgeError::UnsupportedController(other)),
                );
            },
        }
        if snapshot.info != info {
            return Err(SnapshotError::CartridgeMismatch);
        }
        if !snapshot.sized() {
            return Err(SnapshotError::Size);
        }
        let wram: [u8; 0x2000] = Memory::load_range(snapshot.wram.as_slice(), 0);
        let hram: [u8; 0x7F] = Memory::load_range(snapshot.hram.as_slice(), 0);
        let vram: [u8; 0x2000] = Memory::load_range(snapshot.vram.as_slice(), 0);
        let oam: [u8; 0xA0] = Memory::load_range(snapshot.oam.as_slice(), 0);
        let front_display: [u8; 23040] = Memory::load_range(snapshot.front_display.as_slice(), 0);
        let back_display: [u8; 23040] = Memory::load_range(snapshot.back_display.as_slice(), 0);
        assert(wram@ =~= snapshot@.wram);
        assert(hram@ =~= snapshot@.hram);
        assert(vram@ =~= snapshot@.vram);
        assert(oam@ =~= snapshot@.oam);
        assert(front_display@ =~= snapshot@.front_display);
        assert(back_display@ =~= snapshot@.back_display);
        let video = snapshot.video;
        let audio = snapshot.audio;
        Ok(
            CPU {
                reg: snapshot.reg,
                mem: Memory {
                    wram,
                    hram,
                    info,
                    mbc: MBC::assemble(rom_file, snapshot.external_ram, snapshot.banks, info),
                },
                ppu: PPU {
                    front_display,
                    back_display,
                    vram,
                    oam,
                    control: video.control,
                    lx: video.lx,
                    ly: video.ly,
                    bg_x: video.bg_x,
                    bg_y: video.bg_y,
                    win_x: video.win_x,
                    win_y: video.win_y,
                    palette: video.palette,
                    interrupt_request: video.interrupt_request,
                    stat_enable: video.stat_enable,
                    mode: video.mode,
                    lyc: video.lyc,
                },
                apu: APU {
                    on: audio.on,
                    buffer: Vec::new(),
                    sample_delay_counter: audio.sample_delay_counter,
                    sample_delay: audio.sample_delay,
                    period_delay_counter: audio.period_delay_counter,
                    div_apu: audio.div_apu,
                    last_div_bit: audio.last_div_bit,
                    square_channel_1: audio.square_channel_1,
                    square_channel_2: audio.square_channel_2,
                },
                io: snapshot.io,
                istate: snapshot.istate,
                halt: snapshot.halt,
                cycles: snapshot.cycles,
                dots: snapshot.dots,
            },
        )
    }
}

} // verus!
