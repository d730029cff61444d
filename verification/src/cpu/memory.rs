//! What a cartridge's header says of it, and the memory that the engine owns:
//! the cartridge behind its bank controller, work RAM and high RAM.
use vstd::prelude::*;
use core::ops::RangeInclusive;
use crate::cpu::readwrite::{in_ranges, MemoryAccess};
use crate::cpu::bits::{lemma_pow2_bounds, pow2};
use crate::cpu::mbc::{MBCState, MBC, MBC1, MBC3, NoMBC};

verus! {

/// The bank controllers that a cartridge header can name.
#[derive(Clone, Copy, PartialEq, Eq, Structural, Debug)]
pub enum MBCType {
    NoMBC,
    MBC1,
    MBC2,
    MMM01,
    MBC3,
    MBC5,
    MBC6,
    MBC7,
}

/// The facts about a cartridge that its header holds.
#[derive(Clone, Copy, PartialEq, Eq, Structural, Debug)]
pub struct CartridgeInfo {
    /// Type of memory bank controller.
    pub mbc: MBCType,
    /// Whether the cartridge provides external RAM.
    pub has_ram: bool,
    /// Whether the cartridge keeps its external RAM on a battery.
    pub has_battery: bool,
    /// Number of 16 KiB ROM banks.
    pub rom_banks: u16,
    /// Number of 8 KiB RAM banks.
    pub ram_banks: u16,
}

/// Why a cartridge image cannot be run.
#[derive(Clone, Copy, PartialEq, Eq, Structural, Debug)]
pub enum CartridgeError {
    /// The image ends before the end of its header.
    TruncatedHeader,
    /// The ROM size byte asks for more banks than a bank count can hold.
    RomSize(u8),
    /// The header names a bank controller that the engine does not provide.
    UnsupportedController(MBCType),
}

/// The offset of the header in a cartridge image, and the offset behind it.
pub const HEADER_START: usize = 0x0100;

pub const HEADER_END: usize = 0x0150;

/// The largest ROM size byte whose bank count fits in 16 bits.
pub const MAX_ROM_SIZE_CODE: u8 = 14;

impl CartridgeInfo {
    /// The controller that the cartridge type byte names.
    pub open spec fn spec_controller(kind: u8) -> MBCType {
        if 0x01 <= kind <= 0x03 {
            MBCType::MBC1
        } else if 0x05 <= kind <= 0x06 {
            MBCType::MBC2
        } else if 0x0B <= kind <= 0x0D {
            MBCType::MMM01
        } else if 0x0F <= kind <= 0x13 {
            MBCType::MBC3
        } else if 0x19 <= kind <= 0x1E {
            MBCType::MBC5
        } else if kind == 0x20 {
            MBCType::MBC6
        } else if kind == 0x22 {
            MBCType::MBC7
        } else {
            MBCType::NoMBC
        }
    }

    /// Whether the cartridge type byte announces external RAM.
    pub open spec fn spec_has_ram(kind: u8) -> bool {
        kind == 0x02 || kind == 0x03 || kind == 0x0C || kind == 0x0D || kind == 0x10 || kind
            == 0x12 || kind == 0x13 || kind == 0x1A || kind == 0x1B || kind == 0x1D || kind
            == 0x1E || kind == 0x22
    }

    /// Whether the cartridge type byte announces a battery.
    pub open spec fn spec_has_battery(kind: u8) -> bool {
        kind == 0x03 || kind == 0x06 || kind == 0x0D || kind == 0x0F || kind == 0x10 || kind
            == 0x13 || kind == 0x1B || kind == 0x1E || kind == 0x22
    }

    /// The number of RAM banks that the RAM size byte stands for.
    pub open spec fn spec_ram_banks(code: u8) -> u16 {
        if code == 0x02 {
            1
        } else if code == 0x03 {
            4
        } else if code == 0x04 {
            16
        } else if code == 0x05 {
            8
        } else {
            0
        }
    }

    /// The header, read at its offsets within the header window: the type
    /// byte at `0x47`, the ROM size byte at `0x48`, which stands for
    /// `2^(1 + value)` banks, and the RAM size byte at `0x49`, which counts only
    /// where the type announces RAM.
    pub open spec fn spec_from_header(header: Seq<u8>) -> CartridgeInfo {
        CartridgeInfo {
            mbc: Self::spec_controller(header[0x47]),
            has_ram: Self::spec_has_ram(header[0x47]),
            has_battery: Self::spec_has_battery(header[0x47]),
            rom_banks: pow2((1 + header[0x48]) as nat) as u16,
            ram_banks: if Self::spec_has_ram(header[0x47]) {
                Self::spec_ram_banks(header[0x49])
            } else {
                0
            },
        }
    }

    /// What every header yields: at least two ROM banks, and no RAM bank
    /// without RAM.
    pub open spec fn wf(&self) -> bool {
        &&& self.rom_banks >= 2
        &&& !self.has_ram ==> self.ram_banks == 0
    }

    /// Returns info about cartridge features from the ROM header.
    pub fn from_header(header: &[u8]) -> (r: CartridgeInfo)
        requires
            header@.len() > 0x49,
            header@[0x48] <= MAX_ROM_SIZE_CODE,
        ensures
            r == CartridgeInfo::spec_from_header(header@),
            r.wf(),
    {
        let kind = header[0x47];
        let mbc = match kind {
            0x01..=0x03 => MBCType::MBC1,
            0x05..=0x06 => MBCType::MBC2,
            0x0B..=0x0D => MBCType::MMM01,
            0x0F..=0x13 => MBCType::MBC3,
            0x19..=0x1E => MBCType::MBC5,
            0x20 => MBCType::MBC6,
            0x22 => MBCType::MBC7,
            _ => MBCType::NoMBC,
        };
        let has_ram = matches!(
            kind,
            0x02 | 0x03 | 0x0C | 0x0D | 0x10 | 0x12 | 0x13 | 0x1A | 0x1B | 0x1D | 0x1E | 0x22
        );
        let has_battery = matches!(
            kind,
            0x03 | 0x06 | 0x0D | 0x0F | 0x10 | 0x13 | 0x1B | 0x1E | 0x22
        );
        let size_code = header[0x48];
        let mut rom_banks: u16 = 2;
        let mut i: u8 = 0;
        proof {
            reveal_with_fuel(pow2, 2);
        }
        while i < size_code
            invariant
                i <= size_code <= MAX_ROM_SIZE_CODE,
                rom_banks == pow2((1 + i) as nat),
            decreases size_code - i,
        {
            proof {
                lemma_pow2_bounds((2 + i) as nat, 15);
            }
            rom_banks = rom_banks * 2;
            i = i + 1;
        }
        proof {
            lemma_pow2_bounds(1, (1 + size_code) as nat);
            reveal_with_fuel(pow2, 2);
        }
        let ram_banks: u16 = if !has_ram {
            0
        } else {
            match header[0x49] {
                0x02 => 1,
                0x03 => 4,
                0x04 => 16,
                0x05 => 8,
                _ => 0,
            }
        };
        CartridgeInfo { mbc, has_ram, has_battery, rom_banks, ram_banks }
    }
}

/// The memory behind the bus that is not a device: the cartridge, 8 KiB of
/// work RAM and 127 bytes of high RAM.
pub struct Memory {
    pub wram: [u8; 0x2000],
    pub hram: [u8; 0x7F],
    pub info: CartridgeInfo,
    pub mbc: MBC,
}

/// A `Memory` as the contracts see it.
pub struct MemoryState {
    pub wram: Seq<u8>,
    pub hram: Seq<u8>,
    pub info: CartridgeInfo,
    pub mbc: MBCState,
}

impl View for Memory {
    type V = MemoryState;

    open spec fn view(&self) -> MemoryState {
        MemoryState { wram: self.wram@, hram: self.hram@, info: self.info, mbc: self.mbc@ }
    }
}

/// Whether the engine can run a cartridge with this controller.
pub open spec fn spec_supported(mbc: MBCType) -> bool {
    mbc == MBCType::NoMBC || mbc == MBCType::MBC1 || mbc == MBCType::MBC3
}

/// Why the image `rom` cannot be loaded, if it cannot.
pub open spec fn spec_load_error(rom: Seq<u8>) -> Option<CartridgeError> {
    if rom.len() < HEADER_END {
        Some(CartridgeError::TruncatedHeader)
    } else if rom[0x148] > MAX_ROM_SIZE_CODE {
        Some(CartridgeError::RomSize(rom[0x148]))
    } else if !spec_supported(CartridgeInfo::spec_controller(rom[0x147])) {
        Some(CartridgeError::UnsupportedController(CartridgeInfo::spec_controller(rom[0x147])))
    } else {
        None
    }
}

impl MemoryState {
    /// The memory that loading the image `rom` gives: the controller that the
    /// header names, at its power-on state, and cleared RAM.
    pub open spec fn loaded(rom: Seq<u8>) -> MemoryState {
        let info = CartridgeInfo::spec_from_header(rom.subrange(0x100, 0x150));
        MemoryState {
            wram: Seq::new(0x2000, |i: int| 0u8),
            hram: Seq::new(0x7F, |i: int| 0u8),
            info,
            mbc: MBCState::power_on(rom, info),
        }
    }

    /// The ranges that the memory serves: ROM, external RAM, work RAM and
    /// high RAM.
    pub open spec fn handles(address: u16) -> bool {
        address <= 0x7FFF || 0xA000 <= address <= 0xDFFF || 0xFF80 <= address <= 0xFFFE
    }

    /// What ROM, external RAM, work RAM and high RAM read.
    pub open spec fn mem_read(self, address: u16) -> u8 {
        if address <= 0x7FFF || 0xA000 <= address <= 0xBFFF {
            self.mbc.read(address)
        } else if 0xC000 <= address <= 0xDFFF {
            self.wram[address - 0xC000]
        } else if 0xFF80 <= address <= 0xFFFE {
            self.hram[address - 0xFF80]
        } else {
            0xFF
        }
    }

    /// A write into ROM sets a banking register; a write into a RAM changes
    /// the byte.
    pub open spec fn mem_write(self, address: u16, value: u8) -> MemoryState {
        if address <= 0x7FFF || 0xA000 <= address <= 0xBFFF {
            MemoryState { mbc: self.mbc.write(address, value), ..self }
        } else if 0xC000 <= address <= 0xDFFF {
            MemoryState { wram: self.wram.update(address - 0xC000, value), ..self }
        } else if 0xFF80 <= address <= 0xFFFE {
            MemoryState { hram: self.hram.update(address - 0xFF80, value), ..self }
        } else {
            self
        }
    }
}

impl Memory {
    /// Takes a cartridge image and sets up the memory around it. An image
    /// that is too short to hold a header, that asks for an impossible number
    /// of banks or that needs a controller other than the three provided is
    /// refused.
    pub fn new(rom_file: Vec<u8>) -> (r: Result<Memory, CartridgeError>)
        ensures
            match spec_load_error(rom_file@) {
                Some(e) => r == Err::<Memory, CartridgeError>(e),
                None => r is Ok && r->Ok_0@ == MemoryState::loaded(rom_file@),
            },
    {
        if rom_file.len() < HEADER_END {
            return Err(CartridgeError::TruncatedHeader);
        }
        if rom_file[0x148] > MAX_ROM_SIZE_CODE {
            return Err(CartridgeError::RomSize(rom_file[0x148]));
        }
        let header = vstd::slice::slice_subrange(rom_file.as_slice(), HEADER_START, HEADER_END);
        let info = CartridgeInfo::from_header(header);
        let mbc = match info.mbc {
            MBCType::NoMBC => MBC::NoMBC(NoMBC::init(rom_file, info)),
            MBCType::MBC1 => MBC::MBC1(MBC1::init(rom_file, info)),
            MBCType::MBC3 => MBC::MBC3(MBC3::init(rom_file, info)),
            other => {
                return Err(CartridgeError::UnsupportedController(other));
            },
        };
        let memory = Memory { wram: [0u8; 0x2000], hram: [0u8; 0x7F], info, mbc };
        assert(memory.wram@ =~= Seq::new(0x2000, |i: int| 0u8));
        assert(memory.hram@ =~= Seq::new(0x7F, |i: int| 0u8));
        Ok(memory)
    }
}

/// The `SIZE` bytes of `rom` from `start` on.
pub open spec fn spec_load_range(rom: Seq<u8>, start: int, size: int) -> Seq<u8> {
    rom.subrange(start, start + size)
}

impl Memory {
    /// Copies `SIZE` bytes of `rom`, from `start` on, into an array.
    pub fn load_range<const SIZE: usize>(rom: &[u8], start: usize) -> (range: [u8; SIZE])
        requires
            start + SIZE <= rom@.len(),
        ensures
            range@ == spec_load_range(rom@, start as int, SIZE as int),
    {
        let mut range: [u8; SIZE] = [0; SIZE];
        let len = rom.len();
        let mut i: usize = 0;
        while i < SIZE
            invariant
                i <= SIZE,
                start + SIZE <= len,
                len == rom@.len(),
                forall|j: int| 0 <= j < i ==> range@[j] == rom@[start + j],
            decreases SIZE - i,
        {
            range[i] = rom[start + i];
            i += 1;
        }
        assert(range@ =~= spec_load_range(rom@, start as int, SIZE as int));
        range
    }
}

impl MemoryAccess for Memory {
    open spec fn handles(address: u16) -> bool {
        MemoryState::handles(address)
    }

    open spec fn peek(state: Self::V, address: u16) -> u8 {
        state.mem_read(address)
    }

    open spec fn poke(state: Self::V, address: u16, value: u8) -> Self::V {
        state.mem_write(address, value)
    }

    fn get_range(&self) -> (ranges: Vec<RangeInclusive<u16>>) {
        let mut ranges: Vec<RangeInclusive<u16>> = Vec::new();
        ranges.push(RangeInclusive::new(0x0000, 0x7FFF));
        ranges.push(RangeInclusive::new(0xA000, 0xDFFF));
        ranges.push(RangeInclusive::new(0xFF80, 0xFFFE));
        assert forall|address: u16| in_ranges(ranges@, address) <==> Self::handles(address) by {
            if 0x0000 <= address <= 0x7FFF {
                assert(ranges@[0]@.start <= address <= ranges@[0]@.end);
            } else if 0xA000 <= address <= 0xDFFF {
                assert(ranges@[1]@.start <= address <= ranges@[1]@.end);
            } else if 0xFF80 <= address <= 0xFFFE {
                assert(ranges@[2]@.start <= address <= ranges@[2]@.end);
            }
        }
        ranges
    }

    fn mem_read(&self, address: u16) -> (r: u8)
    {
        match address {
            0x0000..=0x7FFF | 0xA000..=0xBFFF => self.mbc.read(address),
            0xC000..=0xDFFF => self.wram[(address - 0xC000) as usize],
            0xFF80..=0xFFFE => self.hram[(address - 0xFF80) as usize],
            _ => 0xFF,
        }
    }

    fn mem_write(&mut self, address: u16, value: u8)
    {
        match address {
            0x0000..=0x7FFF | 0xA000..=0xBFFF => self.mbc.write(address, value),
            0xC000..=0xDFFF => {
                self.wram[(address - 0xC000) as usize] = value;
            },
            0xFF80..=0xFFFE => {
                self.hram[(address - 0xFF80) as usize] = value;
            },
            _ => {},
        }
    }
}

} // verus!
