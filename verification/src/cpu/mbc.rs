//! The cartridge's bank controllers. Each maps the ROM window `0x0000..=0x7FFF`
//! and the external RAM window `0xA000..=0xBFFF` onto the cartridge's byte
//! buffers; a write into the ROM window sets a banking register.
use vstd::prelude::*;
use crate::cpu::bits::lemma_and_bounds;
use crate::cpu::memory::{CartridgeInfo, MBCType};

verus! {

/// The size of a ROM bank and of a RAM bank.
pub const ROM_BANK_SIZE: usize = 0x4000;

pub const RAM_BANK_SIZE: usize = 0x2000;

/// The byte of `buffer` at `offset`, or `0xFF` where the offset lies outside.
pub open spec fn byte_at(buffer: Seq<u8>, offset: int) -> u8 {
    if 0 <= offset < buffer.len() {
        buffer[offset]
    } else {
        0xFF
    }
}

/// `buffer` with the byte at `offset` replaced; unchanged where the offset
/// lies outside.
pub open spec fn with_byte(buffer: Seq<u8>, offset: int, value: u8) -> Seq<u8> {
    if 0 <= offset < buffer.len() {
        buffer.update(offset, value)
    } else {
        buffer
    }
}

/// The first mask of the row `mask`, `2 * mask + 1`, ... that reaches
/// `count - 1`, or 255 if none below does.
pub open spec fn spec_mask_from(count: u16, mask: u8) -> u8
    decreases 255 - mask,
{
    if mask + 1 >= count || mask > 127 {
        mask
    } else {
        spec_mask_from(count, (2 * mask + 1) as u8)
    }
}

/// The ones that a banking register keeps for `count` banks: as many low bits
/// as it takes to tell `count` banks apart, eight at most.
pub open spec fn spec_bank_mask(count: u16) -> u8 {
    spec_mask_from(count, 0)
}

/// Whether `mask` is a run of low ones.
pub open spec fn low_ones(mask: u8) -> bool {
    mask == 0 || mask == 1 || mask == 3 || mask == 7 || mask == 15 || mask == 31 || mask == 63
        || mask == 127 || mask == 255
}

/// The ones that a banking register keeps for `count` banks.
#[verifier::when_used_as_spec(spec_bank_mask)]
pub fn bank_mask(count: u16) -> (r: u8)
    ensures
        r == spec_bank_mask(count),
        low_ones(r),
{
    let mut mask: u8 = 0;
    while (mask as u16) + 1 < count && mask <= 127
        invariant
            low_ones(mask),
            spec_mask_from(count, mask) == spec_bank_mask(count),
        decreases 255 - mask,
    {
        mask = 2 * mask + 1;
    }
    mask
}

/// The ones that a ROM bank register keeps for `count` banks: as many low
/// bits as it takes to tell the banks apart, and never fewer than one. A
/// cartridge has two ROM banks at least, so the lowest bit is always wired.
pub open spec fn spec_rom_bank_mask(count: u16) -> u8 {
    if spec_bank_mask(count) == 0 {
        1
    } else {
        spec_bank_mask(count)
    }
}

/// The ones that a ROM bank register keeps for `count` banks.
#[verifier::when_used_as_spec(spec_rom_bank_mask)]
pub fn rom_bank_mask(count: u16) -> (r: u8)
    ensures
        r == spec_rom_bank_mask(count),
        low_ones(r),
        r >= 1,
{
    let mask = bank_mask(count);
    if mask == 0 {
        1
    } else {
        mask
    }
}

/// The mask for `count` banks is the least run of low ones that can number
/// `count` banks: it reaches `count - 1`, and the run one bit shorter does
/// not. Past 256 banks it is the full byte.
pub proof fn lemma_bank_mask_least(count: u16)
    ensures
        low_ones(spec_bank_mask(count)),
        count <= 256 ==> spec_bank_mask(count) + 1 >= count,
        count > 256 ==> spec_bank_mask(count) == 255,
        spec_bank_mask(count) > 0 ==> (spec_bank_mask(count) - 1) / 2 + 1 < count,
{
    reveal_with_fuel(spec_mask_from, 10);
}

/// A cartridge without a bank controller.
pub struct NoMBC {
    pub rom: Vec<u8>,
    pub ram: Vec<u8>,
}

pub struct NoMBCState {
    pub rom: Seq<u8>,
    pub ram: Seq<u8>,
}

impl View for NoMBC {
    type V = NoMBCState;

    open spec fn view(&self) -> NoMBCState {
        NoMBCState { rom: self.rom@, ram: self.ram@ }
    }
}

/// External RAM as it is at power-on: 8 KiB for each bank, all zero.
pub open spec fn cleared_ram(info: CartridgeInfo) -> Seq<u8> {
    Seq::new((RAM_BANK_SIZE * info.ram_banks) as nat, |i: int| 0u8)
}

fn new_ram(info: CartridgeInfo) -> (ram: Vec<u8>)
    ensures
        ram@ == cleared_ram(info),
{
    let ram = vec![0u8; RAM_BANK_SIZE * (info.ram_banks as usize)];
    assert(ram@ =~= cleared_ram(info));
    ram
}

impl NoMBCState {
    /// ROM and RAM are read at the address's own offset in their window.
    pub open spec fn read(self, address: u16) -> u8 {
        if address <= 0x7FFF {
            byte_at(self.rom, address as int)
        } else if 0xA000 <= address <= 0xBFFF {
            byte_at(self.ram, address - 0xA000)
        } else {
            0xFF
        }
    }

    /// Only a write into the RAM window changes anything.
    pub open spec fn write(self, address: u16, value: u8) -> NoMBCState {
        if 0xA000 <= address <= 0xBFFF {
            NoMBCState { ram: with_byte(self.ram, address - 0xA000, value), ..self }
        } else {
            self
        }
    }
}

impl NoMBC {
    /// The controller at power-on, around the image `rom_file`.
    pub fn init(rom_file: Vec<u8>, info: CartridgeInfo) -> (r: NoMBC)
        ensures
            r@ == (NoMBCState { rom: rom_file@, ram: cleared_ram(info) }),
    {
        NoMBC { rom: rom_file, ram: new_ram(info) }
    }

    /// ROM and RAM are read at the address's own offset in their window.
    pub fn read(&self, address: u16) -> (r: u8)
        ensures
            r == self@.read(address),
    {
        match address {
            0x0000..=0x7FFF => read_byte(&self.rom, address as usize),
            0xA000..=0xBFFF => read_byte(&self.ram, (address - 0xA000) as usize),
            _ => 0xFF,
        }
    }

    /// Only a write into the RAM window changes anything.
    pub fn write(&mut self, address: u16, value: u8)
        ensures
            final(self)@ == old(self)@.write(address, value),
    {
        if address >= 0xA000 && address <= 0xBFFF {
            write_byte(&mut self.ram, (address - 0xA000) as usize, value);
        }
    }
}

/// Reads `buffer` at `offset`; an offset past the end reads as `0xFF`.
pub fn read_byte(buffer: &Vec<u8>, offset: usize) -> (r: u8)
    ensures
        r == byte_at(buffer@, offset as int),
{
    if offset < buffer.len() {
        buffer[offset]
    } else {
        0xFF
    }
}

/// Writes `buffer` at `offset`; a write past the end is dropped.
pub fn write_byte(buffer: &mut Vec<u8>, offset: usize, value: u8)
    ensures
        final(buffer)@ == with_byte(old(buffer)@, offset as int, value),
{
    if offset < buffer.len() {
        buffer[offset] = value;
    }
}

/// The first bank controller: a 5-bit ROM bank register, a 2-bit secondary
/// register and a mode latch that says what the secondary register selects.
pub struct MBC1 {
    pub rom: Vec<u8>,
    pub rom_bank: u8,
    pub ram: Vec<u8>,
    pub ram_bank: u8,
    pub ram_enabled: bool,
    pub advanced_banking: bool,
    pub info: CartridgeInfo,
}

pub struct MBC1State {
    pub rom: Seq<u8>,
    pub rom_bank: u8,
    pub ram: Seq<u8>,
    pub ram_bank: u8,
    pub ram_enabled: bool,
    pub advanced_banking: bool,
    pub info: CartridgeInfo,
}

impl View for MBC1 {
    type V = MBC1State;

    open spec fn view(&self) -> MBC1State {
        MBC1State {
            rom: self.rom@,
            rom_bank: self.rom_bank,
            ram: self.ram@,
            ram_bank: self.ram_bank,
            ram_enabled: self.ram_enabled,
            advanced_banking: self.advanced_banking,
            info: self.info,
        }
    }
}

/// Whether a value written to the RAM enable window enables the RAM: its low
/// four bits are `0x0A`.
pub open spec fn spec_enables_ram(value: u8) -> bool {
    value & 0x0F == 0x0A
}

impl MBC1State {
    /// The bits of the ROM bank register that are wired for this cartridge.
    pub open spec fn rom_mask(self) -> u8 {
        spec_rom_bank_mask(self.info.rom_banks) & 0x1F
    }

    /// The 32-bank block that the secondary register selects. It counts only
    /// on cartridges of more than 32 banks, and its upper bit only on those of
    /// more than 64.
    pub open spec fn upper_rom_bank(self) -> int {
        if self.info.rom_banks > 32 {
            32 * (self.ram_bank & (if self.info.rom_banks <= 64 { 0x01u8 } else { 0x03u8 }))
        } else {
            0
        }
    }

    /// The offset in the ROM that an address of the ROM window stands for. The
    /// lower half of the window shows bank 0, or in the advanced mode the first
    /// bank of the selected block; the upper half shows the selected bank.
    pub open spec fn rom_offset(self, address: u16) -> int {
        if address < 0x4000 {
            (if self.advanced_banking { self.upper_rom_bank() } else { 0 }) * 0x4000 + address
        } else {
            (self.rom_bank + self.upper_rom_bank()) * 0x4000 + (address - 0x4000)
        }
    }

    /// The RAM bank in use: the secondary register in the advanced mode, as
    /// far as the cartridge has banks to select, and bank 0 otherwise.
    pub open spec fn ram_bank_in_use(self) -> int {
        if self.advanced_banking && self.info.ram_banks > 1 {
            (self.ram_bank & (if self.info.ram_banks <= 2 { 0x01u8 } else { 0x03u8 })) as int
        } else {
            0
        }
    }

    /// The offset in the RAM that an address of the RAM window stands for.
    pub open spec fn ram_offset(self, address: u16) -> int {
        self.ram_bank_in_use() * 0x2000 + (address - 0xA000)
    }

    /// What a read of `address` gives.
    pub open spec fn read(self, address: u16) -> u8 {
        if address <= 0x7FFF {
            byte_at(self.rom, self.rom_offset(address))
        } else if 0xA000 <= address <= 0xBFFF {
            if self.ram_enabled {
                byte_at(self.ram, self.ram_offset(address))
            } else {
                0xFF
            }
        } else {
            0xFF
        }
    }

    /// The value that a write of `value` leaves in the ROM bank register: the
    /// wired bits of the value, but 1 where the value's low five bits are zero.
    pub open spec fn selected_rom_bank(self, value: u8) -> u8 {
        if value & 0x1F == 0 {
            1
        } else {
            value & self.rom_mask()
        }
    }

    /// The controller after a write of `value` to `address`.
    pub open spec fn write(self, address: u16, value: u8) -> MBC1State {
        if address <= 0x1FFF {
            MBC1State { ram_enabled: spec_enables_ram(value), ..self }
        } else if address <= 0x3FFF {
            MBC1State { rom_bank: self.selected_rom_bank(value), ..self }
        } else if address <= 0x5FFF {
            MBC1State { ram_bank: value & 0x03, ..self }
        } else if address <= 0x7FFF {
            MBC1State { advanced_banking: value & 0x01 != 0, ..self }
        } else if 0xA000 <= address <= 0xBFFF && self.ram_enabled {
            MBC1State { ram: with_byte(self.ram, self.ram_offset(address), value), ..self }
        } else {
            self
        }
    }

    /// Writing `0x00` to the ROM bank window leaves the controller where
    /// writing `0x01` leaves it, so every read that follows gives the same.
    /// This holds whatever the cartridge facts say.
    pub proof fn lemma_zero_selects_one(self, window: u16, address: u16)
        requires
            0x2000 <= window <= 0x3FFF,
        ensures
            self.write(window, 0x00) == self.write(window, 0x01),
            self.write(window, 0x00).rom_bank == 1,
            self.write(window, 0x00).read(address) == self.write(window, 0x01).read(address),
    {
        lemma_bank_mask_least(self.info.rom_banks);
        let m = spec_rom_bank_mask(self.info.rom_banks);
        assert(low_ones(m) && m >= 1 ==> 0x00u8 & 0x1F == 0 && 0x01u8 & 0x1F != 0 && 0x01u8 & (m
            & 0x1F) == 1) by (bit_vector);
    }

    /// The ROM bank register holds zero after a write only through aliasing:
    /// the value's low five bits were not zero, and none of them is wired.
    pub proof fn lemma_bank_zero_only_aliased(self, window: u16, value: u8)
        requires
            0x2000 <= window <= 0x3FFF,
        ensures
            self.write(window, value).rom_bank == 0 ==> value & 0x1F != 0 && value
                & self.rom_mask() == 0,
            self.write(window, value).rom_bank <= 0x1F,
    {
        lemma_and_bounds(spec_rom_bank_mask(self.info.rom_banks), 0x1F);
        lemma_and_bounds(value, self.rom_mask());
    }
}

impl MBC1 {
    /// The controller at power-on, around the image `rom_file`.
    pub fn init(rom_file: Vec<u8>, info: CartridgeInfo) -> (r: MBC1)
        ensures
            r@ == (MBC1State {
                rom: rom_file@,
                rom_bank: 1,
                ram: cleared_ram(info),
                ram_bank: 0,
                ram_enabled: false,
                advanced_banking: false,
                info,
            }),
    {
        MBC1 {
            rom: rom_file,
            rom_bank: 1,
            ram: new_ram(info),
            ram_bank: 0,
            ram_enabled: false,
            advanced_banking: false,
            info,
        }
    }

    fn upper_rom_bank(&self) -> (r: usize)
        ensures
            r == self@.upper_rom_bank(),
            r <= 96,
    {
        if self.info.rom_banks > 32 {
            // Mask out upper bit of high address if not enough banks
            let mask: u8 = if self.info.rom_banks <= 64 { 0b01 } else { 0b11 };
            let high = self.ram_bank & mask;
            proof {
                lemma_and_bounds(self.ram_bank, mask);
            }
            0x20 * (high as usize)
        } else {
            0
        }
    }

    fn ram_offset(&self, address: u16) -> (r: usize)
        requires
            0xA000 <= address <= 0xBFFF,
        ensures
            r == self@.ram_offset(address),
    {
        let mut offset = (address - 0xA000) as usize;
        // RAM banks can only be changed when using advanced banking mode
        if self.advanced_banking && self.info.ram_banks > 1 {
            // Mask out upper bit of bank number if not enough banks
            let mask: u8 = if self.info.ram_banks <= 2 { 0b01 } else { 0b11 };
            let bank = self.ram_bank & mask;
            proof {
                lemma_and_bounds(self.ram_bank, mask);
            }
            offset += (bank as usize) * RAM_BANK_SIZE;
        }
        offset
    }

    /// ROM and RAM are read at the address's own offset in their window.
    pub fn read(&self, address: u16) -> (r: u8)
        ensures
            r == self@.read(address),
    {
        match address {
            0x0000..=0x3FFF => {
                // The secondary register reaches the first half of the window
                // in the advanced banking mode only
                let bank = if self.advanced_banking { self.upper_rom_bank() } else { 0 };
                read_byte(&self.rom, bank * ROM_BANK_SIZE + (address as usize))
            },
            0x4000..=0x7FFF => {
                let bank = (self.rom_bank as usize) + self.upper_rom_bank();
                read_byte(&self.rom, bank * ROM_BANK_SIZE + ((address - 0x4000) as usize))
            },
            0xA000..=0xBFFF => {
                // Reads to disabled RAM return 0xFF
                if !self.ram_enabled {
                    return 0xFF;
                }
                read_byte(&self.ram, self.ram_offset(address))
            },
            _ => 0xFF,
        }
    }

    /// Only a write into the RAM window changes anything.
    pub fn write(&mut self, address: u16, value: u8)
        ensures
            final(self)@ == old(self)@.write(address, value),
    {
        match address {
            // Enable the RAM
            0x0000..=0x1FFF => self.ram_enabled = (value & 0x0F) == 0x0A,
            // Less significant ROM bank register
            0x2000..=0x3FFF => {
                // Only the bits needed to tell the cartridge's banks apart are
                // wired; the zero check sees all five bits of the value, so a
                // value whose wired bits are zero can still select bank 0
                let mask = rom_bank_mask(self.info.rom_banks) & 0b1_1111;
                self.rom_bank = if value & 0b1_1111 == 0 { 1 } else { value & mask };
            },
            // 2 bit bank register that is used to select both ROM and RAM banks
            0x4000..=0x5FFF => self.ram_bank = value & 0b0000_0011,
            // Toggle between banking modes
            0x6000..=0x7FFF => self.advanced_banking = value & 0b1 != 0,
            // Write to RAM
            0xA000..=0xBFFF => {
                if self.ram_enabled {
                    let offset = self.ram_offset(address);
                    write_byte(&mut self.ram, offset, value);
                }
            },
            _ => {},
        }
    }
}

/// The third bank controller: a 7-bit ROM bank register and a 2-bit RAM bank
/// register.
pub struct MBC3 {
    pub rom: Vec<u8>,
    pub rom_bank: u8,
    pub ram: Vec<u8>,
    pub ram_bank: u8,
    pub ram_enabled: bool,
    pub info: CartridgeInfo,
}

pub struct MBC3State {
    pub rom: Seq<u8>,
    pub rom_bank: u8,
    pub ram: Seq<u8>,
    pub ram_bank: u8,
    pub ram_enabled: bool,
    pub info: CartridgeInfo,
}

impl View for MBC3 {
    type V = MBC3State;

    open spec fn view(&self) -> MBC3State {
        MBC3State {
            rom: self.rom@,
            rom_bank: self.rom_bank,
            ram: self.ram@,
            ram_bank: self.ram_bank,
            ram_enabled: self.ram_enabled,
            info: self.info,
        }
    }
}

impl MBC3State {
    /// The bits of the ROM bank register that are wired for this cartridge.
    pub open spec fn rom_mask(self) -> u8 {
        spec_rom_bank_mask(self.info.rom_banks) & 0x7F
    }

    /// The bits of the RAM bank register that are wired for this cartridge.
    pub open spec fn ram_mask(self) -> u8 {
        spec_bank_mask(self.info.ram_banks) & 0x03
    }

    /// The offset in the ROM that an address of the ROM window stands for: the
    /// lower half of the window shows bank 0, the upper half the selected bank.
    pub open spec fn rom_offset(self, address: u16) -> int {
        if address < 0x4000 {
            address as int
        } else {
            self.rom_bank * 0x4000 + (address - 0x4000)
        }
    }

    /// The offset in the RAM that an address of the RAM window stands for.
    pub open spec fn ram_offset(self, address: u16) -> int {
        self.ram_bank * 0x2000 + (address - 0xA000)
    }

    /// What a read of `address` gives.
    pub open spec fn read(self, address: u16) -> u8 {
        if address <= 0x7FFF {
            byte_at(self.rom, self.rom_offset(address))
        } else if 0xA000 <= address <= 0xBFFF {
            if self.ram_enabled {
                byte_at(self.ram, self.ram_offset(address))
            } else {
                0xFF
            }
        } else {
            0xFF
        }
    }

    /// The value that a write of `value` leaves in the ROM bank register: the
    /// wired bits of the value, but 1 where they are all zero.
    pub open spec fn selected_rom_bank(self, value: u8) -> u8 {
        if value & self.rom_mask() == 0 {
            1
        } else {
            value & self.rom_mask()
        }
    }

    /// The controller after a write of `value` to `address`.
    pub open spec fn write(self, address: u16, value: u8) -> MBC3State {
        if address <= 0x1FFF {
            MBC3State { ram_enabled: spec_enables_ram(value), ..self }
        } else if address <= 0x3FFF {
            MBC3State { rom_bank: self.selected_rom_bank(value), ..self }
        } else if address <= 0x5FFF {
            MBC3State { ram_bank: value & self.ram_mask(), ..self }
        } else if 0xA000 <= address <= 0xBFFF && self.ram_enabled {
            MBC3State { ram: with_byte(self.ram, self.ram_offset(address), value), ..self }
        } else {
            self
        }
    }

    /// No write selects ROM bank 0 for the upper half of the window.
    pub proof fn lemma_bank_never_zero(self, window: u16, value: u8)
        requires
            0x2000 <= window <= 0x3FFF,
        ensures
            1 <= self.write(window, value).rom_bank <= 0x7F,
    {
        lemma_and_bounds(spec_rom_bank_mask(self.info.rom_banks), 0x7F);
        lemma_and_bounds(value, self.rom_mask());
    }
}

impl MBC3 {
    /// The controller at power-on, around the image `rom_file`.
    pub fn init(rom_file: Vec<u8>, info: CartridgeInfo) -> (r: MBC3)
        ensures
            r@ == (MBC3State {
                rom: rom_file@,
                rom_bank: 1,
                ram: cleared_ram(info),
                ram_bank: 0,
                ram_enabled: false,
                info,
            }),
    {
        MBC3 {
            rom: rom_file,
            rom_bank: 1,
            ram: new_ram(info),
            ram_bank: 0,
            ram_enabled: false,
            info,
        }
    }

    /// ROM and RAM are read at the address's own offset in their window.
    pub fn read(&self, address: u16) -> (r: u8)
        ensures
            r == self@.read(address),
    {
        match address {
            0x0000..=0x3FFF => read_byte(&self.rom, address as usize),
            0x4000..=0x7FFF => {
                let offset = (self.rom_bank as usize) * ROM_BANK_SIZE + ((address - 0x4000)
                    as usize);
                read_byte(&self.rom, offset)
            },
            0xA000..=0xBFFF => {
                if !self.ram_enabled {
                    return 0xFF;
                }
                let offset = (self.ram_bank as usize) * RAM_BANK_SIZE + ((address - 0xA000)
                    as usize);
                read_byte(&self.ram, offset)
            },
            _ => 0xFF,
        }
    }

    /// Only a write into the RAM window changes anything.
    pub fn write(&mut self, address: u16, value: u8)
        ensures
            final(self)@ == old(self)@.write(address, value),
    {
        match address {
            // Enable the RAM
            0x0000..=0x1FFF => self.ram_enabled = (value & 0x0F) == 0x0A,
            // ROM bank register
            0x2000..=0x3FFF => {
                let masked = value & (rom_bank_mask(self.info.rom_banks) & 0b111_1111);
                self.rom_bank = if masked == 0 { 1 } else { masked };
            },
            // RAM bank register
            0x4000..=0x5FFF => {
                self.ram_bank = value & (bank_mask(self.info.ram_banks) & 0b11);
            },
            // Write to RAM
            0xA000..=0xBFFF => {
                if self.ram_enabled {
                    let offset = (self.ram_bank as usize) * RAM_BANK_SIZE + ((address - 0xA000)
                        as usize);
                    write_byte(&mut self.ram, offset, value);
                }
            },
            _ => {},
        }
    }
}

/// The bank controller of the loaded cartridge: one of the three schemes,
/// chosen once from the header.
#[allow(clippy::upper_case_acronyms)]
pub enum MBC {
    NoMBC(NoMBC),
    MBC1(MBC1),
    MBC3(MBC3),
}

pub enum MBCState {
    NoMBC(NoMBCState),
    MBC1(MBC1State),
    MBC3(MBC3State),
}

impl View for MBC {
    type V = MBCState;

    open spec fn view(&self) -> MBCState {
        match self {
            MBC::NoMBC(c) => MBCState::NoMBC(c@),
            MBC::MBC1(c) => MBCState::MBC1(c@),
            MBC::MBC3(c) => MBCState::MBC3(c@),
        }
    }
}

impl MBCState {
    /// The controller that `info` names, at power-on with the image `rom`.
    /// Only the three schemes that the engine provides are told apart.
    pub open spec fn power_on(rom: Seq<u8>, info: CartridgeInfo) -> MBCState {
        match info.mbc {
            MBCType::MBC1 => MBCState::MBC1(
                MBC1State {
                    rom,
                    rom_bank: 1,
                    ram: cleared_ram(info),
                    ram_bank: 0,
                    ram_enabled: false,
                    advanced_banking: false,
                    info,
                },
            ),
            MBCType::MBC3 => MBCState::MBC3(
                MBC3State {
                    rom,
                    rom_bank: 1,
                    ram: cleared_ram(info),
                    ram_bank: 0,
                    ram_enabled: false,
                    info,
                },
            ),
            _ => MBCState::NoMBC(NoMBCState { rom, ram: cleared_ram(info) }),
        }
    }

    /// The scheme in use.
    pub open spec fn kind(self) -> MBCType {
        match self {
            MBCState::NoMBC(_) => MBCType::NoMBC,
            MBCState::MBC1(_) => MBCType::MBC1,
            MBCState::MBC3(_) => MBCType::MBC3,
        }
    }

    /// The ROM of the cartridge.
    pub open spec fn rom(self) -> Seq<u8> {
        match self {
            MBCState::NoMBC(c) => c.rom,
            MBCState::MBC1(c) => c.rom,
            MBCState::MBC3(c) => c.rom,
        }
    }

    /// The external RAM of the cartridge.
    pub open spec fn ram(self) -> Seq<u8> {
        match self {
            MBCState::NoMBC(c) => c.ram,
            MBCState::MBC1(c) => c.ram,
            MBCState::MBC3(c) => c.ram,
        }
    }

    /// What a read of `address` gives.
    pub open spec fn read(self, address: u16) -> u8 {
        match self {
            MBCState::NoMBC(c) => c.read(address),
            MBCState::MBC1(c) => c.read(address),
            MBCState::MBC3(c) => c.read(address),
        }
    }

    /// The controller after a write of `value` to `address`.
    pub open spec fn write(self, address: u16, value: u8) -> MBCState {
        match self {
            MBCState::NoMBC(c) => MBCState::NoMBC(c.write(address, value)),
            MBCState::MBC1(c) => MBCState::MBC1(c.write(address, value)),
            MBCState::MBC3(c) => MBCState::MBC3(c.write(address, value)),
        }
    }

    /// No write changes the scheme, the ROM, or the size of the RAM.
    pub proof fn lemma_write_keeps_cartridge(self, address: u16, value: u8)
        ensures
            self.write(address, value).kind() == self.kind(),
            self.write(address, value).rom() == self.rom(),
            self.write(address, value).ram().len() == self.ram().len(),
    {
    }
}

impl MBCState {
    /// The controller with `data` for its external RAM.
    pub open spec fn with_ram(self, data: Seq<u8>) -> MBCState {
        match self {
            MBCState::NoMBC(c) => MBCState::NoMBC(NoMBCState { ram: data, ..c }),
            MBCState::MBC1(c) => MBCState::MBC1(MBC1State { ram: data, ..c }),
            MBCState::MBC3(c) => MBCState::MBC3(MBC3State { ram: data, ..c }),
        }
    }
}

impl MBC {
    /// Replaces the contents of the external RAM by `data`, as when a
    /// battery-backed save is put back. Data of another size than the RAM is
    /// refused and the RAM stays as it is.
    pub fn load_ram(&mut self, data: Vec<u8>) -> (loaded: bool)
        ensures
            loaded == (data@.len() == old(self)@.ram().len()),
            final(self)@ == if loaded {
                old(self)@.with_ram(data@)
            } else {
                old(self)@
            },
    {
        match self {
            MBC::NoMBC(c) => {
                if data.len() == c.ram.len() {
                    c.ram = data;
                    true
                } else {
                    false
                }
            },
            MBC::MBC1(c) => {
                if data.len() == c.ram.len() {
                    c.ram = data;
                    true
                } else {
                    false
                }
            },
            MBC::MBC3(c) => {
                if data.len() == c.ram.len() {
                    c.ram = data;
                    true
                } else {
                    false
                }
            },
        }
    }

    /// ROM and RAM are read at the address's own offset in their window.
    pub fn read(&self, address: u16) -> (r: u8)
        ensures
            r == self@.read(address),
    {
        match self {
            MBC::NoMBC(c) => c.read(address),
            MBC::MBC1(c) => c.read(address),
            MBC::MBC3(c) => c.read(address),
        }
    }

    /// Only a write into the RAM window changes anything.
    pub fn write(&mut self, address: u16, value: u8)
        ensures
            final(self)@ == old(self)@.write(address, value),
    {
        match self {
            MBC::NoMBC(c) => c.write(address, value),
            MBC::MBC1(c) => c.write(address, value),
            MBC::MBC3(c) => c.write(address, value),
        }
    }
}

} // verus!
