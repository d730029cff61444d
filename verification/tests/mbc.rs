use dmg_2025::cpu::mbc::{bank_mask, rom_bank_mask, MBC, MBC1, MBC3, NoMBC};
use dmg_2025::cpu::memory::{CartridgeError, CartridgeInfo, MBCType, Memory};
use dmg_2025::cpu::CPU;

/// An image of `banks` ROM banks in which every byte holds the number of its
/// bank, with a header for the cartridge type and sizes given.
fn image(banks: usize, kind: u8, rom_code: u8, ram_code: u8) -> Vec<u8> {
    let mut rom = vec![0u8; banks * 0x4000];
    for (offset, byte) in rom.iter_mut().enumerate() {
        *byte = (offset / 0x4000) as u8;
    }
    rom[0x147] = kind;
    rom[0x148] = rom_code;
    rom[0x149] = ram_code;
    rom
}

fn info(mbc: MBCType, rom_banks: u16, ram_banks: u16) -> CartridgeInfo {
    CartridgeInfo { mbc, has_ram: ram_banks > 0, has_battery: false, rom_banks, ram_banks }
}

#[test]
fn header_fields() {
    let rom = image(4, 0x03, 0x01, 0x03);
    let parsed = CartridgeInfo::from_header(&rom[0x100..0x150]);
    assert_eq!(parsed.mbc, MBCType::MBC1);
    assert!(parsed.has_ram);
    assert!(parsed.has_battery);
    assert_eq!(parsed.rom_banks, 4);
    assert_eq!(parsed.ram_banks, 4);

    let rom = image(2, 0x00, 0x00, 0x02);
    let parsed = CartridgeInfo::from_header(&rom[0x100..0x150]);
    assert_eq!(parsed.mbc, MBCType::NoMBC);
    assert!(!parsed.has_ram);
    assert!(!parsed.has_battery);
    assert_eq!(parsed.rom_banks, 2);
    // The RAM size byte counts only where the type announces RAM
    assert_eq!(parsed.ram_banks, 0);
}

#[test]
fn rom_size_is_a_power_of_two() {
    for code in 0..=14u8 {
        let mut header = vec![0u8; 0x50];
        header[0x48] = code;
        assert_eq!(CartridgeInfo::from_header(&header).rom_banks as u32, 2u32 << code);
    }
}

#[test]
fn ram_size_table() {
    for (code, banks) in [(0u8, 0u16), (1, 0), (2, 1), (3, 4), (4, 16), (5, 8), (6, 0)] {
        let mut header = vec![0u8; 0x50];
        header[0x47] = 0x13;
        header[0x49] = code;
        assert_eq!(CartridgeInfo::from_header(&header).ram_banks, banks);
    }
}

#[test]
fn controller_types() {
    let expected = [
        (0x00u8, MBCType::NoMBC),
        (0x01, MBCType::MBC1),
        (0x02, MBCType::MBC1),
        (0x03, MBCType::MBC1),
        (0x05, MBCType::MBC2),
        (0x06, MBCType::MBC2),
        (0x08, MBCType::NoMBC),
        (0x0B, MBCType::MMM01),
        (0x0D, MBCType::MMM01),
        (0x0F, MBCType::MBC3),
        (0x13, MBCType::MBC3),
        (0x19, MBCType::MBC5),
        (0x1E, MBCType::MBC5),
        (0x20, MBCType::MBC6),
        (0x22, MBCType::MBC7),
        (0xFF, MBCType::NoMBC),
    ];
    for (kind, mbc) in expected {
        let mut header = vec![0u8; 0x50];
        header[0x47] = kind;
        assert_eq!(CartridgeInfo::from_header(&header).mbc, mbc);
    }
}

#[test]
fn unsupported_controller_is_refused() {
    match Memory::new(image(2, 0x19, 0x00, 0x00)) {
        Err(e) => assert_eq!(e, CartridgeError::UnsupportedController(MBCType::MBC5)),
        Ok(_) => panic!("accepted"),
    }
    match CPU::new(image(2, 0x05, 0x00, 0x00), 48000) {
        Err(e) => assert_eq!(e, CartridgeError::UnsupportedController(MBCType::MBC2)),
        Ok(_) => panic!("accepted"),
    }
}

#[test]
fn short_image_is_refused() {
    match Memory::new(vec![0u8; 0x14F]) {
        Err(e) => assert_eq!(e, CartridgeError::TruncatedHeader),
        Ok(_) => panic!("accepted"),
    }
    match Memory::new(Vec::new()) {
        Err(e) => assert_eq!(e, CartridgeError::TruncatedHeader),
        Ok(_) => panic!("accepted"),
    }
    assert!(Memory::new(vec![0u8; 0x150]).is_ok());
}

#[test]
fn impossible_rom_size_is_refused() {
    match Memory::new(image(2, 0x00, 0x0F, 0x00)) {
        Err(e) => assert_eq!(e, CartridgeError::RomSize(0x0F)),
        Ok(_) => panic!("accepted"),
    }
}

#[test]
fn the_header_selects_the_controller() {
    assert!(matches!(Memory::new(image(2, 0x00, 0x00, 0x00)), Ok(Memory { mbc: MBC::NoMBC(_), .. })));
    assert!(matches!(Memory::new(image(4, 0x01, 0x01, 0x00)), Ok(Memory { mbc: MBC::MBC1(_), .. })));
    assert!(matches!(Memory::new(image(4, 0x11, 0x01, 0x00)), Ok(Memory { mbc: MBC::MBC3(_), .. })));
}

#[test]
fn masks_keep_the_bits_that_number_the_banks() {
    assert_eq!(bank_mask(0), 0b0);
    assert_eq!(bank_mask(1), 0b0);
    assert_eq!(bank_mask(2), 0b1);
    assert_eq!(bank_mask(3), 0b11);
    assert_eq!(bank_mask(4), 0b11);
    assert_eq!(bank_mask(5), 0b111);
    assert_eq!(bank_mask(8), 0b111);
    assert_eq!(bank_mask(16), 0b1111);
    assert_eq!(bank_mask(32), 0b1_1111);
    assert_eq!(bank_mask(64), 0b11_1111);
    assert_eq!(bank_mask(128), 0b111_1111);
    assert_eq!(bank_mask(256), 0b1111_1111);
    assert_eq!(bank_mask(512), 0b1111_1111);
}

#[test]
fn no_controller_reads_rom_directly() {
    let mut cart = NoMBC::init(image(2, 0, 0, 0), info(MBCType::NoMBC, 2, 1));
    assert_eq!(cart.read(0x0000), 0);
    assert_eq!(cart.read(0x3FFF), 0);
    assert_eq!(cart.read(0x4000), 1);
    assert_eq!(cart.read(0x7FFF), 1);
    // Writes into the ROM window change nothing
    cart.write(0x2000, 0x01);
    cart.write(0x4000, 0x55);
    assert_eq!(cart.read(0x4000), 1);
    // RAM
    assert_eq!(cart.read(0xA000), 0);
    cart.write(0xA000, 0x12);
    cart.write(0xBFFF, 0x34);
    assert_eq!(cart.read(0xA000), 0x12);
    assert_eq!(cart.read(0xBFFF), 0x34);
}

#[test]
fn reads_past_the_buffers_give_ff() {
    let mut cart = NoMBC::init(vec![7u8; 0x4000], info(MBCType::NoMBC, 2, 0));
    assert_eq!(cart.read(0x3FFF), 7);
    assert_eq!(cart.read(0x4000), 0xFF);
    assert_eq!(cart.read(0xA000), 0xFF);
    cart.write(0xA000, 0x12);
    assert_eq!(cart.read(0xA000), 0xFF);

    // A header that promises more banks than the image holds
    let mut cart = MBC1::init(image(4, 0x01, 0x04, 0), info(MBCType::MBC1, 32, 0));
    cart.write(0x2000, 0x03);
    assert_eq!(cart.read(0x4000), 3);
    cart.write(0x2000, 0x04);
    assert_eq!(cart.read(0x4000), 0xFF);
    cart.write(0x0000, 0x0A);
    assert_eq!(cart.read(0xA000), 0xFF);
}

#[test]
fn writing_zero_selects_bank_one() {
    let mut zero = MBC1::init(image(8, 0x01, 0x02, 0), info(MBCType::MBC1, 8, 0));
    let mut one = MBC1::init(image(8, 0x01, 0x02, 0), info(MBCType::MBC1, 8, 0));
    zero.write(0x2000, 0x05);
    one.write(0x2000, 0x05);
    zero.write(0x2000, 0x00);
    one.write(0x3FFF, 0x01);
    assert_eq!(zero.rom_bank, 1);
    assert_eq!(one.rom_bank, 1);
    for address in [0x4000u16, 0x4001, 0x5ABC, 0x7FFF] {
        assert_eq!(zero.read(address), 1);
        assert_eq!(zero.read(address), one.read(address));
    }
}

#[test]
fn first_controller_switches_rom_banks() {
    let mut cart = MBC1::init(image(8, 0x01, 0x02, 0), info(MBCType::MBC1, 8, 0));
    assert_eq!(cart.read(0x0000), 0);
    assert_eq!(cart.read(0x4000), 1);
    for bank in 1..8u8 {
        cart.write(0x2000, bank);
        assert_eq!(cart.read(0x4000), bank);
        assert_eq!(cart.read(0x7FFF), bank);
        assert_eq!(cart.read(0x0000), 0);
    }
    // Only three bits are wired: bank 9 is bank 1
    cart.write(0x2000, 0x09);
    assert_eq!(cart.read(0x4000), 1);
    // The zero check sees five bits, so 8 is not remapped and selects bank 0
    cart.write(0x2000, 0x08);
    assert_eq!(cart.rom_bank, 0);
    assert_eq!(cart.read(0x4000), 0);
    // Bits above the fifth are ignored by the zero check
    cart.write(0x2000, 0xE0);
    assert_eq!(cart.rom_bank, 1);
}

#[test]
fn first_controller_large_rom_uses_the_secondary_register() {
    let mut cart = MBC1::init(image(128, 0x01, 0x06, 0), info(MBCType::MBC1, 128, 0));
    cart.write(0x2000, 0x02);
    cart.write(0x4000, 0x01);
    assert_eq!(cart.read(0x4000), 0x22);
    // The lower half shows bank 0 in the simple mode
    assert_eq!(cart.read(0x0000), 0x00);
    // and the first bank of the block in the advanced mode
    cart.write(0x6000, 0x01);
    assert_eq!(cart.read(0x0000), 0x20);
    assert_eq!(cart.read(0x4000), 0x22);
    cart.write(0x4000, 0x03);
    assert_eq!(cart.read(0x0000), 0x60);
    assert_eq!(cart.read(0x4000), 0x62);

    // With 64 banks only the low bit of the secondary register counts
    let mut cart = MBC1::init(image(64, 0x01, 0x05, 0), info(MBCType::MBC1, 64, 0));
    cart.write(0x2000, 0x02);
    cart.write(0x4000, 0x03);
    assert_eq!(cart.read(0x4000), 0x22);
}

#[test]
fn first_controller_ram_needs_the_enable_pattern() {
    let mut cart = MBC1::init(image(4, 0x03, 0x01, 0x03), info(MBCType::MBC1, 4, 4));
    assert_eq!(cart.read(0xA000), 0xFF);
    cart.write(0xA000, 0x12);
    cart.write(0x0000, 0x0A);
    assert_eq!(cart.read(0xA000), 0x00);
    cart.write(0xA000, 0x12);
    assert_eq!(cart.read(0xA000), 0x12);
    // Only the low four bits are looked at
    cart.write(0x1FFF, 0xFA);
    assert_eq!(cart.read(0xA000), 0x12);
    // Any other value disables the RAM; the contents stay
    cart.write(0x0000, 0x0B);
    assert_eq!(cart.read(0xA000), 0xFF);
    cart.write(0xA000, 0x34);
    cart.write(0x0000, 0x0A);
    assert_eq!(cart.read(0xA000), 0x12);
    cart.write(0x0000, 0x00);
    assert_eq!(cart.read(0xA000), 0xFF);
}

#[test]
fn first_controller_ram_banks_need_the_advanced_mode() {
    let mut cart = MBC1::init(image(4, 0x03, 0x01, 0x03), info(MBCType::MBC1, 4, 4));
    cart.write(0x0000, 0x0A);
    cart.write(0x4000, 0x02);
    cart.write(0xA000, 0x11);
    // Simple mode: bank 0 whatever the register holds
    assert_eq!(cart.ram[0], 0x11);
    cart.write(0x6000, 0x01);
    assert_eq!(cart.read(0xA000), 0x00);
    cart.write(0xA000, 0x22);
    assert_eq!(cart.ram[2 * 0x2000], 0x22);
    cart.write(0x4000, 0x00);
    assert_eq!(cart.read(0xA000), 0x11);
}

#[test]
fn third_controller_switches_rom_and_ram_banks() {
    let mut cart = MBC3::init(image(128, 0x13, 0x06, 0x03), info(MBCType::MBC3, 128, 4));
    assert_eq!(cart.read(0x4000), 1);
    cart.write(0x2000, 0x7F);
    assert_eq!(cart.read(0x4000), 0x7F);
    cart.write(0x2000, 0x20);
    assert_eq!(cart.read(0x4000), 0x20);
    assert_eq!(cart.read(0x0000), 0);
    // Zero is remapped after masking: the eighth bit is not wired
    cart.write(0x2000, 0x00);
    assert_eq!(cart.read(0x4000), 1);
    cart.write(0x2000, 0x80);
    assert_eq!(cart.read(0x4000), 1);

    assert_eq!(cart.read(0xA000), 0xFF);
    cart.write(0x0000, 0x0A);
    for bank in 0..4u8 {
        cart.write(0x4000, bank);
        cart.write(0xA000, 0x40 + bank);
    }
    for bank in 0..4u8 {
        cart.write(0x4000, bank);
        assert_eq!(cart.read(0xA000), 0x40 + bank);
        assert_eq!(cart.ram[bank as usize * 0x2000], 0x40 + bank);
    }
    // Two bits are wired
    cart.write(0x4000, 0x05);
    assert_eq!(cart.read(0xA000), 0x41);
    cart.write(0x0000, 0x00);
    assert_eq!(cart.read(0xA000), 0xFF);
}

#[test]
fn third_controller_masks_to_the_bank_count() {
    let mut cart = MBC3::init(image(8, 0x11, 0x02, 0x00), info(MBCType::MBC3, 8, 0));
    cart.write(0x2000, 0x0B);
    assert_eq!(cart.rom_bank, 3);
    assert_eq!(cart.read(0x4000), 3);
    cart.write(0x2000, 0x08);
    assert_eq!(cart.rom_bank, 1);
}

#[test]
fn cartridge_through_the_bus() {
    let mut cpu = match CPU::new(image(8, 0x03, 0x02, 0x02), 48000) {
        Ok(cpu) => cpu,
        Err(e) => panic!("image refused: {:?}", e),
    };
    assert_eq!(cpu.mem.info.rom_banks, 8);
    assert_eq!(cpu.mem.info.ram_banks, 1);
    assert_eq!(cpu.read(0x4000), 1);
    cpu.write(0x2100, 0x00);
    assert_eq!(cpu.read(0x4000), 1);
    cpu.write(0x2100, 0x06);
    assert_eq!(cpu.read(0x4000), 6);
    assert_eq!(cpu.read(0x3FFF), 0);
    assert_eq!(cpu.read(0xA123), 0xFF);
    cpu.write(0x0000, 0x0A);
    cpu.write(0xA123, 0x99);
    assert_eq!(cpu.read(0xA123), 0x99);
}

#[test]
fn a_save_is_put_back_into_the_ram() {
    let mut cpu = match CPU::new(image(8, 0x03, 0x02, 0x03), 48000) {
        Ok(cpu) => cpu,
        Err(e) => panic!("image refused: {:?}", e),
    };
    let mut save = vec![0u8; 4 * 0x2000];
    save[0] = 0x12;
    save[0x2000] = 0x34;
    assert!(cpu.mem.mbc.load_ram(save.clone()));
    assert_eq!(cpu.mem.mbc.ram(), save);
    cpu.write(0x0000, 0x0A);
    assert_eq!(cpu.read(0xA000), 0x12);
    cpu.write(0x6000, 0x01);
    cpu.write(0x4000, 0x01);
    assert_eq!(cpu.read(0xA000), 0x34);
    // A save of another size is refused
    assert!(!cpu.mem.mbc.load_ram(vec![0xFF; 0x2000]));
    assert!(!cpu.mem.mbc.load_ram(Vec::new()));
    assert_eq!(cpu.mem.mbc.ram(), save);
    assert_eq!(cpu.mem.mbc.banks().rom_bank, 1);
}

#[test]
fn the_lowest_rom_bank_bit_is_always_wired() {
    assert_eq!(rom_bank_mask(0), 0b1);
    assert_eq!(rom_bank_mask(1), 0b1);
    assert_eq!(rom_bank_mask(2), 0b1);
    assert_eq!(rom_bank_mask(3), 0b11);
    assert_eq!(rom_bank_mask(32), 0b1_1111);
    assert_eq!(rom_bank_mask(128), 0b111_1111);
    for count in 2..=512u16 {
        assert_eq!(rom_bank_mask(count), bank_mask(count));
    }
}

#[test]
fn zero_and_one_select_alike_whatever_the_bank_count() {
    for rom_banks in [0u16, 1, 2, 3, 4, 8, 32, 64, 128, 512] {
        let mut zero = MBC1::init(image(4, 0x01, 0x01, 0), info(MBCType::MBC1, rom_banks, 0));
        let mut one = MBC1::init(image(4, 0x01, 0x01, 0), info(MBCType::MBC1, rom_banks, 0));
        zero.write(0x2000, 0x03);
        one.write(0x2000, 0x03);
        zero.write(0x2000, 0x00);
        one.write(0x2000, 0x01);
        assert_eq!(zero.rom_bank, 1, "{} banks", rom_banks);
        assert_eq!(one.rom_bank, 1, "{} banks", rom_banks);
        assert_eq!(zero.read(0x4000), 1);
        assert_eq!(one.read(0x4000), 1);

        let mut third = MBC3::init(image(4, 0x11, 0x01, 0), info(MBCType::MBC3, rom_banks, 0));
        third.write(0x2000, 0x01);
        assert_eq!(third.rom_bank, 1);
        third.write(0x2000, 0x00);
        assert_eq!(third.rom_bank, 1);
    }
}
