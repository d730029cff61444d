use dmg_2025::cpu::interrupts::InterruptFlag;
use dmg_2025::cpu::ppu::{shade, PPUControl, STATEnable, PPU};
use dmg_2025::cpu::readwrite::MemoryAccess;

const IDENTITY_PALETTE: u8 = 0b11_10_01_00;

/// Row 0 of this tile holds the colour numbers 3, 3, 1, 1, 2, 2, 0, 0.
const ROW_LOW: u8 = 0xF0;
const ROW_HIGH: u8 = 0xCC;
const ROW_COLOURS: [u8; 8] = [3, 3, 1, 1, 2, 2, 0, 0];

fn dots(ppu: &mut PPU, n: u32) {
    for _ in 0..n {
        ppu.cycle();
    }
}

fn pixel(ppu: &PPU, x: usize, y: usize) -> u8 {
    ppu.back_display[y * 160 + x]
}

#[test]
fn a_frame_is_70224_dots() {
    let mut ppu = PPU::new();
    // Colour 0 gets shade 3, so a resolved row is told from a blank one
    ppu.mem_write(0xFF47, 0xFF);
    ppu.mem_write(0xFF40, PPUControl::ENABLE | PPUControl::BG_WINDOW_ENABLE);
    let mut vblank_requests = 0;
    let mut swaps = 0;
    for _ in 0..70224u32 {
        let front_before = ppu.front_display;
        ppu.cycle();
        if ppu.interrupt_request.intersects(InterruptFlag::VBLANK) {
            vblank_requests += 1;
        }
        if ppu.front_display != front_before {
            swaps += 1;
        }
    }
    assert_eq!(ppu.ly, 0);
    assert_eq!(ppu.lx, 0);
    assert_eq!(ppu.mode, 2);
    assert_eq!(vblank_requests, 1);
    assert_eq!(swaps, 1);
    assert!(ppu.front_display.iter().all(|&p| p == 3));
    assert!(ppu.back_display.iter().all(|&p| p == 0));
}

#[test]
fn frames_repeat() {
    let mut ppu = PPU::new();
    let mut vblank_requests = 0;
    for _ in 0..3 * 70224u32 {
        ppu.cycle();
        if ppu.interrupt_request.intersects(InterruptFlag::VBLANK) {
            vblank_requests += 1;
        }
    }
    assert_eq!((ppu.ly, ppu.lx), (0, 0));
    assert_eq!(vblank_requests, 3);
}

#[test]
fn modes_of_a_visible_line() {
    let mut ppu = PPU::new();
    assert_eq!(ppu.mode, 2);
    dots(&mut ppu, 79);
    assert_eq!((ppu.lx, ppu.mode), (79, 2));
    dots(&mut ppu, 1);
    assert_eq!((ppu.lx, ppu.mode), (80, 3));
    dots(&mut ppu, 288);
    assert_eq!((ppu.lx, ppu.mode), (368, 3));
    dots(&mut ppu, 1);
    assert_eq!((ppu.lx, ppu.mode), (369, 0));
    dots(&mut ppu, 86);
    assert_eq!((ppu.lx, ppu.ly, ppu.mode), (455, 0, 0));
    dots(&mut ppu, 1);
    assert_eq!((ppu.lx, ppu.ly, ppu.mode), (0, 1, 2));
}

#[test]
fn ten_lines_of_vertical_blank() {
    let mut ppu = PPU::new();
    dots(&mut ppu, 144 * 456 - 1);
    assert_eq!((ppu.lx, ppu.ly, ppu.mode), (455, 143, 0));
    ppu.cycle();
    assert_eq!((ppu.lx, ppu.ly, ppu.mode), (0, 144, 1));
    assert!(ppu.interrupt_request.intersects(InterruptFlag::VBLANK));
    ppu.cycle();
    assert!(!ppu.interrupt_request.intersects(InterruptFlag::VBLANK));
    for dot in 1..10 * 456 - 1u32 {
        assert_eq!(ppu.mode, 1);
        assert_eq!(ppu.ly as u32, 144 + dot / 456);
        assert_eq!(ppu.lx as u32, dot % 456);
        ppu.cycle();
    }
    assert_eq!((ppu.lx, ppu.ly, ppu.mode), (455, 153, 1));
    ppu.cycle();
    assert_eq!((ppu.lx, ppu.ly, ppu.mode), (0, 0, 2));
}

#[test]
fn status_interrupt_sources() {
    // Horizontal blank
    let mut ppu = PPU::new();
    ppu.mem_write(0xFF41, STATEnable::MODE0);
    dots(&mut ppu, 368);
    assert_eq!(ppu.interrupt_request.bits(), 0);
    ppu.cycle();
    assert_eq!(ppu.interrupt_request.bits(), InterruptFlag::LCD);
    ppu.cycle();
    assert_eq!(ppu.interrupt_request.bits(), 0);

    // Scan of the sprite table
    let mut ppu = PPU::new();
    ppu.mem_write(0xFF41, STATEnable::MODE2);
    dots(&mut ppu, 455);
    assert_eq!(ppu.interrupt_request.bits(), 0);
    ppu.cycle();
    assert_eq!(ppu.interrupt_request.bits(), InterruptFlag::LCD);

    // Vertical blank, together with the vertical blank interrupt itself
    let mut ppu = PPU::new();
    ppu.mem_write(0xFF41, STATEnable::MODE1);
    dots(&mut ppu, 144 * 456);
    assert_eq!(ppu.interrupt_request.bits(), InterruptFlag::LCD | InterruptFlag::VBLANK);

    // The pixel transfer is no source
    let mut ppu = PPU::new();
    ppu.mem_write(0xFF41, 0xFF);
    ppu.mem_write(0xFF45, 200);
    dots(&mut ppu, 80);
    assert_eq!(ppu.mode, 3);
    assert_eq!(ppu.interrupt_request.bits(), 0);
}

#[test]
fn line_compare() {
    let mut ppu = PPU::new();
    ppu.mem_write(0xFF41, STATEnable::LYC);
    ppu.mem_write(0xFF45, 5);
    let mut lines = Vec::new();
    for _ in 0..70224u32 {
        ppu.cycle();
        if ppu.interrupt_request.intersects(InterruptFlag::LCD) {
            lines.push((ppu.ly, ppu.lx));
        }
    }
    assert_eq!(lines, vec![(5, 0)]);
    // Line 0 is compared too, when the frame wraps
    ppu.mem_write(0xFF45, 0);
    let mut hits = 0;
    for _ in 0..70224u32 {
        ppu.cycle();
        if ppu.interrupt_request.intersects(InterruptFlag::LCD) {
            assert_eq!((ppu.ly, ppu.lx), (0, 0));
            hits += 1;
        }
    }
    assert_eq!(hits, 1);
}

#[test]
fn status_register_layout() {
    let mut ppu = PPU::new();
    ppu.mem_write(0xFF45, 0);
    ppu.mem_write(0xFF41, 0xFF);
    // Enables, line match, mode 2
    assert_eq!(ppu.mem_read(0xFF41), 0x80 | 0x78 | 0x04 | 0x02);
    ppu.mem_write(0xFF41, 0x00);
    assert_eq!(ppu.mem_read(0xFF41), 0x80 | 0x04 | 0x02);
    ppu.mem_write(0xFF45, 9);
    assert_eq!(ppu.mem_read(0xFF41), 0x80 | 0x02);
    dots(&mut ppu, 80);
    assert_eq!(ppu.mem_read(0xFF41), 0x80 | 0x03);
    dots(&mut ppu, 289);
    assert_eq!(ppu.mem_read(0xFF41), 0x80);
}

#[test]
fn display_registers_read_back() {
    let mut ppu = PPU::new();
    for (address, value) in [
        (0xFF40u16, 0x91u8),
        (0xFF42, 0x12),
        (0xFF43, 0x34),
        (0xFF45, 0x56),
        (0xFF47, 0xE4),
        (0xFF4A, 0x78),
        (0xFF4B, 0x03),
    ] {
        ppu.mem_write(address, value);
        assert_eq!(ppu.mem_read(address), value);
    }
    assert_eq!(ppu.bg_y, 0x12);
    assert_eq!(ppu.bg_x, 0x34);
    assert_eq!(ppu.win_y, 0x78);
    assert_eq!(ppu.win_x, 0x03);
    // The scanline register cannot be written
    ppu.mem_write(0xFF44, 0x55);
    assert_eq!(ppu.mem_read(0xFF44), 0);
    // No register here
    ppu.mem_write(0xFF48, 0x55);
    assert_eq!(ppu.mem_read(0xFF48), 0xFF);
}

#[test]
fn palette_lookup() {
    assert_eq!(shade(IDENTITY_PALETTE, 0), 0);
    assert_eq!(shade(IDENTITY_PALETTE, 1), 1);
    assert_eq!(shade(IDENTITY_PALETTE, 2), 2);
    assert_eq!(shade(IDENTITY_PALETTE, 3), 3);
    assert_eq!(shade(0b00_01_10_11, 0), 3);
    assert_eq!(shade(0b00_01_10_11, 1), 2);
    assert_eq!(shade(0b00_01_10_11, 2), 1);
    assert_eq!(shade(0b00_01_10_11, 3), 0);
}

#[test]
fn tile_rows_resolve_to_colour_numbers() {
    let mut ppu = PPU::new();
    ppu.mem_write(0xFF40, PPUControl::ENABLE | PPUControl::TILE_DATA_AREA | PPUControl::BG_WINDOW_ENABLE);
    // Tile 1, row 2
    ppu.mem_write(0x8000 + 16 + 4, ROW_LOW);
    ppu.mem_write(0x8000 + 16 + 5, ROW_HIGH);
    // The second tile of the second map row
    ppu.mem_write(0x9800 + 32 + 1, 1);
    for (column, colour) in ROW_COLOURS.iter().enumerate() {
        assert_eq!(ppu.read_tile_map(8 + column as u8, 8 + 2, false), *colour);
        assert_eq!(ppu.read_tile_map(8 + column as u8, 8 + 3, false), 0);
        assert_eq!(ppu.read_tile_map(column as u8, 8 + 2, false), 0);
    }
    // The high map is another map
    assert_eq!(ppu.read_tile_map(8, 10, true), 0);
    ppu.mem_write(0x9C00 + 32 + 1, 1);
    assert_eq!(ppu.read_tile_map(8, 10, true), 3);
}

#[test]
fn high_tile_data_area_is_addressed_from_its_middle() {
    let mut ppu = PPU::new();
    ppu.mem_write(0xFF40, PPUControl::ENABLE | PPUControl::BG_WINDOW_ENABLE);
    // Tile 0 lies at 0x9000, tile 127 at 0x97F0, tile 128 at 0x8800, tile 255 at 0x8FF0
    ppu.mem_write(0x9000, 0x80);
    ppu.mem_write(0x97F0, 0x80);
    ppu.mem_write(0x97F1, 0x80);
    ppu.mem_write(0x8801, 0x80);
    ppu.mem_write(0x8FF0, 0x80);
    ppu.mem_write(0x9800, 0);
    ppu.mem_write(0x9801, 127);
    ppu.mem_write(0x9802, 128);
    ppu.mem_write(0x9803, 255);
    ppu.mem_write(0x9804, 1);
    assert_eq!(ppu.read_tile_map(0, 0, false), 1);
    assert_eq!(ppu.read_tile_map(8, 0, false), 3);
    assert_eq!(ppu.read_tile_map(16, 0, false), 2);
    assert_eq!(ppu.read_tile_map(24, 0, false), 1);
    assert_eq!(ppu.read_tile_map(32, 0, false), 0);
}

#[test]
fn a_line_is_resolved_into_the_back_buffer() {
    let mut ppu = PPU::new();
    ppu.mem_write(0xFF40, PPUControl::ENABLE | PPUControl::TILE_DATA_AREA | PPUControl::BG_WINDOW_ENABLE);
    ppu.mem_write(0xFF47, IDENTITY_PALETTE);
    ppu.mem_write(0x8010, ROW_LOW);
    ppu.mem_write(0x8011, ROW_HIGH);
    ppu.mem_write(0x9800, 1);
    ppu.mem_write(0x9800 + 19, 1);
    ppu.draw_horizontal(0);
    for (column, colour) in ROW_COLOURS.iter().enumerate() {
        assert_eq!(pixel(&ppu, column, 0), *colour);
        assert_eq!(pixel(&ppu, 152 + column, 0), *colour);
    }
    for x in 8..152 {
        assert_eq!(pixel(&ppu, x, 0), 0);
    }
    // No other row is touched, and the front buffer never is
    assert!(ppu.back_display[160..].iter().all(|&p| p == 0));
    assert!(ppu.front_display.iter().all(|&p| p == 0));

    // Another palette
    ppu.mem_write(0xFF47, 0b00_01_10_11);
    ppu.draw_horizontal(0);
    for (column, colour) in ROW_COLOURS.iter().enumerate() {
        assert_eq!(pixel(&ppu, column, 0), 3 - *colour);
    }
    assert_eq!(pixel(&ppu, 8, 0), 3);
}

#[test]
fn the_background_scrolls_and_wraps() {
    let mut ppu = PPU::new();
    ppu.mem_write(0xFF40, PPUControl::ENABLE | PPUControl::TILE_DATA_AREA | PPUControl::BG_WINDOW_ENABLE);
    ppu.mem_write(0xFF47, IDENTITY_PALETTE);
    ppu.mem_write(0x8010, ROW_LOW);
    ppu.mem_write(0x8011, ROW_HIGH);
    ppu.mem_write(0x9800, 1);
    ppu.mem_write(0xFF43, 2);
    ppu.draw_horizontal(0);
    for x in 0..6 {
        assert_eq!(pixel(&ppu, x, 0), ROW_COLOURS[x + 2]);
    }
    assert_eq!(pixel(&ppu, 6, 0), 0);

    // Scrolled by 250 to the right, the map's first column comes back at x = 6
    ppu.mem_write(0xFF43, 250);
    ppu.draw_horizontal(1);
    assert_eq!(pixel(&ppu, 5, 1), 0);
    // Row 1 of the tile is empty; row 0 shows when the map is scrolled up
    ppu.mem_write(0xFF42, 255);
    ppu.draw_horizontal(1);
    for (column, colour) in ROW_COLOURS.iter().enumerate() {
        assert_eq!(pixel(&ppu, 6 + column, 1), *colour);
    }
}

#[test]
fn the_window_covers_the_background() {
    let mut ppu = PPU::new();
    ppu.mem_write(
        0xFF40,
        PPUControl::ENABLE
            | PPUControl::TILE_DATA_AREA
            | PPUControl::BG_WINDOW_ENABLE
            | PPUControl::WINDOW_ENABLE
            | PPUControl::WINDOW_TILE_MAP,
    );
    ppu.mem_write(0xFF47, IDENTITY_PALETTE);
    ppu.mem_write(0x8010, ROW_LOW);
    ppu.mem_write(0x8011, ROW_HIGH);
    // Tile 2 is all of colour 1
    for row in 0..8u16 {
        ppu.mem_write(0x8020 + 2 * row, 0xFF);
    }
    // The background shows tile 2 everywhere, the window tile 1 at its corner
    for entry in 0..0x400u16 {
        ppu.mem_write(0x9800 + entry, 2);
    }
    ppu.mem_write(0x9C00, 1);
    // The window starts at column 20 of line 3
    ppu.mem_write(0xFF4B, 27);
    ppu.mem_write(0xFF4A, 3);
    ppu.draw_horizontal(2);
    ppu.draw_horizontal(3);
    for x in 0..160 {
        assert_eq!(pixel(&ppu, x, 2), 1);
    }
    for x in 0..20 {
        assert_eq!(pixel(&ppu, x, 3), 1);
    }
    for (column, colour) in ROW_COLOURS.iter().enumerate() {
        assert_eq!(pixel(&ppu, 20 + column, 3), *colour);
    }
    assert_eq!(pixel(&ppu, 28, 3), 0);
}

#[test]
fn a_disabled_background_shows_colour_zero() {
    let mut ppu = PPU::new();
    ppu.mem_write(0xFF40, PPUControl::ENABLE | PPUControl::TILE_DATA_AREA);
    ppu.mem_write(0xFF47, 0b11_10_01_10);
    ppu.mem_write(0x8000, 0xFF);
    ppu.draw_horizontal(7);
    for x in 0..160 {
        assert_eq!(pixel(&ppu, x, 7), 2);
    }
}

#[test]
fn the_frame_is_handed_over_at_the_vertical_blank() {
    let mut ppu = PPU::new();
    ppu.mem_write(0xFF40, PPUControl::ENABLE | PPUControl::TILE_DATA_AREA | PPUControl::BG_WINDOW_ENABLE);
    ppu.mem_write(0xFF47, IDENTITY_PALETTE);
    ppu.mem_write(0x8010, ROW_LOW);
    ppu.mem_write(0x8011, ROW_HIGH);
    ppu.mem_write(0x9800, 1);
    // The row is resolved when the pixel transfer starts
    dots(&mut ppu, 79);
    assert_eq!(pixel(&ppu, 0, 0), 0);
    dots(&mut ppu, 1);
    assert_eq!(pixel(&ppu, 0, 0), 3);
    dots(&mut ppu, 144 * 456 - 81);
    assert!(ppu.front_display.iter().all(|&p| p == 0));
    let finished = ppu.back_display;
    ppu.cycle();
    assert!(ppu.front_display == finished);
    assert_eq!(&ppu.front_display[0..8], &ROW_COLOURS[..]);
    assert!(ppu.back_display.iter().all(|&p| p == 0));
}

#[test]
fn a_frame_is_a_grid_of_four_shades() {
    let mut ppu = PPU::new();
    ppu.mem_write(0xFF40, PPUControl::ENABLE | PPUControl::BG_WINDOW_ENABLE | PPUControl::WINDOW_ENABLE);
    ppu.mem_write(0xFF47, 0b01_11_00_10);
    ppu.mem_write(0xFF4B, 90);
    ppu.mem_write(0xFF4A, 70);
    // Video RAM filled with a pattern that uses every tile and every colour
    let mut byte = 0x35u8;
    for address in 0x8000..=0x9FFFu16 {
        byte = byte.wrapping_mul(13).wrapping_add(7);
        ppu.mem_write(address, byte);
    }
    dots(&mut ppu, 70224);
    let mut seen = [false; 4];
    for pixel in ppu.front_display.iter() {
        assert!(*pixel <= 3);
        seen[*pixel as usize] = true;
    }
    assert_eq!(seen, [true, true, true, true]);
}
