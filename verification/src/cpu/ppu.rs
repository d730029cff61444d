//! The pixel processing unit: a state machine that walks 154 scanlines of 456
//! dots, resolves one row of pixels per visible line into the back buffer and
//! hands the finished frame over at the start of the vertical blank.
use vstd::prelude::*;
use core::ops::RangeInclusive;
use crate::cpu::readwrite::{in_ranges, MemoryAccess};
use crate::cpu::bits::{lemma_and_bounds, lemma_bitwise_bits};
use crate::cpu::interrupts::InterruptFlag;

verus! {

/// The display control register.
#[derive(Clone, Copy, PartialEq, Eq, Structural, Debug)]
pub struct PPUControl(pub u8);

/// The interrupt sources that the display status register enables.
#[derive(Clone, Copy, PartialEq, Eq, Structural, Debug)]
pub struct STATEnable(pub u8);

impl PPUControl {
    pub const ENABLE: u8 = 0b1000_0000;

    pub const WINDOW_TILE_MAP: u8 = 0b0100_0000;

    pub const WINDOW_ENABLE: u8 = 0b0010_0000;

    pub const TILE_DATA_AREA: u8 = 0b0001_0000;

    pub const BG_TILE_MAP: u8 = 0b0000_1000;

    pub const OBJ_SIZE: u8 = 0b0000_0100;

    pub const OBJ_ENABLE: u8 = 0b0000_0010;

    pub const BG_WINDOW_ENABLE: u8 = 0b0000_0001;

    /// The register as a byte.
    pub open spec fn spec_bits(&self) -> u8 {
        self.0
    }

    /// Whether a bit of `mask` is set.
    pub open spec fn spec_intersects(&self, mask: u8) -> bool {
        self.0 & mask != 0
    }

    /// The register that `bits` stands for.
    pub fn from_bits_truncate(bits: u8) -> (r: PPUControl)
        ensures
            r.0 == bits,
    {
        PPUControl(bits)
    }

    /// The register as a byte.
    #[verifier::when_used_as_spec(spec_bits)]
    pub fn bits(&self) -> (r: u8)
        ensures
            r == self.0,
    {
        self.0
    }

    /// Whether a bit of `mask` is set.
    #[verifier::when_used_as_spec(spec_intersects)]
    pub fn intersects(&self, mask: u8) -> (r: bool)
        ensures
            r == self.spec_intersects(mask),
    {
        self.0 & mask != 0
    }
}

impl STATEnable {
    pub const LYC: u8 = 0b0100_0000;

    pub const MODE2: u8 = 0b0010_0000;

    pub const MODE1: u8 = 0b0001_0000;

    pub const MODE0: u8 = 0b0000_1000;

    /// The four bits that enable a source.
    pub const ALL: u8 = 0b0111_1000;

    /// The register that the four enable bits of `bits` stand for.
    pub open spec fn spec_from_bits(bits: u8) -> STATEnable {
        STATEnable(bits & 0x78)
    }

    /// The register as a byte.
    pub open spec fn spec_bits(&self) -> u8 {
        self.0
    }

    /// Whether a bit of `mask` is set.
    pub open spec fn spec_intersects(&self, mask: u8) -> bool {
        self.0 & mask != 0
    }

    /// The register that `bits` stands for.
    #[verifier::when_used_as_spec(spec_from_bits)]
    pub fn from_bits_truncate(bits: u8) -> (r: STATEnable)
        ensures
            r == STATEnable::spec_from_bits(bits),
    {
        STATEnable(bits & STATEnable::ALL)
    }

    /// The register as a byte.
    #[verifier::when_used_as_spec(spec_bits)]
    pub fn bits(&self) -> (r: u8)
        ensures
            r == self.0,
    {
        self.0
    }

    /// Whether a bit of `mask` is set.
    #[verifier::when_used_as_spec(spec_intersects)]
    pub fn intersects(&self, mask: u8) -> (r: bool)
        ensures
            r == self.spec_intersects(mask),
    {
        self.0 & mask != 0
    }
}

/// The display is 160 pixels wide and 144 pixels high. A frame buffer holds
/// it row by row: the pixel in column `x` of row `y` is at `y * 160 + x`.
pub const WIDTH: usize = 160;

pub const HEIGHT: usize = 144;

pub const PIXELS: usize = 23040;

/// A scanline lasts 456 dots. On a visible line the pixel transfer starts at
/// dot 80 and ends at dot 369, where the horizontal blank starts.
pub const TRANSFER_START: u16 = 80;

pub const TRANSFER_END: u16 = 369;

/// The four modes, by their number in the status register.
pub const MODE_HBLANK: u8 = 0;

pub const MODE_VBLANK: u8 = 1;

pub const MODE_OAM_SCAN: u8 = 2;

pub const MODE_TRANSFER: u8 = 3;

/// The graphics processing unit.
#[allow(clippy::upper_case_acronyms)]
pub struct PPU {
    /// The last finished frame. Only ever replaced as a whole.
    pub front_display: [u8; 23040],
    /// The frame in the making.
    pub back_display: [u8; 23040],
    pub vram: [u8; 0x2000],
    pub oam: [u8; 0xA0],
    pub control: PPUControl,
    /// The dot within the scanline.
    pub lx: u16,
    /// The scanline.
    pub ly: u8,
    pub bg_x: u8,
    pub bg_y: u8,
    /// The window position registers, as written.
    pub win_x: u8,
    pub win_y: u8,
    pub palette: u8,
    /// The interrupt lines raised by the last dot.
    pub interrupt_request: InterruptFlag,
    pub stat_enable: STATEnable,
    pub mode: u8,
    pub lyc: u8,
}

/// A `PPU` as the contracts see it.
pub struct PPUState {
    pub front_display: Seq<u8>,
    pub back_display: Seq<u8>,
    pub vram: Seq<u8>,
    pub oam: Seq<u8>,
    pub control: PPUControl,
    pub lx: u16,
    pub ly: u8,
    pub bg_x: u8,
    pub bg_y: u8,
    pub win_x: u8,
    pub win_y: u8,
    pub palette: u8,
    pub interrupt_request: InterruptFlag,
    pub stat_enable: STATEnable,
    pub mode: u8,
    pub lyc: u8,
}

impl View for PPU {
    type V = PPUState;

    open spec fn view(&self) -> PPUState {
        PPUState {
            front_display: self.front_display@,
            back_display: self.back_display@,
            vram: self.vram@,
            oam: self.oam@,
            control: self.control,
            lx: self.lx,
            ly: self.ly,
            bg_x: self.bg_x,
            bg_y: self.bg_y,
            win_x: self.win_x,
            win_y: self.win_y,
            palette: self.palette,
            interrupt_request: self.interrupt_request,
            stat_enable: self.stat_enable,
            mode: self.mode,
            lyc: self.lyc,
        }
    }
}

/// A frame buffer with every pixel at shade 0.
pub open spec fn blank_display() -> Seq<u8> {
    Seq::new(23040, |i: int| 0u8)
}

/// The mode that the unit is in at dot `lx` of scanline `ly`: vertical blank
/// on the lines from 144 on; on a visible line the scan of the sprite table,
/// then the pixel transfer, then the horizontal blank.
pub open spec fn mode_at(ly: u8, lx: u16) -> u8 {
    if ly >= 144 {
        MODE_VBLANK
    } else if lx < TRANSFER_START {
        MODE_OAM_SCAN
    } else if lx < TRANSFER_END {
        MODE_TRANSFER
    } else {
        MODE_HBLANK
    }
}

/// The shade that a palette register gives to a colour number: the two bits
/// of the register at twice the number.
pub open spec fn spec_shade(palette: u8, color: u8) -> u8 {
    (palette >> ((2 * color) as u8)) & 0x03
}

impl PPUState {
    /// The state at power-on.
    pub open spec fn power_on() -> PPUState {
        PPUState {
            front_display: blank_display(),
            back_display: blank_display(),
            vram: Seq::new(0x2000, |i: int| 0u8),
            oam: Seq::new(0xA0, |i: int| 0u8),
            control: PPUControl(0),
            lx: 0,
            ly: 0,
            bg_x: 0,
            bg_y: 0,
            win_x: 0,
            win_y: 0,
            palette: 0,
            interrupt_request: InterruptFlag(0),
            stat_enable: STATEnable(0),
            mode: MODE_OAM_SCAN,
            lyc: 0,
        }
    }

    /// The ranges that the unit serves: video RAM, the sprite table and the
    /// display registers.
    pub open spec fn handles(address: u16) -> bool {
        0x8000 <= address <= 0x9FFF || 0xFE00 <= address <= 0xFE9F || 0xFF40 <= address
            <= 0xFF4B
    }

    /// The offset in video RAM of the tile with number `tile`: sixteen bytes
    /// per tile from the start of video RAM where the control register selects
    /// the low tile data area; otherwise the numbers from 128 on come first,
    /// from `0x0800`, and the numbers below 128 follow from `0x1000`.
    pub open spec fn tile_offset(self, tile: u8) -> int {
        if self.control.spec_intersects(PPUControl::TILE_DATA_AREA) {
            16 * tile
        } else if tile < 128 {
            0x1000 + 16 * tile
        } else {
            0x0800 + 16 * (tile - 128)
        }
    }

    /// The number of the tile that covers the point (`x`, `y`) of a tile map.
    /// A map is 32 tiles wide, a tile 8 pixels; the high map starts at
    /// `0x1C00` and the low one at `0x1800`.
    pub open spec fn tile_number(self, x: u8, y: u8, high_map: bool) -> u8 {
        self.vram[(if high_map { 0x1C00int } else { 0x1800int }) + (y / 8) * 32 + x / 8]
    }

    /// The colour number, 0 to 3, of the point (`x`, `y`) of a tile map. A row
    /// of a tile is two bytes; the pixel's column picks one bit of each, bit 7
    /// for the leftmost column, and the second byte gives the high bit.
    pub open spec fn spec_read_tile_map(self, x: u8, y: u8, high_map: bool) -> u8 {
        let row = self.tile_offset(self.tile_number(x, y, high_map)) + 2 * (y % 8);
        let column = (7 - x % 8) as u8;
        (((self.vram[row] >> column) & 1) + 2 * ((self.vram[row + 1] >> column) & 1)) as u8
    }

    /// Whether the window covers the pixel (`x`, `y`) of the display: it is
    /// enabled, and the pixel lies at or below its top line and at or right of
    /// its left edge, which is seven less than the register says.
    pub open spec fn in_window(self, x: u8, y: u8) -> bool {
        self.control.spec_intersects(PPUControl::WINDOW_ENABLE) && x + 7 >= self.win_x && y
            >= self.win_y
    }

    /// The colour number of the pixel (`x`, `y`) of the display: 0 where
    /// background and window are switched off; the window's where it covers
    /// the pixel; otherwise the background's, scrolled and wrapped.
    pub open spec fn color_at(self, x: u8, y: u8) -> u8 {
        if !self.control.spec_intersects(PPUControl::BG_WINDOW_ENABLE) {
            0
        } else if self.in_window(x, y) {
            self.spec_read_tile_map(
                (x + 7 - self.win_x) as u8,
                (y - self.win_y) as u8,
                self.control.spec_intersects(PPUControl::WINDOW_TILE_MAP),
            )
        } else {
            self.spec_read_tile_map(
                ((x + self.bg_x) % 256) as u8,
                ((y + self.bg_y) % 256) as u8,
                self.control.spec_intersects(PPUControl::BG_TILE_MAP),
            )
        }
    }

    /// The shade, 0 to 3, of the pixel (`x`, `y`) of the display.
    pub open spec fn pixel(self, x: u8, y: u8) -> u8 {
        spec_shade(self.palette, self.color_at(x, y))
    }

    /// The back buffer with row `y` resolved up to, not including, column
    /// `columns`.
    pub open spec fn row_drawn(self, y: u8, columns: int) -> Seq<u8> {
        Seq::new(
            23040,
            |i: int|
                if i / 160 == y && i % 160 < columns {
                    self.pixel((i % 160) as u8, y)
                } else {
                    self.back_display[i]
                },
        )
    }

    /// The unit after it has resolved row `y` into the back buffer.
    pub open spec fn spec_draw_horizontal(self, y: u8) -> PPUState {
        PPUState { back_display: self.row_drawn(y, 160), ..self }
    }

    /// Whether the status register enables the entry into `mode` as a source
    /// of the status interrupt. The pixel transfer is no source.
    pub open spec fn mode_source(self, mode: u8) -> bool {
        (mode == MODE_OAM_SCAN && self.stat_enable.spec_intersects(STATEnable::MODE2)) || (mode
            == MODE_VBLANK && self.stat_enable.spec_intersects(STATEnable::MODE1)) || (mode
            == MODE_HBLANK && self.stat_enable.spec_intersects(STATEnable::MODE0))
    }

    /// The unit after it has entered `mode`: the status line is raised where
    /// the entry is an enabled source.
    pub open spec fn spec_update_mode(self, mode: u8) -> PPUState {
        if self.mode_source(mode) {
            PPUState {
                mode,
                interrupt_request: self.interrupt_request.spec_insert(InterruptFlag::LCD),
                ..self
            }
        } else {
            PPUState { mode, ..self }
        }
    }

    /// Whether the next dot starts the vertical blank.
    pub open spec fn enters_vblank(self) -> bool {
        self.lx >= 455 && self.ly == 143
    }

    /// The scanline that follows the current one.
    pub open spec fn next_line(self) -> u8 {
        if self.ly >= 153 {
            0
        } else {
            (self.ly + 1) as u8
        }
    }

    /// The unit at the first dot of the next scanline. Line 144 starts the
    /// vertical blank: its interrupt is raised, the back buffer becomes the
    /// front buffer and a blank buffer takes its place. A visible line starts
    /// with the scan of the sprite table. Where the status register enables the
    /// line compare and the new line is the one to compare with, the status
    /// line is raised.
    pub open spec fn start_line(self) -> PPUState {
        let line = self.next_line();
        let moved = PPUState { lx: 0, ly: line, ..self };
        let entered = if line == 144 {
            (PPUState {
                interrupt_request: moved.interrupt_request.spec_insert(InterruptFlag::VBLANK),
                front_display: moved.back_display,
                back_display: blank_display(),
                ..moved
            }).spec_update_mode(MODE_VBLANK)
        } else if line < 144 {
            moved.spec_update_mode(MODE_OAM_SCAN)
        } else {
            moved
        };
        if entered.stat_enable.spec_intersects(STATEnable::LYC) && entered.lyc == line {
            PPUState {
                interrupt_request: entered.interrupt_request.spec_insert(InterruptFlag::LCD),
                ..entered
            }
        } else {
            entered
        }
    }

    /// One dot. The requests of the dot before are dropped first. Within a
    /// visible line, dot 80 starts the pixel transfer, which resolves the
    /// line's row, and dot 369 starts the horizontal blank. The dot after dot
    /// 455 is dot 0 of the next line.
    pub open spec fn spec_cycle(self) -> PPUState {
        let quiet = PPUState { interrupt_request: InterruptFlag(0), ..self };
        if self.lx < 455 {
            let moved = PPUState { lx: (self.lx + 1) as u16, ..quiet };
            if self.ly < 144 && moved.lx == TRANSFER_START {
                moved.spec_update_mode(MODE_TRANSFER).spec_draw_horizontal(self.ly)
            } else if self.ly < 144 && moved.lx == TRANSFER_END {
                moved.spec_update_mode(MODE_HBLANK)
            } else {
                moved
            }
        } else {
            quiet.start_line()
        }
    }

    /// The status register as it reads: bit 7 set, the enabled sources, bit 2
    /// set where the line is the one to compare with, and the mode.
    pub open spec fn status(self) -> u8 {
        0x80 | self.stat_enable.0 | (if self.lyc == self.ly { 0x04u8 } else { 0x00u8 }) | (
        self.mode & 0x03)
    }

    /// What video RAM, the sprite table and the display registers read; `0xFF`
    /// where the window holds no register.
    pub open spec fn mem_read(self, address: u16) -> u8 {
        if 0x8000 <= address <= 0x9FFF {
            self.vram[address - 0x8000]
        } else if 0xFE00 <= address <= 0xFE9F {
            self.oam[address - 0xFE00]
        } else if address == 0xFF40 {
            self.control.0
        } else if address == 0xFF41 {
            self.status()
        } else if address == 0xFF42 {
            self.bg_y
        } else if address == 0xFF43 {
            self.bg_x
        } else if address == 0xFF44 {
            self.ly
        } else if address == 0xFF45 {
            self.lyc
        } else if address == 0xFF47 {
            self.palette
        } else if address == 0xFF4A {
            self.win_y
        } else if address == 0xFF4B {
            self.win_x
        } else {
            0xFF
        }
    }

    /// The scanline register and the mode cannot be written; of the status
    /// register only the four enable bits can.
    pub open spec fn mem_write(self, address: u16, value: u8) -> PPUState {
        if 0x8000 <= address <= 0x9FFF {
            PPUState { vram: self.vram.update(address - 0x8000, value), ..self }
        } else if 0xFE00 <= address <= 0xFE9F {
            PPUState { oam: self.oam.update(address - 0xFE00, value), ..self }
        } else if address == 0xFF40 {
            PPUState { control: PPUControl(value), ..self }
        } else if address == 0xFF41 {
            PPUState { stat_enable: STATEnable::spec_from_bits(value), ..self }
        } else if address == 0xFF42 {
            PPUState { bg_y: value, ..self }
        } else if address == 0xFF43 {
            PPUState { bg_x: value, ..self }
        } else if address == 0xFF45 {
            PPUState { lyc: value, ..self }
        } else if address == 0xFF47 {
            PPUState { palette: value, ..self }
        } else if address == 0xFF4A {
            PPUState { win_y: value, ..self }
        } else if address == 0xFF4B {
            PPUState { win_x: value, ..self }
        } else {
            self
        }
    }
}

impl PPUState {
    /// The unit after `n` dots.
    pub open spec fn spec_run(self, n: nat) -> PPUState
        decreases n,
    {
        if n == 0 {
            self
        } else {
            self.spec_run((n - 1) as nat).spec_cycle()
        }
    }

    /// How many of the next `n` dots hand the back buffer over to the front.
    pub open spec fn swap_count(self, n: nat) -> nat
        decreases n,
    {
        if n == 0 {
            0
        } else {
            self.swap_count((n - 1) as nat) + if self.spec_run((n - 1) as nat).enters_vblank() {
                1nat
            } else {
                0nat
            }
        }
    }

    /// How many of the next `n` dots raise the vertical blank interrupt.
    pub open spec fn vblank_count(self, n: nat) -> nat
        decreases n,
    {
        if n == 0 {
            0
        } else {
            self.vblank_count((n - 1) as nat) + if self.spec_run(n).interrupt_request.spec_intersects(
                InterruptFlag::VBLANK,
            ) {
                1nat
            } else {
                0nat
            }
        }
    }

    /// The unit stands at a dot of a scanline of the frame, in the mode that
    /// belongs to the dot.
    pub open spec fn on_schedule(self) -> bool {
        &&& self.lx < 456
        &&& self.ly < 154
        &&& self.mode == mode_at(self.ly, self.lx)
    }

    /// Where one dot takes the unit: to the next dot of the line, or from the
    /// last dot to the first of the next line. The vertical blank interrupt is
    /// raised by the dot that enters line 144 and by no other, and that dot
    /// alone replaces the front buffer, by what the back buffer held.
    pub proof fn lemma_cycle_position(self)
        ensures
            self.spec_cycle().lx == if self.lx < 455 {
                (self.lx + 1) as u16
            } else {
                0
            },
            self.spec_cycle().ly == if self.lx < 455 {
                self.ly
            } else {
                self.next_line()
            },
            self.spec_cycle().interrupt_request.spec_intersects(InterruptFlag::VBLANK)
                == self.enters_vblank(),
            self.spec_cycle().front_display == if self.enters_vblank() {
                self.back_display
            } else {
                self.front_display
            },
            self.enters_vblank() ==> self.spec_cycle().back_display == blank_display(),
            self.spec_cycle().vram == self.vram,
            self.spec_cycle().oam == self.oam,
    {
        assert(forall|r: u8| #![auto] (r | 0x01) & 0x01 != 0 && (r | 0x02) & 0x01 == r & 0x01)
            by (bit_vector);
        assert(0u8 & 0x01 == 0) by (bit_vector);
    }

    /// Whether every pixel of both frame buffers is one of the four shades.
    pub open spec fn shaded(self) -> bool {
        &&& self.front_display.len() == 23040
        &&& self.back_display.len() == 23040
        &&& forall|i: int| 0 <= i < 23040 ==> #[trigger] self.front_display[i] <= 3
        &&& forall|i: int| 0 <= i < 23040 ==> #[trigger] self.back_display[i] <= 3
    }

    /// A frame buffer never holds anything but shades: a dot writes nothing
    /// else into the back buffer, and the front buffer only ever takes what
    /// the back buffer held.
    pub proof fn lemma_cycle_shaded(self)
        requires
            self.shaded(),
        ensures
            self.spec_cycle().shaded(),
            PPUState::power_on().shaded(),
    {
        assert forall|palette: u8, color: u8| #[trigger] spec_shade(palette, color) <= 3 by {
            lemma_and_bounds(palette >> ((2 * color) as u8), 0x03);
        }
    }

    /// The dots up to and with the one that starts the vertical blank.
    pub open spec fn dots_to_vblank(self) -> nat {
        let lines: int = if self.ly <= 143 {
            143 - self.ly
        } else if self.ly < 153 {
            297 - self.ly
        } else {
            144
        };
        let dots: int = if self.lx < 455 {
            455 - self.lx
        } else {
            0
        };
        (456 * lines + dots + 1) as nat
    }

    /// The count of dots to the vertical blank is one on the dot that starts
    /// it and goes down by one on every other dot.
    pub proof fn lemma_dots_to_vblank(self)
        ensures
            self.dots_to_vblank() >= 1,
            self.dots_to_vblank() <= 70224,
            self.enters_vblank() <==> self.dots_to_vblank() == 1,
            !self.enters_vblank() ==> self.spec_cycle().dots_to_vblank() + 1
                == self.dots_to_vblank(),
    {
        self.lemma_cycle_position();
    }

    /// One dot keeps the unit on schedule: on a visible line the modes follow
    /// each other as scan, transfer, horizontal blank, and the ten lines after
    /// line 143 pass in the vertical blank.
    pub proof fn lemma_cycle_on_schedule(self)
        requires
            self.on_schedule(),
        ensures
            self.spec_cycle().on_schedule(),
    {
    }

    /// From dot 0 of line 0, where the unit stands after `n` dots of a frame
    /// and what it has done by then.
    pub proof fn lemma_within_frame(self, n: nat)
        requires
            self.lx == 0,
            self.ly == 0,
            n <= 70224,
        ensures
            n < 70224 ==> self.spec_run(n).lx + 456 * self.spec_run(n).ly == n,
            n == 70224 ==> self.spec_run(n).lx == 0 && self.spec_run(n).ly == 0,
            self.spec_run(n).lx < 456,
            self.spec_run(n).ly < 154,
            self.swap_count(n) == if n > 65663 {
                1nat
            } else {
                0nat
            },
            self.vblank_count(n) == if n > 65663 {
                1nat
            } else {
                0nat
            },
        decreases n,
    {
        if n > 0 {
            self.lemma_within_frame((n - 1) as nat);
            self.spec_run((n - 1) as nat).lemma_cycle_position();
        }
    }

    /// A full frame: 70224 dots after dot 0 of line 0 the unit stands at dot 0
    /// of line 0 again, it has handed one frame over and it has raised the
    /// vertical blank interrupt once.
    pub proof fn lemma_full_frame(self)
        requires
            self.lx == 0,
            self.ly == 0,
        ensures
            self.spec_run(70224).lx == 0,
            self.spec_run(70224).ly == 0,
            self.swap_count(70224) == 1,
            self.vblank_count(70224) == 1,
    {
        self.lemma_within_frame(70224);
    }
}

/// The shade that `palette` gives to the colour number `color`.
#[verifier::when_used_as_spec(spec_shade)]
pub fn shade(palette: u8, color: u8) -> (r: u8)
    requires
        color <= 3,
    ensures
        r == spec_shade(palette, color),
        r <= 3,
{
    proof {
        lemma_and_bounds(palette >> ((2 * color) as u8), 0x03);
    }
    (palette >> (2 * color)) & 0b11
}

impl PPU {
    /// The state at power-on.
    pub fn new() -> (r: PPU)
        ensures
            r@ == PPUState::power_on(),
    {
        let ppu = PPU {
            front_display: [0u8; 23040],
            back_display: [0u8; 23040],
            vram: [0u8; 0x2000],
            oam: [0u8; 0xA0],
            control: PPUControl::from_bits_truncate(0),
            lx: 0,
            ly: 0,
            bg_x: 0,
            bg_y: 0,
            win_x: 0,
            win_y: 0,
            palette: 0,
            interrupt_request: InterruptFlag::empty(),
            stat_enable: STATEnable(0),
            mode: MODE_OAM_SCAN,
            lyc: 0,
        };
        assert(ppu.front_display@ =~= blank_display());
        assert(ppu.back_display@ =~= blank_display());
        assert(ppu.vram@ =~= Seq::new(0x2000, |i: int| 0u8));
        assert(ppu.oam@ =~= Seq::new(0xA0, |i: int| 0u8));
        ppu
    }

    /// Advances the unit by one dot.
    pub fn cycle(&mut self)
        ensures
            final(self)@ == old(self)@.spec_cycle(),
    {
        self.interrupt_request = InterruptFlag::empty();

        if self.lx < 455 {
            self.lx += 1;
            if self.ly < 144 {
                if self.lx == TRANSFER_START {
                    self.update_mode(MODE_TRANSFER);
                    self.draw_horizontal(self.ly);
                } else if self.lx == TRANSFER_END {
                    self.update_mode(MODE_HBLANK);
                }
            }
        } else {
            self.lx = 0;
            self.ly = if self.ly >= 153 { 0 } else { self.ly + 1 };

            if self.ly == 144 {
                self.interrupt_request.insert(InterruptFlag::VBLANK);
                // The finished frame goes to the front, a blank one to the back
                self.front_display = self.back_display;
                self.back_display = [0u8; 23040];
                assert(self.back_display@ =~= blank_display());
                self.update_mode(MODE_VBLANK);
            } else if self.ly < 144 {
                self.update_mode(MODE_OAM_SCAN);
            }
            // Check for LYC=LY interrupt if its enabled

            if self.stat_enable.intersects(STATEnable::LYC) && self.lyc == self.ly {
                self.interrupt_request.insert(InterruptFlag::LCD);
            }
        }
    }

    /// Enters `mode` and raises the status line where the entry is an enabled
    /// source.
    pub fn update_mode(&mut self, mode: u8)
        ensures
            final(self)@ == old(self)@.spec_update_mode(mode),
    {
        self.mode = mode;
        // Send interrupt if enabled
        if (mode == MODE_OAM_SCAN && self.stat_enable.intersects(STATEnable::MODE2)) || (mode
            == MODE_VBLANK && self.stat_enable.intersects(STATEnable::MODE1)) || (mode
            == MODE_HBLANK && self.stat_enable.intersects(STATEnable::MODE0)) {
            self.interrupt_request.insert(InterruptFlag::LCD);
        }
    }

    /// Gives the pixel (`x`, `y`) of the back buffer the shade that the
    /// palette register holds for the colour number `col_id`.
    pub fn set_pixel(&mut self, x: u8, y: u8, col_id: u8)
        requires
            x < 160,
            y < 144,
            col_id <= 3,
        ensures
            final(self)@ == (PPUState {
                back_display: old(self)@.back_display.update(
                    y * 160 + x,
                    spec_shade(old(self).palette, col_id),
                ),
                ..old(self)@
            }),
    {
        // Get correct color value from the palette register
        let col = shade(self.palette, col_id);
        self.back_display[(y as usize) * WIDTH + (x as usize)] = col;
    }

    /// Returns the color ID from the tile map at specified coordinates
    pub fn read_tile_map(&self, x: u8, y: u8, tile_map: bool) -> (r: u8)
        ensures
            r == self@.spec_read_tile_map(x, y, tile_map),
            r <= 3,
    {
        // Get tile index in tile map
        let tile_map_index: u16 = ((y / 8) as u16) * 32 + ((x / 8) as u16);
        // Get start position in memory of selected tile map
        let tile_map_root: u16 = if tile_map { 0x1C00 } else { 0x1800 };
        // Get index of tile data from tile map
        let tile_index = self.vram[(tile_map_root + tile_map_index) as usize];

        // Get start position in memory of the tile (one tile is 16 bytes)
        let tile_root: u16 = if self.control.intersects(PPUControl::TILE_DATA_AREA) {
            16 * (tile_index as u16)
        } else if tile_index < 128 {
            0x1000 + 16 * (tile_index as u16)
        } else {
            0x0800 + 16 * ((tile_index - 128) as u16)
        };
        // Add target row to it to get address of the two bytes
        // that make up a tile row of color data
        let byte_index = tile_root + 2 * ((y % 8) as u16);
        // Get the color bytes from VRAM
        let a_byte = self.vram[byte_index as usize];
        let b_byte = self.vram[(byte_index + 1) as usize];
        // Get the bit values of correct tile column
        let column: u8 = 7 - x % 8;
        proof {
            lemma_bitwise_bits(a_byte, 0, column);
            lemma_bitwise_bits(b_byte, 0, column);
        }
        let a = (a_byte >> column) & 1;
        let b = (b_byte >> column) & 1;

        // Get color ID from the two bits
        a + 2 * b
    }

    /// The colour number of a pixel of the display.
    fn color_at(&self, x: u8, y: u8) -> (r: u8)
        requires
            x < 160,
            y < 144,
        ensures
            r == self@.color_at(x, y),
            r <= 3,
    {
        // If background and window are disabled, the pixel is blank
        if !self.control.intersects(PPUControl::BG_WINDOW_ENABLE) {
            return 0;
        }
        // Get window pixel instead of background if
        // window is enabled and pixel is inside window bounds

        if self.control.intersects(PPUControl::WINDOW_ENABLE) && x + 7 >= self.win_x && y
            >= self.win_y {
            let high_map = self.control.intersects(PPUControl::WINDOW_TILE_MAP);
            self.read_tile_map(x + 7 - self.win_x, y - self.win_y, high_map)
        } else {
            let high_map = self.control.intersects(PPUControl::BG_TILE_MAP);
            let map_x = x.wrapping_add(self.bg_x);
            let map_y = y.wrapping_add(self.bg_y);
            assert(map_x == ((x + self.bg_x) % 256) as u8);
            assert(map_y == ((y + self.bg_y) % 256) as u8);
            self.read_tile_map(map_x, map_y, high_map)
        }
    }

    /// Resolves the row `y` of the display into the back buffer.
    pub fn draw_horizontal(&mut self, y: u8)
        requires
            y < 144,
        ensures
            final(self)@ == old(self)@.spec_draw_horizontal(y),
    {
        let mut x: u8 = 0;
        assert(self@.back_display =~= old(self)@.row_drawn(y, 0));
        while x < 160
            invariant
                x <= 160,
                y < 144,
                self@ == (PPUState { back_display: old(self)@.row_drawn(y, x as int), ..old(self)@ }),
            decreases 160 - x,
        {
            let col_id = self.color_at(x, y);
            assert(self@.color_at(x, y) == old(self)@.color_at(x, y));
            self.set_pixel(x, y, col_id);
            assert(self@.back_display =~= old(self)@.row_drawn(y, x + 1));
            x += 1;
        }
    }
}

impl MemoryAccess for PPU {
    open spec fn handles(address: u16) -> bool {
        PPUState::handles(address)
    }

    open spec fn peek(state: Self::V, address: u16) -> u8 {
        state.mem_read(address)
    }

    open spec fn poke(state: Self::V, address: u16, value: u8) -> Self::V {
        state.mem_write(address, value)
    }

    fn get_range(&self) -> (ranges: Vec<RangeInclusive<u16>>) {
        let mut ranges: Vec<RangeInclusive<u16>> = Vec::new();
        ranges.push(RangeInclusive::new(0x8000, 0x9FFF));
        ranges.push(RangeInclusive::new(0xFE00, 0xFE9F));
        ranges.push(RangeInclusive::new(0xFF40, 0xFF4B));
        assert forall|address: u16| in_ranges(ranges@, address) <==> Self::handles(address) by {
            if 0x8000 <= address <= 0x9FFF {
                assert(ranges@[0]@.start <= address <= ranges@[0]@.end);
            } else if 0xFE00 <= address <= 0xFE9F {
                assert(ranges@[1]@.start <= address <= ranges@[1]@.end);
            } else if 0xFF40 <= address <= 0xFF4B {
                assert(ranges@[2]@.start <= address <= ranges@[2]@.end);
            }
        }
        ranges
    }

    fn mem_read(&self, address: u16) -> (r: u8)
    {
        match address {
            0x8000..=0x9FFF => self.vram[(address - 0x8000) as usize],
            0xFE00..=0xFE9F => self.oam[(address - 0xFE00) as usize],
            0xFF40 => self.control.bits(),
            0xFF41 => {
                let lyc: u8 = if self.lyc == self.ly { 0x04 } else { 0x00 };
                0x80 | self.stat_enable.bits() | lyc | (self.mode & 0x03)
            },
            0xFF42 => self.bg_y,
            0xFF43 => self.bg_x,
            0xFF44 => self.ly,
            0xFF45 => self.lyc,
            0xFF47 => self.palette,
            0xFF4A => self.win_y,
            0xFF4B => self.win_x,
            _ => 0xFF,
        }
    }

    fn mem_write(&mut self, address: u16, value: u8)
    {
        match address {
            0x8000..=0x9FFF => {
                self.vram[(address - 0x8000) as usize] = value;
            },
            0xFE00..=0xFE9F => {
                self.oam[(address - 0xFE00) as usize] = value;
            },
            0xFF40 => self.control = PPUControl::from_bits_truncate(value),
            0xFF41 => self.stat_enable = STATEnable::from_bits_truncate(value),
            0xFF42 => self.bg_y = value,
            0xFF43 => self.bg_x = value,
            0xFF45 => self.lyc = value,
            0xFF47 => self.palette = value,
            0xFF4A => self.win_y = value,
            0xFF4B => self.win_x = value,
            _ => {},
        }
    }
}

} // verus!
