//! The pixel processing unit: its modes, its interrupts and the frame.

use vstd::prelude::*;

use crate::gameboy::cpu::alu::wrap8;
use crate::gameboy::cpu::register::IntFlag;
use crate::gameboy::cpu::register::IntReg;
use crate::gameboy::graphics::lcd::lemma_mode_bits;
use crate::gameboy::graphics::lcd::spec_with_mode;
use crate::gameboy::graphics::lcd::LCDControllerRegister;
use crate::gameboy::graphics::lcd::LCDMode;
use crate::gameboy::graphics::lcd::LCDStatusRegister;
use crate::gameboy::graphics::lcd::STAT_LY;
use crate::gameboy::graphics::lcd::STAT_M0;
use crate::gameboy::graphics::lcd::STAT_M1;
use crate::gameboy::graphics::lcd::STAT_M2;
use crate::gameboy::graphics::tile::shade;
use crate::gameboy::graphics::tile::spec_color_num;
use crate::gameboy::graphics::tile::spec_shade;
use crate::gameboy::graphics::tile::Attr;
use crate::gameboy::graphics::tile::Palette;
use crate::gameboy::graphics::tile::TileLine;
use crate::gameboy::mmu::IOHandler;
use crate::gameboy::term::SCREEN_H;
use crate::gameboy::term::SCREEN_W;
use crate::gameboy::util::spec_clear_bit;
use crate::gameboy::util::spec_set_bit;
use crate::gameboy::util::spec_test_bit;
use crate::gameboy::util::test_bit;

verus! {

/// The dots of one scanline.
pub const LINE_DOTS: u32 = 456;

/// The scanlines of one frame, the ten of the vertical blanking included.
pub const FRAME_LINES: u8 = 154;

/// The dots of a scanline that are spent in mode 2.
pub const OAM_DOTS: u32 = 80;

/// The dots of a scanline that are spent in modes 2 and 3.
pub const TRANSFER_END: u32 = 252;

/// The most dots that the controller advances in one piece, so that no
/// mode is passed over.
pub const CHUNK: u32 = 80;

/// The size of the video RAM.
pub const VRAM_SIZE: usize = 0x4000;

/// The size of the sprite attribute table: 40 entries of four bytes.
pub const OAM_SIZE: usize = 0xa0;

/// The number of sprites.
pub const SPRITES: usize = 40;

/// The address of the video RAM.
pub const VRAM_START: u16 = 0x8000;

/// The address of the sprite attribute table.
pub const OAM_START: u16 = 0xfe00;

/// The pixel of a window for the shade `c`: opaque, with the shade in each
/// of red, green and blue.
pub open spec fn spec_argb(c: u8) -> u32 {
    (0xff00_0000 + c * 0x1_0000 + c * 0x100 + c) as u32
}

/// Returns the pixel of a window for the shade `c`.
pub fn argb(c: u8) -> (r: u32)
    ensures
        r == spec_argb(c),
{
    0xff00_0000 + (c as u32) * 0x1_0000 + (c as u32) * 0x100 + (c as u32)
}

/// What the pixel processing unit holds.
///
/// `shades` is the frame: one shade of grey for each of the 160 x 144
/// pixels, line after line. `prio` holds, for each pixel of the line that
/// was drawn last, the colour number of the background there. `dots` counts
/// the dots within the scanline `ly`.
pub struct GpuView {
    pub updated: bool,
    pub shades: Seq<u8>,
    pub lcdc: u8,
    pub stat: u8,
    pub scroll_y: u8,
    pub scroll_x: u8,
    pub window_y: u8,
    pub window_x: u8,
    pub ly: u8,
    pub lc: u8,
    pub bg_palette: u8,
    pub obj_palette0: u8,
    pub obj_palette1: u8,
    pub ram: Seq<u8>,
    pub oam: Seq<u8>,
    pub prio: Seq<u8>,
    pub dots: u32,
}

impl GpuView {
    /// Whether the sizes and counters are what they are in every unit.
    pub open spec fn wf(self) -> bool {
        &&& self.shades.len() == SCREEN_W * SCREEN_H
        &&& self.ram.len() == VRAM_SIZE
        &&& self.oam.len() == OAM_SIZE
        &&& self.prio.len() == SCREEN_W
        &&& self.ly < FRAME_LINES
        &&& self.dots < LINE_DOTS
    }

    /// Whether the LCD is on.
    pub open spec fn enabled(self) -> bool {
        spec_test_bit(self.lcdc, 7)
    }

    /// The mode in STAT.
    pub open spec fn mode(self) -> LCDMode {
        LCDMode::spec_from(self.stat)
    }

    /// Whether the window is shown on the current scanline.
    pub open spec fn uses_window(self) -> bool {
        spec_test_bit(self.lcdc, 5) && self.window_y <= self.ly
    }

    /// The leftmost pixel of the window.
    pub open spec fn window_left(self) -> u8 {
        wrap8(self.window_x - 7)
    }

    /// Whether the pixel `x` of the current scanline shows the window.
    pub open spec fn in_window(self, x: int) -> bool {
        self.uses_window() && x >= self.window_left()
    }

    /// The column within the tile map that the pixel `x` shows.
    pub open spec fn pos_x(self, x: int) -> u8 {
        if self.in_window(x) {
            (x - self.window_left()) as u8
        } else {
            wrap8(self.scroll_x + x)
        }
    }

    /// The row within the tile map that the pixel `x` shows.
    pub open spec fn pos_y(self, x: int) -> u8 {
        if self.in_window(x) {
            (self.ly - self.window_y) as u8
        } else {
            wrap8(self.scroll_y + self.ly)
        }
    }

    /// The address of the tile map that the pixel `x` is taken from.
    pub open spec fn map_base(self, x: int) -> u16 {
        if self.in_window(x) {
            (LCDControllerRegister { reg: self.lcdc }).spec_tile_map(6)
        } else {
            (LCDControllerRegister { reg: self.lcdc }).spec_tile_map(3)
        }
    }

    /// The address of the data of the tile with the number `id`: tiles are
    /// numbered from 0 at 0x8000, or from -128 at 0x8800.
    pub open spec fn tile_addr(self, id: u8) -> int {
        if spec_test_bit(self.lcdc, 4) {
            0x8000 + 16 * id
        } else {
            0x8800 + 16 * ((id + 128) % 256)
        }
    }

    /// The byte of the video RAM at the address `a`.
    pub open spec fn vram(self, a: int) -> u8 {
        self.ram[a - VRAM_START]
    }

    /// The colour number of background or window at the pixel `x` of the
    /// current scanline.
    pub open spec fn bg_index(self, x: int) -> u8 {
        let px = self.pos_x(x);
        let py = self.pos_y(x);
        let id = self.vram(self.map_base(x) + (py / 8) * 32 + px / 8);
        let a = self.tile_addr(id) + 2 * (py % 8);
        spec_color_num(self.vram(a), self.vram(a + 1), px % 8)
    }

    /// The shades of the current scanline in the frame.
    pub open spec fn line(self) -> Seq<u8> {
        self.shades.subrange(self.ly * SCREEN_W, self.ly * SCREEN_W + SCREEN_W)
    }

    /// The frame with the current scanline replaced by `line`.
    pub open spec fn with_line(self, line: Seq<u8>) -> Seq<u8> {
        Seq::new(
            self.shades.len(),
            |i: int|
                if self.ly * SCREEN_W <= i < self.ly * SCREEN_W + SCREEN_W {
                    line[i - self.ly * SCREEN_W]
                } else {
                    self.shades[i]
                },
        )
    }

    /// The scanline of background and window.
    pub open spec fn bg_line(self) -> Seq<u8> {
        Seq::new(
            SCREEN_W as nat,
            |x: int| spec_shade(self.bg_palette, self.bg_index(x)).spec_value(),
        )
    }

    /// The colour numbers of background and window along the scanline.
    pub open spec fn bg_prio(self) -> Seq<u8> {
        Seq::new(SCREEN_W as nat, |x: int| self.bg_index(x))
    }

    /// The height of the sprites.
    pub open spec fn sprite_height(self) -> u8 {
        (LCDControllerRegister { reg: self.lcdc }).spec_sprite_height()
    }

    /// The top line of the sprite `i`.
    pub open spec fn sprite_y(self, i: int) -> u8 {
        wrap8(self.oam[4 * i] - 16)
    }

    /// The leftmost pixel of the sprite `i`.
    pub open spec fn sprite_x(self, i: int) -> u8 {
        wrap8(self.oam[4 * i + 1] - 8)
    }

    /// The attributes of the sprite `i`.
    pub open spec fn sprite_attr(self, i: int) -> Attr {
        Attr::spec_from(self.oam[4 * i + 3])
    }

    /// The line of the sprite `i` that the current scanline crosses.
    pub open spec fn sprite_row(self, i: int) -> u8 {
        wrap8(self.ly - self.sprite_y(i))
    }

    /// Whether the sprite `i` is drawn on the current scanline: the
    /// scanline crosses it, and it is not wholly beside the screen.
    pub open spec fn sprite_shown(self, i: int) -> bool {
        &&& self.sprite_row(i) < self.sprite_height()
        &&& !(SCREEN_W <= self.sprite_x(i) <= 0xff - 7)
    }

    /// The address of the tile line of the sprite `i` on the current
    /// scanline.
    pub open spec fn sprite_addr(self, i: int) -> int {
        let row = if self.sprite_attr(i).yflip {
            self.sprite_height() - 1 - self.sprite_row(i)
        } else {
            self.sprite_row(i) as int
        };
        0x8000 + 16 * self.oam[4 * i + 2] + 2 * row
    }

    /// The colour number of the pixel `k`, counted from the left on the
    /// screen, of the sprite `i` on the current scanline.
    pub open spec fn sprite_index(self, i: int, k: int) -> u8 {
        let a = self.sprite_addr(i);
        let col = if self.sprite_attr(i).xflip {
            7 - k
        } else {
            k
        };
        spec_color_num(self.vram(a), self.vram(a + 1), col as u8)
    }

    /// The palette byte of the sprite `i`.
    pub open spec fn sprite_palette(self, i: int) -> u8 {
        if self.sprite_attr(i).palette == Palette::OBP1 {
            self.obj_palette1
        } else {
            self.obj_palette0
        }
    }

    /// Whether the pixel `k` of the sprite `i` is drawn: it is on the
    /// screen, its colour is not the transparent one, and the sprite is not
    /// behind a background of another colour than zero.
    pub open spec fn sprite_px_drawn(self, prio: Seq<u8>, i: int, k: int) -> bool {
        let px = wrap8(self.sprite_x(i) + k);
        &&& px < SCREEN_W
        &&& self.sprite_index(i, k) != 0
        &&& !(self.sprite_attr(i).priority && prio[px as int] != 0)
    }

    /// The scanline `line` after the pixel `k` of the sprite `i` is drawn
    /// over it.
    pub open spec fn sprite_px(self, prio: Seq<u8>, line: Seq<u8>, i: int, k: int) -> Seq<u8> {
        if self.sprite_px_drawn(prio, i, k) {
            line.update(
                wrap8(self.sprite_x(i) + k) as int,
                spec_shade(self.sprite_palette(i), self.sprite_index(i, k)).spec_value(),
            )
        } else {
            line
        }
    }

    /// The scanline `line` after the first `n` pixels of the sprite `i` are
    /// drawn over it.
    pub open spec fn sprite_pixels(self, prio: Seq<u8>, line: Seq<u8>, i: int, n: int) -> Seq<u8>
        decreases n,
    {
        if n <= 0 {
            line
        } else {
            self.sprite_px(prio, self.sprite_pixels(prio, line, i, n - 1), i, n - 1)
        }
    }

    /// The scanline `line` after the first `m` sprites are drawn over it,
    /// in the order of the attribute table.
    pub open spec fn sprites_over(self, prio: Seq<u8>, line: Seq<u8>, m: int) -> Seq<u8>
        decreases m,
    {
        if m <= 0 {
            line
        } else {
            let under = self.sprites_over(prio, line, m - 1);
            if self.sprite_shown(m - 1) {
                self.sprite_pixels(prio, under, m - 1, 8)
            } else {
                under
            }
        }
    }

    /// The colour numbers of the background that the sprites are drawn
    /// against: those of the current scanline where the background is
    /// shown, else those that were left.
    pub open spec fn drawn_prio(self) -> Seq<u8> {
        if spec_test_bit(self.lcdc, 0) {
            self.bg_prio()
        } else {
            self.prio
        }
    }

    /// The current scanline as it is drawn: background and window where
    /// they are shown, with the sprites over them where they are shown.
    pub open spec fn drawn_line(self) -> Seq<u8> {
        let under = if spec_test_bit(self.lcdc, 0) {
            self.bg_line()
        } else {
            self.line()
        };
        if spec_test_bit(self.lcdc, 1) {
            self.sprites_over(self.drawn_prio(), under, SPRITES as int)
        } else {
            under
        }
    }

    /// The unit after the current scanline is drawn.
    pub open spec fn drawn(self) -> GpuView {
        GpuView { shades: self.with_line(self.drawn_line()), prio: self.drawn_prio(), ..self }
    }

    /// The unit and the interrupt flags after the mode `mode` is entered.
    /// Entering mode 0 draws the scanline; entering mode 1 marks the frame
    /// as complete and requests the V-blank interrupt. Each of the modes 0,
    /// 1 and 2 requests the LCD status interrupt where STAT enables it.
    pub open spec fn entered(self, intf: u8, mode: LCDMode) -> (GpuView, u8) {
        let g = GpuView { stat: spec_with_mode(self.stat, mode), ..self };
        let lcd = spec_set_bit(intf, IntFlag::LCDStat.spec_bit());
        match mode {
            LCDMode::HBlank => (
                g.drawn(),
                if spec_test_bit(self.stat, STAT_M0) {
                    lcd
                } else {
                    intf
                },
            ),
            LCDMode::VBlank => (
                GpuView { updated: true, ..g },
                if spec_test_bit(self.stat, STAT_M1) {
                    spec_set_bit(
                        spec_set_bit(intf, IntFlag::VBlank.spec_bit()),
                        IntFlag::LCDStat.spec_bit(),
                    )
                } else {
                    spec_set_bit(intf, IntFlag::VBlank.spec_bit())
                },
            ),
            LCDMode::OAM => (
                g,
                if spec_test_bit(self.stat, STAT_M2) {
                    lcd
                } else {
                    intf
                },
            ),
            LCDMode::VRAM => (g, intf),
        }
    }

    /// The unit and the interrupt flags after the mode `mode` is entered,
    /// unless the unit is in that mode.
    pub open spec fn moved_to(self, intf: u8, mode: LCDMode) -> (GpuView, u8) {
        if self.mode() == mode {
            (self, intf)
        } else {
            self.entered(intf, mode)
        }
    }

    /// The mode of a visible scanline at the dot `dots`: mode 2 for the
    /// dots 0 to 79, mode 3 up to 251, mode 0 from 252.
    pub open spec fn mode_at(dots: u32) -> LCDMode {
        if dots < OAM_DOTS {
            LCDMode::OAM
        } else if dots < TRANSFER_END {
            LCDMode::VRAM
        } else {
            LCDMode::HBlank
        }
    }

    /// The unit and the interrupt flags at the start of the next scanline.
    /// LY wraps from 153 to 0. The LCD status interrupt is requested where
    /// LY equals LYC and STAT enables it. From line 144 on the unit is in
    /// mode 1.
    pub open spec fn next_line(self, intf: u8) -> (GpuView, u8) {
        let ly = ((self.ly + 1) % FRAME_LINES as int) as u8;
        let g = GpuView { ly: ly, ..self };
        let f = if spec_test_bit(self.stat, STAT_LY) && ly == self.lc {
            spec_set_bit(intf, IntFlag::LCDStat.spec_bit())
        } else {
            intf
        };
        if ly >= SCREEN_H {
            g.moved_to(f, LCDMode::VBlank)
        } else {
            (g, f)
        }
    }

    /// The unit and the interrupt flags after `c` dots, 80 at most.
    pub open spec fn ticked(self, intf: u8, c: u32) -> (GpuView, u8) {
        let (g, f) = if self.dots + c >= LINE_DOTS {
            (GpuView { dots: (self.dots + c - LINE_DOTS) as u32, ..self }).next_line(intf)
        } else {
            (GpuView { dots: (self.dots + c) as u32, ..self }, intf)
        };
        if g.ly < SCREEN_H {
            g.moved_to(f, Self::mode_at(g.dots))
        } else {
            (g, f)
        }
    }

    /// The unit and the interrupt flags after `cycles` dots with the LCD
    /// on, taken in pieces of 80 dots at most.
    pub open spec fn advanced(self, intf: u8, cycles: u32) -> (GpuView, u8)
        decreases cycles,
    {
        if cycles == 0 {
            (self, intf)
        } else {
            let c = if cycles >= CHUNK {
                CHUNK
            } else {
                cycles
            };
            let (g, f) = self.ticked(intf, c);
            g.advanced(f, (cycles - c) as u32)
        }
    }

    /// The unit and the interrupt flags after `cycles` dots. With the LCD
    /// off nothing moves and nothing is requested.
    pub open spec fn next(self, intf: u8, cycles: u32) -> (GpuView, u8) {
        if self.enabled() {
            self.advanced(intf, cycles)
        } else {
            (self, intf)
        }
    }

    /// Entering a mode keeps the sizes and the counters.
    pub proof fn lemma_entered_wf(self, intf: u8, mode: LCDMode)
        requires
            self.wf(),
        ensures
            self.entered(intf, mode).0.wf(),
            self.moved_to(intf, mode).0.wf(),
            self.entered(intf, mode).0.ly == self.ly,
            self.moved_to(intf, mode).0.ly == self.ly,
            self.entered(intf, mode).0.dots == self.dots,
            self.moved_to(intf, mode).0.dots == self.dots,
    {
    }

    /// A piece of 80 dots at most keeps LY below 154 and the dot counter
    /// below 456.
    pub proof fn lemma_ticked_wf(self, intf: u8, c: u32)
        requires
            self.wf(),
            c <= CHUNK,
        ensures
            self.ticked(intf, c).0.wf(),
    {
        let (g, f) = if self.dots + c >= LINE_DOTS {
            let moved = GpuView { dots: (self.dots + c - LINE_DOTS) as u32, ..self };
            let ly = ((self.ly + 1) % FRAME_LINES as int) as u8;
            let lined = GpuView { ly: ly, ..moved };
            lined.lemma_entered_wf(
                if spec_test_bit(moved.stat, STAT_LY) && ly == moved.lc {
                    spec_set_bit(intf, IntFlag::LCDStat.spec_bit())
                } else {
                    intf
                },
                LCDMode::VBlank,
            );
            moved.next_line(intf)
        } else {
            (GpuView { dots: (self.dots + c) as u32, ..self }, intf)
        };
        g.lemma_entered_wf(f, Self::mode_at(g.dots));
    }

    /// However many dots pass, LY stays below 154 and the dot counter below
    /// 456, and the frame, the video RAM and the attribute table keep their
    /// sizes.
    pub proof fn lemma_next_wf(self, intf: u8, cycles: u32)
        requires
            self.wf(),
        ensures
            self.advanced(intf, cycles).0.wf(),
            self.next(intf, cycles).0.wf(),
            self.next(intf, cycles).0.ly < 154,
            self.next(intf, cycles).0.dots < 456,
        decreases cycles,
    {
        if cycles > 0 {
            let c = if cycles >= CHUNK {
                CHUNK
            } else {
                cycles
            };
            self.lemma_ticked_wf(intf, c);
            let (g, f) = self.ticked(intf, c);
            g.lemma_next_wf(f, (cycles - c) as u32);
        }
    }

    /// With the LCD off no interrupt is requested and nothing moves,
    /// however many dots pass.
    pub proof fn lemma_lcd_off_is_still(self, intf: u8, cycles: u32)
        requires
            !self.enabled(),
        ensures
            self.next(intf, cycles) == (self, intf),
    {
    }

    /// The byte that a read at `a` returns.
    pub open spec fn byte_at(self, a: u16) -> u8 {
        if 0x8000 <= a <= 0x9fff {
            self.ram[a - 0x8000]
        } else if 0xfe00 <= a <= 0xfe9f {
            self.oam[a - 0xfe00]
        } else if a == 0xff40 {
            self.lcdc
        } else if a == 0xff41 {
            self.stat
        } else if a == 0xff42 {
            self.scroll_y
        } else if a == 0xff43 {
            self.scroll_x
        } else if a == 0xff44 {
            self.ly
        } else if a == 0xff45 {
            self.lc
        } else if a == 0xff47 {
            self.bg_palette
        } else if a == 0xff48 {
            self.obj_palette0
        } else if a == 0xff49 {
            self.obj_palette1
        } else if a == 0xff4a {
            self.window_y
        } else if a == 0xff4b {
            self.window_x
        } else {
            0
        }
    }

    /// STAT after a write of `v`: the interrupt enables in the bits 6, 4
    /// and 3 are those of `v`, the enable in bit 5 is set, the rest stays.
    pub open spec fn stat_written(stat: u8, v: u8) -> u8 {
        let s6 = if spec_test_bit(v, 6) {
            spec_set_bit(stat, STAT_LY)
        } else {
            spec_clear_bit(stat, STAT_LY)
        };
        let s5 = spec_set_bit(s6, STAT_M2);
        let s4 = if spec_test_bit(v, 4) {
            spec_set_bit(s5, STAT_M1)
        } else {
            spec_clear_bit(s5, STAT_M1)
        };
        if spec_test_bit(v, 3) {
            spec_set_bit(s4, STAT_M0)
        } else {
            spec_clear_bit(s4, STAT_M0)
        }
    }

    /// The unit after the LCD was switched off: the dot counter and LY are
    /// zero, the mode is 0, the frame is white and marked as complete.
    pub open spec fn switched_off(self) -> GpuView {
        GpuView {
            dots: 0,
            ly: 0,
            stat: spec_with_mode(self.stat, LCDMode::HBlank),
            shades: Seq::new((SCREEN_W * SCREEN_H) as nat, |i: int| 0xffu8),
            updated: true,
            ..self
        }
    }

    /// The unit after a write of `v` at `a`. A write to LCDC that clears
    /// bit 7 while it is set switches the LCD off. A write to LY is dropped.
    pub open spec fn written(self, a: u16, v: u8) -> GpuView {
        if 0x8000 <= a <= 0x9fff {
            GpuView { ram: self.ram.update(a - 0x8000, v), ..self }
        } else if 0xfe00 <= a <= 0xfe9f {
            GpuView { oam: self.oam.update(a - 0xfe00, v), ..self }
        } else if a == 0xff40 {
            if self.enabled() && !spec_test_bit(v, 7) {
                (GpuView { lcdc: v, ..self }).switched_off()
            } else {
                GpuView { lcdc: v, ..self }
            }
        } else if a == 0xff41 {
            GpuView { stat: Self::stat_written(self.stat, v), ..self }
        } else if a == 0xff42 {
            GpuView { scroll_y: v, ..self }
        } else if a == 0xff43 {
            GpuView { scroll_x: v, ..self }
        } else if a == 0xff45 {
            GpuView { lc: v, ..self }
        } else if a == 0xff47 {
            GpuView { bg_palette: v, ..self }
        } else if a == 0xff48 {
            GpuView { obj_palette0: v, ..self }
        } else if a == 0xff49 {
            GpuView { obj_palette1: v, ..self }
        } else if a == 0xff4a {
            GpuView { window_y: v, ..self }
        } else if a == 0xff4b {
            GpuView { window_x: v, ..self }
        } else {
            self
        }
    }

    /// The unit before boot: a white frame, the LCD off.
    pub open spec fn initial() -> GpuView {
        GpuView {
            updated: false,
            shades: Seq::new((SCREEN_W * SCREEN_H) as nat, |i: int| 0xffu8),
            lcdc: 0x48,
            stat: 0,
            scroll_y: 0,
            scroll_x: 0,
            window_y: 0,
            window_x: 0,
            ly: 0,
            lc: 0,
            bg_palette: 0,
            obj_palette0: 0,
            obj_palette1: 1,
            ram: Seq::new(VRAM_SIZE as nat, |i: int| 0u8),
            oam: Seq::new(OAM_SIZE as nat, |i: int| 0u8),
            prio: Seq::new(SCREEN_W as nat, |i: int| 0u8),
            dots: 0,
        }
    }
}

/// Replaces the 160 shades from `base` on in `shades` by those of `line`.
fn put_line(shades: &mut Vec<u8>, base: usize, line: &Vec<u8>)
    requires
        line@.len() == SCREEN_W,
        base + SCREEN_W <= old(shades)@.len(),
    ensures
        final(shades)@.len() == old(shades)@.len(),
        forall|i: int|
            0 <= i < old(shades)@.len() ==> final(shades)@[i] == (if base <= i < base + SCREEN_W {
                line@[i - base]
            } else {
                old(shades)@[i]
            }),
    no_unwind
{
    let mut x: usize = 0;
    while x < SCREEN_W
        invariant
            x <= SCREEN_W,
            line@.len() == SCREEN_W,
            shades@.len() == old(shades)@.len(),
            base + SCREEN_W <= shades.len(),
            forall|i: int|
                0 <= i < shades@.len() ==> shades@[i] == (if base <= i < base + x {
                    line@[i - base]
                } else {
                    old(shades)@[i]
                }),
        decreases SCREEN_W - x,
    {
        shades[base + x] = line[x];
        x = x + 1;
    }
}

/// Replaces the byte at `i` in `bytes` by `v`.
fn store(bytes: &mut Vec<u8>, i: usize, v: u8)
    requires
        i < old(bytes)@.len(),
    ensures
        final(bytes)@ == old(bytes)@.update(i as int, v),
    no_unwind
{
    bytes[i] = v;
}

/// Returns a vector of `n` bytes `v`.
fn filled(n: usize, v: u8) -> (r: Vec<u8>)
    ensures
        r@ == Seq::new(n as nat, |i: int| v),
{
    let mut r: Vec<u8> = Vec::new();
    let mut i: usize = 0;
    while i < n
        invariant
            i <= n,
            r@ == Seq::new(i as nat, |k: int| v),
        decreases n - i,
    {
        r.push(v);
        i = i + 1;
        assert(r@ =~= Seq::new(i as nat, |k: int| v));
    }
    r
}

/// The pixel processing unit: it walks through the modes of the LCD
/// controller dot by dot, draws a scanline of the frame at each horizontal
/// blanking, and requests the V-blank and LCD status interrupts.
pub struct GPU {
    updated: bool,
    shades: Vec<u8>,
    lcdc: LCDControllerRegister,
    stat: LCDStatusRegister,
    scroll_y: u8,
    scroll_x: u8,
    window_y: u8,
    window_x: u8,
    ly: u8,
    lc: u8,
    bg_palette: u8,
    obj_palette0: u8,
    obj_palette1: u8,
    ram: Vec<u8>,
    oam: Vec<u8>,
    prio: Vec<u8>,
    cycles: u32,
}

impl GPU {
    /// In every unit LY is below 154 and the dot counter below 456, and
    /// the frame, the video RAM and the attribute table have their sizes.
    #[verifier::type_invariant]
    pub closed spec fn inv(self) -> bool {
        self@.wf()
    }

    /// What the unit holds.
    pub closed spec fn view(&self) -> GpuView {
        GpuView {
            updated: self.updated,
            shades: self.shades@,
            lcdc: self.lcdc.reg,
            stat: self.stat.mode,
            scroll_y: self.scroll_y,
            scroll_x: self.scroll_x,
            window_y: self.window_y,
            window_x: self.window_x,
            ly: self.ly,
            lc: self.lc,
            bg_palette: self.bg_palette,
            obj_palette0: self.obj_palette0,
            obj_palette1: self.obj_palette1,
            ram: self.ram@,
            oam: self.oam@,
            prio: self.prio@,
            dots: self.cycles,
        }
    }

    /// In a valid unit LY is below 154 and the dot counter below 456.
    pub proof fn lemma_counters(self)
        requires
            self.inv(),
        ensures
            self@.wf(),
            self@.ly < 154,
            self@.dots < 456,
    {
    }

    /// Returns the unit as it is before boot.
    pub fn new() -> (r: Self)
        ensures
            r@ == GpuView::initial(),
            r.inv(),
    {
        GPU {
            updated: false,
            shades: filled(SCREEN_W * SCREEN_H, 0xff),
            lcdc: LCDControllerRegister::new(),
            stat: LCDStatusRegister::new(),
            scroll_y: 0x00,
            scroll_x: 0x00,
            window_x: 0x00,
            window_y: 0x00,
            ly: 0x00,
            lc: 0x00,
            bg_palette: 0x00,
            obj_palette0: 0x00,
            obj_palette1: 0x01,
            ram: filled(VRAM_SIZE, 0x00),
            oam: filled(OAM_SIZE, 0x00),
            prio: filled(SCREEN_W, 0x00),
            cycles: 0,
        }
    }

    /// Marks the frame as read.
    pub fn reset_updated(&mut self)
        ensures
            final(self)@ == (GpuView { updated: false, ..old(self)@ }),
            final(self).inv(),
    {
        proof {
            use_type_invariant(&*self);
        }
        self.updated = false;
    }

    /// Returns whether a frame is complete and was not read yet.
    pub fn should_updated(&self) -> (r: bool)
        ensures
            r == self@.updated,
    {
        self.updated
    }

    /// Returns the scanline that is being drawn.
    pub fn get_ly(&self) -> (r: u8)
        ensures
            r == self@.ly,
            r < FRAME_LINES,
    {
        proof {
            use_type_invariant(self);
        }
        self.ly
    }

    /// Returns the mode of the LCD controller.
    pub fn get_mode(&self) -> (r: LCDMode)
        ensures
            r == self@.mode(),
    {
        self.stat.get_mode()
    }

    /// Returns the frame: three equal bytes of grey for each of the
    /// 160 x 144 pixels, line after line.
    pub fn get_data(&self) -> (r: Vec<u8>)
        ensures
            r@.len() == 3 * SCREEN_W * SCREEN_H,
            forall|i: int| 0 <= i < r@.len() ==> r@[i] == self@.shades[i / 3],
    {
        proof {
            use_type_invariant(self);
        }
        let mut r: Vec<u8> = Vec::new();
        let mut i: usize = 0;
        while i < SCREEN_W * SCREEN_H
            invariant
                i <= SCREEN_W * SCREEN_H,
                self.shades@.len() == SCREEN_W * SCREEN_H,
                r@.len() == 3 * i,
                forall|k: int| 0 <= k < r@.len() ==> r@[k] == self.shades@[k / 3],
            decreases SCREEN_W * SCREEN_H - i,
        {
            let c = self.shades[i];
            r.push(c);
            r.push(c);
            r.push(c);
            i = i + 1;
        }
        r
    }

    /// Returns the frame as the pixels of a window: one opaque pixel of
    /// grey for each of the 160 x 144 pixels, line after line.
    pub fn get_pixels(&self) -> (r: Vec<u32>)
        ensures
            r@.len() == SCREEN_W * SCREEN_H,
            forall|i: int| 0 <= i < r@.len() ==> r@[i] == spec_argb(self@.shades[i]),
    {
        proof {
            use_type_invariant(self);
        }
        let mut r: Vec<u32> = Vec::new();
        let mut i: usize = 0;
        while i < SCREEN_W * SCREEN_H
            invariant
                i <= SCREEN_W * SCREEN_H,
                self.shades@.len() == SCREEN_W * SCREEN_H,
                r@.len() == i,
                forall|k: int| 0 <= k < i ==> r@[k] == spec_argb(self.shades@[k]),
            decreases SCREEN_W * SCREEN_H - i,
        {
            r.push(argb(self.shades[i]));
            i = i + 1;
        }
        r
    }

    /// Replaces the sprite attribute table by `bytes`.
    pub fn load_oam(&mut self, bytes: Vec<u8>)
        requires
            bytes@.len() == OAM_SIZE,
        ensures
            final(self)@ == (GpuView { oam: bytes@, ..old(self)@ }),
            final(self).inv(),
    {
        proof {
            use_type_invariant(&*self);
        }
        self.oam = bytes;
    }

    /// Clears the frame to white.
    fn clear_screen(&mut self)
        ensures
            final(self)@ == (GpuView {
                shades: Seq::new((SCREEN_W * SCREEN_H) as nat, |i: int| 0xffu8),
                ..old(self)@
            }),
            final(self).inv(),
    {
        proof {
            use_type_invariant(&*self);
        }
        self.shades = filled(SCREEN_W * SCREEN_H, 0xff);
    }

    /// Reads a byte of the video RAM.
    fn read_byte_from_ram(&self, addr: u16) -> (r: u8)
        requires
            0x8000 <= addr < 0xc000,
        ensures
            r == self@.vram(addr as int),
    {
        proof {
            use_type_invariant(self);
        }
        self.ram[(addr - 0x8000) as usize]
    }

    /// Returns the shade that a palette gives the colour number `i`.
    fn get_color(&self, palette: Palette, i: u8) -> (r: u8)
        ensures
            r == spec_shade(
                match palette {
                    Palette::OBP0 => self@.obj_palette0,
                    Palette::OBP1 => self@.obj_palette1,
                    Palette::BG => self@.bg_palette,
                },
                i,
            ).spec_value(),
    {
        let v = match palette {
            Palette::OBP0 => self.obj_palette0,
            Palette::OBP1 => self.obj_palette1,
            Palette::BG => self.bg_palette,
        };
        shade(v, i).value()
    }

    /// Returns whether the window is shown on the current scanline.
    fn using_window(&self) -> (r: bool)
        ensures
            r == self@.uses_window(),
    {
        self.lcdc.is_window_enabled() && self.window_y <= self.ly
    }

    /// Returns the column and the row within the tile map that the pixel
    /// `x` of the current scanline shows, and whether it shows the window.
    fn get_tile_position(&self, x: u8) -> (r: (u8, u8, bool))
        ensures
            r == (self@.pos_x(x as int), self@.pos_y(x as int), self@.in_window(x as int)),
    {
        let left = self.window_x.wrapping_sub(7);
        if self.using_window() && x >= left {
            (x - left, self.ly - self.window_y, true)
        } else {
            (self.scroll_x.wrapping_add(x), self.scroll_y.wrapping_add(self.ly), false)
        }
    }

    /// Returns the address of the data of the tile at `row` and `col` of
    /// the tile map at `base`.
    #[verifier::rlimit(40)]
    fn find_tile_data_addr(&self, base: u16, row: u16, col: u16) -> (r: u16)
        requires
            base == 0x9800 || base == 0x9c00,
            row < 32,
            col < 32,
        ensures
            r == self@.tile_addr(self@.vram(base + row * 32 + col)),
            0x8000 <= r <= 0x97f0,
    {
        let id = self.read_byte_from_ram(base + row * 32 + col);
        let (data, unsigned) = self.lcdc.get_tile_data_base_addr();
        if unsigned {
            data + 16 * (id as u16)
        } else {
            data + 16 * ((id as u16 + 128) % 256)
        }
    }

    /// Returns the colour number of background or window at the pixel `x`
    /// of the current scanline.
    #[verifier::rlimit(40)]
    fn bg_index(&self, x: u8) -> (r: u8)
        ensures
            r == self@.bg_index(x as int),
            r <= 3,
    {
        let (px, py, window) = self.get_tile_position(x);
        let base = if window {
            self.lcdc.get_window_tilemap_addr()
        } else {
            self.lcdc.get_bg_tilemap_addr()
        };
        let a = self.find_tile_data_addr(base, (py / 8) as u16, (px / 8) as u16);
        let row = (py % 8) as u16;
        let low = self.read_byte_from_ram(a + 2 * row);
        let high = self.read_byte_from_ram(a + 2 * row + 1);
        TileLine::new([low, high]).get_color_num(px % 8)
    }

    /// Returns the scanline of background and window, and the colour
    /// numbers along it.
    fn render_bg(&self) -> (r: (Vec<u8>, Vec<u8>))
        ensures
            r.0@ == self@.bg_line(),
            r.1@ == self@.bg_prio(),
            r.0@.len() == SCREEN_W,
            r.1@.len() == SCREEN_W,
    {
        let mut line: Vec<u8> = Vec::new();
        let mut prio: Vec<u8> = Vec::new();
        let mut x: u8 = 0;
        while x < 160
            invariant
                x <= 160,
                line@.len() == x,
                prio@.len() == x,
                forall|k: int|
                    0 <= k < x ==> line@[k] == spec_shade(
                        self@.bg_palette,
                        self@.bg_index(k),
                    ).spec_value(),
                forall|k: int| 0 <= k < x ==> prio@[k] == self@.bg_index(k),
            decreases 160 - x,
        {
            let idx = self.bg_index(x);
            prio.push(idx);
            line.push(self.get_color(Palette::BG, idx));
            x = x + 1;
        }
        assert(line@ =~= self@.bg_line());
        assert(prio@ =~= self@.bg_prio());
        (line, prio)
    }

    /// Returns the current scanline as it stands in the frame.
    fn current_line(&self) -> (r: Vec<u8>)
        requires
            self@.ly < SCREEN_H,
        ensures
            r@ == self@.line(),
            r@.len() == SCREEN_W,
    {
        proof {
            use_type_invariant(self);
        }
        let base = self.ly as usize * SCREEN_W;
        let mut line: Vec<u8> = Vec::new();
        let mut x: usize = 0;
        while x < SCREEN_W
            invariant
                x <= SCREEN_W,
                base == self.ly * SCREEN_W,
                base + SCREEN_W <= self.shades@.len(),
                line@.len() == x,
                forall|k: int| 0 <= k < x ==> line@[k] == self.shades@[base + k],
            decreases SCREEN_W - x,
        {
            line.push(self.shades[base + x]);
            x = x + 1;
        }
        assert(line@ =~= self@.line());
        line
    }

    /// Returns whether the sprite `i` is drawn on the current scanline.
    fn sprite_shown(&self, i: usize) -> (r: bool)
        requires
            i < SPRITES,
        ensures
            r == self@.sprite_shown(i as int),
    {
        let (_, height) = self.lcdc.get_sprite_size();
        let (row, x, _, _) = self.sprite_entry(i);
        row < height && !(x >= 160 && x <= 0xff - 7)
    }

    /// Returns the line of the sprite `i` that the current scanline
    /// crosses, the leftmost pixel of the sprite, its tile and its
    /// attributes.
    #[verifier::rlimit(40)]
    fn sprite_entry(&self, i: usize) -> (r: (u8, u8, u8, Attr))
        requires
            i < SPRITES,
        ensures
            r.0 == self@.sprite_row(i as int),
            r.1 == self@.sprite_x(i as int),
            r.2 == self@.oam[4 * i + 2],
            r.3 == self@.sprite_attr(i as int),
    {
        proof {
            use_type_invariant(self);
        }
        let y = self.oam[4 * i].wrapping_sub(16);
        let x = self.oam[4 * i + 1].wrapping_sub(8);
        let tile = self.oam[4 * i + 2];
        let attr = Attr::from_byte(self.oam[4 * i + 3]);
        (self.ly.wrapping_sub(y), x, tile, attr)
    }

    /// Returns the two bytes of the tile line of the sprite `i` on the
    /// current scanline.
    #[verifier::rlimit(40)]
    fn sprite_tile_line(&self, i: usize) -> (r: TileLine)
        requires
            i < SPRITES,
            self@.sprite_row(i as int) < self@.sprite_height(),
        ensures
            r.low == self@.vram(self@.sprite_addr(i as int)),
            r.high == self@.vram(self@.sprite_addr(i as int) + 1),
    {
        let (_, height) = self.lcdc.get_sprite_size();
        let (row, _, tile, attr) = self.sprite_entry(i);
        let line_in_tile = if attr.has_yflip() {
            height - 1 - row
        } else {
            row
        };
        let a: u16 = 0x8000u16 + 16 * (tile as u16) + 2 * (line_in_tile as u16);
        assert(a == self@.sprite_addr(i as int));
        let low = self.read_byte_from_ram(a);
        let high = self.read_byte_from_ram(a + 1);
        TileLine::new([low, high])
    }

    /// Draws the pixel `k` of the sprite `i`, whose tile line is
    /// `tile_line`, over `line`.
    #[verifier::rlimit(40)]
    fn render_sprite_pixel(
        &self,
        prio: &Vec<u8>,
        line: &mut Vec<u8>,
        tile_line: &TileLine,
        i: usize,
        k: u8,
    )
        requires
            i < SPRITES,
            k < 8,
            prio@.len() == SCREEN_W,
            old(line)@.len() == SCREEN_W,
            tile_line.low == self@.vram(self@.sprite_addr(i as int)),
            tile_line.high == self@.vram(self@.sprite_addr(i as int) + 1),
        ensures
            final(line)@ == self@.sprite_px(prio@, old(line)@, i as int, k as int),
            final(line)@.len() == SCREEN_W,
    {
        let (_, x0, _, attr) = self.sprite_entry(i);
        let px = x0.wrapping_add(k);
        let col = if attr.has_xflip() {
            7 - k
        } else {
            k
        };
        let c = tile_line.get_color_num(col);
        assert(px == wrap8(self@.sprite_x(i as int) + k));
        assert(c == self@.sprite_index(i as int, k as int));
        let drawn = px < 160 && c != 0 && !(attr.get_priority() && prio[px as usize] != 0);
        assert(drawn == self@.sprite_px_drawn(prio@, i as int, k as int));
        if drawn {
            let color = self.get_color(attr.get_palette(), c);
            assert(color == spec_shade(self@.sprite_palette(i as int), c).spec_value());
            line[px as usize] = color;
        }
    }

    /// Draws the sprite `i` over `line`.
    fn render_one_sprite(&self, prio: &Vec<u8>, line: &mut Vec<u8>, i: usize)
        requires
            i < SPRITES,
            self@.sprite_row(i as int) < self@.sprite_height(),
            prio@.len() == SCREEN_W,
            old(line)@.len() == SCREEN_W,
        ensures
            final(line)@ == self@.sprite_pixels(prio@, old(line)@, i as int, 8),
            final(line)@.len() == SCREEN_W,
    {
        let tile_line = self.sprite_tile_line(i);
        let mut k: u8 = 0;
        while k < 8
            invariant
                k <= 8,
                i < SPRITES,
                prio@.len() == SCREEN_W,
                line@.len() == SCREEN_W,
                tile_line.low == self@.vram(self@.sprite_addr(i as int)),
                tile_line.high == self@.vram(self@.sprite_addr(i as int) + 1),
                line@ == self@.sprite_pixels(prio@, old(line)@, i as int, k as int),
            decreases 8 - k,
        {
            self.render_sprite_pixel(prio, line, &tile_line, i, k);
            k = k + 1;
        }
    }

    /// Draws the sprites over `line`, in the order of the attribute table.
    fn render_sprite(&self, prio: &Vec<u8>, line: &mut Vec<u8>)
        requires
            prio@.len() == SCREEN_W,
            old(line)@.len() == SCREEN_W,
        ensures
            final(line)@ == self@.sprites_over(prio@, old(line)@, SPRITES as int),
            final(line)@.len() == SCREEN_W,
    {
        let mut i: usize = 0;
        while i < SPRITES
            invariant
                i <= SPRITES,
                prio@.len() == SCREEN_W,
                line@.len() == SCREEN_W,
                line@ == self@.sprites_over(prio@, old(line)@, i as int),
            decreases SPRITES - i,
        {
            if self.sprite_shown(i) {
                self.render_one_sprite(prio, line, i);
            }
            i = i + 1;
        }
    }

    /// Draws the current scanline into the frame.
    #[verifier::rlimit(40)]
    fn render_scanline(&mut self)
        requires
            old(self)@.ly < SCREEN_H,
        ensures
            final(self)@ == old(self)@.drawn(),
            final(self).inv(),
    {
        proof {
            use_type_invariant(&*self);
        }
        let base = self.ly as usize * SCREEN_W;
        let mut line: Vec<u8>;
        if self.lcdc.bg_display() {
            let (bg, prio) = self.render_bg();
            line = bg;
            if self.lcdc.is_sprite_enabled() {
                self.render_sprite(&prio, &mut line);
            }
            self.prio = prio;
        } else {
            line = self.current_line();
            if self.lcdc.is_sprite_enabled() {
                self.render_sprite(&self.prio, &mut line);
            }
        }
        put_line(&mut self.shades, base, &line);
        assert(self.shades@ =~= old(self)@.with_line(line@));
    }

    /// Enters the mode `mode`.
    #[verifier::rlimit(40)]
    fn change_mode(&mut self, mode: LCDMode, intf: &mut IntReg)
        requires
            mode == LCDMode::HBlank ==> old(self)@.ly < SCREEN_H,
        ensures
            (final(self)@, final(intf).data) == old(self)@.entered(old(intf).data, mode),
            final(self).inv(),
    {
        proof {
            use_type_invariant(&*self);
            lemma_mode_bits(self.stat.mode, mode, STAT_M0);
            lemma_mode_bits(self.stat.mode, mode, STAT_M1);
            lemma_mode_bits(self.stat.mode, mode, STAT_M2);
        }
        let mut stat = self.stat;
        stat.set_mode(mode);
        self.stat = stat;
        match mode {
            LCDMode::HBlank => {
                if self.stat.is_m0_interrupt_enabled() {
                    intf.req(IntFlag::LCDStat);
                }
                self.render_scanline();
            },
            LCDMode::VBlank => {
                self.updated = true;
                intf.req(IntFlag::VBlank);
                if self.stat.is_m1_interrupt_enabled() {
                    intf.req(IntFlag::LCDStat);
                }
            },
            LCDMode::OAM => {
                if self.stat.is_m2_interrupt_enabled() {
                    intf.req(IntFlag::LCDStat);
                }
            },
            LCDMode::VRAM => {},
        }
    }

    /// Enters the mode `mode` unless the unit is in it.
    fn move_to(&mut self, mode: LCDMode, intf: &mut IntReg)
        requires
            mode == LCDMode::HBlank ==> old(self)@.ly < SCREEN_H,
        ensures
            (final(self)@, final(intf).data) == old(self)@.moved_to(old(intf).data, mode),
            final(self).inv(),
    {
        proof {
            use_type_invariant(&*self);
        }
        if self.stat.get_mode() != mode {
            self.change_mode(mode, intf);
        }
    }

    /// Advances the unit by `c` dots, 80 at most.
    #[verifier::rlimit(40)]
    fn tick(&mut self, c: u32, intf: &mut IntReg)
        requires
            c <= CHUNK,
        ensures
            (final(self)@, final(intf).data) == old(self)@.ticked(old(intf).data, c),
            final(self).inv(),
    {
        proof {
            use_type_invariant(&*self);
        }
        let dots = self.cycles + c;
        if dots >= LINE_DOTS {
            self.cycles = dots - LINE_DOTS;
            self.ly = (self.ly + 1) % FRAME_LINES;
            if self.stat.is_ly_interrupt_enabled() && self.ly == self.lc {
                intf.req(IntFlag::LCDStat);
            }
            if self.ly >= 144 {
                self.move_to(LCDMode::VBlank, intf);
            }
        } else {
            self.cycles = dots;
        }
        if self.ly < 144 {
            let mode = if self.cycles < OAM_DOTS {
                LCDMode::OAM
            } else if self.cycles < TRANSFER_END {
                LCDMode::VRAM
            } else {
                LCDMode::HBlank
            };
            self.move_to(mode, intf);
        }
    }

    /// Advances the unit by `cycles` dots and requests the interrupts that
    /// fall due. With the LCD off nothing moves and nothing is requested.
    pub fn next(&mut self, cycles: u32, intf: &mut IntReg)
        ensures
            (final(self)@, final(intf).data) == old(self)@.next(old(intf).data, cycles),
            !old(self)@.enabled() ==> final(self)@ == old(self)@ && final(intf).data == old(
                intf,
            ).data,
            final(self).inv(),
    {
        proof {
            use_type_invariant(&*self);
        }
        if !self.lcdc.is_lcd_enabled() {
            return ;
        }
        let mut remaining = cycles;
        while remaining > 0
            invariant
                self.inv(),
                old(self)@.advanced(old(intf).data, cycles) == self@.advanced(
                    intf.data,
                    remaining,
                ),
            decreases remaining,
        {
            let current = if remaining >= CHUNK {
                CHUNK
            } else {
                remaining
            };
            self.tick(current, intf);
            remaining = remaining - current;
        }
    }
}

impl IOHandler for GPU {
    open spec fn byte_at(&self, a: u16) -> u8 {
        self@.byte_at(a)
    }

    open spec fn stored(&self, a: u16, v: u8, after: Self) -> bool {
        after@ == self@.written(a, v) && after.inv()
    }

    fn read_byte(&self, a: u16) -> (r: u8) {
        proof {
            use_type_invariant(self);
        }
        if 0x8000 <= a && a <= 0x9fff {
            self.ram[(a - 0x8000) as usize]
        } else if 0xfe00 <= a && a <= 0xfe9f {
            self.oam[(a - 0xfe00) as usize]
        } else if a == 0xff40 {
            self.lcdc.get_value()
        } else if a == 0xff41 {
            self.stat.get_value()
        } else if a == 0xff42 {
            self.scroll_y
        } else if a == 0xff43 {
            self.scroll_x
        } else if a == 0xff44 {
            self.ly
        } else if a == 0xff45 {
            self.lc
        } else if a == 0xff47 {
            self.bg_palette
        } else if a == 0xff48 {
            self.obj_palette0
        } else if a == 0xff49 {
            self.obj_palette1
        } else if a == 0xff4a {
            self.window_y
        } else if a == 0xff4b {
            self.window_x
        } else {
            0x00
        }
    }

    fn write_byte(&mut self, a: u16, v: u8) {
        proof {
            use_type_invariant(&*self);
        }
        if 0x8000 <= a && a <= 0x9fff {
            store(&mut self.ram, (a - 0x8000) as usize, v);
        } else if 0xfe00 <= a && a <= 0xfe9f {
            store(&mut self.oam, (a - 0xfe00) as usize, v);
        } else if a == 0xff40 {
            let was_on = self.lcdc.is_lcd_enabled();
            let mut lcdc = self.lcdc;
            lcdc.set_value(v);
            self.lcdc = lcdc;
            if was_on && !self.lcdc.is_lcd_enabled() {
                self.cycles = 0;
                self.ly = 0;
                let mut stat = self.stat;
                stat.set_mode(LCDMode::HBlank);
                self.stat = stat;
                self.clear_screen();
                self.updated = true;
            }
        } else if a == 0xff41 {
            let mut stat = self.stat;
            if test_bit(v, 6) {
                stat.enable_ly_interrupt();
            } else {
                stat.disable_ly_interrupt();
            }
            stat.enable_m2_interrupt();
            if test_bit(v, 4) {
                stat.enable_m1_interrupt();
            } else {
                stat.disable_m1_interrupt();
            }
            if test_bit(v, 3) {
                stat.enable_m0_interrupt();
            } else {
                stat.disable_m0_interrupt();
            }
            self.stat = stat;
        } else if a == 0xff42 {
            self.scroll_y = v;
        } else if a == 0xff43 {
            self.scroll_x = v;
        } else if a == 0xff45 {
            self.lc = v;
        } else if a == 0xff47 {
            self.bg_palette = v;
        } else if a == 0xff48 {
            self.obj_palette0 = v;
        } else if a == 0xff49 {
            self.obj_palette1 = v;
        } else if a == 0xff4a {
            self.window_y = v;
        } else if a == 0xff4b {
            self.window_x = v;
        }
    }
}

} // verus!
