//! The registers of the LCD controller.

use vstd::prelude::*;

use crate::gameboy::util::clear_bit;
use crate::gameboy::util::set_bit;
use crate::gameboy::util::spec_clear_bit;
use crate::gameboy::util::spec_set_bit;
use crate::gameboy::util::spec_test_bit;
use crate::gameboy::util::test_bit;

verus! {

/// The four modes of the LCD controller, by their numbers in STAT.
#[derive(Debug, Clone, Copy, PartialEq, Eq, Structural)]
pub enum LCDMode {
    /// Mode 0: horizontal blanking.
    HBlank,
    /// Mode 1: vertical blanking.
    VBlank,
    /// Mode 2: the sprite attributes are searched.
    OAM,
    /// Mode 3: pixels are transferred.
    VRAM,
}

impl LCDMode {
    /// The number of the mode.
    pub open spec fn spec_value(self) -> u8 {
        match self {
            LCDMode::HBlank => 0,
            LCDMode::VBlank => 1,
            LCDMode::OAM => 2,
            LCDMode::VRAM => 3,
        }
    }

    /// The mode with the number `v % 4`.
    pub open spec fn spec_from(v: u8) -> LCDMode {
        if v % 4 == 0 {
            LCDMode::HBlank
        } else if v % 4 == 1 {
            LCDMode::VBlank
        } else if v % 4 == 2 {
            LCDMode::OAM
        } else {
            LCDMode::VRAM
        }
    }

    /// Returns the number of the mode.
    pub fn value(self) -> (r: u8)
        ensures
            r == self.spec_value(),
            r <= 3,
    {
        match self {
            LCDMode::HBlank => 0,
            LCDMode::VBlank => 1,
            LCDMode::OAM => 2,
            LCDMode::VRAM => 3,
        }
    }

    /// Returns the mode with the number `v % 4`.
    pub fn from_value(v: u8) -> (r: LCDMode)
        ensures
            r == LCDMode::spec_from(v),
    {
        match v % 4 {
            0 => LCDMode::HBlank,
            1 => LCDMode::VBlank,
            2 => LCDMode::OAM,
            _ => LCDMode::VRAM,
        }
    }
}

/// The bit of STAT that enables the interrupt on entering mode 0.
pub const STAT_M0: u8 = 3;

/// The bit of STAT that enables the interrupt on entering mode 1.
pub const STAT_M1: u8 = 4;

/// The bit of STAT that enables the interrupt on entering mode 2.
pub const STAT_M2: u8 = 5;

/// The bit of STAT that enables the interrupt on LY == LYC.
pub const STAT_LY: u8 = 6;

/// The LCD status register STAT: the mode in its low two bits, and four
/// interrupt enables in its bits 3 to 6.
#[derive(Debug, Clone, Copy, PartialEq, Eq, Structural)]
pub struct LCDStatusRegister {
    pub mode: u8,
}

/// `v` with its low two bits replaced by the number of `mode`.
pub open spec fn spec_with_mode(v: u8, mode: LCDMode) -> u8 {
    ((v / 4) * 4 + mode.spec_value()) as u8
}

/// Changing the mode leaves the interrupt enables alone, and changing an
/// interrupt enable leaves the mode alone.
pub proof fn lemma_mode_bits(v: u8, mode: LCDMode, b: u8)
    requires
        2 <= b <= 7,
    ensures
        spec_test_bit(spec_with_mode(v, mode), b) == spec_test_bit(v, b),
        LCDMode::spec_from(spec_with_mode(v, mode)) == mode,
        LCDMode::spec_from(spec_set_bit(v, b)) == LCDMode::spec_from(v),
        LCDMode::spec_from(spec_clear_bit(v, b)) == LCDMode::spec_from(v),
{
    let m = mode.spec_value();
    let w = spec_with_mode(v, mode);
    assert(2 <= b <= 7 && m <= 3 && w / 4 == v / 4 && w % 4 == m ==> ((w & (1u8 << b) != 0) == (v
        & (1u8 << b) != 0)) && (v | (1u8 << b)) % 4 == v % 4 && (v & !(1u8 << b)) % 4 == v % 4)
        by (bit_vector);
}

impl LCDStatusRegister {
    /// Returns a register in mode 0 with no interrupt enabled.
    pub fn new() -> (r: Self)
        ensures
            r.mode == 0,
    {
        LCDStatusRegister { mode: 0x00 }
    }

    /// Returns the byte of the register.
    pub fn get_value(&self) -> (r: u8)
        ensures
            r == self.mode,
    {
        self.mode
    }

    /// Returns the mode.
    pub fn get_mode(&self) -> (r: LCDMode)
        ensures
            r == LCDMode::spec_from(self.mode),
    {
        LCDMode::from_value(self.mode)
    }

    /// Sets the mode.
    pub fn set_mode(&mut self, mode: LCDMode)
        ensures
            final(self).mode == spec_with_mode(old(self).mode, mode),
    {
        self.mode = (self.mode / 4) * 4 + mode.value();
    }

    /// Returns whether the interrupt on entering mode 0 is enabled.
    pub fn is_m0_interrupt_enabled(&self) -> (r: bool)
        ensures
            r == spec_test_bit(self.mode, STAT_M0),
    {
        test_bit(self.mode, STAT_M0)
    }

    /// Disables the interrupt on entering mode 0.
    pub fn disable_m0_interrupt(&mut self)
        ensures
            final(self).mode == spec_clear_bit(old(self).mode, STAT_M0),
    {
        self.mode = clear_bit(self.mode, STAT_M0);
    }

    /// Enables the interrupt on entering mode 0.
    pub fn enable_m0_interrupt(&mut self)
        ensures
            final(self).mode == spec_set_bit(old(self).mode, STAT_M0),
    {
        self.mode = set_bit(self.mode, STAT_M0);
    }

    /// Returns whether the interrupt on entering mode 1 is enabled.
    pub fn is_m1_interrupt_enabled(&self) -> (r: bool)
        ensures
            r == spec_test_bit(self.mode, STAT_M1),
    {
        test_bit(self.mode, STAT_M1)
    }

    /// Disables the interrupt on entering mode 1.
    pub fn disable_m1_interrupt(&mut self)
        ensures
            final(self).mode == spec_clear_bit(old(self).mode, STAT_M1),
    {
        self.mode = clear_bit(self.mode, STAT_M1);
    }

    /// Enables the interrupt on entering mode 1.
    pub fn enable_m1_interrupt(&mut self)
        ensures
            final(self).mode == spec_set_bit(old(self).mode, STAT_M1),
    {
        self.mode = set_bit(self.mode, STAT_M1);
    }

    /// Returns whether the interrupt on entering mode 2 is enabled.
    pub fn is_m2_interrupt_enabled(&self) -> (r: bool)
        ensures
            r == spec_test_bit(self.mode, STAT_M2),
    {
        test_bit(self.mode, STAT_M2)
    }

    /// Disables the interrupt on entering mode 2.
    pub fn disable_m2_interrupt(&mut self)
        ensures
            final(self).mode == spec_clear_bit(old(self).mode, STAT_M2),
    {
        self.mode = clear_bit(self.mode, STAT_M2);
    }

    /// Enables the interrupt on entering mode 2.
    pub fn enable_m2_interrupt(&mut self)
        ensures
            final(self).mode == spec_set_bit(old(self).mode, STAT_M2),
    {
        self.mode = set_bit(self.mode, STAT_M2);
    }

    /// Returns whether the interrupt on LY == LYC is enabled.
    pub fn is_ly_interrupt_enabled(&self) -> (r: bool)
        ensures
            r == spec_test_bit(self.mode, STAT_LY),
    {
        test_bit(self.mode, STAT_LY)
    }

    /// Disables the interrupt on LY == LYC.
    pub fn disable_ly_interrupt(&mut self)
        ensures
            final(self).mode == spec_clear_bit(old(self).mode, STAT_LY),
    {
        self.mode = clear_bit(self.mode, STAT_LY);
    }

    /// Enables the interrupt on LY == LYC.
    pub fn enable_ly_interrupt(&mut self)
        ensures
            final(self).mode == spec_set_bit(old(self).mode, STAT_LY),
    {
        self.mode = set_bit(self.mode, STAT_LY);
    }
}

/// The LCD control register LCDC.
///
/// Bit 7 enables the LCD, bit 6 selects the tile map of the window, bit 5
/// enables the window, bit 4 selects the tile data of background and
/// window, bit 3 selects the tile map of the background, bit 2 the height
/// of the sprites, bit 1 enables the sprites, bit 0 the background.
#[derive(Debug, Clone, Copy, PartialEq, Eq, Structural)]
pub struct LCDControllerRegister {
    pub reg: u8,
}

/// The address of the first tile map.
pub const TILE_MAP_LOW: u16 = 0x9800;

/// The address of the second tile map.
pub const TILE_MAP_HIGH: u16 = 0x9c00;

impl LCDControllerRegister {
    /// The tile map that bit `b` of the register selects.
    pub open spec fn spec_tile_map(self, b: u8) -> u16 {
        if spec_test_bit(self.reg, b) {
            TILE_MAP_HIGH
        } else {
            TILE_MAP_LOW
        }
    }

    /// The address of the tile data, and whether tiles are numbered from 0
    /// rather than from -128.
    pub open spec fn spec_tile_data(self) -> (u16, bool) {
        if spec_test_bit(self.reg, 4) {
            (0x8000u16, true)
        } else {
            (0x8800u16, false)
        }
    }

    /// The height of the sprites.
    pub open spec fn spec_sprite_height(self) -> u8 {
        if spec_test_bit(self.reg, 2) {
            16
        } else {
            8
        }
    }

    /// Returns the register as it is before boot.
    pub fn new() -> (r: Self)
        ensures
            r.reg == 0x48,
    {
        LCDControllerRegister { reg: 0b0100_1000 }
    }

    /// Returns the byte of the register.
    pub fn get_value(&self) -> (r: u8)
        ensures
            r == self.reg,
    {
        self.reg
    }

    /// Sets the byte of the register.
    pub fn set_value(&mut self, v: u8)
        ensures
            final(self).reg == v,
    {
        self.reg = v;
    }

    /// Returns whether the LCD is on.
    pub fn is_lcd_enabled(&self) -> (r: bool)
        ensures
            r == spec_test_bit(self.reg, 7),
    {
        test_bit(self.reg, 7)
    }

    /// Returns the address of the tile map of the window.
    pub fn get_window_tilemap_addr(&self) -> (r: u16)
        ensures
            r == self.spec_tile_map(6),
    {
        if test_bit(self.reg, 6) {
            TILE_MAP_HIGH
        } else {
            TILE_MAP_LOW
        }
    }

    /// Returns whether the window is shown.
    pub fn is_window_enabled(&self) -> (r: bool)
        ensures
            r == spec_test_bit(self.reg, 5),
    {
        test_bit(self.reg, 5)
    }

    /// Returns the address of the tile data of background and window, and
    /// whether tiles are numbered from 0 rather than from -128.
    pub fn get_tile_data_base_addr(&self) -> (r: (u16, bool))
        ensures
            r == self.spec_tile_data(),
    {
        if test_bit(self.reg, 4) {
            (0x8000, true)
        } else {
            (0x8800, false)
        }
    }

    /// Returns the address of the tile map of the background.
    pub fn get_bg_tilemap_addr(&self) -> (r: u16)
        ensures
            r == self.spec_tile_map(3),
    {
        if test_bit(self.reg, 3) {
            TILE_MAP_HIGH
        } else {
            TILE_MAP_LOW
        }
    }

    /// Returns the width and the height of the sprites.
    pub fn get_sprite_size(&self) -> (r: (u8, u8))
        ensures
            r == (8u8, self.spec_sprite_height()),
    {
        if test_bit(self.reg, 2) {
            (8, 16)
        } else {
            (8, 8)
        }
    }

    /// Returns whether sprites are shown.
    pub fn is_sprite_enabled(&self) -> (r: bool)
        ensures
            r == spec_test_bit(self.reg, 1),
    {
        test_bit(self.reg, 1)
    }

    /// Returns whether background and window are shown.
    pub fn bg_display(&self) -> (r: bool)
        ensures
            r == spec_test_bit(self.reg, 0),
    {
        test_bit(self.reg, 0)
    }
}

/// The index register of the colour palettes of the Game Boy Color: an
/// index from 0 to 63 in its low six bits, and in bit 7 whether the index
/// moves on after each write of palette data.
#[derive(Debug, Clone, Copy, PartialEq, Eq, Structural)]
pub struct BGPI {
    pub reg: u8,
}

impl BGPI {
    /// The register after a write of palette data: where bit 7 is set, the
    /// index has moved on by one, from 63 back to 0.
    pub open spec fn spec_on_write(self) -> BGPI {
        if self.reg >= 128 {
            BGPI { reg: ((self.reg / 64) * 64 + (self.reg % 64 + 1) % 64) as u8 }
        } else {
            self
        }
    }

    /// Returns a register with index 0 that does not move.
    pub fn new() -> (r: Self)
        ensures
            r.reg == 0,
    {
        BGPI { reg: 0 }
    }

    /// Returns the byte of the register.
    pub fn get_value(&self) -> (r: u8)
        ensures
            r == self.reg,
    {
        self.reg
    }

    /// Returns the index.
    pub fn get_index(&self) -> (r: u8)
        ensures
            r == self.reg % 64,
    {
        self.reg % 64
    }

    /// Sets the byte of the register.
    pub fn select(&mut self, val: u8)
        ensures
            final(self).reg == val,
    {
        self.reg = val;
    }

    /// Returns whether the index moves on after each write.
    pub fn is_auto_incr(&self) -> (r: bool)
        ensures
            r == (self.reg >= 128),
    {
        self.reg >= 128
    }

    /// Tells the register that palette data was written.
    pub fn on_write(&mut self)
        ensures
            *final(self) == old(self).spec_on_write(),
    {
        if self.is_auto_incr() {
            let index = (self.reg % 64 + 1) % 64;
            self.reg = (self.reg / 64) * 64 + index;
        }
    }
}

} // verus!
