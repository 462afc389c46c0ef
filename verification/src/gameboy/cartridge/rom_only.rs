//! Cartridges without a bank controller.

use vstd::prelude::*;

use crate::gameboy::cartridge::meta::CartridgeMeta;
use crate::gameboy::cartridge::meta::MetaView;
use crate::gameboy::cartridge::Cartridge;
use crate::gameboy::mmu::IOHandler;

verus! {

/// A cartridge without a bank controller: a ROM of 32 KiB at most, mapped
/// at 0x0000 to 0x7FFF, and no RAM.
#[derive(Debug)]
pub struct RomOnly {
    pub meta: CartridgeMeta,
    pub rom: Vec<u8>,
}

impl RomOnly {
    /// Returns a cartridge with the ROM image `rom`.
    pub fn new(meta: CartridgeMeta, rom: Vec<u8>) -> (r: Self)
        ensures
            r.meta == meta,
            r.rom == rom,
    {
        RomOnly { meta, rom }
    }
}

impl IOHandler for RomOnly {
    /// A read below 0x8000 returns the byte of the ROM; any other read, and
    /// a read behind the end of the image, returns zero.
    open spec fn byte_at(&self, a: u16) -> u8 {
        if a < 0x8000 && a < self.rom@.len() {
            self.rom@[a as int]
        } else {
            0
        }
    }

    /// Every write is dropped.
    open spec fn stored(&self, a: u16, v: u8, after: Self) -> bool {
        after == *self
    }

    fn read_byte(&self, a: u16) -> (r: u8) {
        if a < 0x8000 && (a as usize) < self.rom.len() {
            self.rom[a as usize]
        } else {
            0x00
        }
    }

    fn write_byte(&mut self, a: u16, v: u8) {
    }
}

impl Cartridge for RomOnly {
    open spec fn spec_meta(&self) -> MetaView {
        self.meta@
    }

    fn get_meta(&self) -> (r: CartridgeMeta) {
        self.meta.duplicate()
    }
}

} // verus!
