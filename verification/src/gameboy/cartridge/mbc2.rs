//! The MBC2 bank controller.

use vstd::prelude::*;

use crate::gameboy::cartridge::bank::read_banked;
use crate::gameboy::cartridge::bank::spec_bank_update;
use crate::gameboy::cartridge::bank::spec_banked;
use crate::gameboy::cartridge::bank::spec_enables;
use crate::gameboy::cartridge::bank::write_banked;
use crate::gameboy::cartridge::bank::MemoryBank;
use crate::gameboy::cartridge::meta::CartridgeMeta;
use crate::gameboy::cartridge::meta::MetaView;
use crate::gameboy::cartridge::Cartridge;
use crate::gameboy::mmu::IOHandler;

verus! {

/// The size of the RAM that is built into an MBC2: 512 half-bytes.
pub const MBC2_RAM_SIZE: usize = 512;

/// A cartridge with an MBC2: up to 16 ROM banks of 16 KiB, and a built-in
/// RAM of 512 half-bytes at 0xA000..=0xA1FF, of which only the low nibbles
/// are kept.
#[derive(Debug)]
pub struct MBC2 {
    pub meta: CartridgeMeta,
    pub rom: Vec<u8>,
    pub ram: Vec<u8>,
    pub rom_bank: u8,
    pub ram_enabled: bool,
}

/// Whether bit 8 of `addr` is set: the bit that tells a ROM bank select
/// from a RAM enable.
pub open spec fn spec_bit8(addr: u16) -> bool {
    addr / 256 % 2 == 1
}

impl MBC2 {
    /// Returns a controller after power-up: ROM bank 1, RAM disabled.
    pub fn new(meta: CartridgeMeta, rom: Vec<u8>, ram: Vec<u8>) -> (r: Self)
        ensures
            r.meta == meta,
            r.rom == rom,
            r.ram == ram,
            r.rom_bank == 1,
            !r.ram_enabled,
    {
        MBC2 { meta, rom, ram, rom_bank: 1, ram_enabled: false }
    }

    /// The RAM after a write of `value` at `addr`: only the low nibble is
    /// kept.
    pub open spec fn spec_ram_after(self, addr: u16, value: u8) -> Seq<u8> {
        if 0xa000 <= addr <= 0xa1ff && self.ram_enabled {
            spec_bank_update(self.ram@, 0, 0, addr - 0xa000, value % 16)
        } else {
            self.ram@
        }
    }

    /// The ROM bank after a write of `value` at `addr`: an address in
    /// 0x2000..=0x3FFF with bit 8 set selects the bank in the low nibble.
    pub open spec fn spec_bank_after(self, addr: u16, value: u8) -> u8 {
        if 0x2000 <= addr <= 0x3fff && spec_bit8(addr) {
            value % 16
        } else {
            self.rom_bank
        }
    }

    /// The RAM enable latch after a write of `value` at `addr`: an address
    /// in 0x0000..=0x1FFF with bit 8 clear sets it.
    pub open spec fn spec_enabled_after(self, addr: u16, value: u8) -> bool {
        if addr <= 0x1fff && !spec_bit8(addr) {
            spec_enables(value)
        } else {
            self.ram_enabled
        }
    }

    /// Whether `after` is the controller after a write of `value` at `addr`.
    pub open spec fn spec_written(self, addr: u16, value: u8, after: Self) -> bool {
        &&& after.meta == self.meta
        &&& after.rom == self.rom
        &&& after.ram@ == self.spec_ram_after(addr, value)
        &&& after.rom_bank == self.spec_bank_after(addr, value)
        &&& after.ram_enabled == self.spec_enabled_after(addr, value)
    }
}

/// With the RAM disabled a write to the built-in RAM is dropped and a read
/// of it returns zero; with the RAM enabled the low nibble of a byte
/// written within the RAM is read back.
pub proof fn lemma_ram_gate(c: MBC2, addr: u16, value: u8, after: MBC2)
    requires
        0xa000 <= addr <= 0xa1ff,
        c.stored(addr, value, after),
    ensures
        !c.ram_enabled ==> after.ram@ == c.ram@ && after.byte_at(addr) == 0,
        c.ram_enabled && addr - 0xa000 < c.ram@.len() ==> after.byte_at(addr) == value % 16,
{
}

impl MemoryBank for MBC2 {
    open spec fn spec_rom_bank(&self) -> usize {
        self.rom_bank as usize
    }

    /// An MBC2 has a single bank of RAM.
    open spec fn spec_ram_bank(&self) -> usize {
        0
    }

    open spec fn spec_rom_byte(&self, addr: u16) -> u8 {
        spec_banked(self.rom@, self.rom_bank as int, 0x4000, addr - 0x4000)
    }

    open spec fn spec_ram_byte(&self, addr: u16) -> u8 {
        if self.ram_enabled && addr <= 0xa1ff {
            spec_banked(self.ram@, 0, 0, addr - 0xa000)
        } else {
            0
        }
    }

    open spec fn spec_ram_written(&self, addr: u16, value: u8, after: Self) -> bool {
        0xa000 <= addr <= 0xbfff && self.spec_written(addr, value, after)
    }

    fn get_rom_bank_num(&self) -> (r: usize) {
        self.rom_bank as usize
    }

    fn get_ram_bank_num(&self) -> (r: usize) {
        0
    }

    fn read_via_rom_bank(&self, addr: u16) -> (r: u8) {
        read_banked(&self.rom, self.rom_bank as usize, 0x4000, (addr - 0x4000) as usize)
    }

    fn read_via_ram_bank(&self, addr: u16) -> (r: u8) {
        if self.ram_enabled && addr <= 0xa1ff {
            read_banked(&self.ram, 0, 0, (addr - 0xa000) as usize)
        } else {
            0x00
        }
    }

    fn write_via_ram_bank(&mut self, addr: u16, value: u8) {
        if !self.ram_enabled || addr > 0xa1ff {
            return ;
        }
        write_banked(&mut self.ram, 0, 0, (addr - 0xa000) as usize, value % 16);
    }
}

impl IOHandler for MBC2 {
    /// 0x0000..=0x3FFF reads ROM bank 0, 0x4000..=0x7FFF the switchable ROM
    /// bank, 0xA000..=0xA1FF the built-in RAM; any other read returns zero.
    open spec fn byte_at(&self, a: u16) -> u8 {
        if a <= 0x3fff {
            spec_banked(self.rom@, 0, 0x4000, a as int)
        } else if a <= 0x7fff {
            self.spec_rom_byte(a)
        } else if 0xa000 <= a <= 0xa1ff {
            self.spec_ram_byte(a)
        } else {
            0
        }
    }

    open spec fn stored(&self, a: u16, v: u8, after: Self) -> bool {
        self.spec_written(a, v, after)
    }

    fn read_byte(&self, a: u16) -> (r: u8) {
        if a <= 0x3fff {
            read_banked(&self.rom, 0, 0x4000, a as usize)
        } else if a <= 0x7fff {
            self.read_via_rom_bank(a)
        } else if 0xa000 <= a && a <= 0xa1ff {
            self.read_via_ram_bank(a)
        } else {
            0x00
        }
    }

    fn write_byte(&mut self, a: u16, v: u8) {
        if a <= 0x1fff {
            if a / 256 % 2 == 0 {
                self.ram_enabled = v % 16 == 0x0a;
            }
        } else if a <= 0x3fff {
            if a / 256 % 2 == 1 {
                self.rom_bank = v % 16;
            }
        } else if 0xa000 <= a && a <= 0xa1ff {
            self.write_via_ram_bank(a, v);
        }
    }
}

impl Cartridge for MBC2 {
    open spec fn spec_meta(&self) -> MetaView {
        self.meta@
    }

    fn get_meta(&self) -> (r: CartridgeMeta) {
        self.meta.duplicate()
    }
}

} // verus!
