//! The MBC1 bank controller.

use vstd::prelude::*;

use crate::gameboy::cartridge::bank::read_banked;
use crate::gameboy::cartridge::bank::spec_bank_update;
use crate::gameboy::cartridge::bank::spec_banked;
use crate::gameboy::cartridge::bank::spec_enables;
use crate::gameboy::cartridge::bank::write_banked;
use crate::gameboy::cartridge::bank::BankMode;
use crate::gameboy::cartridge::bank::MemoryBank;
use crate::gameboy::cartridge::meta::CartridgeMeta;
use crate::gameboy::cartridge::meta::MetaView;
use crate::gameboy::cartridge::Cartridge;
use crate::gameboy::mmu::IOHandler;

verus! {

/// A cartridge with an MBC1: up to 125 ROM banks of 16 KiB and up to four
/// RAM banks of 8 KiB.
///
/// `bank_reg` holds the ROM bank number in its low five bits and two upper
/// bits above them. In ROM mode the upper bits extend the ROM bank number
/// and RAM bank 0 is mapped; in RAM mode they select the RAM bank.
#[derive(Debug)]
pub struct MBC1 {
    pub meta: CartridgeMeta,
    pub rom: Vec<u8>,
    pub ram: Vec<u8>,
    pub bank_mode: BankMode,
    pub bank_reg: u8,
    pub ram_enabled: bool,
}

impl MBC1 {
    /// Returns a controller after power-up: ROM bank 1, ROM mode, RAM
    /// disabled.
    pub fn new(meta: CartridgeMeta, rom: Vec<u8>, ram: Vec<u8>) -> (r: Self)
        ensures
            r.meta == meta,
            r.rom == rom,
            r.ram == ram,
            r.bank_mode == BankMode::Rom,
            r.bank_reg == 1,
            !r.ram_enabled,
    {
        MBC1 { meta, rom, ram, bank_mode: BankMode::Rom, bank_reg: 0x01, ram_enabled: false }
    }

    /// The bank register after a write of `value` to 0x2000..=0x3FFF: its
    /// low five bits are those of `value`, with zero rewritten to one.
    pub open spec fn spec_low_bank(reg: u8, value: u8) -> u8 {
        let n = if value % 32 == 0 {
            1
        } else {
            value % 32
        };
        ((reg / 32 % 4) * 32 + n) as u8
    }

    /// The bank register after a write of `value` to 0x4000..=0x5FFF: its
    /// bits 5 and 6 are the low two bits of `value`.
    pub open spec fn spec_high_bank(reg: u8, value: u8) -> u8 {
        ((value % 4) * 32 + reg % 32) as u8
    }

    /// The RAM after a write of `value` at `addr`.
    pub open spec fn spec_ram_after(self, addr: u16, value: u8) -> Seq<u8> {
        if 0xa000 <= addr <= 0xbfff && self.ram_enabled {
            spec_bank_update(
                self.ram@,
                self.spec_ram_bank() as int,
                0x2000,
                addr - 0xa000,
                value,
            )
        } else {
            self.ram@
        }
    }

    /// The bank register after a write of `value` at `addr`.
    pub open spec fn spec_reg_after(self, addr: u16, value: u8) -> u8 {
        if 0x2000 <= addr <= 0x3fff {
            Self::spec_low_bank(self.bank_reg, value)
        } else if 0x4000 <= addr <= 0x5fff {
            Self::spec_high_bank(self.bank_reg, value)
        } else {
            self.bank_reg
        }
    }

    /// The mode after a write of `value` at `addr`: 0x6000..=0x7FFF selects
    /// RAM mode with the value 1 and ROM mode with any other.
    pub open spec fn spec_mode_after(self, addr: u16, value: u8) -> BankMode {
        if 0x6000 <= addr <= 0x7fff {
            if value == 1 {
                BankMode::Ram
            } else {
                BankMode::Rom
            }
        } else {
            self.bank_mode
        }
    }

    /// The RAM enable latch after a write of `value` at `addr`.
    pub open spec fn spec_enabled_after(self, addr: u16, value: u8) -> bool {
        if addr <= 0x1fff {
            spec_enables(value)
        } else {
            self.ram_enabled
        }
    }

    /// Whether `after` is the controller after a write of `value` at `addr`.
    pub open spec fn spec_written(self, addr: u16, value: u8, after: Self) -> bool {
        &&& after.meta == self.meta
        &&& after.rom == self.rom
        &&& after.ram@ == self.spec_ram_after(addr, value)
        &&& after.bank_reg == self.spec_reg_after(addr, value)
        &&& after.bank_mode == self.spec_mode_after(addr, value)
        &&& after.ram_enabled == self.spec_enabled_after(addr, value)
    }
}

/// After any write to 0x2000..=0x3FFF the ROM bank that is mapped at 0x4000
/// is not bank 0.
pub proof fn lemma_bank_never_zero(c: MBC1, addr: u16, value: u8, after: MBC1)
    requires
        0x2000 <= addr <= 0x3fff,
        c.stored(addr, value, after),
    ensures
        after.spec_rom_bank() != 0,
        after.bank_reg % 32 != 0,
{
}

/// With the RAM disabled a write to the external RAM is dropped and a read
/// of it returns zero; with the RAM enabled a byte written within the RAM
/// is read back.
pub proof fn lemma_ram_gate(c: MBC1, addr: u16, value: u8, after: MBC1)
    requires
        0xa000 <= addr <= 0xbfff,
        c.stored(addr, value, after),
    ensures
        !c.ram_enabled ==> after.ram@ == c.ram@ && after.byte_at(addr) == 0,
        c.ram_enabled && 0x2000 * c.spec_ram_bank() + (addr - 0xa000) < c.ram@.len()
            ==> after.byte_at(addr) == value,
{
}

impl MemoryBank for MBC1 {
    open spec fn spec_rom_bank(&self) -> usize {
        match self.bank_mode {
            BankMode::Rom => (self.bank_reg % 128) as usize,
            BankMode::Ram => (self.bank_reg % 32) as usize,
        }
    }

    open spec fn spec_ram_bank(&self) -> usize {
        match self.bank_mode {
            BankMode::Rom => 0,
            BankMode::Ram => (self.bank_reg / 32 % 4) as usize,
        }
    }

    open spec fn spec_rom_byte(&self, addr: u16) -> u8 {
        spec_banked(self.rom@, self.spec_rom_bank() as int, 0x4000, addr - 0x4000)
    }

    open spec fn spec_ram_byte(&self, addr: u16) -> u8 {
        if self.ram_enabled {
            spec_banked(self.ram@, self.spec_ram_bank() as int, 0x2000, addr - 0xa000)
        } else {
            0
        }
    }

    open spec fn spec_ram_written(&self, addr: u16, value: u8, after: Self) -> bool {
        0xa000 <= addr <= 0xbfff && self.spec_written(addr, value, after)
    }

    fn get_rom_bank_num(&self) -> (r: usize) {
        match self.bank_mode {
            BankMode::Rom => (self.bank_reg % 128) as usize,
            BankMode::Ram => (self.bank_reg % 32) as usize,
        }
    }

    fn get_ram_bank_num(&self) -> (r: usize) {
        match self.bank_mode {
            BankMode::Rom => 0,
            BankMode::Ram => (self.bank_reg / 32 % 4) as usize,
        }
    }

    fn read_via_rom_bank(&self, addr: u16) -> (r: u8) {
        read_banked(&self.rom, self.get_rom_bank_num(), 0x4000, (addr - 0x4000) as usize)
    }

    fn read_via_ram_bank(&self, addr: u16) -> (r: u8) {
        if !self.ram_enabled {
            return 0x00;
        }
        read_banked(&self.ram, self.get_ram_bank_num(), 0x2000, (addr - 0xa000) as usize)
    }

    fn write_via_ram_bank(&mut self, addr: u16, value: u8) {
        if !self.ram_enabled {
            return ;
        }
        let bank = self.get_ram_bank_num();
        write_banked(&mut self.ram, bank, 0x2000, (addr - 0xa000) as usize, value);
    }
}

impl IOHandler for MBC1 {
    /// 0x0000..=0x3FFF reads ROM bank 0, 0x4000..=0x7FFF the switchable ROM
    /// bank, 0xA000..=0xBFFF the external RAM; any other read returns zero.
    open spec fn byte_at(&self, a: u16) -> u8 {
        if a <= 0x3fff {
            spec_banked(self.rom@, 0, 0x4000, a as int)
        } else if a <= 0x7fff {
            self.spec_rom_byte(a)
        } else if 0xa000 <= a <= 0xbfff {
            self.spec_ram_byte(a)
        } else {
            0
        }
    }

    open spec fn stored(&self, a: u16, v: u8, after: Self) -> bool {
        self.spec_written(a, v, after)
    }

    fn read_byte(&self, a: u16) -> (r: u8) {
        if a <= 0x3fff {
            read_banked(&self.rom, 0, 0x4000, a as usize)
        } else if a <= 0x7fff {
            self.read_via_rom_bank(a)
        } else if 0xa000 <= a && a <= 0xbfff {
            self.read_via_ram_bank(a)
        } else {
            0x00
        }
    }

    fn write_byte(&mut self, a: u16, v: u8) {
        if a <= 0x1fff {
            self.ram_enabled = v % 16 == 0x0a;
        } else if a <= 0x3fff {
            let mut n = v % 32;
            if n == 0x00 {
                n = 0x01;
            }
            self.bank_reg = (self.bank_reg / 32 % 4) * 32 + n;
        } else if a <= 0x5fff {
            self.bank_reg = (v % 4) * 32 + self.bank_reg % 32;
        } else if a <= 0x7fff {
            if v == 0x01 {
                self.bank_mode = BankMode::Ram;
            } else {
                self.bank_mode = BankMode::Rom;
            }
        } else if 0xa000 <= a && a <= 0xbfff {
            self.write_via_ram_bank(a, v);
        }
    }
}

impl Cartridge for MBC1 {
    open spec fn spec_meta(&self) -> MetaView {
        self.meta@
    }

    fn get_meta(&self) -> (r: CartridgeMeta) {
        self.meta.duplicate()
    }
}

} // verus!
