//! The MBC3 bank controller.

use vstd::prelude::*;

use crate::gameboy::cartridge::bank::read_banked;
use crate::gameboy::cartridge::bank::spec_bank_update;
use crate::gameboy::cartridge::bank::spec_banked;
use crate::gameboy::cartridge::bank::spec_enables;
use crate::gameboy::cartridge::bank::write_banked;
use crate::gameboy::cartridge::bank::MemoryBank;
use crate::gameboy::cartridge::meta::CartridgeMeta;
use crate::gameboy::cartridge::meta::MetaView;
use crate::gameboy::cartridge::rtc::RealTimeClock;
use crate::gameboy::cartridge::Cartridge;
use crate::gameboy::mmu::IOHandler;

verus! {

/// A cartridge with an MBC3: up to 128 ROM banks of 16 KiB, up to four RAM
/// banks of 8 KiB, and a real-time clock.
///
/// `ram_bank` selects what is mapped at 0xA000..=0xBFFF: the values 0 to 3
/// a RAM bank, the values 0x08 to 0x0C a register of the clock, any other
/// value nothing.
#[derive(Debug)]
pub struct MBC3 {
    pub meta: CartridgeMeta,
    pub rom: Vec<u8>,
    pub ram: Vec<u8>,
    pub rtc: RealTimeClock,
    pub rom_bank: u8,
    pub ram_bank: u8,
    pub ram_enabled: bool,
}

impl MBC3 {
    /// Returns a controller after power-up: ROM bank 1, RAM bank 0, RAM and
    /// clock disabled.
    pub fn new(meta: CartridgeMeta, rom: Vec<u8>, ram: Vec<u8>, rtc: RealTimeClock) -> (r: Self)
        ensures
            r.meta == meta,
            r.rom == rom,
            r.ram == ram,
            r.rtc == rtc,
            r.rom_bank == 1,
            r.ram_bank == 0,
            !r.ram_enabled,
    {
        MBC3 { meta, rom, ram, rtc, rom_bank: 1, ram_bank: 0, ram_enabled: false }
    }

    /// Whether a RAM bank is mapped at 0xA000.
    pub open spec fn spec_maps_ram(self) -> bool {
        self.ram_bank <= 0x03
    }

    /// Whether a register of the clock is mapped at 0xA000.
    pub open spec fn spec_maps_clock(self) -> bool {
        0x08 <= self.ram_bank <= 0x0c
    }

    /// The RAM after a write of `value` at `addr`.
    pub open spec fn spec_ram_after(self, addr: u16, value: u8) -> Seq<u8> {
        if 0xa000 <= addr <= 0xbfff && self.ram_enabled && self.spec_maps_ram() {
            spec_bank_update(self.ram@, self.ram_bank as int, 0x2000, addr - 0xa000, value)
        } else {
            self.ram@
        }
    }

    /// The ROM bank after a write of `value` at `addr`: 0x2000..=0x3FFF
    /// selects the bank in the low seven bits, with zero rewritten to one.
    pub open spec fn spec_rom_bank_after(self, addr: u16, value: u8) -> u8 {
        if 0x2000 <= addr <= 0x3fff {
            if value % 128 == 0 {
                1
            } else {
                value % 128
            }
        } else {
            self.rom_bank
        }
    }

    /// The selector after a write of `value` at `addr`.
    pub open spec fn spec_ram_bank_after(self, addr: u16, value: u8) -> u8 {
        if 0x4000 <= addr <= 0x5fff {
            value % 16
        } else {
            self.ram_bank
        }
    }

    /// The RAM enable latch after a write of `value` at `addr`.
    pub open spec fn spec_enabled_after(self, addr: u16, value: u8) -> bool {
        if addr <= 0x1fff {
            spec_enables(value)
        } else {
            self.ram_enabled
        }
    }

    /// Whether `after` is the clock after a write of `value` at `addr`. A
    /// write to 0xA000..=0xBFFF sets the register that is mapped there. A
    /// write of 0 to 0x6000..=0x7FFF opens the latch; a write of 1 sets the
    /// registers to the time of the system clock, unless the latch is
    /// closed, and closes the latch.
    pub open spec fn spec_clock_written(self, addr: u16, value: u8, after: RealTimeClock) -> bool {
        if 0xa000 <= addr <= 0xbfff && self.ram_enabled && self.spec_maps_clock() {
            after == self.rtc.spec_set(self.ram_bank as u16, value)
        } else if 0x6000 <= addr <= 0x7fff && value == 0 {
            after == (RealTimeClock { is_locked: false, ..self.rtc })
        } else if 0x6000 <= addr <= 0x7fff && value == 1 {
            if self.rtc.is_locked {
                after == self.rtc
            } else {
                exists|ticked: RealTimeClock| #[trigger]
                    self.rtc.spec_ticked(ticked) && after == (RealTimeClock {
                        is_locked: true,
                        ..ticked
                    })
            }
        } else {
            after == self.rtc
        }
    }

    /// Whether `after` is the controller after a write of `value` at `addr`.
    pub open spec fn spec_written(self, addr: u16, value: u8, after: Self) -> bool {
        &&& after.meta == self.meta
        &&& after.rom == self.rom
        &&& after.ram@ == self.spec_ram_after(addr, value)
        &&& after.rom_bank == self.spec_rom_bank_after(addr, value)
        &&& after.ram_bank == self.spec_ram_bank_after(addr, value)
        &&& after.ram_enabled == self.spec_enabled_after(addr, value)
        &&& self.spec_clock_written(addr, value, after.rtc)
    }
}

/// With RAM and clock disabled a write to 0xA000..=0xBFFF is dropped and a
/// read of it returns zero; with them enabled a byte written within a RAM
/// bank or into a register of the clock is read back.
pub proof fn lemma_ram_gate(c: MBC3, addr: u16, value: u8, after: MBC3)
    requires
        0xa000 <= addr <= 0xbfff,
        c.stored(addr, value, after),
    ensures
        !c.ram_enabled ==> after.ram@ == c.ram@ && after.rtc == c.rtc && after.byte_at(addr)
            == 0,
        c.ram_enabled && c.spec_maps_ram() && 0x2000 * c.ram_bank + (addr - 0xa000)
            < c.ram@.len() ==> after.byte_at(addr) == value,
        c.ram_enabled && c.spec_maps_clock() ==> after.byte_at(addr) == value,
{
}

/// After any write to 0x2000..=0x3FFF the ROM bank that is mapped at 0x4000
/// is not bank 0.
pub proof fn lemma_bank_never_zero(c: MBC3, addr: u16, value: u8, after: MBC3)
    requires
        0x2000 <= addr <= 0x3fff,
        c.stored(addr, value, after),
    ensures
        after.spec_rom_bank() != 0,
{
}

impl MemoryBank for MBC3 {
    open spec fn spec_rom_bank(&self) -> usize {
        self.rom_bank as usize
    }

    open spec fn spec_ram_bank(&self) -> usize {
        self.ram_bank as usize
    }

    open spec fn spec_rom_byte(&self, addr: u16) -> u8 {
        spec_banked(self.rom@, self.rom_bank as int, 0x4000, addr - 0x4000)
    }

    open spec fn spec_ram_byte(&self, addr: u16) -> u8 {
        if !self.ram_enabled {
            0
        } else if self.spec_maps_ram() {
            spec_banked(self.ram@, self.ram_bank as int, 0x2000, addr - 0xa000)
        } else if self.spec_maps_clock() {
            self.rtc.spec_get(self.ram_bank as u16)
        } else {
            0
        }
    }

    open spec fn spec_ram_written(&self, addr: u16, value: u8, after: Self) -> bool {
        0xa000 <= addr <= 0xbfff && self.spec_written(addr, value, after)
    }

    fn get_rom_bank_num(&self) -> (r: usize) {
        self.rom_bank as usize
    }

    fn get_ram_bank_num(&self) -> (r: usize) {
        self.ram_bank as usize
    }

    fn read_via_rom_bank(&self, addr: u16) -> (r: u8) {
        read_banked(&self.rom, self.rom_bank as usize, 0x4000, (addr - 0x4000) as usize)
    }

    fn read_via_ram_bank(&self, addr: u16) -> (r: u8) {
        if !self.ram_enabled {
            0x00
        } else if self.ram_bank <= 0x03 {
            read_banked(&self.ram, self.ram_bank as usize, 0x2000, (addr - 0xa000) as usize)
        } else if 0x08 <= self.ram_bank && self.ram_bank <= 0x0c {
            self.rtc.get(self.ram_bank as u16)
        } else {
            0x00
        }
    }

    fn write_via_ram_bank(&mut self, addr: u16, value: u8) {
        if !self.ram_enabled {
            return ;
        }
        if self.ram_bank <= 0x03 {
            let bank = self.ram_bank as usize;
            write_banked(&mut self.ram, bank, 0x2000, (addr - 0xa000) as usize, value);
        } else if 0x08 <= self.ram_bank && self.ram_bank <= 0x0c {
            self.rtc.set(self.ram_bank as u16, value);
        }
    }
}

impl IOHandler for MBC3 {
    /// 0x0000..=0x3FFF reads ROM bank 0, 0x4000..=0x7FFF the switchable ROM
    /// bank, 0xA000..=0xBFFF the RAM bank or the register of the clock that
    /// is mapped there; any other read returns zero.
    open spec fn byte_at(&self, a: u16) -> u8 {
        if a <= 0x3fff {
            spec_banked(self.rom@, 0, 0x4000, a as int)
        } else if a <= 0x7fff {
            self.spec_rom_byte(a)
        } else if 0xa000 <= a <= 0xbfff {
            self.spec_ram_byte(a)
        } else {
            0
        }
    }

    open spec fn stored(&self, a: u16, v: u8, after: Self) -> bool {
        self.spec_written(a, v, after)
    }

    fn read_byte(&self, a: u16) -> (r: u8) {
        if a <= 0x3fff {
            read_banked(&self.rom, 0, 0x4000, a as usize)
        } else if a <= 0x7fff {
            self.read_via_rom_bank(a)
        } else if 0xa000 <= a && a <= 0xbfff {
            self.read_via_ram_bank(a)
        } else {
            0x00
        }
    }

    fn write_byte(&mut self, a: u16, v: u8) {
        if a <= 0x1fff {
            self.ram_enabled = v % 16 == 0x0a;
        } else if a <= 0x3fff {
            let mut n = v % 128;
            if n == 0x00 {
                n = 0x01;
            }
            self.rom_bank = n;
        } else if a <= 0x5fff {
            self.ram_bank = v % 16;
        } else if a <= 0x7fff {
            if v == 0 {
                self.rtc.unlock();
            } else if v == 1 {
                if !self.rtc.is_locked() {
                    self.rtc.tick();
                    let ghost ticked = self.rtc;
                    self.rtc.lock();
                    assert(old(self).rtc.spec_ticked(ticked) && self.rtc == (RealTimeClock {
                        is_locked: true,
                        ..ticked
                    }));
                }
            }
        } else if 0xa000 <= a && a <= 0xbfff {
            self.write_via_ram_bank(a, v);
        }
    }
}

impl Cartridge for MBC3 {
    open spec fn spec_meta(&self) -> MetaView {
        self.meta@
    }

    fn get_meta(&self) -> (r: CartridgeMeta) {
        self.meta.duplicate()
    }
}

} // verus!
