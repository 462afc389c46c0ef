//! Banked ROM and RAM.

use vstd::prelude::*;

verus! {

/// The two ways in which an MBC1 uses its upper bank bits.
#[derive(Debug, Clone, Copy, PartialEq, Eq, Structural)]
pub enum BankMode {
    /// The upper bits extend the ROM bank number.
    Rom,
    /// The upper bits select the RAM bank.
    Ram,
}

/// The first address of the switchable ROM bank.
pub const ROM_BANK_START: u16 = 0x4000;

/// The last address of the switchable ROM bank.
pub const ROM_BANK_LAST: u16 = 0x7fff;

/// The first address of the external RAM.
pub const RAM_START: u16 = 0xa000;

/// The last address of the external RAM.
pub const RAM_LAST: u16 = 0xbfff;

/// The byte at `offset` in bank `bank` of `image`, whose banks hold `size`
/// bytes each; zero behind the end of the image.
pub open spec fn spec_banked(image: Seq<u8>, bank: int, size: int, offset: int) -> u8 {
    if 0 <= bank * size + offset < image.len() {
        image[bank * size + offset]
    } else {
        0
    }
}

/// `image` with the byte at `offset` in bank `bank` replaced by `v`; the
/// same image where that place is behind its end.
pub open spec fn spec_bank_update(image: Seq<u8>, bank: int, size: int, offset: int, v: u8) -> Seq<
    u8,
> {
    if 0 <= bank * size + offset < image.len() {
        image.update(bank * size + offset, v)
    } else {
        image
    }
}

/// Whether a write of `v` to the RAM enable register enables the RAM: the
/// low nibble is 0x0A.
pub open spec fn spec_enables(v: u8) -> bool {
    v % 16 == 0x0a
}

/// Reads the byte at `offset` in bank `bank` of `image`.
pub fn read_banked(image: &Vec<u8>, bank: usize, size: usize, offset: usize) -> (r: u8)
    requires
        bank < 0x100,
        size <= 0x4000,
        offset < 0x4000,
    ensures
        r == spec_banked(image@, bank as int, size as int, offset as int),
{
    assert(bank * size <= 0xff * 0x4000) by (nonlinear_arith)
        requires
            bank < 0x100,
            size <= 0x4000,
    ;
    let i = bank * size + offset;
    if i < image.len() {
        image[i]
    } else {
        0x00
    }
}

/// Writes `v` at `offset` in bank `bank` of `image`.
pub fn write_banked(image: &mut Vec<u8>, bank: usize, size: usize, offset: usize, v: u8)
    requires
        bank < 0x100,
        size <= 0x4000,
        offset < 0x4000,
    ensures
        final(image)@ == spec_bank_update(old(image)@, bank as int, size as int, offset as int, v),
{
    assert(bank * size <= 0xff * 0x4000) by (nonlinear_arith)
        requires
            bank < 0x100,
            size <= 0x4000,
    ;
    let i = bank * size + offset;
    if i < image.len() {
        image.set(i, v);
    }
}

/// A bank controller: the banks that are mapped in, and reads and writes
/// through them.
pub trait MemoryBank: Sized {
    /// The number of the ROM bank that is mapped at 0x4000.
    spec fn spec_rom_bank(&self) -> usize;

    /// The number of the RAM bank that is mapped at 0xA000.
    spec fn spec_ram_bank(&self) -> usize;

    /// The byte that a read of the switchable ROM bank at `addr` returns.
    spec fn spec_rom_byte(&self, addr: u16) -> u8;

    /// The byte that a read of the external RAM at `addr` returns.
    spec fn spec_ram_byte(&self, addr: u16) -> u8;

    /// Whether `after` is the controller after a write of `value` to the
    /// external RAM at `addr`.
    spec fn spec_ram_written(&self, addr: u16, value: u8, after: Self) -> bool;

    /// Returns the number of the ROM bank that is mapped at 0x4000.
    fn get_rom_bank_num(&self) -> (r: usize)
        ensures
            r == self.spec_rom_bank(),
    ;

    /// Returns the number of the RAM bank that is mapped at 0xA000.
    fn get_ram_bank_num(&self) -> (r: usize)
        ensures
            r == self.spec_ram_bank(),
    ;

    /// Reads a byte of the switchable ROM bank.
    fn read_via_rom_bank(&self, addr: u16) -> (r: u8)
        requires
            ROM_BANK_START <= addr <= ROM_BANK_LAST,
        ensures
            r == self.spec_rom_byte(addr),
    ;

    /// Reads a byte of the external RAM.
    fn read_via_ram_bank(&self, addr: u16) -> (r: u8)
        requires
            RAM_START <= addr <= RAM_LAST,
        ensures
            r == self.spec_ram_byte(addr),
    ;

    /// Writes a byte to the external RAM.
    fn write_via_ram_bank(&mut self, addr: u16, value: u8)
        requires
            RAM_START <= addr <= RAM_LAST,
        ensures
            old(self).spec_ram_written(addr, value, *final(self)),
    ;
}

} // verus!
