//! Cartridges of any kind, and how they are built from a ROM image.

use vstd::prelude::*;

use crate::gameboy::cartridge::bank::BankMode;
use crate::gameboy::cartridge::mbc1::MBC1;
use crate::gameboy::cartridge::mbc2::MBC2;
use crate::gameboy::cartridge::mbc2::MBC2_RAM_SIZE;
use crate::gameboy::cartridge::mbc3::MBC3;
use crate::gameboy::cartridge::meta::spec_header_ok;
use crate::gameboy::cartridge::meta::spec_meta;
use crate::gameboy::cartridge::meta::spec_type;
use crate::gameboy::cartridge::meta::CartridgeMeta;
use crate::gameboy::cartridge::meta::CartridgeType;
use crate::gameboy::cartridge::meta::MetaView;
use crate::gameboy::cartridge::rom_only::RomOnly;
use crate::gameboy::cartridge::rtc::RealTimeClock;
use crate::gameboy::cartridge::Cartridge;
use crate::gameboy::mmu::IOHandler;

verus! {

/// A cartridge of any of the kinds that are built here.
#[derive(Debug)]
pub enum AnyCartridge {
    RomOnly(RomOnly),
    Mbc1(MBC1),
    Mbc2(MBC2),
    Mbc3(MBC3),
}

/// Whether cartridges of the kind `kind` are built here: ROM only, MBC1,
/// MBC2 and MBC3.
pub open spec fn spec_supported(kind: CartridgeType) -> bool {
    spec_is_rom_only(kind) || spec_is_mbc1(kind) || spec_is_mbc2(kind) || spec_is_mbc3(kind)
}

/// Whether `kind` has no bank controller.
pub open spec fn spec_is_rom_only(kind: CartridgeType) -> bool {
    kind == CartridgeType::ROM_ONLY
}

/// Whether `kind` has an MBC1.
pub open spec fn spec_is_mbc1(kind: CartridgeType) -> bool {
    kind == CartridgeType::ROM_MBC1 || kind == CartridgeType::ROM_MBC1_RAM || kind
        == CartridgeType::ROM_MBC1_RAM_BATT
}

/// Whether `kind` has an MBC2.
pub open spec fn spec_is_mbc2(kind: CartridgeType) -> bool {
    kind == CartridgeType::ROM_MBC2 || kind == CartridgeType::ROM_MBC2_BATT
}

/// Whether `kind` has an MBC3.
pub open spec fn spec_is_mbc3(kind: CartridgeType) -> bool {
    kind == CartridgeType::ROM_MBC3 || kind == CartridgeType::ROM_MBC3_RAM || kind
        == CartridgeType::ROM_MBC3_RAM_BATT || kind == CartridgeType::ROM_MBC3_TIMER_BATT || kind
        == CartridgeType::ROM_MBC3_TIMER_RAM_BATT
}

/// Whether a cartridge of the kind `kind` keeps its RAM on a battery.
pub open spec fn spec_has_battery(kind: CartridgeType) -> bool {
    kind == CartridgeType::ROM_MBC1_RAM_BATT || kind == CartridgeType::ROM_MBC2_BATT || kind
        == CartridgeType::ROM_MBC3_RAM_BATT || kind == CartridgeType::ROM_MBC3_TIMER_BATT || kind
        == CartridgeType::ROM_MBC3_TIMER_RAM_BATT
}

/// Whether a cartridge of the kind `kind` keeps the start of its clock.
pub open spec fn spec_has_timer(kind: CartridgeType) -> bool {
    kind == CartridgeType::ROM_MBC3_TIMER_BATT || kind == CartridgeType::ROM_MBC3_TIMER_RAM_BATT
}

/// The size of the RAM of a cartridge of the kind `kind` whose header
/// names the size `size`: 512 in an MBC2, nothing in a kind without RAM.
pub open spec fn spec_declared_ram(kind: CartridgeType, size: usize) -> int {
    if spec_is_mbc2(kind) {
        MBC2_RAM_SIZE as int
    } else if kind == CartridgeType::ROM_MBC1_RAM || kind == CartridgeType::ROM_MBC1_RAM_BATT
        || kind == CartridgeType::ROM_MBC3_RAM || kind == CartridgeType::ROM_MBC3_RAM_BATT || kind
        == CartridgeType::ROM_MBC3_TIMER_RAM_BATT {
        size as int
    } else {
        0
    }
}

/// The RAM that a cartridge starts with: the RAM `saved` by an earlier run
/// where the cartridge has RAM on a battery and there is one, else zeros.
pub open spec fn spec_initial_ram(kind: CartridgeType, size: usize, saved: Option<Vec<u8>>) -> Seq<
    u8,
> {
    if spec_has_battery(kind) && kind != CartridgeType::ROM_MBC3_TIMER_BATT && saved.is_some() {
        saved.unwrap()@
    } else {
        Seq::new(spec_declared_ram(kind, size) as nat, |i: int| 0u8)
    }
}

/// Returns a vector of `n` zeros.
pub fn zeroed(n: usize) -> (r: Vec<u8>)
    ensures
        r@ == Seq::new(n as nat, |i: int| 0u8),
{
    let mut r: Vec<u8> = Vec::new();
    let mut i: usize = 0;
    while i < n
        invariant
            i <= n,
            r@ == Seq::new(i as nat, |k: int| 0u8),
        decreases n - i,
    {
        r.push(0);
        i = i + 1;
        assert(r@ =~= Seq::new(i as nat, |k: int| 0u8));
    }
    r
}

impl AnyCartridge {
    /// The ROM image of the cartridge.
    pub open spec fn spec_rom(self) -> Seq<u8> {
        match self {
            AnyCartridge::RomOnly(c) => c.rom@,
            AnyCartridge::Mbc1(c) => c.rom@,
            AnyCartridge::Mbc2(c) => c.rom@,
            AnyCartridge::Mbc3(c) => c.rom@,
        }
    }

    /// The RAM of the cartridge.
    pub open spec fn spec_ram(self) -> Seq<u8> {
        match self {
            AnyCartridge::RomOnly(c) => Seq::empty(),
            AnyCartridge::Mbc1(c) => c.ram@,
            AnyCartridge::Mbc2(c) => c.ram@,
            AnyCartridge::Mbc3(c) => c.ram@,
        }
    }

    /// Whether the cartridge is in its state after power-up.
    pub open spec fn spec_fresh(self) -> bool {
        match self {
            AnyCartridge::RomOnly(c) => true,
            AnyCartridge::Mbc1(c) => c.bank_reg == 1 && c.bank_mode == BankMode::Rom
                && !c.ram_enabled,
            AnyCartridge::Mbc2(c) => c.rom_bank == 1 && !c.ram_enabled,
            AnyCartridge::Mbc3(c) => c.rom_bank == 1 && c.ram_bank == 0 && !c.ram_enabled && c.rtc
                == RealTimeClock::spec_new(c.rtc.zero),
        }
    }

    /// Whether the cartridge has the controller of the kind `kind`.
    pub open spec fn spec_is_kind(self, kind: CartridgeType) -> bool {
        match self {
            AnyCartridge::RomOnly(c) => spec_is_rom_only(kind),
            AnyCartridge::Mbc1(c) => spec_is_mbc1(kind),
            AnyCartridge::Mbc2(c) => spec_is_mbc2(kind),
            AnyCartridge::Mbc3(c) => spec_is_mbc3(kind),
        }
    }

    /// Returns the RAM that is to be persisted: the RAM of a cartridge that
    /// keeps it on a battery, `None` for any other cartridge.
    pub fn battery_ram(&self) -> (r: Option<&Vec<u8>>)
        ensures
            r.is_some() == (spec_has_battery(self.spec_meta().kind) && self.spec_is_kind(
                self.spec_meta().kind,
            )),
            r matches Some(ram) ==> ram@ == self.spec_ram(),
    {
        match self {
            AnyCartridge::RomOnly(c) => None,
            AnyCartridge::Mbc1(c) => match c.meta.kind {
                CartridgeType::ROM_MBC1_RAM_BATT => Some(&c.ram),
                _ => None,
            },
            AnyCartridge::Mbc2(c) => match c.meta.kind {
                CartridgeType::ROM_MBC2_BATT => Some(&c.ram),
                _ => None,
            },
            AnyCartridge::Mbc3(c) => match c.meta.kind {
                CartridgeType::ROM_MBC3_RAM_BATT => Some(&c.ram),
                CartridgeType::ROM_MBC3_TIMER_BATT => Some(&c.ram),
                CartridgeType::ROM_MBC3_TIMER_RAM_BATT => Some(&c.ram),
                _ => None,
            },
        }
    }

    /// Returns the start of the clock as it is to be persisted, eight bytes
    /// with the most significant first: that of a cartridge with a timer,
    /// `None` for any other cartridge.
    pub fn clock_epoch(&self) -> (r: Option<Vec<u8>>)
        ensures
            r.is_some() == (spec_has_timer(self.spec_meta().kind) && self is Mbc3),
            r matches Some(b) ==> self matches AnyCartridge::Mbc3(c) && b@.len() == 8
                && crate::gameboy::cartridge::rtc::spec_be(b@) == c.rtc.zero,
    {
        match self {
            AnyCartridge::Mbc3(c) => match c.meta.kind {
                CartridgeType::ROM_MBC3_TIMER_BATT => Some(c.rtc.epoch_bytes()),
                CartridgeType::ROM_MBC3_TIMER_RAM_BATT => Some(c.rtc.epoch_bytes()),
                _ => None,
            },
            _ => None,
        }
    }
}

impl IOHandler for AnyCartridge {
    open spec fn byte_at(&self, a: u16) -> u8 {
        match self {
            AnyCartridge::RomOnly(c) => c.byte_at(a),
            AnyCartridge::Mbc1(c) => c.byte_at(a),
            AnyCartridge::Mbc2(c) => c.byte_at(a),
            AnyCartridge::Mbc3(c) => c.byte_at(a),
        }
    }

    open spec fn stored(&self, a: u16, v: u8, after: Self) -> bool {
        match (*self, after) {
            (AnyCartridge::RomOnly(c), AnyCartridge::RomOnly(d)) => c.stored(a, v, d),
            (AnyCartridge::Mbc1(c), AnyCartridge::Mbc1(d)) => c.stored(a, v, d),
            (AnyCartridge::Mbc2(c), AnyCartridge::Mbc2(d)) => c.stored(a, v, d),
            (AnyCartridge::Mbc3(c), AnyCartridge::Mbc3(d)) => c.stored(a, v, d),
            _ => false,
        }
    }

    fn read_byte(&self, a: u16) -> (r: u8) {
        match self {
            AnyCartridge::RomOnly(c) => c.read_byte(a),
            AnyCartridge::Mbc1(c) => c.read_byte(a),
            AnyCartridge::Mbc2(c) => c.read_byte(a),
            AnyCartridge::Mbc3(c) => c.read_byte(a),
        }
    }

    fn write_byte(&mut self, a: u16, v: u8) {
        match self {
            AnyCartridge::RomOnly(c) => c.write_byte(a, v),
            AnyCartridge::Mbc1(c) => c.write_byte(a, v),
            AnyCartridge::Mbc2(c) => c.write_byte(a, v),
            AnyCartridge::Mbc3(c) => c.write_byte(a, v),
        }
    }
}

impl Cartridge for AnyCartridge {
    open spec fn spec_meta(&self) -> MetaView {
        match self {
            AnyCartridge::RomOnly(c) => c.spec_meta(),
            AnyCartridge::Mbc1(c) => c.spec_meta(),
            AnyCartridge::Mbc2(c) => c.spec_meta(),
            AnyCartridge::Mbc3(c) => c.spec_meta(),
        }
    }

    fn get_meta(&self) -> (r: CartridgeMeta) {
        match self {
            AnyCartridge::RomOnly(c) => c.get_meta(),
            AnyCartridge::Mbc1(c) => c.get_meta(),
            AnyCartridge::Mbc2(c) => c.get_meta(),
            AnyCartridge::Mbc3(c) => c.get_meta(),
        }
    }
}

/// Builds cartridges from ROM images.
pub struct CartridgeFactory {}

impl CartridgeFactory {
    /// Whether `c` is the cartridge built from the ROM image `rom`, the RAM
    /// `saved_ram` of an earlier run and the start `saved_epoch` of its
    /// clock: it has the controller that the header names, in its state
    /// after power-up, with the RAM it starts with. A cartridge with a timer
    /// takes up the saved start of its clock.
    pub open spec fn spec_built(
        rom: Seq<u8>,
        saved_ram: Option<Vec<u8>>,
        saved_epoch: Option<u64>,
        c: AnyCartridge,
    ) -> bool {
        let meta = spec_meta(rom);
        &&& c.spec_meta() == meta
        &&& c.spec_is_kind(meta.kind)
        &&& c.spec_rom() =~= rom
        &&& c.spec_ram() =~= spec_initial_ram(meta.kind, meta.ram_size, saved_ram)
        &&& c.spec_fresh()
        &&& (spec_has_timer(meta.kind) && saved_epoch.is_some()) ==> (c matches AnyCartridge::Mbc3(
            m,
        ) && m.rtc.zero == saved_epoch.unwrap())
    }

    /// Returns whether the ROM image `rom` is one that a cartridge can be
    /// built from: its header can be read and names a kind that is built
    /// here.
    pub fn can_build(rom: &Vec<u8>) -> (r: bool)
        ensures
            r == (spec_header_ok(rom@) && spec_supported(spec_type(rom@[0x0147]).unwrap())),
    {
        if !CartridgeMeta::header_ok(rom) {
            return false;
        }
        match CartridgeMeta::parse_type(rom) {
            CartridgeType::ROM_ONLY => true,
            CartridgeType::ROM_MBC1 => true,
            CartridgeType::ROM_MBC1_RAM => true,
            CartridgeType::ROM_MBC1_RAM_BATT => true,
            CartridgeType::ROM_MBC2 => true,
            CartridgeType::ROM_MBC2_BATT => true,
            CartridgeType::ROM_MBC3 => true,
            CartridgeType::ROM_MBC3_RAM => true,
            CartridgeType::ROM_MBC3_RAM_BATT => true,
            CartridgeType::ROM_MBC3_TIMER_BATT => true,
            CartridgeType::ROM_MBC3_TIMER_RAM_BATT => true,
            _ => false,
        }
    }

    /// Returns the RAM that a cartridge with RAM on a battery starts with.
    fn restored(saved: Option<Vec<u8>>, size: usize) -> (r: Vec<u8>)
        ensures
            r@ == (match saved {
                Some(s) => s@,
                None => Seq::new(size as nat, |i: int| 0u8),
            }),
    {
        match saved {
            Some(s) => s,
            None => zeroed(size),
        }
    }

    /// Builds the cartridge of the ROM image `rom`. `saved_ram` is the RAM
    /// that an earlier run has persisted, if any, and `saved_epoch` the
    /// start of the clock that it has persisted, if any.
    pub fn new_catridge(rom: Vec<u8>, saved_ram: Option<Vec<u8>>, saved_epoch: Option<u64>) -> (c:
        AnyCartridge)
        requires
            spec_header_ok(rom@),
            spec_supported(spec_type(rom@[0x0147]).unwrap()),
        ensures
            Self::spec_built(rom@, saved_ram, saved_epoch, c),
    {
        let meta = CartridgeMeta::new(&rom);
        let size = meta.get_ram_size();
        match meta.get_type() {
            CartridgeType::ROM_ONLY => AnyCartridge::RomOnly(RomOnly::new(meta, rom)),
            CartridgeType::ROM_MBC1 => AnyCartridge::Mbc1(MBC1::new(meta, rom, zeroed(0))),
            CartridgeType::ROM_MBC1_RAM => AnyCartridge::Mbc1(MBC1::new(meta, rom, zeroed(size))),
            CartridgeType::ROM_MBC1_RAM_BATT => {
                let ram = Self::restored(saved_ram, size);
                AnyCartridge::Mbc1(MBC1::new(meta, rom, ram))
            },
            CartridgeType::ROM_MBC2 => AnyCartridge::Mbc2(
                MBC2::new(meta, rom, zeroed(MBC2_RAM_SIZE)),
            ),
            CartridgeType::ROM_MBC2_BATT => {
                let ram = Self::restored(saved_ram, MBC2_RAM_SIZE);
                AnyCartridge::Mbc2(MBC2::new(meta, rom, ram))
            },
            CartridgeType::ROM_MBC3_TIMER_BATT => AnyCartridge::Mbc3(
                MBC3::new(meta, rom, zeroed(0), RealTimeClock::new(saved_epoch)),
            ),
            CartridgeType::ROM_MBC3_TIMER_RAM_BATT => {
                let ram = Self::restored(saved_ram, size);
                AnyCartridge::Mbc3(MBC3::new(meta, rom, ram, RealTimeClock::new(saved_epoch)))
            },
            CartridgeType::ROM_MBC3 => AnyCartridge::Mbc3(
                MBC3::new(meta, rom, zeroed(0), RealTimeClock::new(None)),
            ),
            CartridgeType::ROM_MBC3_RAM => AnyCartridge::Mbc3(
                MBC3::new(meta, rom, zeroed(size), RealTimeClock::new(None)),
            ),
            CartridgeType::ROM_MBC3_RAM_BATT => {
                let ram = Self::restored(saved_ram, size);
                AnyCartridge::Mbc3(MBC3::new(meta, rom, ram, RealTimeClock::new(None)))
            },
            _ => AnyCartridge::RomOnly(RomOnly::new(meta, rom)),
        }
    }

    /// The RAM that a cartridge keeps on a battery has the size that its
    /// header declares, when it was built without saved RAM or with saved
    /// RAM of that size.
    pub proof fn lemma_battery_ram_size(
        rom: Seq<u8>,
        saved_ram: Option<Vec<u8>>,
        saved_epoch: Option<u64>,
        c: AnyCartridge,
    )
        requires
            Self::spec_built(rom, saved_ram, saved_epoch, c),
            saved_ram matches Some(s) ==> s@.len() == spec_declared_ram(
                spec_meta(rom).kind,
                spec_meta(rom).ram_size,
            ),
        ensures
            c.spec_ram().len() == spec_declared_ram(c.spec_meta().kind, c.spec_meta().ram_size),
    {
    }

    /// No write changes the size of the RAM of a cartridge, its ROM or its
    /// header.
    pub proof fn lemma_write_keeps_sizes(c: AnyCartridge, a: u16, v: u8, after: AnyCartridge)
        requires
            c.stored(a, v, after),
        ensures
            after.spec_ram().len() == c.spec_ram().len(),
            after.spec_rom() == c.spec_rom(),
            after.spec_meta() == c.spec_meta(),
    {
    }
}

/// Builds the cartridge of the contents `rom` of a ROM file, with the
/// contents of the files that an earlier run has saved beside it, if any.
pub fn load_cartridge_from_file(
    rom: Vec<u8>,
    saved_ram: Option<Vec<u8>>,
    saved_epoch: Option<u64>,
) -> (c: AnyCartridge)
    requires
        spec_header_ok(rom@),
        spec_supported(spec_type(rom@[0x0147]).unwrap()),
    ensures
        CartridgeFactory::spec_built(rom@, saved_ram, saved_epoch, c),
{
    CartridgeFactory::new_catridge(rom, saved_ram, saved_epoch)
}

} // verus!
