//! Cartridges: the header, the bank controllers and the real-time clock.

use vstd::prelude::*;

pub mod bank;
pub mod factory;
pub mod mbc1;
pub mod mbc2;
pub mod mbc3;
pub mod meta;
pub mod rom_only;
pub mod rtc;

pub use bank::BankMode;
pub use bank::MemoryBank;
pub use factory::load_cartridge_from_file;
pub use factory::AnyCartridge;
pub use factory::CartridgeFactory;
pub use mbc1::MBC1;
pub use mbc2::MBC2;
pub use mbc3::MBC3;
pub use meta::CartridgeMeta;
pub use meta::CartridgePlatform;
pub use meta::CartridgeRegion;
pub use meta::CartridgeType;
pub use meta::MetaView;
pub use rom_only::RomOnly;
pub use rtc::RealTimeClock;

use crate::gameboy::mmu::IOHandler;

verus! {

/// A cartridge: a device on the bus that carries a header.
pub trait Cartridge: IOHandler {
    /// What the header of the cartridge says.
    spec fn spec_meta(&self) -> MetaView;

    /// Returns the header of the cartridge.
    fn get_meta(&self) -> (r: CartridgeMeta)
        ensures
            r@ == self.spec_meta(),
    ;
}

} // verus!
