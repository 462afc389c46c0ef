use ngc224::gameboy::cartridge::bank::BankMode;
use ngc224::gameboy::cartridge::factory::zeroed;
use ngc224::gameboy::cartridge::load_cartridge_from_file;
use ngc224::gameboy::cartridge::meta::hex_digit;
use ngc224::gameboy::cartridge::meta::licensee_name;
use ngc224::gameboy::cartridge::rtc::seconds_of;
use ngc224::gameboy::cartridge::rtc::unix_now;
use ngc224::gameboy::cartridge::AnyCartridge;
use ngc224::gameboy::cartridge::Cartridge;
use ngc224::gameboy::cartridge::CartridgeFactory;
use ngc224::gameboy::cartridge::CartridgeMeta;
use ngc224::gameboy::cartridge::CartridgePlatform;
use ngc224::gameboy::cartridge::CartridgeRegion;
use ngc224::gameboy::cartridge::CartridgeType;
use ngc224::gameboy::cartridge::MemoryBank;
use ngc224::gameboy::cartridge::RealTimeClock;
use ngc224::gameboy::cartridge::MBC1;
use ngc224::gameboy::cartridge::MBC2;
use ngc224::gameboy::cartridge::MBC3;
use ngc224::gameboy::IOHandler;

/// A ROM image of `banks` banks of 16 KiB. Each byte of a bank holds the
/// number of the bank, but for the header.
fn rom(kind: u8, rom_size: u8, ram_size: u8, banks: usize) -> Vec<u8> {
    let mut data = vec![0u8; banks * 0x4000];
    for bank in 0..banks {
        for i in 0..0x4000 {
            data[bank * 0x4000 + i] = bank as u8;
        }
    }
    for i in 0x100..0x150 {
        data[i] = 0;
    }
    for (i, c) in "TETRIS".bytes().enumerate() {
        data[0x134 + i] = c;
    }
    data[0x147] = kind;
    data[0x148] = rom_size;
    data[0x149] = ram_size;
    data[0x14a] = 0x01;
    data[0x14b] = 0x01;
    data
}

fn mbc1(ram: usize) -> MBC1 {
    let data = rom(0x03, 0x06, 0x03, 128);
    MBC1::new(CartridgeMeta::new(&data), data, vec![0; ram])
}

#[test]
fn test_meta_of_a_header() {
    let mut data = rom(0x13, 0x02, 0x03, 8);
    data[0x146] = 0x03;
    let meta = CartridgeMeta::new(&data);
    assert_eq!(meta.get_title(), "TETRIS");
    assert_eq!(meta.get_rom_size(), 128 * 1024);
    assert_eq!(meta.get_ram_size(), 32 * 1024);
    assert_eq!(meta.get_type(), CartridgeType::ROM_MBC3_RAM_BATT);
    assert_eq!(meta.get_region(), CartridgeRegion::NON_JP);
    assert_eq!(meta.get_platform(), CartridgePlatform::SGB);
    assert!(meta.support_sgb());
    assert_eq!(meta.get_licensee(), "01");
    let copy = meta.duplicate();
    assert_eq!(copy.get_title(), "TETRIS");
}

#[test]
fn test_meta_title_ends_at_zero_or_after_15_bytes() {
    let mut data = rom(0x00, 0x00, 0x00, 2);
    for i in 0..16 {
        data[0x134 + i] = b'A' + i as u8;
    }
    assert_eq!(CartridgeMeta::parse_title(&data), "ABCDEFGHIJKLMNO");
    data[0x134] = 0;
    assert_eq!(CartridgeMeta::parse_title(&data), "");
    data[0x134] = b'X';
    data[0x135] = 0;
    assert_eq!(CartridgeMeta::parse_title(&data), "X");
}

#[test]
fn test_meta_platform_and_region() {
    let mut data = rom(0x00, 0x00, 0x00, 2);
    data[0x14a] = 0x00;
    assert_eq!(CartridgeMeta::parse_region(&data), CartridgeRegion::JP);
    assert_eq!(CartridgeMeta::parse_platform(&data), CartridgePlatform::GB);
    data[0x143] = 0x80;
    assert_eq!(CartridgeMeta::parse_platform(&data), CartridgePlatform::GBC);
    data[0x143] = 0xc0;
    assert_eq!(CartridgeMeta::parse_platform(&data), CartridgePlatform::GBC_ONLY);
    data[0x146] = 0x03;
    assert_eq!(CartridgeMeta::parse_platform(&data), CartridgePlatform::SGB);
    assert!(CartridgeMeta::parse_sgb_flag(&data));
    data[0x146] = 0x00;
    assert!(!CartridgeMeta::parse_sgb_flag(&data));
}

#[test]
fn test_meta_sizes() {
    let rom_sizes = [
        (0x00u8, 32usize),
        (0x01, 64),
        (0x02, 128),
        (0x03, 256),
        (0x04, 512),
        (0x05, 1024),
        (0x06, 2048),
        (0x07, 4096),
        (0x08, 8192),
        (0x52, 1152),
        (0x53, 1280),
        (0x54, 1536),
    ];
    for (b, kib) in rom_sizes {
        assert_eq!(CartridgeMeta::rom_size_of(b), Some(kib * 1024));
    }
    assert_eq!(CartridgeMeta::rom_size_of(0x09), None);
    assert_eq!(CartridgeMeta::rom_size_of(0x51), None);
    let ram_sizes = [(0u8, 0usize), (1, 2), (2, 8), (3, 32), (4, 128), (5, 64)];
    for (b, kib) in ram_sizes {
        assert_eq!(CartridgeMeta::ram_size_of(b), Some(kib * 1024));
    }
    assert_eq!(CartridgeMeta::ram_size_of(6), None);
}

#[test]
fn test_meta_types() {
    assert_eq!(CartridgeMeta::type_of(0x00), Some(CartridgeType::ROM_ONLY));
    assert_eq!(CartridgeMeta::type_of(0x01), Some(CartridgeType::ROM_MBC1));
    assert_eq!(CartridgeMeta::type_of(0x06), Some(CartridgeType::ROM_MBC2_BATT));
    assert_eq!(CartridgeMeta::type_of(0x0f), Some(CartridgeType::ROM_MBC3_TIMER_BATT));
    assert_eq!(CartridgeMeta::type_of(0x1e), Some(CartridgeType::ROM_MBC5_RUMBLE_RAM_BATT));
    assert_eq!(CartridgeMeta::type_of(0xff), Some(CartridgeType::ROM_HUC1));
    assert_eq!(CartridgeMeta::type_of(0x04), None);
    assert_eq!(CartridgeMeta::type_of(0x07), None);
    assert_eq!(CartridgeMeta::type_of(0x20), None);
}

#[test]
fn test_meta_licensee() {
    let mut data = rom(0x00, 0x00, 0x00, 2);
    data[0x14b] = 0x33;
    data[0x144] = b'0';
    data[0x145] = b'1';
    assert_eq!(CartridgeMeta::parse_licensee(&data), "Nintendo R&D1");
    data[0x144] = b'A';
    data[0x145] = b'4';
    assert_eq!(CartridgeMeta::parse_licensee(&data), "Konami(Yu-Gi-Oh!)");
    data[0x144] = b'Z';
    data[0x145] = b'Z';
    assert_eq!(CartridgeMeta::parse_licensee(&data), "unknown licensee code ZZ");
    data[0x14b] = 0xa7;
    assert_eq!(CartridgeMeta::parse_licensee(&data), "a7");
    data[0x14b] = 0x05;
    assert_eq!(CartridgeMeta::parse_licensee(&data), "05");
    assert_eq!(licensee_name(b'7', b'8'), Some("THQ"));
    assert_eq!(licensee_name(b'0', b'2'), None);
    assert_eq!(hex_digit(0), '0');
    assert_eq!(hex_digit(9), '9');
    assert_eq!(hex_digit(10), 'a');
    assert_eq!(hex_digit(15), 'f');
}

#[test]
fn test_header_checks() {
    assert!(CartridgeMeta::header_ok(&rom(0x00, 0x00, 0x00, 2)));
    assert!(!CartridgeMeta::header_ok(&vec![0u8; 0x14f]));
    assert!(!CartridgeMeta::header_ok(&rom(0x04, 0x00, 0x00, 2)));
    assert!(!CartridgeMeta::header_ok(&rom(0x00, 0x09, 0x00, 2)));
    assert!(!CartridgeMeta::header_ok(&rom(0x00, 0x00, 0x06, 2)));
    assert!(CartridgeFactory::can_build(&rom(0x13, 0x00, 0x02, 2)));
    assert!(!CartridgeFactory::can_build(&rom(0x19, 0x00, 0x00, 2)));
    assert!(!CartridgeFactory::can_build(&rom(0xfc, 0x00, 0x00, 2)));
    assert!(!CartridgeFactory::can_build(&vec![]));
}

#[test]
fn test_rom_only_reads_and_drops_writes() {
    let data = rom(0x00, 0x00, 0x00, 2);
    let mut cart = load_cartridge_from_file(data, None, None);
    assert!(matches!(cart, AnyCartridge::RomOnly(_)));
    assert_eq!(cart.read_byte(0x0000), 0);
    assert_eq!(cart.read_byte(0x0147), 0);
    assert_eq!(cart.read_byte(0x4000), 1);
    assert_eq!(cart.read_byte(0x7fff), 1);
    cart.write_byte(0x4000, 0x55);
    cart.write_byte(0x2000, 0x00);
    assert_eq!(cart.read_byte(0x4000), 1);
    assert_eq!(cart.read_byte(0xa000), 0);
    assert_eq!(cart.get_meta().get_title(), "TETRIS");
    assert!(cart.battery_ram().is_none());
    assert!(cart.clock_epoch().is_none());
}

#[test]
fn test_mbc1_ram_is_gated_by_the_enable_latch() {
    let mut cart = mbc1(0x8000);
    cart.write_byte(0x0000, 0x0a);
    cart.write_byte(0xa000, 0x42);
    assert_eq!(cart.read_byte(0xa000), 0x42);
    let mut cart = mbc1(0x8000);
    cart.write_byte(0x0000, 0x00);
    cart.write_byte(0xa000, 0x42);
    assert_eq!(cart.read_byte(0xa000), 0x00);
    cart.write_byte(0x0000, 0x0a);
    assert_eq!(cart.read_byte(0xa000), 0x00);
    cart.write_byte(0xa000, 0x42);
    cart.write_byte(0x1fff, 0x1b);
    assert_eq!(cart.read_byte(0xa000), 0x00);
    cart.write_byte(0x1fff, 0xfa);
    assert_eq!(cart.read_byte(0xa000), 0x42);
}

#[test]
fn test_mbc1_zero_bank_is_promoted() {
    let mut cart = mbc1(0);
    cart.write_byte(0x2100, 0x00);
    assert_eq!(cart.bank_reg, 1);
    assert_eq!(cart.get_rom_bank_num(), 1);
    for v in 0..=255u8 {
        cart.write_byte(0x2000, v);
        assert_ne!(cart.get_rom_bank_num(), 0);
        cart.write_byte(0x3fff, v);
        assert_ne!(cart.bank_reg & 0x1f, 0);
    }
    cart.write_byte(0x4000, 0x01);
    cart.write_byte(0x2000, 0x20);
    assert_eq!(cart.get_rom_bank_num(), 0x21);
    cart.write_byte(0x6000, 0x01);
    cart.write_byte(0x2000, 0xe0);
    assert_eq!(cart.get_rom_bank_num(), 0x01);
}

#[test]
fn test_mbc1_banking() {
    let mut cart = mbc1(0x8000);
    assert_eq!(cart.read_byte(0x0000), 0);
    assert_eq!(cart.read_byte(0x4000), 1);
    cart.write_byte(0x2000, 0x05);
    assert_eq!(cart.read_byte(0x4000), 5);
    assert_eq!(cart.read_byte(0x7fff), 5);
    cart.write_byte(0x4000, 0x03);
    assert_eq!(cart.get_rom_bank_num(), 0x65);
    assert_eq!(cart.get_ram_bank_num(), 0);
    assert_eq!(cart.read_byte(0x4000), 0x65);
    cart.write_byte(0x6000, 0x01);
    assert!(matches!(cart.bank_mode, BankMode::Ram));
    assert_eq!(cart.get_rom_bank_num(), 0x05);
    assert_eq!(cart.get_ram_bank_num(), 3);
    cart.write_byte(0x0000, 0x0a);
    cart.write_byte(0xbfff, 0x99);
    assert_eq!(cart.ram[0x7fff], 0x99);
    assert_eq!(cart.read_byte(0xbfff), 0x99);
    cart.write_byte(0x6000, 0x00);
    assert!(matches!(cart.bank_mode, BankMode::Rom));
    assert_eq!(cart.read_byte(0xbfff), 0x00);
    cart.write_byte(0x6000, 0x01);
    cart.write_byte(0x6000, 0x07);
    assert!(matches!(cart.bank_mode, BankMode::Rom));
    // A bank behind the end of the image reads as zero.
    cart.write_byte(0x4000, 0x03);
    cart.write_byte(0x2000, 0x1f);
    let mut small = MBC1::new(cart.get_meta(), vec![7u8; 0x8000], vec![]);
    small.write_byte(0x2000, 0x02);
    assert_eq!(small.read_byte(0x4000), 0);
    small.write_byte(0x0000, 0x0a);
    small.write_byte(0xa000, 0x11);
    assert_eq!(small.read_byte(0xa000), 0);
    assert_eq!(small.read_byte(0x8000), 0);
}

#[test]
fn test_mbc2() {
    let data = rom(0x06, 0x02, 0x00, 8);
    let mut cart = MBC2::new(CartridgeMeta::new(&data), data, vec![0; 512]);
    assert_eq!(cart.read_byte(0x4000), 1);
    // Bit 8 of the address clear: RAM enable. Set: ROM bank.
    cart.write_byte(0x2000, 0x03);
    assert_eq!(cart.get_rom_bank_num(), 1);
    cart.write_byte(0x2100, 0x13);
    assert_eq!(cart.get_rom_bank_num(), 3);
    assert_eq!(cart.read_byte(0x4000), 3);
    cart.write_byte(0xa000, 0xff);
    assert_eq!(cart.read_byte(0xa000), 0x00);
    cart.write_byte(0x0100, 0x0a);
    cart.write_byte(0xa000, 0xff);
    assert_eq!(cart.read_byte(0xa000), 0x00);
    cart.write_byte(0x0000, 0x0a);
    cart.write_byte(0xa000, 0xff);
    assert_eq!(cart.read_byte(0xa000), 0x0f);
    cart.write_byte(0xa1ff, 0x35);
    assert_eq!(cart.read_byte(0xa1ff), 0x05);
    cart.write_byte(0xa200, 0x35);
    assert_eq!(cart.read_byte(0xa200), 0x00);
    assert_eq!(cart.get_ram_bank_num(), 0);
    cart.write_byte(0x0000, 0x00);
    assert_eq!(cart.read_byte(0xa000), 0x00);
    assert_eq!(cart.ram.len(), 512);
}

#[test]
fn test_mbc3_banking() {
    let data = rom(0x13, 0x06, 0x03, 128);
    let mut cart = MBC3::new(CartridgeMeta::new(&data), data, vec![0; 0x8000], RealTimeClock::starting_at(0));
    assert_eq!(cart.read_byte(0x4000), 1);
    cart.write_byte(0x2000, 0x00);
    assert_eq!(cart.get_rom_bank_num(), 1);
    cart.write_byte(0x2000, 0x20);
    assert_eq!(cart.read_byte(0x4000), 0x20);
    cart.write_byte(0x2000, 0xff);
    assert_eq!(cart.get_rom_bank_num(), 0x7f);
    cart.write_byte(0x4000, 0x02);
    cart.write_byte(0xa000, 0x12);
    assert_eq!(cart.read_byte(0xa000), 0x00);
    cart.write_byte(0x0000, 0x0a);
    cart.write_byte(0xa000, 0x12);
    assert_eq!(cart.read_byte(0xa000), 0x12);
    assert_eq!(cart.ram[0x4000], 0x12);
    cart.write_via_ram_bank(0xa001, 0x13);
    assert_eq!(cart.read_via_ram_bank(0xa001), 0x13);
    assert_eq!(cart.read_via_rom_bank(0x4001), 0x7f);
    cart.write_byte(0x4000, 0x00);
    assert_eq!(cart.read_byte(0xa000), 0x00);
    // A selector that maps nothing.
    cart.write_byte(0x4000, 0x05);
    cart.write_byte(0xa000, 0x77);
    assert_eq!(cart.read_byte(0xa000), 0x00);
}

#[test]
fn test_mbc3_clock_registers_and_latch() {
    let data = rom(0x10, 0x06, 0x03, 128);
    let mut cart = MBC3::new(CartridgeMeta::new(&data), data, vec![0; 0x8000], RealTimeClock::starting_at(0));
    cart.write_byte(0x0000, 0x0a);
    cart.write_byte(0x4000, 0x08);
    cart.write_byte(0xa000, 59);
    assert_eq!(cart.read_byte(0xa000), 59);
    assert_eq!(cart.rtc.s, 59);
    cart.write_byte(0x4000, 0x0c);
    cart.write_byte(0xbfff, 0x40);
    assert_eq!(cart.rtc.dh, 0x40);
    assert_eq!(cart.ram.iter().filter(|b| **b != 0).count(), 0);
    // The latch: 0 opens it, 1 sets the registers to the time and closes it.
    assert!(!cart.rtc.is_locked());
    cart.write_byte(0x6000, 0x01);
    assert!(cart.rtc.is_locked());
    // The clock started in 1970: more than 511 days have gone.
    assert_eq!(cart.rtc.dh, 0xc1);
    assert!(cart.rtc.s < 60 && cart.rtc.m < 60 && cart.rtc.h < 24);
    cart.rtc.s = 61;
    cart.write_byte(0x6000, 0x01);
    assert_eq!(cart.rtc.s, 61);
    cart.write_byte(0x6000, 0x02);
    assert!(cart.rtc.is_locked());
    cart.write_byte(0x6000, 0x00);
    assert!(!cart.rtc.is_locked());
    assert_eq!(cart.rtc.s, 61);
    cart.write_byte(0x7fff, 0x01);
    assert!(cart.rtc.s < 60);
}

#[test]
fn test_rtc_tick_at() {
    let mut rtc = RealTimeClock::starting_at(1_000);
    rtc.tick_at(1_000 + 3 * 86_400 + 4 * 3_600 + 5 * 60 + 6);
    assert_eq!((rtc.s, rtc.m, rtc.h, rtc.dl, rtc.dh), (6, 5, 4, 3, 0));
    rtc.tick_at(1_000 + 255 * 86_400 + 86_399);
    assert_eq!((rtc.s, rtc.m, rtc.h, rtc.dl, rtc.dh), (59, 59, 23, 255, 0));
    rtc.tick_at(1_000 + 256 * 86_400);
    assert_eq!((rtc.s, rtc.m, rtc.h, rtc.dl, rtc.dh), (0, 0, 0, 0, 0x01));
    rtc.tick_at(1_000 + 511 * 86_400);
    assert_eq!((rtc.dl, rtc.dh), (255, 0x01));
    rtc.tick_at(1_000 + 512 * 86_400);
    assert_eq!((rtc.dl, rtc.dh), (0, 0x81));
    rtc.tick_at(1_000);
    assert_eq!((rtc.s, rtc.m, rtc.h, rtc.dl, rtc.dh), (0, 0, 0, 0, 0x81));
    let mut rtc = RealTimeClock::starting_at(1_000);
    rtc.set(0x0c, 0x40);
    rtc.tick_at(1_000 + 300 * 86_400);
    assert_eq!((rtc.dl, rtc.dh), (44, 0x41));
    assert_eq!(rtc.get(0x08), 0);
    assert_eq!(rtc.get(0x0b), 44);
    rtc.set(0x09, 7);
    rtc.set(0x0a, 8);
    rtc.set(0x0b, 9);
    rtc.set(0x08, 10);
    assert_eq!((rtc.get(0x08), rtc.get(0x09), rtc.get(0x0a), rtc.get(0x0b), rtc.get(0x0c)), (10, 7, 8, 9, 0x41));
}

#[test]
fn test_rtc_tick_reads_the_system_clock() {
    let mut rtc = RealTimeClock::new(Some(0));
    assert_eq!(rtc.zero, 0);
    rtc.tick();
    assert_eq!(rtc.dh, 0x81);
    let fresh = RealTimeClock::new(None);
    assert!(fresh.zero > 1_600_000_000);
    assert_eq!((fresh.s, fresh.m, fresh.h, fresh.dl, fresh.dh), (0, 0, 0, 0, 0));
    let mut ahead = RealTimeClock::starting_at(u64::MAX);
    ahead.set(0x08, 33);
    ahead.tick();
    assert_eq!(ahead.s, 33);
    ahead.lock();
    assert!(ahead.is_locked());
    ahead.unlock();
    assert!(!ahead.is_locked());
}

#[test]
fn test_rtc_epoch_bytes() {
    let rtc = RealTimeClock::starting_at(0x0102_0304_0506_0708);
    assert_eq!(rtc.epoch_bytes(), vec![1, 2, 3, 4, 5, 6, 7, 8]);
    assert_eq!(RealTimeClock::epoch_from_bytes(&vec![1, 2, 3, 4, 5, 6, 7, 8]), Some(0x0102_0304_0506_0708));
    assert_eq!(RealTimeClock::epoch_from_bytes(&vec![0xff; 8]), Some(u64::MAX));
    assert_eq!(RealTimeClock::epoch_from_bytes(&vec![0; 8]), Some(0));
    assert_eq!(RealTimeClock::epoch_from_bytes(&vec![0; 7]), None);
    assert_eq!(RealTimeClock::epoch_from_bytes(&vec![0; 9]), None);
    assert_eq!(RealTimeClock::starting_at(1_700_000_000).epoch_bytes(), 1_700_000_000u64.to_be_bytes().to_vec());
}

#[test]
fn test_factory_builds_each_kind() {
    let kinds: [(u8, usize, bool, bool); 11] = [
        (0x00, 0, false, false),
        (0x01, 0, false, false),
        (0x02, 8192, false, false),
        (0x03, 8192, true, false),
        (0x05, 512, false, false),
        (0x06, 512, true, false),
        (0x0f, 0, true, true),
        (0x10, 8192, true, true),
        (0x11, 0, false, false),
        (0x12, 8192, false, false),
        (0x13, 8192, true, false),
    ];
    for (kind, ram, battery, timer) in kinds {
        let cart = CartridgeFactory::new_catridge(rom(kind, 0x00, 0x02, 2), None, Some(77));
        let expected = match kind {
            0x00 => 0,
            0x01..=0x03 => 1,
            0x05..=0x06 => 2,
            _ => 3,
        };
        let (got, len) = match &cart {
            AnyCartridge::RomOnly(_) => (0, 0),
            AnyCartridge::Mbc1(c) => (1, c.ram.len()),
            AnyCartridge::Mbc2(c) => (2, c.ram.len()),
            AnyCartridge::Mbc3(c) => (3, c.ram.len()),
        };
        assert_eq!(got, expected);
        assert_eq!(len, ram);
        assert_eq!(cart.battery_ram().is_some(), battery);
        if battery {
            assert_eq!(cart.battery_ram().unwrap().len(), ram);
        }
        assert_eq!(cart.clock_epoch().is_some(), timer);
        if timer {
            assert_eq!(cart.clock_epoch().unwrap(), vec![0, 0, 0, 0, 0, 0, 0, 77]);
        }
        assert_eq!(cart.read_byte(0x4000), 1);
    }
}

#[test]
fn test_factory_restores_saved_ram() {
    let mut saved = vec![0u8; 8192];
    saved[0] = 0x5a;
    saved[8191] = 0xa5;
    let mut cart = CartridgeFactory::new_catridge(rom(0x03, 0x00, 0x02, 2), Some(saved.clone()), None);
    cart.write_byte(0x0000, 0x0a);
    assert_eq!(cart.read_byte(0xa000), 0x5a);
    assert_eq!(cart.read_byte(0xbfff), 0xa5);
    cart.write_byte(0xa001, 0x33);
    saved[1] = 0x33;
    assert_eq!(cart.battery_ram().unwrap(), &saved);
    // A kind without a battery starts with zeros.
    let mut cart = CartridgeFactory::new_catridge(rom(0x02, 0x00, 0x02, 2), Some(saved), None);
    cart.write_byte(0x0000, 0x0a);
    assert_eq!(cart.read_byte(0xa000), 0x00);
    assert!(cart.battery_ram().is_none());
}

#[test]
fn test_battery_ram_keeps_the_declared_size() {
    for (kind, ram_byte, size) in [(0x03u8, 0x03u8, 32768usize), (0x06, 0x00, 512), (0x13, 0x02, 8192), (0x10, 0x03, 32768)] {
        let mut cart = CartridgeFactory::new_catridge(rom(kind, 0x00, ram_byte, 2), None, None);
        assert_eq!(cart.battery_ram().unwrap().len(), size);
        cart.write_byte(0x0000, 0x0a);
        for a in [0x0000u16, 0x2000, 0x4000, 0x6000, 0xa000, 0xa1ff, 0xbfff, 0xc000, 0xffff] {
            for v in [0x00u8, 0x01, 0x0a, 0x1f, 0xff] {
                cart.write_byte(a, v);
                assert_eq!(cart.battery_ram().unwrap().len(), size);
            }
        }
    }
}

#[test]
fn test_zeroed() {
    assert_eq!(zeroed(0), Vec::<u8>::new());
    assert_eq!(zeroed(3), vec![0, 0, 0]);
}

#[test]
fn test_rtc_tick_from_a_reading() {
    let mut rtc = RealTimeClock::starting_at(1_000);
    rtc.set(0x08, 33);
    rtc.tick_from(None);
    assert_eq!((rtc.s, rtc.m, rtc.h, rtc.dl, rtc.dh), (33, 0, 0, 0, 0));
    rtc.tick_from(Some(999));
    assert_eq!((rtc.s, rtc.m, rtc.h, rtc.dl, rtc.dh), (33, 0, 0, 0, 0));
    rtc.tick_from(Some(1_000));
    assert_eq!((rtc.s, rtc.m, rtc.h, rtc.dl, rtc.dh), (0, 0, 0, 0, 0));
    rtc.tick_from(Some(1_000 + 2 * 86_400 + 3 * 3_600 + 4 * 60 + 5));
    assert_eq!((rtc.s, rtc.m, rtc.h, rtc.dl, rtc.dh), (5, 4, 3, 2, 0));
    rtc.lock();
    rtc.tick_from(Some(1_000 + 600 * 86_400 + 61));
    assert_eq!((rtc.s, rtc.m, rtc.h, rtc.dl, rtc.dh), (1, 1, 0, 88, 0x81));
    assert!(rtc.is_locked());
    assert_eq!(rtc.zero, 1_000);
}

#[test]
fn test_seconds_of_a_reading() {
    assert_eq!(seconds_of(Ok(std::time::Duration::from_secs(90))), Some(90));
    assert_eq!(seconds_of(Ok(std::time::Duration::from_millis(1_999))), Some(1));
    assert_eq!(seconds_of(Ok(std::time::Duration::from_secs(0))), Some(0));
    let later = std::time::SystemTime::UNIX_EPOCH + std::time::Duration::from_secs(10);
    assert_eq!(seconds_of(std::time::SystemTime::UNIX_EPOCH.duration_since(later)), None);
    assert_eq!(seconds_of(later.duration_since(std::time::SystemTime::UNIX_EPOCH)), Some(10));
    assert!(unix_now().unwrap() > 1_600_000_000);
}
