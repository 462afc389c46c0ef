use ngc224::gameboy::cartridge::load_cartridge_from_file;
use ngc224::gameboy::cartridge::AnyCartridge;
use ngc224::gameboy::cpu::IntReg;
use ngc224::gameboy::debug::insert_cpu_record;
use ngc224::gameboy::debug::CPUDebugInfo;
use ngc224::gameboy::emulator::term_of;
use ngc224::gameboy::cartridge::CartridgePlatform;
use ngc224::gameboy::graphics::gpu::GPU;
use ngc224::gameboy::graphics::lcd::LCDMode;
use ngc224::gameboy::joypad::Joypad;
use ngc224::gameboy::joypad::JoypadKey;
use ngc224::gameboy::mmu::Mmunit;
use ngc224::gameboy::timer::Timer;
use ngc224::gameboy::Config;
use ngc224::gameboy::Emulator;
use ngc224::gameboy::IOHandler;
use ngc224::gameboy::Register;
use ngc224::gameboy::Term;
use ngc224::gameboy::CLOCK_FREQUENCY;
use ngc224::gameboy::SCREEN_H;
use ngc224::gameboy::SCREEN_W;
use ngc224::gameboy::STEP_CYCLES;
use ngc224::gameboy::STEP_TIME;
use std::collections::VecDeque;

fn rom(kind: u8, ram_size: u8) -> Vec<u8> {
    let mut data = vec![0u8; 0x8000];
    data[0x147] = kind;
    data[0x149] = ram_size;
    data
}

fn cart(kind: u8, ram_size: u8) -> AnyCartridge {
    load_cartridge_from_file(rom(kind, ram_size), None, None)
}

fn mmu() -> Mmunit {
    Mmunit::new(cart(0x03, 0x03), GPU::new(), Joypad::new(), Timer::new(), IntReg::new())
}

fn gpu() -> (GPU, IntReg) {
    let mut gpu = GPU::new();
    gpu.write_byte(0xff40, 0x91);
    gpu.write_byte(0xff47, 0b1110_0100);
    (gpu, IntReg::new())
}

fn pixel(gpu: &GPU, x: usize, y: usize) -> [u8; 3] {
    let data = gpu.get_data();
    let i = (y * SCREEN_W + x) * 3;
    [data[i], data[i + 1], data[i + 2]]
}

#[test]
fn test_constants() {
    assert_eq!(SCREEN_W, 160);
    assert_eq!(SCREEN_H, 144);
    assert_eq!(CLOCK_FREQUENCY, 4_194_304);
    assert_eq!(STEP_TIME, 16);
    assert_eq!(STEP_CYCLES as u64, STEP_TIME as u64 * CLOCK_FREQUENCY as u64 / 1000);
    assert_eq!(term_of(CartridgePlatform::GB), Term::GB);
    assert_eq!(term_of(CartridgePlatform::GBC), Term::GBC);
    assert_eq!(term_of(CartridgePlatform::GBC_ONLY), Term::GBC);
    assert_eq!(term_of(CartridgePlatform::SGB), Term::SGB);
    assert_eq!(Config::new("a.gb".to_string()).get_file_path(), "a.gb");
}

#[test]
fn test_one_frame_in_70000_cycles() {
    let mut emulator = Emulator::new(cart(0x00, 0x00), false);
    assert!(!emulator.frame_ready());
    let mut cycles = 0;
    let mut frames = 0;
    while cycles < 70_000 {
        cycles += emulator.next();
        if emulator.frame_ready() {
            frames += 1;
            let frame = emulator.take_frame();
            assert_eq!(frame.len(), 160 * 144 * 3);
            assert!(!emulator.frame_ready());
        }
    }
    assert_eq!(frames, 1);
    assert_eq!(emulator.cpu.data_bus.read_byte(0xff0f) & 0x01, 0x01);
}

#[test]
fn test_frame_is_ready_at_line_144() {
    let (mut gpu, mut intf) = gpu();
    gpu.next(144 * 456 - 1, &mut intf);
    assert!(!gpu.should_updated());
    assert_eq!(gpu.get_ly(), 143);
    assert_eq!(intf.data & 0x01, 0);
    gpu.next(1, &mut intf);
    assert!(gpu.should_updated());
    assert_eq!(gpu.get_ly(), 144);
    assert_eq!(gpu.get_mode(), LCDMode::VBlank);
    assert_eq!(intf.data & 0x01, 0x01);
    gpu.reset_updated();
    intf.data = 0;
    gpu.next(10 * 456 - 1, &mut intf);
    assert_eq!(gpu.get_ly(), 153);
    assert_eq!(gpu.get_mode(), LCDMode::VBlank);
    assert!(!gpu.should_updated());
    assert_eq!(intf.data & 0x01, 0);
    gpu.next(1, &mut intf);
    assert_eq!(gpu.get_ly(), 0);
    assert_eq!(gpu.get_mode(), LCDMode::OAM);
}

#[test]
fn test_modes_within_a_scanline() {
    let (mut gpu, mut intf) = gpu();
    gpu.next(1, &mut intf);
    assert_eq!(gpu.get_mode(), LCDMode::OAM);
    gpu.next(78, &mut intf);
    assert_eq!(gpu.get_mode(), LCDMode::OAM);
    gpu.next(1, &mut intf);
    assert_eq!(gpu.get_mode(), LCDMode::VRAM);
    gpu.next(171, &mut intf);
    assert_eq!(gpu.get_mode(), LCDMode::VRAM);
    gpu.next(1, &mut intf);
    assert_eq!(gpu.get_mode(), LCDMode::HBlank);
    assert_eq!(gpu.read_byte(0xff41) & 0x03, 0);
    gpu.next(203, &mut intf);
    assert_eq!(gpu.get_mode(), LCDMode::HBlank);
    assert_eq!(gpu.get_ly(), 0);
    gpu.next(1, &mut intf);
    assert_eq!(gpu.get_mode(), LCDMode::OAM);
    assert_eq!(gpu.get_ly(), 1);
    assert_eq!(gpu.read_byte(0xff44), 1);
    assert_eq!(intf.data, 0);
}

#[test]
fn test_counters_stay_in_range() {
    let (mut gpu, mut intf) = gpu();
    let mut seen_153 = false;
    for step in 0..20_000u32 {
        gpu.next(1 + step % 97, &mut intf);
        assert!(gpu.get_ly() < 154);
        seen_153 = seen_153 || gpu.get_ly() == 153;
    }
    assert!(seen_153);
}

#[test]
fn test_lcd_off_requests_nothing() {
    let mut gpu = GPU::new();
    let mut intf = IntReg::new();
    gpu.write_byte(0xff41, 0x78);
    gpu.write_byte(0xff45, 0x00);
    assert_eq!(gpu.read_byte(0xff40) & 0x80, 0);
    for _ in 0..400 {
        gpu.next(456, &mut intf);
        assert_eq!(intf.data, 0);
        assert_eq!(gpu.get_ly(), 0);
        assert!(!gpu.should_updated());
    }
    let mut unit = mmu();
    unit.write_byte(0xff40, 0x11);
    unit.gpu.reset_updated();
    unit.write_byte(0xff41, 0x78);
    for _ in 0..400 {
        unit.next(456);
        assert_eq!(unit.read_byte(0xff0f) & 0x03, 0);
    }
    assert!(!unit.gpu.should_updated());
}

#[test]
fn test_switching_the_lcd_off() {
    let (mut gpu, mut intf) = gpu();
    gpu.write_byte(0x8000, 0xff);
    gpu.write_byte(0x8001, 0xff);
    gpu.next(456 * 3 + 100, &mut intf);
    assert_eq!(pixel(&gpu, 0, 0), [0x00, 0x00, 0x00]);
    assert_eq!(gpu.get_ly(), 3);
    gpu.write_byte(0xff40, 0x11);
    assert_eq!(gpu.get_ly(), 0);
    assert_eq!(gpu.get_mode(), LCDMode::HBlank);
    assert!(gpu.should_updated());
    assert_eq!(pixel(&gpu, 0, 0), [0xff, 0xff, 0xff]);
    assert!(gpu.get_data().iter().all(|b| *b == 0xff));
    // Off stays off: another such write changes nothing.
    gpu.reset_updated();
    gpu.write_byte(0xff40, 0x01);
    assert!(!gpu.should_updated());
}

#[test]
fn test_stat_interrupts() {
    let (mut gpu, mut intf) = gpu();
    gpu.write_byte(0xff41, 0x08);
    // After a write bit 5 is set whatever was written.
    assert_eq!(gpu.read_byte(0xff41) & 0x78, 0x28);
    gpu.next(1, &mut intf);
    assert_eq!(intf.data, 0b10);
    intf.data = 0;
    gpu.next(250, &mut intf);
    assert_eq!(intf.data, 0);
    gpu.next(1, &mut intf);
    assert_eq!(gpu.get_mode(), LCDMode::HBlank);
    assert_eq!(intf.data, 0b10);
    let (mut gpu, mut intf) = gpu_with_stat(0x40, 2);
    gpu.next(456, &mut intf);
    assert_eq!(intf.data & 0b10, 0b10);
    intf.data = 0;
    gpu.next(455, &mut intf);
    assert_eq!(intf.data, 0);
    gpu.next(1, &mut intf);
    assert_eq!(gpu.get_ly(), 2);
    assert_eq!(intf.data, 0b10);
    let (mut gpu, mut intf) = gpu_with_stat(0x10, 0);
    gpu.next(144 * 456, &mut intf);
    assert_eq!(intf.data & 0b11, 0b11);
}

fn gpu_with_stat(stat: u8, lyc: u8) -> (GPU, IntReg) {
    let (mut gpu, intf) = gpu();
    gpu.write_byte(0xff41, stat);
    gpu.write_byte(0xff45, lyc);
    assert_eq!(gpu.read_byte(0xff45), lyc);
    (gpu, intf)
}

#[test]
fn test_background_scanline() {
    let (mut gpu, mut intf) = gpu();
    // Tile 1: its first line has the colours 0 1 2 3 3 2 1 0.
    gpu.write_byte(0x8010, 0b0101_1010);
    gpu.write_byte(0x8011, 0b0011_1100);
    gpu.write_byte(0x9800, 1);
    gpu.write_byte(0x9801, 0);
    gpu.next(252, &mut intf);
    let shades: Vec<u8> = (0..10).map(|x| pixel(&gpu, x, 0)[0]).collect();
    assert_eq!(shades, vec![0xff, 0xc0, 0x60, 0x00, 0x00, 0x60, 0xc0, 0xff, 0xff, 0xff]);
    assert_eq!(pixel(&gpu, 1, 0), [0xc0, 0xc0, 0xc0]);
    assert_eq!(pixel(&gpu, 1, 1), [0xff, 0xff, 0xff]);
    // Scroll by three pixels.
    gpu.write_byte(0xff43, 3);
    assert_eq!(gpu.read_byte(0xff43), 3);
    gpu.next(456 * 8, &mut intf);
    assert_eq!(gpu.get_ly(), 8);
    let shades: Vec<u8> = (0..6).map(|x| pixel(&gpu, x, 8)[0]).collect();
    assert_eq!(shades, vec![0xff, 0xff, 0xff, 0xff, 0xff, 0xff]);
    gpu.write_byte(0xff42, 248);
    gpu.next(456, &mut intf);
    let shades: Vec<u8> = (0..6).map(|x| pixel(&gpu, x, 9)[0]).collect();
    assert_eq!(shades, vec![0xff, 0xff, 0xff, 0xff, 0xff, 0xff]);
    gpu.write_byte(0xff42, 246);
    assert_eq!(gpu.read_byte(0xff42), 246);
    gpu.next(456, &mut intf);
    let shades: Vec<u8> = (0..6).map(|x| pixel(&gpu, x, 10)[0]).collect();
    assert_eq!(shades, vec![0x00, 0x00, 0x60, 0xc0, 0xff, 0xff]);
}

#[test]
fn test_signed_tile_numbers() {
    let (mut gpu, mut intf) = gpu();
    gpu.write_byte(0xff40, 0x81);
    // Tile -128 is at 0x8800, tile 0 at 0x9000.
    gpu.write_byte(0x8800, 0xff);
    gpu.write_byte(0x9001, 0xff);
    gpu.write_byte(0x9800, 0x80);
    gpu.write_byte(0x9801, 0x00);
    gpu.next(252, &mut intf);
    assert_eq!(pixel(&gpu, 0, 0), [0xc0, 0xc0, 0xc0]);
    assert_eq!(pixel(&gpu, 8, 0), [0x60, 0x60, 0x60]);
}

#[test]
fn test_window_scanline() {
    let (mut gpu, mut intf) = gpu();
    gpu.write_byte(0xff40, 0xf1);
    gpu.write_byte(0xff4a, 0);
    gpu.write_byte(0xff4b, 7 + 80);
    assert_eq!(gpu.read_byte(0xff4a), 0);
    assert_eq!(gpu.read_byte(0xff4b), 87);
    // Tile 2 is black; the window map at 0x9C00 shows it.
    for i in 0..16 {
        gpu.write_byte(0x8020 + i, 0xff);
    }
    gpu.write_byte(0x9c00, 2);
    gpu.next(252, &mut intf);
    assert_eq!(pixel(&gpu, 79, 0), [0xff, 0xff, 0xff]);
    assert_eq!(pixel(&gpu, 80, 0), [0x00, 0x00, 0x00]);
    assert_eq!(pixel(&gpu, 87, 0), [0x00, 0x00, 0x00]);
    assert_eq!(pixel(&gpu, 88, 0), [0xff, 0xff, 0xff]);
}

#[test]
fn test_sprite_scanline() {
    let (mut gpu, mut intf) = gpu();
    gpu.write_byte(0xff40, 0x93);
    gpu.write_byte(0xff48, 0b1110_0100);
    gpu.write_byte(0xff49, 0b0001_1011);
    assert_eq!(gpu.read_byte(0xff48), 0b1110_0100);
    assert_eq!(gpu.read_byte(0xff49), 0b0001_1011);
    // Tile 1, first line: colours 0 1 2 3 3 2 1 1.
    gpu.write_byte(0x8010, 0b0101_1011);
    gpu.write_byte(0x8011, 0b0011_1100);
    // Sprite 0 at x = 16, first palette; sprite 1 at x = 32, flipped, second palette.
    for (i, b) in [16u8, 24, 1, 0x00, 16, 40, 1, 0x30].iter().enumerate() {
        gpu.write_byte(0xfe00 + i as u16, *b);
    }
    assert_eq!(gpu.read_byte(0xfe01), 24);
    gpu.next(252, &mut intf);
    let shades: Vec<u8> = (16..24).map(|x| pixel(&gpu, x, 0)[0]).collect();
    assert_eq!(shades, vec![0xff, 0xc0, 0x60, 0x00, 0x00, 0x60, 0xc0, 0xc0]);
    let shades: Vec<u8> = (32..40).map(|x| pixel(&gpu, x, 0)[0]).collect();
    assert_eq!(shades, vec![0x60, 0x60, 0xc0, 0xff, 0xff, 0xc0, 0x60, 0xff]);
    // The sprites are eight lines high.
    gpu.next(456 * 8, &mut intf);
    assert_eq!(pixel(&gpu, 17, 7)[0], 0xff);
    assert_eq!(pixel(&gpu, 17, 8)[0], 0xff);
}

#[test]
fn test_sprite_behind_background() {
    let (mut gpu, mut intf) = gpu();
    gpu.write_byte(0xff40, 0x93);
    gpu.write_byte(0xff48, 0b1110_0100);
    // Tile 1 is black; tile 2 has colour 1 in its left half.
    for i in 0..16 {
        gpu.write_byte(0x8010 + i, 0xff);
    }
    gpu.write_byte(0x8020, 0xf0);
    gpu.write_byte(0x9800, 2);
    // Sprite 0 behind the background, sprite 1 above it.
    for (i, b) in [16u8, 8, 1, 0x80, 16, 16, 1, 0x00].iter().enumerate() {
        gpu.write_byte(0xfe00 + i as u16, *b);
    }
    gpu.next(252, &mut intf);
    let shades: Vec<u8> = (0..8).map(|x| pixel(&gpu, x, 0)[0]).collect();
    assert_eq!(shades, vec![0xc0, 0xc0, 0xc0, 0xc0, 0x00, 0x00, 0x00, 0x00]);
    assert_eq!(pixel(&gpu, 8, 0)[0], 0x00);
}

#[test]
fn test_write_word_then_read_word() {
    let mut unit = mmu();
    for a in [0x8000u16, 0x9ffe, 0xc000, 0xcfff, 0xd000, 0xdffe, 0xdfff, 0xe000, 0xefff, 0xfdfe, 0xfe00, 0xfe9e, 0xff80, 0xfffd] {
        for v in [0x0000u16, 0x1234, 0xff00, 0x00ff, 0xffff] {
            unit.write_word(a, v);
            assert_eq!(unit.read_word(a), v, "{:04x}", a);
        }
    }
    unit.write_word(0xc000, 0xbeef);
    assert_eq!(unit.read_byte(0xc000), 0xef);
    assert_eq!(unit.read_byte(0xc001), 0xbe);
    // The echo.
    assert_eq!(unit.read_word(0xe000), 0xbeef);
    unit.write_byte(0xe002, 0x77);
    assert_eq!(unit.read_byte(0xc002), 0x77);
    unit.write_byte(0xd005, 0x66);
    assert_eq!(unit.read_byte(0xf005), 0x66);
    // ROM, the unusable range and unmapped registers drop writes.
    unit.write_word(0x0100, 0x1234);
    assert_eq!(unit.read_word(0x0100), 0);
    unit.write_byte(0xfea0, 0x12);
    assert_eq!(unit.read_byte(0xfea0), 0);
    unit.write_byte(0xff10, 0x12);
    assert_eq!(unit.read_byte(0xff10), 0);
    unit.write_byte(0xff4d, 0x12);
    assert_eq!(unit.read_byte(0xff4d), 0);
    unit.write_byte(0xff68, 0x12);
    assert_eq!(unit.read_byte(0xff68), 0);
}

#[test]
fn test_work_ram_banks() {
    let mut unit = mmu();
    assert_eq!(unit.read_byte(0xff70), 1);
    unit.write_byte(0xd000, 0x11);
    unit.write_byte(0xff70, 0x02);
    assert_eq!(unit.read_byte(0xff70), 2);
    assert_eq!(unit.bank(), 2);
    assert_eq!(unit.read_byte(0xd000), 0x00);
    unit.write_byte(0xd000, 0x22);
    unit.write_byte(0xff70, 0x00);
    assert_eq!(unit.read_byte(0xff70), 1);
    assert_eq!(unit.read_byte(0xd000), 0x11);
    unit.write_byte(0xff70, 0xfa);
    assert_eq!(unit.read_byte(0xd000), 0x22);
    unit.write_byte(0xff70, 0x0f);
    assert_eq!(unit.read_byte(0xff70), 7);
    unit.write_byte(0xdfff, 0x77);
    assert_eq!(unit.wram[0x7fff], 0x77);
    assert_eq!(unit.read_byte(0xc000), 0x00);
    assert_eq!(unit.wram_index(0xc123), Some(0x123));
    assert_eq!(unit.wram_index(0xd123), Some(0x7123));
    assert_eq!(unit.wram_index(0xe123), Some(0x123));
    assert_eq!(unit.wram_index(0xfdff), Some(0x7dff));
    assert_eq!(unit.wram_index(0xfe00), None);
    assert_eq!(unit.wram_index(0xbfff), None);
}

#[test]
fn test_boot_registers() {
    let unit = mmu();
    assert_eq!(unit.read_byte(0xff40), 0x91);
    assert_eq!(unit.read_byte(0xff47), 0xfc);
    assert_eq!(unit.read_byte(0xff48), 0xff);
    assert_eq!(unit.read_byte(0xff49), 0xff);
    for a in [0xff05u16, 0xff06, 0xff07, 0xff42, 0xff43, 0xff44, 0xff45, 0xff4a, 0xff4b, 0xff0f, 0xffff, 0xff46] {
        assert_eq!(unit.read_byte(a), 0x00, "{:04x}", a);
    }
    assert_eq!(unit.read_byte(0xff00), 0xff);
}

#[test]
fn test_memory_map_routes() {
    let mut unit = mmu();
    unit.write_byte(0xffff, 0x1f);
    assert_eq!(unit.inte, 0x1f);
    assert_eq!(unit.read_byte(0xffff), 0x1f);
    unit.write_byte(0xff0f, 0x05);
    assert_eq!(unit.intf.data, 0x05);
    assert_eq!(unit.read_byte(0xff0f), 0x05);
    unit.write_byte(0xff06, 0x42);
    assert_eq!(unit.timer.tma, 0x42);
    assert_eq!(unit.read_byte(0xff06), 0x42);
    unit.write_byte(0xff00, 0x20);
    assert_eq!(unit.joypad.select_mask, 0x20);
    unit.write_byte(0xff80, 0x99);
    unit.write_byte(0xfffe, 0x98);
    assert_eq!(unit.hram[0], 0x99);
    assert_eq!(unit.hram[0x7e], 0x98);
    unit.write_byte(0xff42, 0x07);
    assert_eq!(unit.gpu.read_byte(0xff42), 0x07);
    unit.write_byte(0x8000, 0x31);
    assert_eq!(unit.gpu.read_byte(0x8000), 0x31);
    unit.write_byte(0x0000, 0x0a);
    unit.write_byte(0xa000, 0x42);
    assert_eq!(unit.read_byte(0xa000), 0x42);
    unit.write_byte(0xff44, 0x55);
    assert_eq!(unit.read_byte(0xff44), 0x00);
}

#[test]
fn test_dma_copies_160_bytes() {
    let mut unit = mmu();
    for i in 0..0x100u16 {
        unit.write_byte(0xc000 + i, (i as u8) ^ 0x5a);
    }
    unit.write_byte(0xfe9f, 0xee);
    unit.write_byte(0xff80, 0x21);
    unit.write_byte(0xff46, 0xc0);
    for i in 0..0xa0u16 {
        assert_eq!(unit.read_byte(0xfe00 + i), (i as u8) ^ 0x5a);
        assert_eq!(unit.read_byte(0xc000 + i), (i as u8) ^ 0x5a);
    }
    assert_eq!(unit.read_byte(0xc0a0), 0xa0 ^ 0x5a);
    assert_eq!(unit.read_byte(0xfea0), 0x00);
    assert_eq!(unit.read_byte(0xff80), 0x21);
    assert_eq!(unit.read_byte(0xff46), 0x00);
    // A transfer from the table itself changes nothing.
    unit.write_byte(0xff46, 0xfe);
    for i in 0..0xa0u16 {
        assert_eq!(unit.read_byte(0xfe00 + i), (i as u8) ^ 0x5a);
    }
    // A transfer from ROM.
    unit.write_byte(0xff46, 0x02);
    for i in 0..0xa0u16 {
        assert_eq!(unit.read_byte(0xfe00 + i), 0x00);
    }
}

#[test]
fn test_unit_advances_timer_and_gpu() {
    let mut unit = mmu();
    unit.write_byte(0xff07, 0x05);
    unit.write_byte(0xff05, 0xff);
    assert_eq!(unit.next(16), 16);
    assert_eq!(unit.read_byte(0xff05), 0x00);
    assert_eq!(unit.read_byte(0xff0f), 0b100);
    assert_eq!(unit.next(144 * 456 - 16), 144 * 456 - 16);
    assert_eq!(unit.read_byte(0xff0f) & 0b001, 0b001);
    assert_eq!(unit.read_byte(0xff44), 144);
    assert!(unit.gpu.should_updated());
}

#[test]
fn test_unit_keys() {
    let mut unit = mmu();
    unit.keydown(JoypadKey::A);
    assert_eq!(unit.read_byte(0xff0f), 0b1_0000);
    unit.write_byte(0xff00, 0b0001_0000);
    assert_eq!(unit.read_byte(0xff00), 0b1101_1110);
    unit.keyup(JoypadKey::A);
    assert_eq!(unit.read_byte(0xff00), 0xff);
}

#[test]
fn test_emulator_runs_a_program() {
    let mut data = rom(0x00, 0x00);
    // LD A,0x42; LD (0xC000),A; HALT
    for (i, b) in [0x3eu8, 0x42, 0xea, 0x00, 0xc0, 0x76].iter().enumerate() {
        data[0x100 + i] = *b;
    }
    data[0x143] = 0x80;
    let mut emulator = Emulator::new(load_cartridge_from_file(data, None, None), false);
    assert_eq!(emulator.cpu.reg.get_A(), 0x11);
    assert_eq!(emulator.next(), 8);
    assert_eq!(emulator.next(), 16);
    assert_eq!(emulator.cpu.data_bus.read_byte(0xc000), 0x42);
    assert_eq!(emulator.next(), 4);
    assert!(emulator.cpu.is_halt());
    assert_eq!(emulator.try_next(), Some(4));
    assert_eq!(emulator.cpu.reg.get_PC(), 0x106);
    assert_eq!(emulator.cpu.data_bus.timer.div_clock, 32);
    let mut stepped = Emulator::new(cart(0x00, 0x00), false);
    assert_eq!(stepped.try_next(), Some(4));
    assert_eq!(stepped.cpu.reg.get_PC(), 0x101);
    assert_eq!(stepped.cpu.data_bus.timer.div_clock, 4);
    assert_eq!(stepped.cpu.data_bus.gpu.get_mode(), LCDMode::OAM);
}

#[test]
fn test_emulator_stops_at_an_unassigned_opcode() {
    let mut data = rom(0x00, 0x00);
    data[0x100] = 0xdd;
    let mut emulator = Emulator::new(load_cartridge_from_file(data, None, None), false);
    assert!(!emulator.can_step());
    assert_eq!(emulator.try_next(), None);
    assert_eq!(emulator.cpu.reg.get_PC(), 0x100);
}

#[test]
fn test_trace_keeps_the_last_512_records() {
    let mut trace = VecDeque::new();
    for i in 0..600u32 {
        let mut reg = Register::new();
        reg.set_PC(i as u16);
        insert_cpu_record(&mut trace, CPUDebugInfo::new(reg, (i % 256) as u8, false));
        assert!(trace.len() <= 512);
    }
    assert_eq!(trace.len(), 512);
    assert_eq!(trace.front().unwrap().reg.get_PC(), 88);
    assert_eq!(trace.back().unwrap().reg.get_PC(), 599);
    assert_eq!(trace.back().unwrap().opcode, (599 % 256) as u8);
    assert!(!trace.back().unwrap().is_ext_opcode);
}

#[test]
fn test_window_pixels() {
    let (mut gpu, mut intf) = gpu();
    gpu.write_byte(0x8010, 0b0101_1010);
    gpu.write_byte(0x8011, 0b0011_1100);
    gpu.write_byte(0x9800, 1);
    gpu.next(252, &mut intf);
    let pixels = gpu.get_pixels();
    assert_eq!(pixels.len(), 160 * 144);
    assert_eq!(&pixels[0..4], &[0xffff_ffff, 0xffc0_c0c0, 0xff60_6060, 0xff00_0000]);
    assert_eq!(pixels[160], 0xffff_ffff);
    let mut emulator = Emulator::new(cart(0x00, 0x00), false);
    while !emulator.frame_ready() {
        emulator.next();
    }
    let pixels = emulator.take_pixels();
    assert_eq!(pixels.len(), 160 * 144);
    assert!(pixels.iter().all(|p| *p == 0xffff_ffff));
    assert!(!emulator.frame_ready());
}

#[test]
fn test_polling_the_keys() {
    let mut unit = mmu();
    // Right, Up, Left, Down, A, B, Select, Start: Left and B are held.
    unit.poll_keys(&[false, false, true, false, false, true, false, false]);
    assert_eq!(unit.read_byte(0xff0f), 0b1_0000);
    unit.write_byte(0xff00, 0b0010_0000);
    assert_eq!(unit.read_byte(0xff00), 0b1110_1101);
    // The first key that is held ends the look: B is not taken up.
    unit.write_byte(0xff00, 0b0001_0000);
    assert_eq!(unit.read_byte(0xff00), 0xff);
    // Releasing Right and Up has released their group: Left goes down anew.
    unit.write_byte(0xff0f, 0);
    unit.poll_keys(&[false, false, true, false, false, true, false, false]);
    assert_eq!(unit.read_byte(0xff0f), 0b1_0000);
    // Right is held and was held: nothing is requested.
    unit.write_byte(0xff0f, 0);
    unit.poll_keys(&[true, false, false, false, false, false, false, false]);
    assert_eq!(unit.read_byte(0xff0f), 0b1_0000);
    unit.write_byte(0xff0f, 0);
    unit.poll_keys(&[true, false, false, false, false, false, false, false]);
    assert_eq!(unit.read_byte(0xff0f), 0);
    unit.poll_keys(&[false, false, false, false, false, true, false, false]);
    assert_eq!(unit.read_byte(0xff0f), 0b1_0000);
    assert_eq!(unit.read_byte(0xff00), 0b1101_1101);
    unit.poll_keys(&[false; 8]);
    assert_eq!(unit.read_byte(0xff00), 0xff);
    unit.write_byte(0xff00, 0b0010_0000);
    assert_eq!(unit.read_byte(0xff00), 0xff);
}
