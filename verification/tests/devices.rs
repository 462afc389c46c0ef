use ngc224::gameboy::cpu::IntReg;
use ngc224::gameboy::graphics::lcd::LCDControllerRegister;
use ngc224::gameboy::graphics::lcd::LCDMode;
use ngc224::gameboy::graphics::lcd::LCDStatusRegister;
use ngc224::gameboy::graphics::lcd::BGPI;
use ngc224::gameboy::graphics::tile::shade;
use ngc224::gameboy::graphics::tile::Attr;
use ngc224::gameboy::graphics::tile::GBColor;
use ngc224::gameboy::graphics::tile::Palette;
use ngc224::gameboy::graphics::tile::TileLine;
use ngc224::gameboy::joypad::Joypad;
use ngc224::gameboy::joypad::JoypadKey;
use ngc224::gameboy::timer::Timer;
use ngc224::gameboy::IOHandler;

#[test]
fn test_timer_divider() {
    let mut timer = Timer::new();
    let mut intf = IntReg::new();
    timer.next(255, &mut intf);
    assert_eq!(timer.get(0xff04), 0);
    timer.next(1, &mut intf);
    assert_eq!(timer.get(0xff04), 1);
    timer.next(256 * 255, &mut intf);
    assert_eq!(timer.get(0xff04), 0);
    timer.next(300, &mut intf);
    assert_eq!(timer.get(0xff04), 1);
    timer.set(0xff04, 0x55);
    assert_eq!(timer.get(0xff04), 0);
    timer.next(255, &mut intf);
    assert_eq!(timer.get(0xff04), 0);
    assert_eq!(timer.get(0xff05), 0);
    assert_eq!(intf.data, 0);
}

#[test]
fn test_timer_counter_rates() {
    for (tac, period) in [(0x04u8, 1024u32), (0x05, 16), (0x06, 64), (0x07, 256)] {
        let mut timer = Timer::new();
        let mut intf = IntReg::new();
        timer.set(0xff07, tac);
        assert_eq!(timer.period(), period);
        timer.next(period - 1, &mut intf);
        assert_eq!(timer.get(0xff05), 0);
        timer.next(1, &mut intf);
        assert_eq!(timer.get(0xff05), 1);
        timer.next(3 * period, &mut intf);
        assert_eq!(timer.get(0xff05), 4);
        assert_eq!(timer.get(0xff07), tac);
        assert_eq!(intf.data, 0);
    }
    let mut timer = Timer::new();
    let mut intf = IntReg::new();
    timer.set(0xff07, 0x01);
    timer.next(1600, &mut intf);
    assert_eq!(timer.get(0xff05), 0);
}

#[test]
fn test_timer_overflow_reloads_and_requests() {
    let mut timer = Timer::new();
    let mut intf = IntReg::new();
    timer.set(0xff07, 0x05);
    timer.set(0xff06, 0xf0);
    timer.set(0xff05, 0xfe);
    assert_eq!(timer.get(0xff06), 0xf0);
    timer.next(16, &mut intf);
    assert_eq!(timer.get(0xff05), 0xff);
    assert_eq!(intf.data, 0);
    timer.next(16, &mut intf);
    assert_eq!(timer.get(0xff05), 0xf0);
    assert_eq!(intf.data, 0b100);
    intf.data = 0;
    timer.next(16 * 15, &mut intf);
    assert_eq!(timer.get(0xff05), 0xff);
    assert_eq!(intf.data, 0);
    timer.next(16 * 17, &mut intf);
    assert_eq!(timer.get(0xff05), 0xf0);
    assert_eq!(intf.data, 0b100);
}

#[test]
fn test_joypad_keys() {
    let mut pad = Joypad::new();
    let mut intf = IntReg::new();
    assert_eq!(pad.read_byte(0xff00), 0xff);
    pad.keydown(JoypadKey::Left, &mut intf);
    assert_eq!(intf.data, 0b1_0000);
    assert!(pad.is_down(JoypadKey::Left));
    // No group is selected: nothing is seen.
    assert_eq!(pad.read_byte(0xff00), 0xff);
    pad.write_byte(0xff00, 0b0010_0000);
    assert_eq!(pad.read_byte(0xff00), 0b1110_1101);
    pad.write_byte(0xff00, 0b0001_0000);
    assert_eq!(pad.read_byte(0xff00), 0xff);
    // A key that is held requests nothing more.
    intf.data = 0;
    pad.keydown(JoypadKey::Left, &mut intf);
    assert_eq!(intf.data, 0);
    pad.keyup(JoypadKey::Left);
    assert!(!pad.is_down(JoypadKey::Left));
    pad.write_byte(0xff00, 0b0010_0000);
    assert_eq!(pad.read_byte(0xff00), 0xff);
    pad.keydown(JoypadKey::Start, &mut intf);
    assert_eq!(intf.data, 0b1_0000);
    pad.write_byte(0xff00, 0b0001_0000);
    assert_eq!(pad.read_byte(0xff00), 0b1101_0111);
    pad.keyup(JoypadKey::Start);
    assert_eq!(pad.read_byte(0xff00), 0xff);
}

#[test]
fn test_joypad_key_bits() {
    let keys = [
        (JoypadKey::Right, 0, true),
        (JoypadKey::Left, 1, true),
        (JoypadKey::Up, 2, true),
        (JoypadKey::Down, 3, true),
        (JoypadKey::A, 0, false),
        (JoypadKey::B, 1, false),
        (JoypadKey::Select, 2, false),
        (JoypadKey::Start, 3, false),
    ];
    for (key, bit, direction) in keys {
        assert_eq!(key.bit(), bit);
        assert_eq!(key.is_direction(), direction);
        assert_eq!(key.group_bit(), if direction { 4 } else { 5 });
    }
}

#[test]
fn test_lcd_status_register() {
    let mut stat = LCDStatusRegister::new();
    assert_eq!(stat.get_value(), 0);
    assert_eq!(stat.get_mode(), LCDMode::HBlank);
    stat.enable_m0_interrupt();
    stat.enable_m1_interrupt();
    stat.enable_m2_interrupt();
    stat.enable_ly_interrupt();
    assert_eq!(stat.get_value(), 0b0111_1000);
    for (mode, value) in [(LCDMode::VBlank, 1), (LCDMode::OAM, 2), (LCDMode::VRAM, 3), (LCDMode::HBlank, 0)] {
        stat.set_mode(mode);
        assert_eq!(stat.get_mode(), mode);
        assert_eq!(mode.value(), value);
        assert_eq!(stat.get_value(), 0b0111_1000 | value);
        assert_eq!(LCDMode::from_value(value), mode);
    }
    assert!(stat.is_m0_interrupt_enabled());
    stat.disable_m0_interrupt();
    assert!(!stat.is_m0_interrupt_enabled());
    assert!(stat.is_m1_interrupt_enabled());
    stat.disable_m1_interrupt();
    assert!(!stat.is_m1_interrupt_enabled());
    assert!(stat.is_m2_interrupt_enabled());
    stat.disable_m2_interrupt();
    assert!(!stat.is_m2_interrupt_enabled());
    assert!(stat.is_ly_interrupt_enabled());
    stat.disable_ly_interrupt();
    assert!(!stat.is_ly_interrupt_enabled());
    assert_eq!(stat.get_value(), 0);
}

#[test]
fn test_lcd_controller_register() {
    let mut lcdc = LCDControllerRegister::new();
    assert_eq!(lcdc.get_value(), 0b0100_1000);
    assert!(!lcdc.is_lcd_enabled());
    assert_eq!(lcdc.get_window_tilemap_addr(), 0x9c00);
    assert_eq!(lcdc.get_bg_tilemap_addr(), 0x9c00);
    assert_eq!(lcdc.get_tile_data_base_addr(), (0x8800, false));
    assert_eq!(lcdc.get_sprite_size(), (8, 8));
    assert!(!lcdc.is_window_enabled());
    assert!(!lcdc.is_sprite_enabled());
    assert!(!lcdc.bg_display());
    lcdc.set_value(0b1011_0111);
    assert!(lcdc.is_lcd_enabled());
    assert_eq!(lcdc.get_window_tilemap_addr(), 0x9800);
    assert_eq!(lcdc.get_bg_tilemap_addr(), 0x9800);
    assert_eq!(lcdc.get_tile_data_base_addr(), (0x8000, true));
    assert_eq!(lcdc.get_sprite_size(), (8, 16));
    assert!(lcdc.is_window_enabled());
    assert!(lcdc.is_sprite_enabled());
    assert!(lcdc.bg_display());
}

#[test]
fn test_palette_index_register() {
    let mut bgpi = BGPI::new();
    assert_eq!(bgpi.get_value(), 0);
    bgpi.select(0x3e);
    bgpi.on_write();
    assert_eq!(bgpi.get_value(), 0x3e);
    assert!(!bgpi.is_auto_incr());
    bgpi.select(0xbe);
    assert!(bgpi.is_auto_incr());
    assert_eq!(bgpi.get_index(), 0x3e);
    bgpi.on_write();
    assert_eq!(bgpi.get_value(), 0xbf);
    bgpi.on_write();
    assert_eq!(bgpi.get_value(), 0x80);
    assert_eq!(bgpi.get_index(), 0);
    bgpi.select(0xff);
    bgpi.on_write();
    assert_eq!(bgpi.get_value(), 0xc0);
}

#[test]
fn test_tile_line_colors() {
    let line = TileLine::new([0b1010_0101, 0b1100_0011]);
    let colors: Vec<u8> = (0..8).map(|bit| line.get_color_num(bit)).collect();
    assert_eq!(colors, vec![3, 2, 1, 0, 0, 1, 2, 3]);
    assert_eq!(line.get_data(), [0b1010_0101, 0b1100_0011]);
    assert_eq!(TileLine::new([0xff, 0x00]).get_color_num(0), 1);
    assert_eq!(TileLine::new([0x00, 0xff]).get_color_num(7), 2);
}

#[test]
fn test_palette_shades() {
    assert_eq!(GBColor::White.value(), 0xff);
    assert_eq!(GBColor::Light.value(), 0xc0);
    assert_eq!(GBColor::Dark.value(), 0x60);
    assert_eq!(GBColor::Black.value(), 0x00);
    let palette = 0b1110_0100;
    assert_eq!(shade(palette, 0), GBColor::White);
    assert_eq!(shade(palette, 1), GBColor::Light);
    assert_eq!(shade(palette, 2), GBColor::Dark);
    assert_eq!(shade(palette, 3), GBColor::Black);
    let palette = 0b0001_1011;
    assert_eq!(shade(palette, 0), GBColor::Black);
    assert_eq!(shade(palette, 1), GBColor::Dark);
    assert_eq!(shade(palette, 2), GBColor::Light);
    assert_eq!(shade(palette, 3), GBColor::White);
    assert_eq!(GBColor::from_value(6), GBColor::Dark);
}

#[test]
fn test_sprite_attributes() {
    let attr = Attr::from_byte(0b1111_0000);
    assert!(attr.get_priority());
    assert!(attr.has_yflip());
    assert!(attr.has_xflip());
    assert_eq!(attr.get_palette(), Palette::OBP1);
    let attr = Attr::from_byte(0b0000_1111);
    assert!(!attr.get_priority());
    assert!(!attr.has_yflip());
    assert!(!attr.has_xflip());
    assert_eq!(attr.get_palette(), Palette::OBP0);
    assert_eq!(Attr::from_byte(0b0001_0000).get_palette(), Palette::OBP1);
    assert!(Attr::from_byte(0b0100_0000).has_yflip());
    assert!(Attr::from_byte(0b0010_0000).has_xflip());
}
