#![allow(non_snake_case)]

use ngc224::gameboy::cpu::Flag;
use ngc224::gameboy::cpu::IntFlag;
use ngc224::gameboy::cpu::IntReg;
use ngc224::gameboy::util::high_byte;
use ngc224::gameboy::util::low_byte;
use ngc224::gameboy::util::make_word;
use ngc224::gameboy::Register;
use ngc224::gameboy::Term;

fn show(reg: &Register) -> String {
    format!("{:?}", reg).to_lowercase()
}

#[test]
fn test_register_new_is_zero() {
    assert_eq!(
        show(&Register::new()),
        "register { a: 0, b: 0, c: 0, d: 0, e: 0, f: 0, h: 0, l: 0, pc: 0, sp: 0 }"
    );
}

#[test]
fn test_register_init_per_term() {
    let mut reg = Register::new();
    reg.init(Term::GB);
    assert_eq!(
        show(&reg),
        "register { a: 1, b: 0, c: 19, d: 0, e: 216, f: 176, h: 1, l: 77, pc: 256, sp: 65534 }"
    );
    reg.init(Term::GBP);
    assert_eq!(reg.get_A(), 0xff);
    reg.init(Term::GBC);
    assert_eq!(reg.get_A(), 0x11);
    reg.init(Term::SGB);
    assert_eq!(reg.get_A(), 0x01);
    assert_eq!(reg.get_AF(), 0x01b0);
    assert_eq!(reg.get_BC(), 0x0013);
    assert_eq!(reg.get_DE(), 0x00d8);
    assert_eq!(reg.get_HL(), 0x014d);
    assert_eq!(reg.get_PC(), 0x0100);
    assert_eq!(reg.get_SP(), 0xfffe);
}

#[test]
fn test_register_af_low_nibble_is_dropped() {
    let mut reg = Register::new();
    reg.set_AF(0x12ff);
    assert_eq!(reg.get_AF(), 0x12f0);
    assert_eq!(reg.get_A(), 0x12);
    reg.set_AF(0xab0f);
    assert_eq!(reg.get_AF(), 0xab00);
    for v in [0x0000u16, 0x00ff, 0x1234, 0xffff, 0x8001, 0x7f5a] {
        reg.set_AF(v);
        assert_eq!(reg.get_AF() & 0x000f, 0);
        assert_eq!(reg.get_AF(), v & 0xfff0);
    }
}

#[test]
fn test_register_flags_keep_low_nibble_zero() {
    let mut reg = Register::new();
    let flags = [Flag::Zero, Flag::Sub, Flag::HalfCarry, Flag::Carry];
    for flag in flags {
        reg.set_flag(flag);
        assert!(reg.is_flag_set(flag));
        assert_eq!(reg.get_AF() & 0x000f, 0);
    }
    assert_eq!(reg.get_AF(), 0x00f0);
    reg.unset_flag(Flag::Sub);
    assert_eq!(reg.get_AF(), 0x00b0);
    assert!(!reg.is_flag_set(Flag::Sub));
    reg.reverse_flag(Flag::Carry);
    assert_eq!(reg.get_AF(), 0x00a0);
    reg.reverse_flag(Flag::Carry);
    assert_eq!(reg.get_AF(), 0x00b0);
    reg.put_flags(false, true, false, true);
    assert_eq!(reg.get_AF(), 0x0050);
}

#[test]
fn test_flag_values() {
    assert_eq!(Flag::Zero.value(), 0x80);
    assert_eq!(Flag::Sub.value(), 0x40);
    assert_eq!(Flag::HalfCarry.value(), 0x20);
    assert_eq!(Flag::Carry.value(), 0x10);
    assert_eq!(Flag::Carry.into_value(), 0x10);
}

#[test]
fn test_register_pairs_are_big_endian() {
    let mut reg = Register::new();
    reg.set_B(0x12);
    reg.set_C(0x34);
    assert_eq!(reg.get_BC(), 0x1234);
    reg.set_DE(0xabcd);
    assert_eq!(reg.get_D(), 0xab);
    assert_eq!(reg.get_E(), 0xcd);
    reg.set_HL(0xffff);
    reg.incr_HL();
    assert_eq!(reg.get_HL(), 0x0000);
    assert_eq!(reg.get_H(), 0);
    assert_eq!(reg.get_L(), 0);
    reg.set_H(0x01);
    reg.set_L(0xff);
    reg.incr_HL();
    assert_eq!(reg.get_HL(), 0x0200);
}

#[test]
fn test_register_pc_wraps() {
    let mut reg = Register::new();
    reg.set_PC(0xffff);
    reg.incr_PC();
    assert_eq!(reg.get_PC(), 0);
    reg.set_SP(0x1234);
    assert_eq!(reg.get_SP(), 0x1234);
}

#[test]
fn test_word_packing() {
    assert_eq!(make_word(0x12, 0x34), 0x1234);
    assert_eq!(high_byte(0x1234), 0x12);
    assert_eq!(low_byte(0x1234), 0x34);
    assert_eq!(make_word(0xff, 0x00), 0xff00);
}

#[test]
fn test_snapshot_round_trip() {
    let text =
        "register { a: 1, b: 2, c: 19, d: 0, e: 216, f: 176, h: 1, l: 77, pc: 257, sp: 65534 }";
    let reg = Register::new_from_debug_string(text);
    assert_eq!(show(&reg), text);
    assert_eq!(reg.get_B(), 2);
    assert_eq!(reg.get_PC(), 257);
    assert_eq!(reg.get_SP(), 65534);
}

#[test]
fn test_snapshot_drops_low_nibble_of_f() {
    let reg = Register::parse_debug_string(
        "register { a: 0, b: 0, c: 0, d: 0, e: 0, f: 255, h: 0, l: 0, pc: 0, sp: 0 }",
    )
    .unwrap();
    assert_eq!(reg.get_AF(), 0x00f0);
}

#[test]
fn test_snapshot_rejects_other_text() {
    let bad = [
        "",
        "register { }",
        "register { a: 1 }",
        "register { a: 256, b: 0, c: 0, d: 0, e: 0, f: 0, h: 0, l: 0, pc: 0, sp: 0 }",
        "register { a: 1, b: 0, c: 0, d: 0, e: 0, f: 0, h: 0, l: 0, pc: 65536, sp: 0 }",
        "register { a: , b: 0, c: 0, d: 0, e: 0, f: 0, h: 0, l: 0, pc: 0, sp: 0 }",
        "register { a: 1, b: 0, c: 0, d: 0, e: 0, f: 0, h: 0, l: 0, pc: 0, sp: 0 } ",
        "register { b: 1, a: 0, c: 0, d: 0, e: 0, f: 0, h: 0, l: 0, pc: 0, sp: 0 }",
        "Register { a: 1, b: 0, c: 0, d: 0, e: 0, f: 0, h: 0, l: 0, pc: 0, sp: 0 }",
    ];
    for text in bad {
        assert!(Register::parse_debug_string(text).is_none(), "{}", text);
    }
}

#[test]
fn test_int_reg_requests() {
    let mut intf = IntReg::new();
    assert_eq!(intf.data, 0);
    intf.req(IntFlag::VBlank);
    assert_eq!(intf.data, 0b0_0001);
    intf.req(IntFlag::Joypad);
    assert_eq!(intf.data, 0b1_0001);
    intf.req(IntFlag::LCDStat);
    intf.req(IntFlag::Timer);
    intf.req(IntFlag::Serial);
    assert_eq!(intf.data, 0b1_1111);
    intf.req(IntFlag::Timer);
    assert_eq!(intf.data, 0b1_1111);
}
