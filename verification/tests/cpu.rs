#![allow(non_snake_case)]

use ngc224::gameboy::cpu::step::is_known_opcode;
use ngc224::gameboy::cpu::step::lowest_bit;
use ngc224::gameboy::cpu::opcode_set::OpCode;
use ngc224::gameboy::cpu::Flag;
use ngc224::gameboy::IOHandler;
use ngc224::gameboy::Register;
use ngc224::gameboy::CPU;

/// A flat memory of 64 KiB that reads back what is written.
struct Ram {
    cells: Vec<u8>,
}

impl Ram {
    fn new() -> Ram {
        Ram { cells: vec![0; 0x10000] }
    }

    fn with(bytes: &[(u16, u8)]) -> Ram {
        let mut ram = Ram::new();
        for (a, v) in bytes {
            ram.cells[*a as usize] = *v;
        }
        ram
    }
}

impl IOHandler for Ram {
    fn read_byte(&self, a: u16) -> u8 {
        self.cells[a as usize]
    }

    fn write_byte(&mut self, a: u16, v: u8) {
        self.cells[a as usize] = v;
    }
}

fn cpu_with(bytes: &[(u16, u8)]) -> CPU<Ram> {
    CPU::new(Ram::with(bytes), false)
}

fn show(cpu: &CPU<Ram>) -> String {
    format!("{:?}", cpu.get_reg_snapshot()).to_lowercase()
}

#[test]
fn test_cpu_boot_state() {
    let cpu = cpu_with(&[]);
    assert_eq!(
        show(&cpu),
        "register { a: 1, b: 0, c: 19, d: 0, e: 216, f: 176, h: 1, l: 77, pc: 256, sp: 65534 }"
    );
    assert!(cpu.is_ime_enabled());
    assert!(!cpu.is_halt());
}

#[test]
fn test_words_are_little_endian() {
    let mut ram = Ram::new();
    ram.write_word(0xc000, 0x1234);
    assert_eq!(ram.read_byte(0xc000), 0x34);
    assert_eq!(ram.read_byte(0xc001), 0x12);
    assert_eq!(ram.read_word(0xc000), 0x1234);
    ram.write_word(0xffff, 0xabcd);
    assert_eq!(ram.read_byte(0xffff), 0xcd);
    assert_eq!(ram.read_byte(0x0000), 0xab);
    assert_eq!(ram.read_word(0xffff), 0xabcd);
}

#[test]
fn test_inc_then_dec_restores_every_register() {
    for v in [0x00u8, 0x01, 0x0f, 0x10, 0x7f, 0x80, 0xfe, 0xff] {
        let mut cpu = cpu_with(&[]);
        cpu.reg.set_A(v);
        cpu.reg.set_B(v);
        cpu.reg.set_C(v);
        cpu.reg.set_D(v);
        cpu.reg.set_E(v);
        cpu.reg.set_H(v);
        cpu.reg.set_L(v);
        cpu.op_0x04();
        assert_eq!(cpu.reg.get_B(), v.wrapping_add(1));
        cpu.op_0x05();
        cpu.op_0x0C();
        cpu.op_0x0D();
        cpu.op_0x14();
        cpu.op_0x15();
        cpu.op_0x1C();
        cpu.op_0x1D();
        cpu.op_0x24();
        cpu.op_0x25();
        cpu.op_0x2C();
        cpu.op_0x2D();
        cpu.op_0x3C();
        cpu.op_0x3D();
        assert_eq!(cpu.reg.get_A(), v);
        assert_eq!(cpu.reg.get_B(), v);
        assert_eq!(cpu.reg.get_C(), v);
        assert_eq!(cpu.reg.get_D(), v);
        assert_eq!(cpu.reg.get_E(), v);
        assert_eq!(cpu.reg.get_H(), v);
        assert_eq!(cpu.reg.get_L(), v);
    }
}

#[test]
fn test_inc_and_dec_flags() {
    let mut cpu = cpu_with(&[]);
    cpu.reg.set_AF(0x0010);
    cpu.reg.set_B(0x0f);
    cpu.op_0x04();
    assert_eq!(cpu.reg.get_B(), 0x10);
    assert_eq!(cpu.reg.get_AF() & 0xf0, 0x30);
    cpu.reg.set_B(0xff);
    cpu.op_0x04();
    assert_eq!(cpu.reg.get_B(), 0x00);
    assert_eq!(cpu.reg.get_AF() & 0xf0, 0xb0);
    cpu.reg.set_B(0x01);
    cpu.op_0x05();
    assert_eq!(cpu.reg.get_B(), 0x00);
    assert_eq!(cpu.reg.get_AF() & 0xf0, 0xd0);
    cpu.reg.set_B(0x10);
    cpu.op_0x05();
    assert_eq!(cpu.reg.get_B(), 0x0f);
    assert_eq!(cpu.reg.get_AF() & 0xf0, 0x70);
}

#[test]
fn test_push_then_pop_restores_every_pair() {
    let mut cpu = cpu_with(&[]);
    cpu.reg.set_SP(0xd000);
    cpu.reg.set_BC(0x1234);
    cpu.reg.set_DE(0x5678);
    cpu.reg.set_HL(0x9abc);
    cpu.reg.set_AF(0xdef0);
    let before = show(&cpu);
    assert_eq!(cpu.op_0xC5(), 0);
    assert_eq!(cpu.reg.get_SP(), 0xcffe);
    assert_eq!(cpu.data_bus.read_word(0xcffe), 0x1234);
    cpu.reg.set_BC(0);
    cpu.op_0xC1();
    assert_eq!(show(&cpu), before);
    cpu.op_0xD5();
    cpu.reg.set_DE(0);
    cpu.op_0xD1();
    assert_eq!(show(&cpu), before);
    cpu.op_0xE5();
    cpu.reg.set_HL(0);
    cpu.op_0xE1();
    assert_eq!(show(&cpu), before);
    cpu.op_0xF5();
    cpu.reg.set_AF(0);
    cpu.op_0xF1();
    assert_eq!(show(&cpu), before);
}

#[test]
fn test_pop_af_masks_low_nibble() {
    let mut cpu = cpu_with(&[(0xc000, 0xff), (0xc001, 0x12)]);
    cpu.reg.set_SP(0xc000);
    cpu.op_0xF1();
    assert_eq!(cpu.reg.get_AF(), 0x12f0);
    assert_eq!(cpu.reg.get_SP(), 0xc002);
}

#[test]
fn test_stack_pointer_wraps() {
    let mut cpu = cpu_with(&[]);
    cpu.reg.set_SP(0x0001);
    cpu.reg.set_BC(0xbeef);
    cpu.op_0xC5();
    assert_eq!(cpu.reg.get_SP(), 0xffff);
    assert_eq!(cpu.data_bus.read_byte(0xffff), 0xef);
    assert_eq!(cpu.data_bus.read_byte(0x0000), 0xbe);
    cpu.op_0xD1();
    assert_eq!(cpu.reg.get_DE(), 0xbeef);
    assert_eq!(cpu.reg.get_SP(), 0x0001);
}

#[test]
fn test_cpl_twice_restores_a() {
    for v in [0x00u8, 0x35, 0x80, 0xff] {
        let mut cpu = cpu_with(&[]);
        cpu.reg.set_AF(0x0000);
        cpu.reg.set_A(v);
        cpu.op_0x2F();
        assert_eq!(cpu.reg.get_A(), !v);
        cpu.op_0x2F();
        assert_eq!(cpu.reg.get_A(), v);
        assert!(cpu.reg.is_flag_set(Flag::Sub));
        assert!(cpu.reg.is_flag_set(Flag::HalfCarry));
        assert!(!cpu.reg.is_flag_set(Flag::Zero));
        assert!(!cpu.reg.is_flag_set(Flag::Carry));
    }
}

#[test]
fn test_ccf_twice_restores_carry() {
    for f in [0x00u16, 0x10, 0xf0, 0xe0] {
        let mut cpu = cpu_with(&[]);
        cpu.reg.set_AF(f);
        let carry = cpu.reg.is_flag_set(Flag::Carry);
        let zero = cpu.reg.is_flag_set(Flag::Zero);
        cpu.op_0x3F();
        assert_eq!(cpu.reg.is_flag_set(Flag::Carry), !carry);
        cpu.op_0x3F();
        assert_eq!(cpu.reg.is_flag_set(Flag::Carry), carry);
        assert_eq!(cpu.reg.is_flag_set(Flag::Zero), zero);
        assert!(!cpu.reg.is_flag_set(Flag::Sub));
        assert!(!cpu.reg.is_flag_set(Flag::HalfCarry));
    }
}

#[test]
fn test_scf_sets_carry() {
    let mut cpu = cpu_with(&[]);
    cpu.reg.set_AF(0x00e0);
    cpu.op_0x37();
    assert_eq!(cpu.reg.get_AF(), 0x0090);
}

#[test]
fn test_daa_after_bcd_addition() {
    // LD A,0x15; ADD A,0x27; DAA
    let mut cpu = cpu_with(&[(0x100, 0x3e), (0x101, 0x15), (0x102, 0xc6), (0x103, 0x27), (0x104, 0x27)]);
    assert_eq!(cpu.execute_opcode(), 8);
    assert_eq!(cpu.execute_opcode(), 8);
    assert_eq!(cpu.reg.get_A(), 0x3c);
    assert!(!cpu.reg.is_flag_set(Flag::Sub));
    assert!(!cpu.reg.is_flag_set(Flag::HalfCarry));
    assert!(!cpu.reg.is_flag_set(Flag::Carry));
    assert_eq!(cpu.execute_opcode(), 4);
    assert_eq!(cpu.reg.get_A(), 0x42);
    assert!(!cpu.reg.is_flag_set(Flag::HalfCarry));
    assert!(!cpu.reg.is_flag_set(Flag::Carry));
    assert!(!cpu.reg.is_flag_set(Flag::Zero));
    assert_eq!(cpu.reg.get_PC(), 0x105);
}

#[test]
fn test_daa_after_bcd_subtraction_and_carry() {
    let mut cpu = cpu_with(&[]);
    // 0x42 - 0x15 = 0x2d, with a half borrow; DAA gives 0x27.
    cpu.reg.set_A(0x42);
    cpu._op_sub(0x15);
    assert_eq!(cpu.reg.get_A(), 0x2d);
    assert!(cpu.reg.is_flag_set(Flag::HalfCarry));
    cpu.op_0x27();
    assert_eq!(cpu.reg.get_A(), 0x27);
    assert!(cpu.reg.is_flag_set(Flag::Sub));
    // 0x99 + 0x01 = 0x9a; DAA gives 0x00 with carry.
    cpu.reg.set_A(0x99);
    cpu._op_add(0x01);
    cpu.op_0x27();
    assert_eq!(cpu.reg.get_A(), 0x00);
    assert!(cpu.reg.is_flag_set(Flag::Zero));
    assert!(cpu.reg.is_flag_set(Flag::Carry));
}

#[test]
fn test_add_adc_sub_sbc_flags() {
    let mut cpu = cpu_with(&[]);
    cpu.reg.set_AF(0x0000);
    cpu.reg.set_A(0x3a);
    cpu._op_add(0xc6);
    assert_eq!(cpu.reg.get_AF(), 0x00b0);
    cpu.reg.set_AF(0xe110);
    cpu._op_adc(0x0f);
    assert_eq!(cpu.reg.get_AF(), 0xf120);
    cpu.reg.set_AF(0x3e00);
    cpu._op_sub(0x3e);
    assert_eq!(cpu.reg.get_AF(), 0x00c0);
    cpu.reg.set_AF(0x3e00);
    cpu._op_sub(0x0f);
    assert_eq!(cpu.reg.get_AF(), 0x2f60);
    cpu.reg.set_AF(0x3e00);
    cpu._op_sub(0x40);
    assert_eq!(cpu.reg.get_AF(), 0xfe50);
    cpu.reg.set_AF(0x3b10);
    cpu._op_sbc(0x2a);
    assert_eq!(cpu.reg.get_AF(), 0x1040);
    cpu.reg.set_AF(0x3b10);
    cpu._op_sbc(0x4f);
    assert_eq!(cpu.reg.get_AF(), 0xeb70);
    cpu.reg.set_AF(0x3c00);
    cpu._op_compare(0x2f);
    assert_eq!(cpu.reg.get_AF(), 0x3c60);
    cpu.reg.set_AF(0x3c00);
    cpu._op_compare(0x40);
    assert_eq!(cpu.reg.get_AF(), 0x3c50);
}

#[test]
fn test_logic_flags() {
    let mut cpu = cpu_with(&[]);
    cpu.reg.set_AF(0x5a10);
    cpu._op_and(0x3f);
    assert_eq!(cpu.reg.get_AF(), 0x1a20);
    cpu.reg.set_AF(0x5a10);
    cpu._op_and(0xa5);
    assert_eq!(cpu.reg.get_AF(), 0x00a0);
    cpu.reg.set_AF(0x5a10);
    cpu._op_or(0x0f);
    assert_eq!(cpu.reg.get_AF(), 0x5f00);
    cpu.reg.set_AF(0xff10);
    cpu._op_xor(0xff);
    assert_eq!(cpu.reg.get_AF(), 0x0080);
}

#[test]
fn test_add_hl_and_add_sp() {
    let mut cpu = cpu_with(&[(0x100, 0x02), (0x101, 0xfe)]);
    cpu.reg.set_AF(0x0080);
    cpu.reg.set_HL(0x8a23);
    cpu.reg.set_BC(0x0605);
    cpu.op_0x09();
    assert_eq!(cpu.reg.get_HL(), 0x9028);
    assert_eq!(cpu.reg.get_AF(), 0x00a0);
    cpu.reg.set_HL(0x8a23);
    cpu.op_0x29();
    assert_eq!(cpu.reg.get_HL(), 0x1446);
    assert_eq!(cpu.reg.get_AF(), 0x00b0);
    cpu.reg.set_SP(0xfff8);
    cpu.op_0xE8();
    assert_eq!(cpu.reg.get_SP(), 0xfffa);
    assert_eq!(cpu.reg.get_AF(), 0x0000);
    cpu.reg.set_SP(0x0001);
    cpu.op_0xF8();
    assert_eq!(cpu.reg.get_HL(), 0xffff);
    assert_eq!(cpu.reg.get_SP(), 0x0001);
    assert_eq!(cpu.reg.get_AF(), 0x0000);
    assert_eq!(cpu.reg.get_PC(), 0x102);
}

#[test]
fn test_rotates_of_a_clear_zero() {
    let mut cpu = cpu_with(&[]);
    cpu.reg.set_AF(0x8500);
    cpu.op_0x07();
    assert_eq!(cpu.reg.get_AF(), 0x0b10);
    cpu.reg.set_AF(0x3b00);
    cpu.op_0x0F();
    assert_eq!(cpu.reg.get_AF(), 0x9d10);
    cpu.reg.set_AF(0x9510);
    cpu.op_0x17();
    assert_eq!(cpu.reg.get_AF(), 0x2b10);
    cpu.reg.set_AF(0x8100);
    cpu.op_0x1F();
    assert_eq!(cpu.reg.get_AF(), 0x4010);
    cpu.reg.set_AF(0x0000);
    cpu.op_0x07();
    assert_eq!(cpu.reg.get_AF(), 0x0000);
}

#[test]
fn test_prefixed_operations() {
    // RLC B, SWAP A, BIT 7,H, RES 0,(HL), SET 7,(HL), SRL (HL), BIT 0,(HL)
    let mut cpu = cpu_with(&[
        (0x100, 0x00),
        (0x101, 0x37),
        (0x102, 0x7c),
        (0x103, 0x86),
        (0x104, 0xfe),
        (0x105, 0x3e),
        (0x106, 0x46),
        (0xc000, 0x0f),
    ]);
    cpu.reg.set_AF(0xf000);
    cpu.reg.set_B(0x85);
    cpu.reg.set_HL(0xc000);
    assert_eq!(cpu.op_0xCB(), 4);
    assert_eq!(cpu.reg.get_B(), 0x0b);
    assert_eq!(cpu.reg.get_AF(), 0xf010);
    assert_eq!(cpu.op_0xCB(), 4);
    assert_eq!(cpu.reg.get_AF(), 0x0f00);
    assert_eq!(cpu.op_0xCB(), 4);
    assert_eq!(cpu.reg.get_AF(), 0x0f20);
    assert_eq!(cpu.op_0xCB(), 12);
    assert_eq!(cpu.data_bus.read_byte(0xc000), 0x0e);
    assert_eq!(cpu.op_0xCB(), 12);
    assert_eq!(cpu.data_bus.read_byte(0xc000), 0x8e);
    assert_eq!(cpu.reg.get_AF(), 0x0f20);
    assert_eq!(cpu.op_0xCB(), 12);
    assert_eq!(cpu.data_bus.read_byte(0xc000), 0x47);
    assert_eq!(cpu.reg.get_AF(), 0x0f00);
    assert_eq!(cpu.op_0xCB(), 8);
    assert_eq!(cpu.reg.get_AF(), 0x0f20);
    assert_eq!(cpu.reg.get_PC(), 0x107);
}

#[test]
fn test_prefixed_shifts() {
    let mut cpu = cpu_with(&[]);
    cpu.reg.set_AF(0x0010);
    assert_eq!(cpu.alu_rl(0x80), 0x01);
    assert_eq!(cpu.reg.get_AF(), 0x0010);
    assert_eq!(cpu.alu_rr(0x01), 0x80);
    assert_eq!(cpu.reg.get_AF(), 0x0010);
    assert_eq!(cpu.alu_sla(0x80), 0x00);
    assert_eq!(cpu.reg.get_AF(), 0x0090);
    assert_eq!(cpu.alu_sra(0x8a), 0xc5);
    assert_eq!(cpu.reg.get_AF(), 0x0000);
    assert_eq!(cpu.alu_srl(0x01), 0x00);
    assert_eq!(cpu.reg.get_AF(), 0x0090);
    assert_eq!(cpu.alu_swap(0x00), 0x00);
    assert_eq!(cpu.reg.get_AF(), 0x0080);
    assert_eq!(cpu.alu_swap(0xa5), 0x5a);
    assert_eq!(cpu.alu_rrc(0x01), 0x80);
    assert_eq!(cpu.reg.get_AF(), 0x0010);
    assert_eq!(cpu.alu_rlc(0x00), 0x00);
    assert_eq!(cpu.reg.get_AF(), 0x0080);
}

#[test]
fn test_branch_costs() {
    // JR NZ,+2 with Z clear, then with Z set.
    let mut cpu = cpu_with(&[(0x100, 0x20), (0x101, 0x02), (0x104, 0x20), (0x105, 0x02)]);
    cpu.reg.set_AF(0x0000);
    assert_eq!(cpu.execute_opcode(), 12);
    assert_eq!(cpu.reg.get_PC(), 0x104);
    cpu.reg.set_AF(0x0080);
    assert_eq!(cpu.execute_opcode(), 8);
    assert_eq!(cpu.reg.get_PC(), 0x106);
    // CALL NZ taken 24, not taken 12; RET Z taken 20, not taken 8; JP C taken 16.
    let mut cpu = cpu_with(&[
        (0x100, 0xc4),
        (0x101, 0x00),
        (0x102, 0x02),
        (0x200, 0xc8),
        (0x201, 0xc8),
        (0x103, 0xc4),
        (0x104, 0x00),
        (0x105, 0x02),
        (0x106, 0xda),
        (0x107, 0x34),
        (0x108, 0x12),
    ]);
    cpu.reg.set_SP(0xd000);
    cpu.reg.set_AF(0x0000);
    assert_eq!(cpu.execute_opcode(), 24);
    assert_eq!(cpu.reg.get_PC(), 0x200);
    assert_eq!(cpu.reg.get_SP(), 0xcffe);
    assert_eq!(cpu.execute_opcode(), 8);
    cpu.reg.set_AF(0x0080);
    assert_eq!(cpu.execute_opcode(), 20);
    assert_eq!(cpu.reg.get_PC(), 0x103);
    assert_eq!(cpu.reg.get_SP(), 0xd000);
    assert_eq!(cpu.execute_opcode(), 12);
    assert_eq!(cpu.reg.get_PC(), 0x106);
    cpu.reg.set_AF(0x0010);
    assert_eq!(cpu.execute_opcode(), 16);
    assert_eq!(cpu.reg.get_PC(), 0x1234);
}

#[test]
fn test_jr_backwards() {
    let mut cpu = cpu_with(&[(0x100, 0x18), (0x101, 0xfe)]);
    assert_eq!(cpu.execute_opcode(), 12);
    assert_eq!(cpu.reg.get_PC(), 0x100);
}

#[test]
fn test_rst_and_reti() {
    let mut cpu = cpu_with(&[]);
    cpu.reg.set_SP(0xd000);
    cpu.reg.set_PC(0x1234);
    cpu.disable_ime();
    cpu.op_0xEF();
    assert_eq!(cpu.reg.get_PC(), 0x0028);
    assert_eq!(cpu.data_bus.read_word(0xcffe), 0x1234);
    cpu.op_0xD9();
    assert_eq!(cpu.reg.get_PC(), 0x1234);
    assert_eq!(cpu.reg.get_SP(), 0xd000);
    assert!(cpu.is_ime_enabled());
    cpu.op_0xF3();
    assert!(!cpu.is_ime_enabled());
    cpu.op_0xFB();
    assert!(cpu.is_ime_enabled());
}

#[test]
fn test_high_page_loads() {
    let mut cpu = cpu_with(&[(0x100, 0x80), (0x101, 0x80), (0xff80, 0x5a)]);
    cpu.reg.set_A(0x00);
    cpu.op_0xF0();
    assert_eq!(cpu.reg.get_A(), 0x5a);
    cpu.reg.set_A(0x77);
    cpu.op_0xE0();
    assert_eq!(cpu.data_bus.read_byte(0xff80), 0x77);
    cpu.reg.set_C(0x81);
    cpu.op_0xE2();
    assert_eq!(cpu.data_bus.read_byte(0xff81), 0x77);
    cpu.reg.set_A(0);
    cpu.op_0xF2();
    assert_eq!(cpu.reg.get_A(), 0x77);
}

#[test]
fn test_interrupt_dispatch() {
    let mut cpu = cpu_with(&[(0xff0f, 0b0001_0100), (0xffff, 0b0001_1111)]);
    cpu.reg.set_SP(0xd000);
    cpu.reg.set_PC(0x1234);
    assert_eq!(cpu._next(), 16);
    assert_eq!(cpu.reg.get_PC(), 0x0050);
    assert_eq!(cpu.reg.get_SP(), 0xcffe);
    assert_eq!(cpu.data_bus.read_word(0xcffe), 0x1234);
    assert_eq!(cpu.data_bus.read_byte(0xff0f), 0b0001_0000);
    assert!(!cpu.is_ime_enabled());
    // With interrupts disabled nothing is serviced: the NOP at 0x50 runs.
    assert_eq!(cpu._next(), 4);
    assert_eq!(cpu.reg.get_PC(), 0x0051);
    assert_eq!(cpu.data_bus.read_byte(0xff0f), 0b0001_0000);
    cpu.enable_ime();
    assert_eq!(cpu._next(), 16);
    assert_eq!(cpu.reg.get_PC(), 0x0060);
    assert_eq!(cpu.data_bus.read_byte(0xff0f), 0);
}

#[test]
fn test_interrupt_needs_enable_bit() {
    let mut cpu = cpu_with(&[(0xff0f, 0b0000_0001), (0xffff, 0b0000_0010)]);
    assert_eq!(cpu._next(), 4);
    assert_eq!(cpu.reg.get_PC(), 0x0101);
    assert!(cpu.is_ime_enabled());
}

#[test]
fn test_halt_waits_for_an_interrupt() {
    let mut cpu = cpu_with(&[(0x100, 0x76), (0xffff, 0x01)]);
    cpu.disable_ime();
    assert_eq!(cpu._next(), 4);
    assert!(cpu.is_halt());
    assert_eq!(cpu.reg.get_PC(), 0x101);
    assert_eq!(cpu._next(), 4);
    assert_eq!(cpu._next(), 4);
    assert!(cpu.is_halt());
    assert_eq!(cpu.reg.get_PC(), 0x101);
    // A pending interrupt ends the halt; with interrupts disabled the next
    // instruction runs.
    cpu.data_bus.write_byte(0xff0f, 0x01);
    assert_eq!(cpu._next(), 4);
    assert!(!cpu.is_halt());
    assert_eq!(cpu.reg.get_PC(), 0x102);
    assert_eq!(cpu.data_bus.read_byte(0xff0f), 0x01);
}

#[test]
fn test_halt_then_dispatch() {
    let mut cpu = cpu_with(&[(0x100, 0x76), (0xffff, 0x01)]);
    cpu.reg.set_SP(0xd000);
    assert_eq!(cpu._next(), 4);
    assert!(cpu.is_halt());
    cpu.data_bus.write_byte(0xff0f, 0x01);
    assert_eq!(cpu._next(), 16);
    assert!(!cpu.is_halt());
    assert_eq!(cpu.reg.get_PC(), 0x0040);
    assert_eq!(cpu.data_bus.read_word(0xcffe), 0x0101);
}

#[test]
fn test_unassigned_opcodes() {
    let unknown = [0xd3u8, 0xdb, 0xdd, 0xe3, 0xe4, 0xeb, 0xec, 0xed, 0xf4, 0xfc, 0xfd];
    let mut n = 0;
    for code in 0..=255u8 {
        assert_eq!(is_known_opcode(code), !unknown.contains(&code));
        assert_eq!(OpCode::lookup(code).is_some(), !unknown.contains(&code));
        if is_known_opcode(code) {
            n += 1;
        }
    }
    assert_eq!(n, 245);
    let cpu = cpu_with(&[(0x100, 0xd3)]);
    assert!(!cpu.can_step());
    let cpu = cpu_with(&[(0x100, 0x00)]);
    assert!(cpu.can_step());
    assert_eq!(cpu.get_current_opcode(), 0x00);
}

#[test]
fn test_opcode_table_entries() {
    let nop = OpCode::lookup(0x00).unwrap();
    assert_eq!(nop.get_name(), "NOP");
    assert_eq!(nop.get_clock(), 4);
    assert_eq!(nop.get_code(), 0);
    assert_eq!(OpCode::lookup(0x01).unwrap().get_clock(), 12);
    assert_eq!(OpCode::lookup(0x01).unwrap().get_name(), "LD BC,d16");
    assert_eq!(OpCode::lookup(0x08).unwrap().get_clock(), 20);
    assert_eq!(OpCode::lookup(0x20).unwrap().get_clock(), 8);
    assert_eq!(OpCode::lookup(0x34).unwrap().get_clock(), 12);
    assert_eq!(OpCode::lookup(0x76).unwrap().get_name(), "HALT");
    assert_eq!(OpCode::lookup(0x76).unwrap().get_clock(), 4);
    assert_eq!(OpCode::lookup(0x7e).unwrap().get_clock(), 8);
    assert_eq!(OpCode::lookup(0xcb).unwrap().get_clock(), 4);
    assert_eq!(OpCode::lookup(0xcd).unwrap().get_clock(), 24);
    assert_eq!(OpCode::lookup(0xe8).unwrap().get_clock(), 16);
    let mut cpu = cpu_with(&[(0x100, 0x34), (0x101, 0x12)]);
    let ld = OpCode::new(0x01, "LD BC,d16", 12);
    assert_eq!(ld.ex(&mut cpu), 12);
    assert_eq!(cpu.reg.get_BC(), 0x1234);
}

#[test]
fn test_prefixed_instruction_costs() {
    let mut cpu = cpu_with(&[(0x100, 0xcb), (0x101, 0x00), (0x102, 0xcb), (0x103, 0x06), (0x104, 0xcb), (0x105, 0x46)]);
    cpu.reg.set_HL(0xc000);
    assert_eq!(cpu.execute_opcode(), 8);
    assert_eq!(cpu.execute_opcode(), 16);
    assert_eq!(cpu.execute_opcode(), 12);
}

#[test]
fn test_lowest_bit() {
    assert_eq!(lowest_bit(0b0000_0001), 0);
    assert_eq!(lowest_bit(0b0001_0100), 2);
    assert_eq!(lowest_bit(0b1000_0000), 7);
    assert_eq!(lowest_bit(0b0001_0000), 4);
}

#[test]
fn test_pacing() {
    let mut cpu = CPU::new(Ram::new(), true);
    assert!(!cpu.pace_due());
    let mut total = 0;
    while !cpu.pace_due() {
        total += cpu.next();
    }
    assert_eq!(total, 67_112);
    assert!(!cpu.flip());
    assert_eq!(cpu.next(), 4);
    assert!(!cpu.pace_due());
    assert!(cpu.flip());
    assert!(!cpu.flip());
}

#[test]
fn test_set_reg_replaces_the_registers() {
    let mut cpu = cpu_with(&[]);
    let reg = Register::new_from_debug_string(
        "register { a: 9, b: 8, c: 7, d: 6, e: 5, f: 64, h: 3, l: 2, pc: 1, sp: 0 }",
    );
    cpu.set_reg(reg);
    assert_eq!(
        show(&cpu),
        "register { a: 9, b: 8, c: 7, d: 6, e: 5, f: 64, h: 3, l: 2, pc: 1, sp: 0 }"
    );
}

#[test]
fn test_memory_access_through_the_cpu() {
    let mut cpu = cpu_with(&[(0xc000, 0x34), (0xc001, 0x12)]);
    assert_eq!(cpu.read_byte_from_memory(0xc000), 0x34);
    assert_eq!(cpu.read_word_from_memory(0xc000), 0x1234);
    cpu.write_byte_to_memory(0xc002, 0x56);
    assert_eq!(cpu.read_byte_from_memory(0xc002), 0x56);
    cpu.write_word_to_memory(0xc003, 0xabcd);
    assert_eq!(cpu.read_byte_from_memory(0xc003), 0xcd);
    assert_eq!(cpu.read_byte_from_memory(0xc004), 0xab);
    let before = show(&cpu);
    cpu.get_opcode();
    cpu.exexute_forever();
    assert_eq!(show(&cpu), before);
    assert_eq!(cpu.imm_freeze(), 0x00);
    cpu.reg.set_PC(0xc000);
    assert_eq!(cpu.imm(), 0x34);
    assert_eq!(cpu.reg.get_PC(), 0xc001);
    cpu.reg.set_PC(0xc000);
    assert_eq!(cpu.imm_word(), 0x1234);
    assert_eq!(cpu.reg.get_PC(), 0xc002);
}

#[test]
fn test_every_instruction_runs() {
    for code in 0..=255u8 {
        if !is_known_opcode(code) {
            continue;
        }
        let mut cpu = cpu_with(&[(0x100, code), (0x101, 0x10), (0x102, 0xc0)]);
        cpu.reg.set_SP(0xd000);
        cpu.reg.set_HL(0xc800);
        let entry = OpCode::lookup(code).unwrap();
        let cycles = cpu.execute_opcode();
        assert!(cycles >= entry.get_clock());
        assert!(cycles <= entry.get_clock() + 12);
        assert_eq!(cycles % 4, 0);
        assert_eq!(cpu.reg.get_AF() & 0x000f, 0);
    }
}
