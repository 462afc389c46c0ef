//! What the arithmetic and logic instructions compute.

use vstd::prelude::*;

use crate::gameboy::cpu::register::RegisterView;
use crate::gameboy::util::spec_clear_bit;
use crate::gameboy::util::spec_set_bit;
use crate::gameboy::util::spec_test_bit;

verus! {

/// The byte that an integer wraps to.
pub open spec fn wrap8(x: int) -> u8 {
    (x % 256) as u8
}

/// The word that an integer wraps to.
pub open spec fn wrap16(x: int) -> u16 {
    (x % 65536) as u16
}

/// The value of a byte read as a signed offset.
pub open spec fn signed(n: u8) -> int {
    if n < 128 {
        n as int
    } else {
        n as int - 256
    }
}

/// 1 for a set carry, 0 for a clear one.
pub open spec fn carry_in(c: bool) -> int {
    if c {
        1
    } else {
        0
    }
}

/// The flags after an 8-bit increment of `v`; carry is kept.
pub open spec fn alu_inc(r: RegisterView, v: u8) -> RegisterView {
    r.with_flags(wrap8(v + 1) == 0, false, v % 16 + 1 > 15, r.cf)
}

/// The flags after an 8-bit decrement of `v`; carry is kept.
pub open spec fn alu_dec(r: RegisterView, v: u8) -> RegisterView {
    r.with_flags(wrap8(v - 1) == 0, true, v % 16 == 0, r.cf)
}

/// A := A + v, plus one if `carry`.
pub open spec fn alu_add(r: RegisterView, v: u8, carry: bool) -> RegisterView {
    let sum = r.a + v + carry_in(carry);
    RegisterView {
        a: wrap8(sum),
        zf: wrap8(sum) == 0,
        nf: false,
        hf: r.a % 16 + v % 16 + carry_in(carry) > 15,
        cf: sum > 255,
        ..r
    }
}

/// A := A - v, minus one if `carry`.
pub open spec fn alu_sub(r: RegisterView, v: u8, carry: bool) -> RegisterView {
    let diff = r.a - v - carry_in(carry);
    RegisterView {
        a: wrap8(diff),
        zf: wrap8(diff) == 0,
        nf: true,
        hf: r.a % 16 < v % 16 + carry_in(carry),
        cf: r.a < v + carry_in(carry),
        ..r
    }
}

/// The flags of A - v; A is kept.
pub open spec fn alu_compare(r: RegisterView, v: u8) -> RegisterView {
    RegisterView { a: r.a, ..alu_sub(r, v, false) }
}

/// A := A & v.
pub open spec fn alu_and(r: RegisterView, v: u8) -> RegisterView {
    RegisterView { a: r.a & v, zf: r.a & v == 0, nf: false, hf: true, cf: false, ..r }
}

/// A := A | v.
pub open spec fn alu_or(r: RegisterView, v: u8) -> RegisterView {
    RegisterView { a: r.a | v, zf: r.a | v == 0, nf: false, hf: false, cf: false, ..r }
}

/// A := A ^ v.
pub open spec fn alu_xor(r: RegisterView, v: u8) -> RegisterView {
    RegisterView { a: r.a ^ v, zf: r.a ^ v == 0, nf: false, hf: false, cf: false, ..r }
}

/// HL := HL + v; Z is kept.
pub open spec fn alu_add_hl(r: RegisterView, v: u16) -> RegisterView {
    r.with_hl(wrap16(r.hl() + v)).with_flags(
        r.zf,
        false,
        r.hl() % 4096 + v % 4096 > 4095,
        r.hl() + v > 65535,
    )
}

/// SP plus the signed offset `n`.
pub open spec fn sp_plus(r: RegisterView, n: u8) -> u16 {
    wrap16(r.sp + signed(n))
}

/// The flags after adding the offset `n` to SP: carries out of bit 3 and
/// out of bit 7 of the low byte.
pub open spec fn alu_sp_flags(r: RegisterView, n: u8) -> RegisterView {
    r.with_flags(false, false, r.sp % 16 + n % 16 > 15, r.sp % 256 + n > 255)
}

/// The target of a relative jump by the signed offset `n` from `pc`.
pub open spec fn jr_target(pc: u16, n: u8) -> u16 {
    wrap16(pc + signed(n))
}

/// The eight rotates and shifts.
#[derive(Clone, Copy, Debug, PartialEq, Eq, Structural)]
pub enum Shift {
    /// Rotate left; bit 7 goes to carry and to bit 0.
    Rlc,
    /// Rotate right; bit 0 goes to carry and to bit 7.
    Rrc,
    /// Rotate left through carry.
    Rl,
    /// Rotate right through carry.
    Rr,
    /// Shift left; bit 0 becomes 0.
    Sla,
    /// Shift right; bit 7 is kept.
    Sra,
    /// Exchange the nibbles.
    Swap,
    /// Shift right; bit 7 becomes 0.
    Srl,
}

/// The byte that a rotate or shift makes of `v`, with `c` the carry before.
pub open spec fn shift_value(op: Shift, v: u8, c: bool) -> u8 {
    match op {
        Shift::Rlc => wrap8(v * 2 + v / 128),
        Shift::Rrc => wrap8(v / 2 + (v % 2) * 128),
        Shift::Rl => wrap8(v * 2 + carry_in(c)),
        Shift::Rr => wrap8(v / 2 + carry_in(c) * 128),
        Shift::Sla => wrap8(v * 2),
        Shift::Sra => wrap8(v / 2 + (v / 128) * 128),
        Shift::Swap => wrap8((v % 16) * 16 + v / 16),
        Shift::Srl => v / 2,
    }
}

/// The carry that a rotate or shift of `v` leaves: the bit moved out.
pub open spec fn shift_carry(op: Shift, v: u8) -> bool {
    match op {
        Shift::Rlc => v >= 128,
        Shift::Rrc => v % 2 == 1,
        Shift::Rl => v >= 128,
        Shift::Rr => v % 2 == 1,
        Shift::Sla => v >= 128,
        Shift::Sra => v % 2 == 1,
        Shift::Swap => false,
        Shift::Srl => v % 2 == 1,
    }
}

/// The flags after a prefixed rotate or shift of `v`: Z from the result.
pub open spec fn alu_shift(r: RegisterView, op: Shift, v: u8) -> RegisterView {
    r.with_flags(shift_value(op, v, r.cf) == 0, false, false, shift_carry(op, v))
}

/// An unprefixed rotate of A: as the prefixed one, but Z is cleared.
pub open spec fn alu_rotate_a(r: RegisterView, op: Shift) -> RegisterView {
    RegisterView {
        a: shift_value(op, r.a, r.cf),
        zf: false,
        nf: false,
        hf: false,
        cf: shift_carry(op, r.a),
        ..r
    }
}

/// The flags after testing bit `b` of `v`; carry is kept.
pub open spec fn alu_bit(r: RegisterView, v: u8, b: u8) -> RegisterView {
    r.with_flags(!spec_test_bit(v, b), false, true, r.cf)
}

/// `v` with bit `b` cleared.
pub open spec fn alu_res(v: u8, b: u8) -> u8 {
    spec_clear_bit(v, b)
}

/// `v` with bit `b` set.
pub open spec fn alu_set(v: u8, b: u8) -> u8 {
    spec_set_bit(v, b)
}

/// A := !A.
pub open spec fn alu_cpl(r: RegisterView) -> RegisterView {
    RegisterView { a: (255 - r.a) as u8, nf: true, hf: true, ..r }
}

/// Carry is toggled.
pub open spec fn alu_ccf(r: RegisterView) -> RegisterView {
    RegisterView { nf: false, hf: false, cf: !r.cf, ..r }
}

/// Carry is set.
pub open spec fn alu_scf(r: RegisterView) -> RegisterView {
    RegisterView { nf: false, hf: false, cf: true, ..r }
}

/// What decimal adjustment adds to A after an addition, or takes from it
/// after a subtraction: 0x06 to correct the low digit, 0x60 the high one.
pub open spec fn daa_adjust(r: RegisterView) -> u8 {
    let low: int = if r.hf || (!r.nf && r.a % 16 > 9) {
        0x06
    } else {
        0
    };
    let high: int = if r.cf || (!r.nf && r.a > 0x99) {
        0x60
    } else {
        0
    };
    (low + high) as u8
}

/// A is corrected to binary-coded decimal after an addition or subtraction
/// of two such numbers. N is kept, H is cleared, and carry is set when the
/// high digit was corrected.
pub open spec fn alu_daa(r: RegisterView) -> RegisterView {
    let v = if r.nf {
        wrap8(r.a - daa_adjust(r))
    } else {
        wrap8(r.a + daa_adjust(r))
    };
    RegisterView { a: v, zf: v == 0, hf: false, cf: daa_adjust(r) >= 0x60, ..r }
}

} // verus!
