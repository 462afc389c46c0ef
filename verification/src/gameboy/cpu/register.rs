//! The register file, the flags and the interrupt flag register.

use vstd::prelude::*;

use crate::gameboy::term::Term;
use crate::gameboy::util::high_byte;
use crate::gameboy::util::low_byte;
use crate::gameboy::util::make_word;
use crate::gameboy::util::set_bit;
use crate::gameboy::util::spec_set_bit;
use crate::gameboy::util::spec_high;
use crate::gameboy::util::spec_low;
use crate::gameboy::util::spec_word;

verus! {

/// The four flags of the F register, Z N H C from bit 7 down to bit 4.
#[derive(Clone, Copy, Debug, PartialEq, Eq, Structural)]
pub enum Flag {
    /// Set when the result of an operation is zero.
    Zero,
    /// Set when the last operation was a subtraction.
    Sub,
    /// Set on a carry out of the low nibble.
    HalfCarry,
    /// Set on a carry out of the high bit, or on a borrow.
    Carry,
}

/// The mask of a flag inside the F register.
pub open spec fn spec_flag_value(flag: Flag) -> u8 {
    match flag {
        Flag::Zero => 0x80,
        Flag::Sub => 0x40,
        Flag::HalfCarry => 0x20,
        Flag::Carry => 0x10,
    }
}

impl Flag {
    /// Returns the mask of the flag inside the F register.
    pub fn into_value(self) -> (r: u8)
        ensures
            r == spec_flag_value(self),
    {
        match self {
            Flag::Zero => 0x80,
            Flag::Sub => 0x40,
            Flag::HalfCarry => 0x20,
            Flag::Carry => 0x10,
        }
    }

    /// Returns the mask of the flag inside the F register.
    pub fn value(&self) -> (r: u8)
        ensures
            r == spec_flag_value(*self),
    {
        (*self).into_value()
    }
}

/// The byte that holds the four flags: Z in bit 7, N in bit 6, H in bit 5,
/// C in bit 4, and zero in the low nibble.
pub open spec fn pack_flags(zf: bool, nf: bool, hf: bool, cf: bool) -> u8 {
    ((if zf { 128int } else { 0 }) + (if nf { 64int } else { 0 }) + (if hf { 32int } else { 0 }) + (
    if cf { 16int } else { 0 })) as u8
}

/// What a register file holds: seven byte registers, the four flags, the
/// program counter and the stack pointer.
pub struct RegisterView {
    pub a: u8,
    pub b: u8,
    pub c: u8,
    pub d: u8,
    pub e: u8,
    pub h: u8,
    pub l: u8,
    pub zf: bool,
    pub nf: bool,
    pub hf: bool,
    pub cf: bool,
    pub pc: u16,
    pub sp: u16,
}

impl RegisterView {
    /// The F register.
    pub open spec fn f(self) -> u8 {
        pack_flags(self.zf, self.nf, self.hf, self.cf)
    }

    /// The pair AF.
    pub open spec fn af(self) -> u16 {
        spec_word(self.a, self.f())
    }

    /// The pair BC.
    pub open spec fn bc(self) -> u16 {
        spec_word(self.b, self.c)
    }

    /// The pair DE.
    pub open spec fn de(self) -> u16 {
        spec_word(self.d, self.e)
    }

    /// The pair HL.
    pub open spec fn hl(self) -> u16 {
        spec_word(self.h, self.l)
    }

    /// Whether `flag` is set.
    pub open spec fn flag(self, flag: Flag) -> bool {
        match flag {
            Flag::Zero => self.zf,
            Flag::Sub => self.nf,
            Flag::HalfCarry => self.hf,
            Flag::Carry => self.cf,
        }
    }

    /// The same registers with `flag` forced to `on`.
    pub open spec fn with_flag(self, flag: Flag, on: bool) -> RegisterView {
        match flag {
            Flag::Zero => RegisterView { zf: on, ..self },
            Flag::Sub => RegisterView { nf: on, ..self },
            Flag::HalfCarry => RegisterView { hf: on, ..self },
            Flag::Carry => RegisterView { cf: on, ..self },
        }
    }

    /// The same registers with all four flags replaced.
    pub open spec fn with_flags(self, zf: bool, nf: bool, hf: bool, cf: bool) -> RegisterView {
        RegisterView { zf, nf, hf, cf, ..self }
    }

    /// The same registers with AF replaced by `v`; the low nibble of `v` is lost.
    pub open spec fn with_af(self, v: u16) -> RegisterView {
        RegisterView {
            a: spec_high(v),
            zf: spec_low(v) / 128 % 2 == 1,
            nf: spec_low(v) / 64 % 2 == 1,
            hf: spec_low(v) / 32 % 2 == 1,
            cf: spec_low(v) / 16 % 2 == 1,
            ..self
        }
    }

    /// The same registers with BC replaced by `v`.
    pub open spec fn with_bc(self, v: u16) -> RegisterView {
        RegisterView { b: spec_high(v), c: spec_low(v), ..self }
    }

    /// The same registers with DE replaced by `v`.
    pub open spec fn with_de(self, v: u16) -> RegisterView {
        RegisterView { d: spec_high(v), e: spec_low(v), ..self }
    }

    /// The same registers with HL replaced by `v`.
    pub open spec fn with_hl(self, v: u16) -> RegisterView {
        RegisterView { h: spec_high(v), l: spec_low(v), ..self }
    }

    /// The register file of a console of the given variant after boot.
    pub open spec fn boot(term: Term) -> RegisterView {
        RegisterView {
            a: match term {
                Term::GB => 0x01,
                Term::GBP => 0xff,
                Term::GBC => 0x11,
                Term::SGB => 0x01,
            },
            b: 0x00,
            c: 0x13,
            d: 0x00,
            e: 0xd8,
            h: 0x01,
            l: 0x4d,
            zf: true,
            nf: false,
            hf: true,
            cf: true,
            pc: 0x0100,
            sp: 0xfffe,
        }
    }

    /// The register file with every register zero.
    pub open spec fn zero() -> RegisterView {
        RegisterView {
            a: 0,
            b: 0,
            c: 0,
            d: 0,
            e: 0,
            h: 0,
            l: 0,
            zf: false,
            nf: false,
            hf: false,
            cf: false,
            pc: 0,
            sp: 0,
        }
    }
}

/// What the bits of a flag byte mean: for a byte with a zero low nibble, the
/// byte is the packing of its four flag bits, and setting or clearing one
/// flag's mask changes that flag alone.
proof fn lemma_flag_byte(f: u8)
    requires
        f & 0x0f == 0,
    ensures
        f == pack_flags(f & 0x80 != 0, f & 0x40 != 0, f & 0x20 != 0, f & 0x10 != 0),
        (f | 0x80) & 0x0f == 0 && (f | 0x40) & 0x0f == 0 && (f | 0x20) & 0x0f == 0 && (f | 0x10)
            & 0x0f == 0,
        (f & !0x80u8) & 0x0f == 0 && (f & !0x40u8) & 0x0f == 0 && (f & !0x20u8) & 0x0f == 0 && (f
            & !0x10u8) & 0x0f == 0,
        f | 0x80 == pack_flags(true, f & 0x40 != 0, f & 0x20 != 0, f & 0x10 != 0),
        f | 0x40 == pack_flags(f & 0x80 != 0, true, f & 0x20 != 0, f & 0x10 != 0),
        f | 0x20 == pack_flags(f & 0x80 != 0, f & 0x40 != 0, true, f & 0x10 != 0),
        f | 0x10 == pack_flags(f & 0x80 != 0, f & 0x40 != 0, f & 0x20 != 0, true),
        f & !0x80u8 == pack_flags(false, f & 0x40 != 0, f & 0x20 != 0, f & 0x10 != 0),
        f & !0x40u8 == pack_flags(f & 0x80 != 0, false, f & 0x20 != 0, f & 0x10 != 0),
        f & !0x20u8 == pack_flags(f & 0x80 != 0, f & 0x40 != 0, false, f & 0x10 != 0),
        f & !0x10u8 == pack_flags(f & 0x80 != 0, f & 0x40 != 0, f & 0x20 != 0, false),
{
    let z: u8 = if f & 0x80 != 0 { 128 } else { 0 };
    let n: u8 = if f & 0x40 != 0 { 64 } else { 0 };
    let h: u8 = if f & 0x20 != 0 { 32 } else { 0 };
    let c: u8 = if f & 0x10 != 0 { 16 } else { 0 };
    assert(f & 0x0f == 0 ==> {
        &&& f == (if f & 0x80 != 0 { 128u8 } else { 0u8 }) + (if f & 0x40 != 0 { 64u8 } else { 0u8 })
            + (if f & 0x20 != 0 { 32u8 } else { 0u8 }) + (if f & 0x10 != 0 { 16u8 } else { 0u8 })
        &&& (f | 0x80) & 0x0f == 0 && (f | 0x40) & 0x0f == 0 && (f | 0x20) & 0x0f == 0 && (f | 0x10)
            & 0x0f == 0
        &&& (f & !0x80u8) & 0x0f == 0 && (f & !0x40u8) & 0x0f == 0 && (f & !0x20u8) & 0x0f == 0 && (
        f & !0x10u8) & 0x0f == 0
        &&& (f | 0x80) & 0x80 != 0 && ((f | 0x80) & 0x40 != 0) == (f & 0x40 != 0) && ((f | 0x80)
            & 0x20 != 0) == (f & 0x20 != 0) && ((f | 0x80) & 0x10 != 0) == (f & 0x10 != 0)
        &&& (f | 0x40) & 0x40 != 0 && ((f | 0x40) & 0x80 != 0) == (f & 0x80 != 0) && ((f | 0x40)
            & 0x20 != 0) == (f & 0x20 != 0) && ((f | 0x40) & 0x10 != 0) == (f & 0x10 != 0)
        &&& (f | 0x20) & 0x20 != 0 && ((f | 0x20) & 0x80 != 0) == (f & 0x80 != 0) && ((f | 0x20)
            & 0x40 != 0) == (f & 0x40 != 0) && ((f | 0x20) & 0x10 != 0) == (f & 0x10 != 0)
        &&& (f | 0x10) & 0x10 != 0 && ((f | 0x10) & 0x80 != 0) == (f & 0x80 != 0) && ((f | 0x10)
            & 0x40 != 0) == (f & 0x40 != 0) && ((f | 0x10) & 0x20 != 0) == (f & 0x20 != 0)
        &&& (f & !0x80u8) & 0x80 == 0 && ((f & !0x80u8) & 0x40 != 0) == (f & 0x40 != 0) && ((f
            & !0x80u8) & 0x20 != 0) == (f & 0x20 != 0) && ((f & !0x80u8) & 0x10 != 0) == (f & 0x10
            != 0)
        &&& (f & !0x40u8) & 0x40 == 0 && ((f & !0x40u8) & 0x80 != 0) == (f & 0x80 != 0) && ((f
            & !0x40u8) & 0x20 != 0) == (f & 0x20 != 0) && ((f & !0x40u8) & 0x10 != 0) == (f & 0x10
            != 0)
        &&& (f & !0x20u8) & 0x20 == 0 && ((f & !0x20u8) & 0x80 != 0) == (f & 0x80 != 0) && ((f
            & !0x20u8) & 0x40 != 0) == (f & 0x40 != 0) && ((f & !0x20u8) & 0x10 != 0) == (f & 0x10
            != 0)
        &&& (f & !0x10u8) & 0x10 == 0 && ((f & !0x10u8) & 0x80 != 0) == (f & 0x80 != 0) && ((f
            & !0x10u8) & 0x40 != 0) == (f & 0x40 != 0) && ((f & !0x10u8) & 0x20 != 0) == (f & 0x20
            != 0)
    }) by (bit_vector);
    lemma_flag_byte_packed(f | 0x80);
    lemma_flag_byte_packed(f | 0x40);
    lemma_flag_byte_packed(f | 0x20);
    lemma_flag_byte_packed(f | 0x10);
    lemma_flag_byte_packed(f & !0x80u8);
    lemma_flag_byte_packed(f & !0x40u8);
    lemma_flag_byte_packed(f & !0x20u8);
    lemma_flag_byte_packed(f & !0x10u8);
}

/// A byte with a zero low nibble is the packing of its four flag bits.
proof fn lemma_flag_byte_packed(f: u8)
    requires
        f & 0x0f == 0,
    ensures
        f == pack_flags(f & 0x80 != 0, f & 0x40 != 0, f & 0x20 != 0, f & 0x10 != 0),
{
    assert(f & 0x0f == 0 ==> f == (if f & 0x80 != 0 { 128u8 } else { 0u8 }) + (if f & 0x40 != 0 {
        64u8
    } else {
        0u8
    }) + (if f & 0x20 != 0 { 32u8 } else { 0u8 }) + (if f & 0x10 != 0 { 16u8 } else { 0u8 }))
        by (bit_vector);
}

/// The flag bits of a byte, read by masking and read by division, agree; and
/// masking a byte with 0xF0 clears its low nibble and keeps the flag bits.
proof fn lemma_flag_bits_of(v: u8)
    ensures
        (v & 0xf0) & 0x0f == 0,
        ((v & 0xf0) & 0x80 != 0) == (v / 128 % 2 == 1),
        ((v & 0xf0) & 0x40 != 0) == (v / 64 % 2 == 1),
        ((v & 0xf0) & 0x20 != 0) == (v / 32 % 2 == 1),
        ((v & 0xf0) & 0x10 != 0) == (v / 16 % 2 == 1),
{
    assert((v & 0xf0) & 0x0f == 0 && (((v & 0xf0) & 0x80 != 0) == (v / 128 % 2 == 1)) && (((v
        & 0xf0) & 0x40 != 0) == (v / 64 % 2 == 1)) && (((v & 0xf0) & 0x20 != 0) == (v / 32 % 2
        == 1)) && (((v & 0xf0) & 0x10 != 0) == (v / 16 % 2 == 1))) by (bit_vector);
}

/// The CPU register file.
///
/// The registers A, B, C, D, E, H, L and F are bytes, PC and SP are words.
/// They pair as AF, BC, DE and HL, the first of each pair being the high
/// byte. F holds the flags in its high nibble; its low nibble is always zero.
#[derive(Debug, Clone, Copy)]
#[allow(non_snake_case)]
pub struct Register {
    A: u8,
    B: u8,
    C: u8,
    D: u8,
    E: u8,
    F: u8,
    H: u8,
    L: u8,
    PC: u16,
    SP: u16,
}

impl Register {
    /// The low nibble of F is zero in every register file.
    #[verifier::type_invariant]
    pub closed spec fn inv(self) -> bool {
        self.F & 0x0f == 0
    }

    /// What the register file holds.
    pub closed spec fn view(&self) -> RegisterView {
        RegisterView {
            a: self.A,
            b: self.B,
            c: self.C,
            d: self.D,
            e: self.E,
            h: self.H,
            l: self.L,
            zf: self.F & 0x80 != 0,
            nf: self.F & 0x40 != 0,
            hf: self.F & 0x20 != 0,
            cf: self.F & 0x10 != 0,
            pc: self.PC,
            sp: self.SP,
        }
    }

    /// The register file that holds `v`.
    pub closed spec fn spec_from_view(v: RegisterView) -> Register {
        Register {
            A: v.a,
            B: v.b,
            C: v.c,
            D: v.d,
            E: v.e,
            F: v.f(),
            H: v.h,
            L: v.l,
            PC: v.pc,
            SP: v.sp,
        }
    }

    /// The register file that holds `v` is valid and holds `v`, and it is
    /// the only valid one that does.
    pub proof fn lemma_from_view(v: RegisterView)
        ensures
            Register::spec_from_view(v).inv(),
            Register::spec_from_view(v)@ == v,
            forall|r: Register| r.inv() && r@ == v ==> r == Register::spec_from_view(v),
    {
        lemma_packed_bits(v.zf, v.nf, v.hf, v.cf);
        assert forall|r: Register| r.inv() && r@ == v implies r == Register::spec_from_view(v) by {
            lemma_flag_byte_packed(r.F);
        }
    }

    /// Two valid register files that hold the same values are the same.
    pub proof fn lemma_view_injective(self, other: Register)
        requires
            self.inv(),
            other.inv(),
            self@ == other@,
        ensures
            self == other,
    {
        lemma_flag_byte_packed(self.F);
        lemma_flag_byte_packed(other.F);
    }
}

impl Default for Register {
    fn default() -> (r: Register)
        ensures
            r@ == RegisterView::zero(),
            r.inv(),
    {
        assert(0u8 & 0x0f == 0 && 0u8 & 0x80 == 0 && 0u8 & 0x40 == 0 && 0u8 & 0x20 == 0 && 0u8
            & 0x10 == 0) by (bit_vector);
        Register { A: 0, B: 0, C: 0, D: 0, E: 0, F: 0, H: 0, L: 0, PC: 0, SP: 0 }
    }
}

#[allow(non_snake_case)]
impl Register {
    /// Returns a register file with every register zero.
    pub fn new() -> (r: Register)
        ensures
            r@ == RegisterView::zero(),
            r.inv(),
    {
        Register::default()
    }

    /// Fills the registers with the values they have after boot on a console
    /// of the given variant.
    pub fn init(&mut self, term: Term)
        ensures
            final(self).inv(),
            final(self)@ == RegisterView::boot(term),
            final(self).inv(),
    {
        assert(0xb0u8 & 0x0f == 0 && 0xb0u8 & 0x80 != 0 && 0xb0u8 & 0x40 == 0 && 0xb0u8 & 0x20 != 0
            && 0xb0u8 & 0x10 != 0) by (bit_vector);
        let a: u8 = match term {
            Term::GB => 0x01,
            Term::GBP => 0xff,
            Term::GBC => 0x11,
            Term::SGB => 0x01,
        };
        *self = Register {
            A: a,
            B: 0x00,
            C: 0x13,
            D: 0x00,
            E: 0xd8,
            F: 0xb0,
            H: 0x01,
            L: 0x4d,
            PC: 0x0100,
            SP: 0xfffe,
        };
    }

    /// Builds a register file from what it is to hold.
    pub fn from_view(v: RegisterView) -> (r: Register)
        ensures
            r == Register::spec_from_view(v),
            r@ == v,
            r.inv(),
    {
        let mut f: u8 = 0;
        if v.zf {
            f = f + 128;
        }
        if v.nf {
            f = f + 64;
        }
        if v.hf {
            f = f + 32;
        }
        if v.cf {
            f = f + 16;
        }
        proof {
            lemma_packed_bits(v.zf, v.nf, v.hf, v.cf);
        }
        Register { A: v.a, B: v.b, C: v.c, D: v.d, E: v.e, F: f, H: v.h, L: v.l, PC: v.pc, SP: v.sp }
    }

    /// Returns the value of the `A` register.
    #[inline]
    pub fn get_A(&self) -> (r: u8)
        ensures
            r == self@.a,
    {
        self.A
    }

    /// Returns the value of the `B` register.
    #[inline]
    pub fn get_B(&self) -> (r: u8)
        ensures
            r == self@.b,
    {
        self.B
    }

    /// Returns the value of the `C` register.
    #[inline]
    pub fn get_C(&self) -> (r: u8)
        ensures
            r == self@.c,
    {
        self.C
    }

    /// Returns the value of the `D` register.
    #[inline]
    pub fn get_D(&self) -> (r: u8)
        ensures
            r == self@.d,
    {
        self.D
    }

    /// Returns the value of the `E` register.
    #[inline]
    pub fn get_E(&self) -> (r: u8)
        ensures
            r == self@.e,
    {
        self.E
    }

    /// Returns the value of the `H` register.
    #[inline]
    pub fn get_H(&self) -> (r: u8)
        ensures
            r == self@.h,
    {
        self.H
    }

    /// Returns the value of the `L` register.
    #[inline]
    pub fn get_L(&self) -> (r: u8)
        ensures
            r == self@.l,
    {
        self.L
    }

    /// Returns the value of the `PC` register.
    #[inline]
    pub fn get_PC(&self) -> (r: u16)
        ensures
            r == self@.pc,
    {
        self.PC
    }

    /// Returns the value of the `SP` register.
    #[inline]
    pub fn get_SP(&self) -> (r: u16)
        ensures
            r == self@.sp,
    {
        self.SP
    }

    /// Advances `PC` by one, wrapping at the end of the address space.
    #[inline]
    pub fn incr_PC(&mut self)
        ensures
            final(self).inv(),
            final(self)@ == (RegisterView { pc: old(self)@.pc.wrapping_add(1), ..old(self)@ }),
    {
        proof {
            use_type_invariant(&*self);
        }
        self.PC = self.PC.wrapping_add(1);
    }

    /// Returns the value of the pair `AF`. Its low nibble is zero.
    #[inline]
    pub fn get_AF(&self) -> (r: u16)
        ensures
            r == self@.af(),
            r % 16 == 0,
    {
        proof {
            use_type_invariant(self);
            lemma_flag_byte_packed(self.F);
        }
        make_word(self.A, self.F)
    }

    /// Returns the value of the pair `BC`.
    #[inline]
    pub fn get_BC(&self) -> (r: u16)
        ensures
            r == self@.bc(),
    {
        make_word(self.B, self.C)
    }

    /// Returns the value of the pair `DE`.
    #[inline]
    pub fn get_DE(&self) -> (r: u16)
        ensures
            r == self@.de(),
    {
        make_word(self.D, self.E)
    }

    /// Returns the value of the pair `HL`.
    #[inline]
    pub fn get_HL(&self) -> (r: u16)
        ensures
            r == self@.hl(),
    {
        make_word(self.H, self.L)
    }

    /// Sets the `A` register.
    #[inline]
    pub fn set_A(&mut self, v: u8)
        ensures
            final(self).inv(),
            final(self)@ == (RegisterView { a: v, ..old(self)@ }),
    {
        proof {
            use_type_invariant(&*self);
        }
        self.A = v;
    }

    /// Sets the `B` register.
    #[inline]
    pub fn set_B(&mut self, v: u8)
        ensures
            final(self).inv(),
            final(self)@ == (RegisterView { b: v, ..old(self)@ }),
    {
        proof {
            use_type_invariant(&*self);
        }
        self.B = v;
    }

    /// Sets the `C` register.
    #[inline]
    pub fn set_C(&mut self, v: u8)
        ensures
            final(self).inv(),
            final(self)@ == (RegisterView { c: v, ..old(self)@ }),
    {
        proof {
            use_type_invariant(&*self);
        }
        self.C = v;
    }

    /// Sets the `D` register.
    #[inline]
    pub fn set_D(&mut self, v: u8)
        ensures
            final(self).inv(),
            final(self)@ == (RegisterView { d: v, ..old(self)@ }),
    {
        proof {
            use_type_invariant(&*self);
        }
        self.D = v;
    }

    /// Sets the `E` register.
    #[inline]
    pub fn set_E(&mut self, v: u8)
        ensures
            final(self).inv(),
            final(self)@ == (RegisterView { e: v, ..old(self)@ }),
    {
        proof {
            use_type_invariant(&*self);
        }
        self.E = v;
    }

    /// Sets the `H` register.
    #[inline]
    pub fn set_H(&mut self, v: u8)
        ensures
            final(self).inv(),
            final(self)@ == (RegisterView { h: v, ..old(self)@ }),
    {
        proof {
            use_type_invariant(&*self);
        }
        self.H = v;
    }

    /// Sets the `L` register.
    #[inline]
    pub fn set_L(&mut self, v: u8)
        ensures
            final(self).inv(),
            final(self)@ == (RegisterView { l: v, ..old(self)@ }),
    {
        proof {
            use_type_invariant(&*self);
        }
        self.L = v;
    }

    /// Sets the pair `AF`. The low nibble of `v` is dropped.
    #[inline]
    pub fn set_AF(&mut self, v: u16)
        ensures
            final(self).inv(),
            final(self)@ == old(self)@.with_af(v),
    {
        proof {
            use_type_invariant(&*self);
            lemma_flag_bits_of(spec_low(v));
        }
        let f: u8 = low_byte(v) & 0xf0;
        *self = Register { A: high_byte(v), F: f, ..*self };
    }

    /// Sets the pair `BC`.
    #[inline]
    pub fn set_BC(&mut self, v: u16)
        ensures
            final(self).inv(),
            final(self)@ == old(self)@.with_bc(v),
            final(self)@.bc() == v,
    {
        proof {
            use_type_invariant(&*self);
        }
        *self = Register { B: high_byte(v), C: low_byte(v), ..*self };
    }

    /// Sets the pair `DE`.
    #[inline]
    pub fn set_DE(&mut self, v: u16)
        ensures
            final(self).inv(),
            final(self)@ == old(self)@.with_de(v),
            final(self)@.de() == v,
    {
        proof {
            use_type_invariant(&*self);
        }
        *self = Register { D: high_byte(v), E: low_byte(v), ..*self };
    }

    /// Sets the pair `HL`.
    #[inline]
    pub fn set_HL(&mut self, v: u16)
        ensures
            final(self).inv(),
            final(self)@ == old(self)@.with_hl(v),
            final(self)@.hl() == v,
    {
        proof {
            use_type_invariant(&*self);
        }
        *self = Register { H: high_byte(v), L: low_byte(v), ..*self };
    }

    /// Advances the pair `HL` by one, wrapping at 0xFFFF.
    #[inline]
    pub fn incr_HL(&mut self)
        ensures
            final(self).inv(),
            final(self)@ == old(self)@.with_hl(old(self)@.hl().wrapping_add(1)),
    {
        let v = self.get_HL();
        self.set_HL(v.wrapping_add(1));
    }

    /// Sets the `PC` register.
    #[inline]
    pub fn set_PC(&mut self, v: u16)
        ensures
            final(self).inv(),
            final(self)@ == (RegisterView { pc: v, ..old(self)@ }),
    {
        proof {
            use_type_invariant(&*self);
        }
        self.PC = v;
    }

    /// Sets the `SP` register.
    #[inline]
    pub fn set_SP(&mut self, v: u16)
        ensures
            final(self).inv(),
            final(self)@ == (RegisterView { sp: v, ..old(self)@ }),
    {
        proof {
            use_type_invariant(&*self);
        }
        self.SP = v;
    }

    /// Returns `true` if `flag` is set.
    #[inline]
    pub fn is_flag_set(&self, flag: Flag) -> (r: bool)
        ensures
            r == self@.flag(flag),
    {
        (self.F & flag.value()) != 0
    }

    /// Sets `flag`.
    pub fn set_flag(&mut self, flag: Flag)
        ensures
            final(self).inv(),
            final(self)@ == old(self)@.with_flag(flag, true),
    {
        proof {
            use_type_invariant(&*self);
            lemma_flag_byte(self.F);
            lemma_packed_bits(true, self@.nf, self@.hf, self@.cf);
            lemma_packed_bits(self@.zf, true, self@.hf, self@.cf);
            lemma_packed_bits(self@.zf, self@.nf, true, self@.cf);
            lemma_packed_bits(self@.zf, self@.nf, self@.hf, true);
        }
        self.F = self.F | flag.value();
    }

    /// Clears `flag`.
    pub fn unset_flag(&mut self, flag: Flag)
        ensures
            final(self).inv(),
            final(self)@ == old(self)@.with_flag(flag, false),
    {
        proof {
            use_type_invariant(&*self);
            lemma_flag_byte(self.F);
            lemma_packed_bits(false, self@.nf, self@.hf, self@.cf);
            lemma_packed_bits(self@.zf, false, self@.hf, self@.cf);
            lemma_packed_bits(self@.zf, self@.nf, false, self@.cf);
            lemma_packed_bits(self@.zf, self@.nf, self@.hf, false);
        }
        self.F = self.F & !flag.value();
    }

    /// Toggles `flag`.
    pub fn reverse_flag(&mut self, flag: Flag)
        ensures
            final(self).inv(),
            final(self)@ == old(self)@.with_flag(flag, !old(self)@.flag(flag)),
    {
        if self.is_flag_set(flag) {
            self.unset_flag(flag);
        } else {
            self.set_flag(flag);
        }
    }

    /// Replaces all four flags.
    pub fn put_flags(&mut self, zf: bool, nf: bool, hf: bool, cf: bool)
        ensures
            final(self).inv(),
            final(self)@ == old(self)@.with_flags(zf, nf, hf, cf),
    {
        proof {
            use_type_invariant(&*self);
            lemma_packed_bits(zf, nf, hf, cf);
        }
        let mut f: u8 = 0;
        if zf {
            f = f + 128;
        }
        if nf {
            f = f + 64;
        }
        if hf {
            f = f + 32;
        }
        if cf {
            f = f + 16;
        }
        self.F = f;
    }
}

/// The bits of a packed flag byte are the flags it was packed from, and its
/// low nibble is zero.
proof fn lemma_packed_bits(zf: bool, nf: bool, hf: bool, cf: bool)
    ensures
        pack_flags(zf, nf, hf, cf) & 0x0f == 0,
        (pack_flags(zf, nf, hf, cf) & 0x80 != 0) == zf,
        (pack_flags(zf, nf, hf, cf) & 0x40 != 0) == nf,
        (pack_flags(zf, nf, hf, cf) & 0x20 != 0) == hf,
        (pack_flags(zf, nf, hf, cf) & 0x10 != 0) == cf,
{
    let f = pack_flags(zf, nf, hf, cf);
    assert(f % 16 == 0 ==> f & 0x0f == 0 && ((f & 0x80 != 0) == (f / 128 % 2 == 1)) && ((f & 0x40
        != 0) == (f / 64 % 2 == 1)) && ((f & 0x20 != 0) == (f / 32 % 2 == 1)) && ((f & 0x10 != 0)
        == (f / 16 % 2 == 1))) by (bit_vector);
}

/// The five interrupt sources, in the order of their bits in the
/// interrupt-flag and interrupt-enable registers.
#[derive(Clone, Copy, Debug, PartialEq, Eq, Structural)]
pub enum IntFlag {
    /// Bit 0: vertical blanking.
    VBlank,
    /// Bit 1: LCD status.
    LCDStat,
    /// Bit 2: timer overflow.
    Timer,
    /// Bit 3: serial transfer.
    Serial,
    /// Bit 4: joypad.
    Joypad,
}

impl IntFlag {
    /// The number of the source's bit.
    pub open spec fn spec_bit(self) -> u8 {
        match self {
            IntFlag::VBlank => 0,
            IntFlag::LCDStat => 1,
            IntFlag::Timer => 2,
            IntFlag::Serial => 3,
            IntFlag::Joypad => 4,
        }
    }

    /// The number of the source's bit.
    pub fn bit(self) -> (r: u8)
        ensures
            r == self.spec_bit(),
            r <= 4,
    {
        match self {
            IntFlag::VBlank => 0,
            IntFlag::LCDStat => 1,
            IntFlag::Timer => 2,
            IntFlag::Serial => 3,
            IntFlag::Joypad => 4,
        }
    }
}

/// The interrupt-flag register: one request bit for each interrupt source.
pub struct IntReg {
    pub data: u8,
}

impl IntReg {
    /// Returns a register with no request pending.
    pub fn new() -> (r: IntReg)
        ensures
            r.data == 0,
    {
        IntReg { data: 0x00 }
    }

    /// Requests the interrupt of the given source.
    pub fn req(&mut self, flag: IntFlag)
        ensures
            final(self).data == spec_set_bit(old(self).data, flag.spec_bit()),
    {
        self.data = set_bit(self.data, flag.bit());
    }
}

} // verus!
