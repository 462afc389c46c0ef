//! Laws of the instruction set.

use vstd::prelude::*;

use crate::gameboy::cpu::cpu::CPU;
use crate::gameboy::cpu::decode::spec_known;
use crate::gameboy::cpu::decode::spec_stack_pair;
use crate::gameboy::cpu::register::Register;
use crate::gameboy::cpu::register::RegisterView;
use crate::gameboy::mmu::word_at;
use crate::gameboy::mmu::IOHandler;

verus! {

/// The low nibble of F is zero in every register file, and so is the low
/// nibble of AF.
pub proof fn law_flags_low_nibble(reg: Register)
    requires
        reg.inv(),
    ensures
        reg@.f() % 16 == 0,
        reg@.af() % 16 == 0,
{
}

/// Writing AF and reading it back gives the word written with its low
/// nibble cleared.
pub proof fn law_af_masked(r: RegisterView, v: u16)
    ensures
        r.with_af(v).af() == v - v % 16,
{
}

impl<M: IOHandler> CPU<M> {
    /// INC B followed by DEC B restores B.
    #[verifier::rlimit(40)]
    proof fn inc_dec_b(c0: Self, c1: Self, c2: Self)
        requires
            Self::post_misc(0x04, c0, c1, 0),
            Self::post_misc(0x05, c1, c2, 0),
        ensures
            c2.reg@.with_flags(c0.reg@.zf, c0.reg@.nf, c0.reg@.hf, c0.reg@.cf) == c0.reg@,
            c2.data_bus == c0.data_bus,
    {
    }

    /// INC C followed by DEC C restores C.
    #[verifier::rlimit(40)]
    proof fn inc_dec_c(c0: Self, c1: Self, c2: Self)
        requires
            Self::post_misc(0x0c, c0, c1, 0),
            Self::post_misc(0x0d, c1, c2, 0),
        ensures
            c2.reg@.with_flags(c0.reg@.zf, c0.reg@.nf, c0.reg@.hf, c0.reg@.cf) == c0.reg@,
            c2.data_bus == c0.data_bus,
    {
    }

    /// INC D followed by DEC D restores D.
    #[verifier::rlimit(40)]
    proof fn inc_dec_d(c0: Self, c1: Self, c2: Self)
        requires
            Self::post_misc(0x14, c0, c1, 0),
            Self::post_misc(0x15, c1, c2, 0),
        ensures
            c2.reg@.with_flags(c0.reg@.zf, c0.reg@.nf, c0.reg@.hf, c0.reg@.cf) == c0.reg@,
            c2.data_bus == c0.data_bus,
    {
    }

    /// INC E followed by DEC E restores E.
    #[verifier::rlimit(40)]
    proof fn inc_dec_e(c0: Self, c1: Self, c2: Self)
        requires
            Self::post_misc(0x1c, c0, c1, 0),
            Self::post_misc(0x1d, c1, c2, 0),
        ensures
            c2.reg@.with_flags(c0.reg@.zf, c0.reg@.nf, c0.reg@.hf, c0.reg@.cf) == c0.reg@,
            c2.data_bus == c0.data_bus,
    {
    }

    /// INC H followed by DEC H restores H.
    #[verifier::rlimit(40)]
    proof fn inc_dec_h(c0: Self, c1: Self, c2: Self)
        requires
            Self::post_misc(0x24, c0, c1, 0),
            Self::post_misc(0x25, c1, c2, 0),
        ensures
            c2.reg@.with_flags(c0.reg@.zf, c0.reg@.nf, c0.reg@.hf, c0.reg@.cf) == c0.reg@,
            c2.data_bus == c0.data_bus,
    {
    }

    /// INC L followed by DEC L restores L.
    #[verifier::rlimit(40)]
    proof fn inc_dec_l(c0: Self, c1: Self, c2: Self)
        requires
            Self::post_misc(0x2c, c0, c1, 0),
            Self::post_misc(0x2d, c1, c2, 0),
        ensures
            c2.reg@.with_flags(c0.reg@.zf, c0.reg@.nf, c0.reg@.hf, c0.reg@.cf) == c0.reg@,
            c2.data_bus == c0.data_bus,
    {
    }

    /// INC A followed by DEC A restores A.
    #[verifier::rlimit(40)]
    proof fn inc_dec_a(c0: Self, c1: Self, c2: Self)
        requires
            Self::post_misc(0x3c, c0, c1, 0),
            Self::post_misc(0x3d, c1, c2, 0),
        ensures
            c2.reg@.with_flags(c0.reg@.zf, c0.reg@.nf, c0.reg@.hf, c0.reg@.cf) == c0.reg@,
            c2.data_bus == c0.data_bus,
    {
    }

    /// PUSH BC followed by POP BC restores every register.
    #[verifier::rlimit(40)]
    proof fn push_pop_bc(c0: Self, c1: Self, c2: Self)
        requires
            Self::post_flow(0xc5, c0, c1, 0),
            Self::post_flow(0xc1, c1, c2, 0),
            word_at(&c1.data_bus, c1.reg@.sp) == c0.reg@.bc(),
        ensures
            c2.reg@ == c0.reg@,
            c2.data_bus == c1.data_bus,
    {
    }

    /// PUSH DE followed by POP DE restores every register.
    #[verifier::rlimit(40)]
    proof fn push_pop_de(c0: Self, c1: Self, c2: Self)
        requires
            Self::post_flow(0xd5, c0, c1, 0),
            Self::post_flow(0xd1, c1, c2, 0),
            word_at(&c1.data_bus, c1.reg@.sp) == c0.reg@.de(),
        ensures
            c2.reg@ == c0.reg@,
            c2.data_bus == c1.data_bus,
    {
    }

    /// PUSH HL followed by POP HL restores every register.
    #[verifier::rlimit(40)]
    proof fn push_pop_hl(c0: Self, c1: Self, c2: Self)
        requires
            Self::post_flow(0xe5, c0, c1, 0),
            Self::post_flow(0xe1, c1, c2, 0),
            word_at(&c1.data_bus, c1.reg@.sp) == c0.reg@.hl(),
        ensures
            c2.reg@ == c0.reg@,
            c2.data_bus == c1.data_bus,
    {
    }

    /// PUSH AF followed by POP AF restores every register.
    #[verifier::rlimit(40)]
    proof fn push_pop_af(c0: Self, c1: Self, c2: Self)
        requires
            Self::post_flow(0xf5, c0, c1, 0),
            Self::post_flow(0xf1, c1, c2, 0),
            word_at(&c1.data_bus, c1.reg@.sp) == c0.reg@.af(),
        ensures
            c2.reg@ == c0.reg@,
            c2.data_bus == c1.data_bus,
    {
    }

    /// INC r followed by DEC r restores r, for each of the registers B, C,
    /// D, E, H, L and A. No register but F differs from before.
    pub proof fn law_inc_dec(c0: Self, c1: Self, c2: Self, i: u8)
        requires
            i < 8,
            i != 6,
            Self::instr_post((0x04 + 8 * i) as u8, c0, c1, 0),
            Self::instr_post((0x05 + 8 * i) as u8, c1, c2, 0),
        ensures
            c2.spec_operand(i) == c0.spec_operand(i),
            c2.reg@.with_flags(c0.reg@.zf, c0.reg@.nf, c0.reg@.hf, c0.reg@.cf) == c0.reg@,
            c2.data_bus == c0.data_bus,
    {
        if i == 0 {
            Self::inc_dec_b(c0, c1, c2);
        } else if i == 1 {
            Self::inc_dec_c(c0, c1, c2);
        } else if i == 2 {
            Self::inc_dec_d(c0, c1, c2);
        } else if i == 3 {
            Self::inc_dec_e(c0, c1, c2);
        } else if i == 4 {
            Self::inc_dec_h(c0, c1, c2);
        } else if i == 5 {
            Self::inc_dec_l(c0, c1, c2);
        } else {
            Self::inc_dec_a(c0, c1, c2);
        }
    }

    /// PUSH rr followed by POP rr restores every register, for each of the
    /// pairs BC, DE, HL and AF, where the stack reads back the word that
    /// was pushed. The stack pointer is back where it was.
    pub proof fn law_push_pop(c0: Self, c1: Self, c2: Self, i: u8)
        requires
            i < 4,
            Self::instr_post((0xc5 + 16 * i) as u8, c0, c1, 0),
            Self::instr_post((0xc1 + 16 * i) as u8, c1, c2, 0),
            word_at(&c1.data_bus, c1.reg@.sp) == spec_stack_pair(c0.reg@, i as int),
        ensures
            c2.reg@ == c0.reg@,
            c2.data_bus == c1.data_bus,
    {
        if i == 0 {
            Self::push_pop_bc(c0, c1, c2);
        } else if i == 1 {
            Self::push_pop_de(c0, c1, c2);
        } else if i == 2 {
            Self::push_pop_hl(c0, c1, c2);
        } else {
            Self::push_pop_af(c0, c1, c2);
        }
    }

    /// CPL followed by CPL restores A and leaves N and H set. No other
    /// register and no other flag differs from before.
    pub proof fn law_cpl_cpl(c0: Self, c1: Self, c2: Self)
        requires
            Self::instr_post(0x2f, c0, c1, 0),
            Self::instr_post(0x2f, c1, c2, 0),
        ensures
            c2.reg@ == (RegisterView { nf: true, hf: true, ..c0.reg@ }),
            c2.data_bus == c0.data_bus,
    {
    }

    /// CCF followed by CCF restores C. N and H are clear, and no register
    /// and no other flag differs from before.
    pub proof fn law_ccf_ccf(c0: Self, c1: Self, c2: Self)
        requires
            Self::instr_post(0x3f, c0, c1, 0),
            Self::instr_post(0x3f, c1, c2, 0),
        ensures
            c2.reg@ == (RegisterView { nf: false, hf: false, ..c0.reg@ }),
            c2.reg@.cf == c0.reg@.cf,
            c2.data_bus == c0.data_bus,
    {
    }

    /// No instruction but EI and RETI enables interrupts, and none but DI
    /// disables them.
    #[verifier::rlimit(40)]
    pub proof fn law_ime_changes(code: u8, pre: Self, post: Self, extra: u32)
        requires
            spec_known(code),
            Self::instr_post(code, pre, post, extra),
        ensures
            code == 0xfb || code == 0xd9 ==> post.ime_flag,
            code == 0xf3 ==> !post.ime_flag,
            code != 0xfb && code != 0xd9 && code != 0xf3 ==> post.ime_flag == pre.ime_flag,
    {
        if code < 0x40 {
            assert(Self::post_misc(code, pre, post, extra));
        } else if code < 0x80 {
            assert(Self::post_load(code, pre, post, extra));
        } else if code < 0xc0 {
            assert(Self::post_arith(code, pre, post, extra));
        } else {
            assert(Self::post_flow(code, pre, post, extra));
            let row = (code / 8) % 8;
            let col = code % 8;
            assert(code == 0xc0 + 8 * row + col);
        }
    }

    /// No instruction but HALT halts the processor, and none ends a halt.
    #[verifier::rlimit(40)]
    pub proof fn law_halt_changes(code: u8, pre: Self, post: Self, extra: u32)
        requires
            spec_known(code),
            Self::instr_post(code, pre, post, extra),
        ensures
            code == 0x76 ==> post.is_halt,
            code != 0x76 ==> post.is_halt == pre.is_halt,
    {
        if code < 0x40 {
            assert(Self::post_misc(code, pre, post, extra));
        } else if code < 0x80 {
            assert(Self::post_load(code, pre, post, extra));
        } else if code < 0xc0 {
            assert(Self::post_arith(code, pre, post, extra));
        } else {
            assert(Self::post_flow(code, pre, post, extra));
            let row = (code / 8) % 8;
            let col = code % 8;
            assert(code == 0xc0 + 8 * row + col);
        }
    }

    /// An interrupt is serviced only with interrupts enabled, and leaves
    /// them disabled: after it, no further interrupt is serviced before an
    /// instruction enables them again.
    pub proof fn law_dispatch_disables(c0: Self, c1: Self)
        requires
            c0.spec_dispatches(),
            c0.spec_interrupted(c1),
        ensures
            c0.ime_flag,
            !c1.ime_flag,
            !c1.spec_dispatches(),
    {
    }
}

} // verus!
