//! What each instruction does, by the fields of its code.

use vstd::prelude::*;

use crate::gameboy::cpu::alu::alu_add;
use crate::gameboy::cpu::alu::alu_add_hl;
use crate::gameboy::cpu::alu::alu_and;
use crate::gameboy::cpu::alu::alu_ccf;
use crate::gameboy::cpu::alu::alu_compare;
use crate::gameboy::cpu::alu::alu_cpl;
use crate::gameboy::cpu::alu::alu_daa;
use crate::gameboy::cpu::alu::alu_dec;
use crate::gameboy::cpu::alu::alu_inc;
use crate::gameboy::cpu::alu::alu_or;
use crate::gameboy::cpu::alu::alu_rotate_a;
use crate::gameboy::cpu::alu::alu_scf;
use crate::gameboy::cpu::alu::alu_sp_flags;
use crate::gameboy::cpu::alu::alu_sub;
use crate::gameboy::cpu::alu::alu_xor;
use crate::gameboy::cpu::alu::jr_target;
use crate::gameboy::cpu::alu::sp_plus;
use crate::gameboy::cpu::alu::wrap16;
use crate::gameboy::cpu::alu::wrap8;
use crate::gameboy::cpu::cpu::CPU;
use crate::gameboy::cpu::op_prefix::cb_cycles;
use crate::gameboy::cpu::op_prefix::cb_shift;
use crate::gameboy::cpu::op_prefix::with_operand;
use crate::gameboy::cpu::register::RegisterView;
use crate::gameboy::mmu::word_at;
use crate::gameboy::mmu::IOHandler;
use crate::gameboy::util::spec_word;

verus! {

/// Whether `code` is an instruction. Eleven codes are unassigned.
pub open spec fn spec_known(code: u8) -> bool {
    code != 0xd3 && code != 0xdb && code != 0xdd && code != 0xe3 && code != 0xe4 && code != 0xeb
        && code != 0xec && code != 0xed && code != 0xf4 && code != 0xfc && code != 0xfd
}

/// The 16-bit operand number `i`: BC, DE, HL, SP.
pub open spec fn spec_pair(r: RegisterView, i: int) -> u16 {
    if i == 0 {
        r.bc()
    } else if i == 1 {
        r.de()
    } else if i == 2 {
        r.hl()
    } else {
        r.sp
    }
}

/// The registers with the 16-bit operand number `i` replaced by `v`.
pub open spec fn with_pair(r: RegisterView, i: int, v: u16) -> RegisterView {
    if i == 0 {
        r.with_bc(v)
    } else if i == 1 {
        r.with_de(v)
    } else if i == 2 {
        r.with_hl(v)
    } else {
        RegisterView { sp: v, ..r }
    }
}

/// The pair number `i` that PUSH and POP move: BC, DE, HL, AF.
pub open spec fn spec_stack_pair(r: RegisterView, i: int) -> u16 {
    if i == 3 {
        r.af()
    } else {
        spec_pair(r, i)
    }
}

/// The registers with the pair number `i` of PUSH and POP replaced by `v`.
pub open spec fn with_stack_pair(r: RegisterView, i: int, v: u16) -> RegisterView {
    if i == 3 {
        r.with_af(v)
    } else {
        with_pair(r, i, v)
    }
}

/// The condition number `i`: NZ, Z, NC, C.
pub open spec fn spec_cond(r: RegisterView, i: int) -> bool {
    if i == 0 {
        !r.zf
    } else if i == 1 {
        r.zf
    } else if i == 2 {
        !r.cf
    } else {
        r.cf
    }
}

/// The arithmetic or logic operation number `k` on A and `v`: ADD, ADC,
/// SUB, SBC, AND, XOR, OR, CP.
pub open spec fn alu_apply(k: int, r: RegisterView, v: u8) -> RegisterView {
    if k == 0 {
        alu_add(r, v, false)
    } else if k == 1 {
        alu_add(r, v, r.cf)
    } else if k == 2 {
        alu_sub(r, v, false)
    } else if k == 3 {
        alu_sub(r, v, r.cf)
    } else if k == 4 {
        alu_and(r, v)
    } else if k == 5 {
        alu_xor(r, v)
    } else if k == 6 {
        alu_or(r, v)
    } else {
        alu_compare(r, v)
    }
}

/// The ticks that the instruction `code` takes at least. A branch that is
/// taken and a prefixed instruction take more.
pub open spec fn spec_clock(code: u8) -> u32 {
    let row = (code / 8) % 8;
    let col = code % 8;
    if code < 0x40 {
        if col == 0 {
            if row == 1 {
                20
            } else if row == 3 {
                12
            } else if row == 0 || row == 2 {
                4
            } else {
                8
            }
        } else if col == 1 {
            if row % 2 == 0 {
                12
            } else {
                8
            }
        } else if col == 2 || col == 3 {
            8
        } else if col == 4 || col == 5 {
            if row == 6 {
                12
            } else {
                4
            }
        } else if col == 6 {
            if row == 6 {
                12
            } else {
                8
            }
        } else {
            4
        }
    } else if code < 0x80 {
        if code == 0x76 {
            4
        } else if row == 6 || col == 6 {
            8
        } else {
            4
        }
    } else if code < 0xc0 {
        if col == 6 {
            8
        } else {
            4
        }
    } else if col == 0 {
        if row < 4 {
            8
        } else if row == 5 {
            16
        } else {
            12
        }
    } else if col == 1 {
        if row % 2 == 0 {
            12
        } else if row == 1 || row == 3 {
            16
        } else if row == 5 {
            4
        } else {
            8
        }
    } else if col == 2 {
        if row < 4 {
            12
        } else if row == 4 || row == 6 {
            8
        } else {
            16
        }
    } else if col == 3 {
        if row == 0 {
            16
        } else {
            4
        }
    } else if col == 4 {
        12
    } else if col == 5 {
        if row == 1 {
            24
        } else {
            16
        }
    } else if col == 6 {
        8
    } else {
        16
    }
}

impl<M: IOHandler> CPU<M> {
    /// The registers after a relative jump by the offset at the program
    /// counter.
    pub open spec fn spec_jr(self) -> RegisterView {
        RegisterView { pc: jr_target(wrap16(self.reg@.pc + 1), self.spec_imm()), ..self.reg@ }
    }

    /// The word on top of the stack.
    pub open spec fn spec_top(self) -> u16 {
        word_at(&self.data_bus, self.reg@.sp)
    }

    /// The registers after the return address was popped into PC.
    pub open spec fn spec_ret(self) -> RegisterView {
        RegisterView { pc: self.spec_top(), sp: wrap16(self.reg@.sp + 2), ..self.reg@ }
    }

    /// `post` is this processor after a call of the address after the
    /// opcode: the address of the next instruction is pushed.
    pub open spec fn spec_call(self, post: Self) -> bool {
        self.word_to(
            post,
            wrap16(self.reg@.sp - 2),
            wrap16(self.reg@.pc + 2),
            (RegisterView {
                pc: self.spec_imm_word(),
                sp: wrap16(self.reg@.sp - 2),
                ..self.reg@
            }),
        )
    }

    /// What an instruction with a code below 0x40 does.
    pub open spec fn post_misc(code: u8, pre: Self, post: Self, extra: u32) -> bool {
        let row = code / 8;
        let col = code % 8;
        let r = pre.reg@;
        let v = pre.spec_operand(row);
        if col == 0 {
            if row == 0 || row == 2 {
                post == pre && extra == 0
            } else if row == 1 {
                pre.word_to(post, pre.spec_imm_word(), r.sp, pre.spec_skip(2)) && extra == 0
            } else if row == 3 {
                pre.regs_to(post, pre.spec_jr()) && extra == 0
            } else if spec_cond(r, row - 4) {
                pre.regs_to(post, pre.spec_jr()) && extra == 4
            } else {
                pre.regs_to(post, pre.spec_skip(1)) && extra == 0
            }
        } else if col == 1 {
            if row % 2 == 0 {
                pre.regs_to(post, with_pair(pre.spec_skip(2), (row / 2) as int, pre.spec_imm_word()))
                    && extra == 0
            } else {
                pre.regs_to(post, alu_add_hl(r, spec_pair(r, (row / 2) as int))) && extra == 0
            }
        } else if col == 2 {
            let addr = if row < 2 {
                r.bc()
            } else if row < 4 {
                r.de()
            } else {
                r.hl()
            };
            let next = if row < 4 {
                r
            } else if row < 6 {
                r.with_hl(wrap16(r.hl() + 1))
            } else {
                r.with_hl(wrap16(r.hl() - 1))
            };
            if row % 2 == 0 {
                pre.byte_to(post, addr, r.a, next) && extra == 0
            } else {
                pre.regs_to(post, (RegisterView { a: pre.data_bus.byte_at(addr), ..next }))
                    && extra == 0
            }
        } else if col == 3 {
            if row % 2 == 0 {
                pre.regs_to(post, with_pair(r, (row / 2) as int, wrap16(spec_pair(r, (row / 2) as int) + 1)))
                    && extra == 0
            } else {
                pre.regs_to(post, with_pair(r, (row / 2) as int, wrap16(spec_pair(r, (row / 2) as int) - 1)))
                    && extra == 0
            }
        } else if col == 4 {
            if row == 6 {
                pre.byte_to(post, r.hl(), wrap8(v + 1), alu_inc(r, v)) && extra == 0
            } else {
                pre.regs_to(post, with_operand(alu_inc(r, v), row, wrap8(v + 1))) && extra == 0
            }
        } else if col == 5 {
            if row == 6 {
                pre.byte_to(post, r.hl(), wrap8(v - 1), alu_dec(r, v)) && extra == 0
            } else {
                pre.regs_to(post, with_operand(alu_dec(r, v), row, wrap8(v - 1))) && extra == 0
            }
        } else if col == 6 {
            if row == 6 {
                pre.byte_to(post, r.hl(), pre.spec_imm(), pre.spec_skip(1)) && extra == 0
            } else {
                pre.regs_to(post, with_operand(pre.spec_skip(1), row, pre.spec_imm())) && extra
                    == 0
            }
        } else if row < 4 {
            pre.regs_to(post, alu_rotate_a(r, cb_shift(row))) && extra == 0
        } else if row == 4 {
            pre.regs_to(post, alu_daa(r)) && extra == 0
        } else if row == 5 {
            pre.regs_to(post, alu_cpl(r)) && extra == 0
        } else if row == 6 {
            pre.regs_to(post, alu_scf(r)) && extra == 0
        } else {
            pre.regs_to(post, alu_ccf(r)) && extra == 0
        }
    }

    /// What an instruction with a code from 0x40 to 0x7F does: HALT, or a
    /// load from the operand in the low three bits to the operand in the
    /// next three.
    pub open spec fn post_load(code: u8, pre: Self, post: Self, extra: u32) -> bool {
        let dst = (code / 8) % 8;
        let src = code % 8;
        if code == 0x76 {
            post == (CPU { is_halt: true, ..pre }) && extra == 0
        } else if dst == 6 {
            pre.byte_to(post, pre.reg@.hl(), pre.spec_operand(src), pre.reg@) && extra == 0
        } else {
            pre.regs_to(post, with_operand(pre.reg@, dst, pre.spec_operand(src))) && extra == 0
        }
    }

    /// What an instruction with a code from 0x80 to 0xBF does: the operation
    /// in bits 3 to 5 on A and the operand in the low three bits.
    pub open spec fn post_arith(code: u8, pre: Self, post: Self, extra: u32) -> bool {
        pre.regs_to(post, alu_apply(((code / 8) % 8) as int, pre.reg@, pre.spec_operand(code % 8))) && extra
            == 0
    }

    /// What an instruction with a code from 0xC0 does.
    pub open spec fn post_flow(code: u8, pre: Self, post: Self, extra: u32) -> bool {
        let row = (code / 8) % 8;
        let col = code % 8;
        let r = pre.reg@;
        let high = spec_word(0xff, pre.spec_imm());
        let high_c = spec_word(0xff, r.c);
        if col == 0 {
            if row < 4 {
                if spec_cond(r, row as int) {
                    pre.regs_to(post, pre.spec_ret()) && extra == 12
                } else {
                    post == pre && extra == 0
                }
            } else if row == 4 {
                pre.byte_to(post, high, r.a, pre.spec_skip(1)) && extra == 0
            } else if row == 5 {
                pre.regs_to(
                    post,
                    (RegisterView {
                        sp: sp_plus(r, pre.spec_imm()),
                        ..alu_sp_flags(pre.spec_skip(1), pre.spec_imm())
                    }),
                ) && extra == 0
            } else if row == 6 {
                pre.regs_to(
                    post,
                    (RegisterView { a: pre.data_bus.byte_at(high), ..pre.spec_skip(1) }),
                ) && extra == 0
            } else {
                pre.regs_to(
                    post,
                    alu_sp_flags(pre.spec_skip(1), pre.spec_imm()).with_hl(
                        sp_plus(r, pre.spec_imm()),
                    ),
                ) && extra == 0
            }
        } else if col == 1 {
            if row % 2 == 0 {
                pre.regs_to(
                    post,
                    with_stack_pair(
                        (RegisterView { sp: wrap16(r.sp + 2), ..r }),
                        (row / 2) as int,
                        pre.spec_top(),
                    ),
                ) && extra == 0
            } else if row == 1 {
                pre.regs_to(post, pre.spec_ret()) && extra == 0
            } else if row == 3 {
                post.reg@ == pre.spec_ret() && post == (CPU {
                    reg: post.reg,
                    ime_flag: true,
                    ..pre
                }) && extra == 0
            } else if row == 5 {
                pre.regs_to(post, (RegisterView { pc: r.hl(), ..r })) && extra == 0
            } else {
                pre.regs_to(post, (RegisterView { sp: r.hl(), ..r })) && extra == 0
            }
        } else if col == 2 {
            if row < 4 {
                if spec_cond(r, row as int) {
                    pre.regs_to(post, (RegisterView { pc: pre.spec_imm_word(), ..r })) && extra
                        == 4
                } else {
                    pre.regs_to(post, pre.spec_skip(2)) && extra == 0
                }
            } else if row == 4 {
                pre.byte_to(post, high_c, r.a, r) && extra == 0
            } else if row == 5 {
                pre.byte_to(post, pre.spec_imm_word(), r.a, pre.spec_skip(2)) && extra == 0
            } else if row == 6 {
                pre.regs_to(post, (RegisterView { a: pre.data_bus.byte_at(high_c), ..r }))
                    && extra == 0
            } else {
                pre.regs_to(
                    post,
                    (RegisterView {
                        a: pre.data_bus.byte_at(pre.spec_imm_word()),
                        ..pre.spec_skip(2)
                    }),
                ) && extra == 0
            }
        } else if col == 3 {
            if row == 0 {
                pre.regs_to(post, (RegisterView { pc: pre.spec_imm_word(), ..r })) && extra == 0
            } else if row == 1 {
                pre.with_regs(pre.spec_skip(1)).cb_post(pre.spec_imm(), post) && extra
                    == cb_cycles(pre.spec_imm())
            } else if row == 6 {
                post == (CPU { ime_flag: false, ..pre }) && extra == 0
            } else if row == 7 {
                post == (CPU { ime_flag: true, ..pre }) && extra == 0
            } else {
                false
            }
        } else if col == 4 {
            if row < 4 {
                if spec_cond(r, row as int) {
                    pre.spec_call(post) && extra == 12
                } else {
                    pre.regs_to(post, pre.spec_skip(2)) && extra == 0
                }
            } else {
                false
            }
        } else if col == 5 {
            if row % 2 == 0 {
                pre.word_to(
                    post,
                    wrap16(r.sp - 2),
                    spec_stack_pair(r, (row / 2) as int),
                    (RegisterView { sp: wrap16(r.sp - 2), ..r }),
                ) && extra == 0
            } else if row == 1 {
                pre.spec_call(post) && extra == 0
            } else {
                false
            }
        } else if col == 6 {
            pre.regs_to(post, alu_apply(row as int, pre.spec_skip(1), pre.spec_imm())) && extra
                == 0
        } else {
            pre.word_to(
                post,
                wrap16(r.sp - 2),
                r.pc,
                (RegisterView { pc: (8 * row) as u16, sp: wrap16(r.sp - 2), ..r }),
            ) && extra == 0
        }
    }

    /// What the instruction `code` makes of the processor `pre`, whose
    /// program counter is behind the opcode: `post` is the processor after
    /// it, and `extra` the ticks it took beyond `spec_clock(code)`.
    pub open spec fn instr_post(code: u8, pre: Self, post: Self, extra: u32) -> bool {
        if code < 0x40 {
            Self::post_misc(code, pre, post, extra)
        } else if code < 0x80 {
            Self::post_load(code, pre, post, extra)
        } else if code < 0xc0 {
            Self::post_arith(code, pre, post, extra)
        } else {
            Self::post_flow(code, pre, post, extra)
        }
    }
}

} // verus!
