//! The instructions behind the prefix 0xCB: rotates, shifts and single bits.

use vstd::prelude::*;

use crate::gameboy::cpu::alu::alu_bit;
use crate::gameboy::cpu::alu::alu_res;
use crate::gameboy::cpu::alu::alu_set;
use crate::gameboy::cpu::alu::alu_shift;
use crate::gameboy::cpu::alu::shift_value;
use crate::gameboy::cpu::alu::Shift;
use crate::gameboy::cpu::cpu::CPU;
use crate::gameboy::cpu::register::RegisterView;
use crate::gameboy::mmu::IOHandler;

verus! {

/// The registers with the 8-bit operand number `i` replaced by `v`. The
/// operands are numbered B, C, D, E, H, L, the byte at HL, A; number 6 is
/// in memory and leaves the registers as they are.
pub open spec fn with_operand(r: RegisterView, i: u8, v: u8) -> RegisterView {
    if i == 0 {
        RegisterView { b: v, ..r }
    } else if i == 1 {
        RegisterView { c: v, ..r }
    } else if i == 2 {
        RegisterView { d: v, ..r }
    } else if i == 3 {
        RegisterView { e: v, ..r }
    } else if i == 4 {
        RegisterView { h: v, ..r }
    } else if i == 5 {
        RegisterView { l: v, ..r }
    } else if i == 6 {
        r
    } else {
        RegisterView { a: v, ..r }
    }
}

/// The rotate or shift in row `row` of the prefixed table.
pub open spec fn cb_shift(row: u8) -> Shift {
    if row == 0 {
        Shift::Rlc
    } else if row == 1 {
        Shift::Rrc
    } else if row == 2 {
        Shift::Rl
    } else if row == 3 {
        Shift::Rr
    } else if row == 4 {
        Shift::Sla
    } else if row == 5 {
        Shift::Sra
    } else if row == 6 {
        Shift::Swap
    } else {
        Shift::Srl
    }
}

/// The byte that the prefixed operation in row `row` makes of the operand
/// `v`: rows 0 to 7 rotate and shift, rows 8 to 15 test a bit and keep the
/// operand, rows 16 to 23 clear a bit, rows 24 to 31 set one.
pub open spec fn cb_value(r: RegisterView, row: u8, v: u8) -> u8 {
    if row < 8 {
        shift_value(cb_shift(row), v, r.cf)
    } else if row < 16 {
        v
    } else if row < 24 {
        alu_res(v, (row - 16) as u8)
    } else {
        alu_set(v, (row - 24) as u8)
    }
}

/// The registers after the flags of the prefixed operation in row `row` on
/// the operand `v` are set. Clearing and setting a bit change no flag.
pub open spec fn cb_regs(r: RegisterView, row: u8, v: u8) -> RegisterView {
    if row < 8 {
        alu_shift(r, cb_shift(row), v)
    } else if row < 16 {
        alu_bit(r, v, (row - 8) as u8)
    } else {
        r
    }
}

/// The ticks of a prefixed instruction beyond the four of the prefix: four
/// on a register; on the byte at HL eight to test a bit and twelve to
/// change it.
pub open spec fn cb_cycles(op: u8) -> u32 {
    if op % 8 != 6 {
        4
    } else if 8 <= op / 8 < 16 {
        8
    } else {
        12
    }
}

#[allow(non_snake_case)]
impl<M: IOHandler> CPU<M> {
    /// The 8-bit operand number `i`: B, C, D, E, H, L, the byte at the
    /// address in HL, A.
    pub open spec fn spec_operand(self, i: u8) -> u8 {
        if i == 0 {
            self.reg@.b
        } else if i == 1 {
            self.reg@.c
        } else if i == 2 {
            self.reg@.d
        } else if i == 3 {
            self.reg@.e
        } else if i == 4 {
            self.reg@.h
        } else if i == 5 {
            self.reg@.l
        } else if i == 6 {
            self.spec_at_hl()
        } else {
            self.reg@.a
        }
    }

    /// What a prefixed instruction `op` makes of the processor `self`, whose
    /// program counter is behind the instruction.
    pub open spec fn cb_post(self, op: u8, post: Self) -> bool {
        let row = op / 8;
        let col = op % 8;
        let v = self.spec_operand(col);
        if 8 <= row < 16 {
            self.regs_to(post, cb_regs(self.reg@, row, v))
        } else if col == 6 {
            self.byte_to(
                post,
                self.reg@.hl(),
                cb_value(self.reg@, row, v),
                cb_regs(self.reg@, row, v),
            )
        } else {
            self.regs_to(
                post,
                with_operand(cb_regs(self.reg@, row, v), col, cb_value(self.reg@, row, v)),
            )
        }
    }

    /// Reads the 8-bit operand number `i`.
    pub fn get_operand(&self, i: u8) -> (v: u8)
        ensures
            v == self.spec_operand(i),
    {
        if i == 0 {
            self.reg.get_B()
        } else if i == 1 {
            self.reg.get_C()
        } else if i == 2 {
            self.reg.get_D()
        } else if i == 3 {
            self.reg.get_E()
        } else if i == 4 {
            self.reg.get_H()
        } else if i == 5 {
            self.reg.get_L()
        } else if i == 6 {
            self.data_bus.read_byte(self.reg.get_HL())
        } else {
            self.reg.get_A()
        }
    }

    /// Writes the 8-bit operand number `i`.
    pub fn set_operand(&mut self, i: u8, v: u8)
        ensures
            i == 6 ==> old(self).byte_to(*final(self), old(self).reg@.hl(), v, old(self).reg@),
            i != 6 ==> old(self).regs_to(*final(self), with_operand(old(self).reg@, i, v)),
    {
        if i == 0 {
            self.reg.set_B(v);
        } else if i == 1 {
            self.reg.set_C(v);
        } else if i == 2 {
            self.reg.set_D(v);
        } else if i == 3 {
            self.reg.set_E(v);
        } else if i == 4 {
            self.reg.set_H(v);
        } else if i == 5 {
            self.reg.set_L(v);
        } else if i == 6 {
            let addr = self.reg.get_HL();
            self.write_byte_to_memory(addr, v);
        } else {
            self.reg.set_A(v);
        }
    }

    /// The rotate or shift in row `row` of the prefixed table.
    pub fn shift_of(row: u8) -> (r: Shift)
        ensures
            r == cb_shift(row),
    {
        if row == 0 {
            Shift::Rlc
        } else if row == 1 {
            Shift::Rrc
        } else if row == 2 {
            Shift::Rl
        } else if row == 3 {
            Shift::Rr
        } else if row == 4 {
            Shift::Sla
        } else if row == 5 {
            Shift::Sra
        } else if row == 6 {
            Shift::Swap
        } else {
            Shift::Srl
        }
    }

    /// PREFIX CB: runs the prefixed instruction whose code is the byte after
    /// the opcode. The low three bits of the code select the operand, the
    /// high five the operation. Returns the ticks beyond those of the prefix.
    #[verifier::rlimit(40)]
    pub fn op_0xCB(&mut self) -> (r: u32)
        ensures
            r == cb_cycles(old(self).spec_imm()),
            old(self).with_regs(old(self).spec_skip(1)).cb_post(old(self).spec_imm(), *final(self)),
    {
        let next_op = self.imm();
        let ghost mid = *self;
        proof {
            use_type_invariant(&self.reg);
        }
        let row = next_op / 8;
        let col = next_op % 8;
        let v = self.get_operand(col);
        if row < 8 {
            let n = self.alu_shift(Self::shift_of(row), v);
            self.set_operand(col, n);
        } else if row < 16 {
            self.alu_bit(v, row - 8);
        } else if row < 24 {
            let n = self.alu_res(v, row - 16);
            self.set_operand(col, n);
        } else {
            let n = self.alu_set(v, row - 24);
            self.set_operand(col, n);
        }
        proof {
            old(self).lemma_regs_to(mid, old(self).spec_skip(1));
        }
        if col != 6 {
            4
        } else if 8 <= row && row < 16 {
            8
        } else {
            12
        }
    }
}

} // verus!
