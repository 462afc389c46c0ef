//! The processor, its access to the bus, and the arithmetic and logic unit.

use vstd::prelude::*;

use crate::gameboy::cpu::alu::alu_add;
use crate::gameboy::cpu::alu::alu_add_hl;
use crate::gameboy::cpu::alu::alu_and;
use crate::gameboy::cpu::alu::alu_bit;
use crate::gameboy::cpu::alu::alu_compare;
use crate::gameboy::cpu::alu::alu_daa;
use crate::gameboy::cpu::alu::alu_dec;
use crate::gameboy::cpu::alu::alu_inc;
use crate::gameboy::cpu::alu::alu_or;
use crate::gameboy::cpu::alu::alu_res;
use crate::gameboy::cpu::alu::alu_rotate_a;
use crate::gameboy::cpu::alu::alu_set;
use crate::gameboy::cpu::alu::alu_shift;
use crate::gameboy::cpu::alu::alu_sp_flags;
use crate::gameboy::cpu::alu::alu_sub;
use crate::gameboy::cpu::alu::alu_xor;
use crate::gameboy::cpu::alu::jr_target;
use crate::gameboy::cpu::alu::shift_value;
use crate::gameboy::cpu::alu::sp_plus;
use crate::gameboy::cpu::alu::wrap16;
use crate::gameboy::cpu::alu::wrap8;
use crate::gameboy::cpu::alu::Shift;
use crate::gameboy::cpu::register::Flag;
use crate::gameboy::cpu::register::Register;
use crate::gameboy::cpu::register::RegisterView;
use crate::gameboy::mmu::word_at;
use crate::gameboy::mmu::word_stored;
use crate::gameboy::mmu::IOHandler;
use crate::gameboy::term::Term;
use crate::gameboy::util::clear_bit;
use crate::gameboy::util::set_bit;
use crate::gameboy::util::test_bit;

verus! {

/// The processor: its registers, the bus it reads and writes, the interrupt
/// master enable and the halt latch.
pub struct CPU<M: IOHandler> {
    /// The register file.
    pub reg: Register,
    /// Set by HALT, cleared when an interrupt is pending.
    pub is_halt: bool,
    /// The address bus.
    pub data_bus: M,
    /// The interrupt master enable. It is not mapped into memory: only EI,
    /// DI, RETI and the dispatch of an interrupt change it.
    pub ime_flag: bool,
    /// Clock ticks run since the last pacing step.
    pub step_cycles: u32,
    /// Whether a pacing step has ended since `flip` was last asked.
    pub step_flip: bool,
    /// Whether the processor is paced to real time.
    pub speed_simulation: bool,
}

impl<M: IOHandler> CPU<M> {
    /// Everything but the registers and the bus is the same in `post`.
    pub open spec fn same_control(self, post: Self) -> bool {
        &&& post.is_halt == self.is_halt
        &&& post.ime_flag == self.ime_flag
        &&& post.step_cycles == self.step_cycles
        &&& post.step_flip == self.step_flip
        &&& post.speed_simulation == self.speed_simulation
    }

    /// `post` is this processor with the registers `r`; nothing was written.
    pub open spec fn regs_to(self, post: Self, r: RegisterView) -> bool {
        &&& post.reg@ == r
        &&& post.reg.inv()
        &&& post.data_bus == self.data_bus
        &&& self.same_control(post)
    }

    /// `post` is this processor with the registers `r`, after the byte `v`
    /// was written at `a`.
    pub open spec fn byte_to(self, post: Self, a: u16, v: u8, r: RegisterView) -> bool {
        &&& post.reg@ == r
        &&& post.reg.inv()
        &&& self.data_bus.stored(a, v, post.data_bus)
        &&& self.same_control(post)
    }

    /// `post` is this processor with the registers `r`, after the word `v`
    /// was written at `a`.
    pub open spec fn word_to(self, post: Self, a: u16, v: u16, r: RegisterView) -> bool {
        &&& post.reg@ == r
        &&& post.reg.inv()
        &&& word_stored(self.data_bus, a, v, post.data_bus)
        &&& self.same_control(post)
    }

    /// This processor with the registers `r`.
    pub open spec fn with_regs(self, r: RegisterView) -> Self {
        CPU { reg: Register::spec_from_view(r), ..self }
    }

    /// A processor that differs from this one in its registers only is this
    /// one with those registers.
    pub proof fn lemma_regs_to(self, post: Self, r: RegisterView)
        requires
            self.regs_to(post, r),
        ensures
            post == self.with_regs(r),
    {
        Register::lemma_from_view(r);
    }

    /// The byte at the program counter.
    pub open spec fn spec_imm(self) -> u8 {
        self.data_bus.byte_at(self.reg@.pc)
    }

    /// The word at the program counter.
    pub open spec fn spec_imm_word(self) -> u16 {
        word_at(&self.data_bus, self.reg@.pc)
    }

    /// The byte at the address in HL.
    pub open spec fn spec_at_hl(self) -> u8 {
        self.data_bus.byte_at(self.reg@.hl())
    }

    /// The registers with the program counter moved `n` bytes on.
    pub open spec fn spec_skip(self, n: int) -> RegisterView {
        RegisterView { pc: wrap16(self.reg@.pc + n), ..self.reg@ }
    }

    /// Returns a processor in the state after boot on the first Game Boy:
    /// interrupts enabled, not halted.
    pub fn new(data_bus: M, speed_simulation: bool) -> (r: Self)
        ensures
            r == Self::spec_boot(data_bus, speed_simulation, r.reg),
            r.reg@ == RegisterView::boot(Term::GB),
    {
        Self::new_for(Term::GB, data_bus, speed_simulation)
    }

    /// A processor after boot with the registers `reg`.
    pub open spec fn spec_boot(data_bus: M, speed_simulation: bool, reg: Register) -> Self {
        CPU {
            reg,
            is_halt: false,
            data_bus,
            ime_flag: true,
            step_cycles: 0,
            step_flip: false,
            speed_simulation,
        }
    }

    /// Returns a processor in the state after boot on a console of the
    /// given variant.
    pub fn new_for(term: Term, data_bus: M, speed_simulation: bool) -> (r: Self)
        ensures
            r == Self::spec_boot(data_bus, speed_simulation, r.reg),
            r.reg@ == RegisterView::boot(term),
    {
        let mut reg = Register::new();
        reg.init(term);
        CPU {
            reg,
            is_halt: false,
            data_bus,
            ime_flag: true,
            step_cycles: 0,
            step_flip: false,
            speed_simulation,
        }
    }

    /// Returns a copy of the register file.
    pub fn get_reg_snapshot(&self) -> (r: Register)
        ensures
            r == self.reg,
    {
        self.reg
    }

    /// Returns whether interrupts are enabled.
    pub fn is_ime_enabled(&self) -> (r: bool)
        ensures
            r == self.ime_flag,
    {
        self.ime_flag
    }

    /// Enables interrupts.
    pub fn enable_ime(&mut self)
        ensures
            *final(self) == (CPU { ime_flag: true, ..*old(self) }),
    {
        self.ime_flag = true;
    }

    /// Disables interrupts.
    pub fn disable_ime(&mut self)
        ensures
            *final(self) == (CPU { ime_flag: false, ..*old(self) }),
    {
        self.ime_flag = false;
    }

    /// Returns whether the processor is halted.
    pub fn is_halt(&self) -> (r: bool)
        ensures
            r == self.is_halt,
    {
        self.is_halt
    }

    /// Replaces the register file.
    pub fn set_reg(&mut self, reg: Register)
        ensures
            *final(self) == (CPU { reg: reg, ..*old(self) }),
    {
        self.reg = reg;
    }

    /// Reads the byte at the program counter and steps over it.
    pub fn imm(&mut self) -> (v: u8)
        ensures
            v == old(self).spec_imm(),
            old(self).regs_to(*final(self), old(self).spec_skip(1)),
    {
        let v = self.data_bus.read_byte(self.reg.get_PC());
        self.reg.incr_PC();
        v
    }

    /// Reads the byte at the program counter and stays there.
    pub fn imm_freeze(&self) -> (v: u8)
        ensures
            v == self.spec_imm(),
    {
        self.data_bus.read_byte(self.reg.get_PC())
    }

    /// Reads the word at the program counter and steps over it.
    pub fn imm_word(&mut self) -> (v: u16)
        ensures
            v == old(self).spec_imm_word(),
            old(self).regs_to(*final(self), old(self).spec_skip(2)),
    {
        let v = self.data_bus.read_word(self.reg.get_PC());
        self.reg.incr_PC();
        self.reg.incr_PC();
        v
    }

    /// Returns the opcode that would run next.
    pub fn get_current_opcode(&self) -> (v: u8)
        ensures
            v == self.spec_imm(),
    {
        self.imm_freeze()
    }

    /// Reads a byte from the bus.
    pub fn read_byte_from_memory(&self, addr: u16) -> (v: u8)
        ensures
            v == self.data_bus.byte_at(addr),
    {
        self.data_bus.read_byte(addr)
    }

    /// Reads a word from the bus.
    pub fn read_word_from_memory(&self, addr: u16) -> (v: u16)
        ensures
            v == word_at(&self.data_bus, addr),
    {
        self.data_bus.read_word(addr)
    }

    /// Writes a byte to the bus.
    pub fn write_byte_to_memory(&mut self, addr: u16, data: u8)
        ensures
            old(self).byte_to(*final(self), addr, data, old(self).reg@),
            final(self).reg == old(self).reg,
    {
        proof {
            use_type_invariant(&self.reg);
        }
        self.data_bus.write_byte(addr, data);
    }

    /// Writes a word to the bus.
    pub fn write_word_to_memory(&mut self, addr: u16, data: u16)
        ensures
            old(self).word_to(*final(self), addr, data, old(self).reg@),
            final(self).reg == old(self).reg,
    {
        proof {
            use_type_invariant(&self.reg);
        }
        self.data_bus.write_word(addr, data);
    }

    /// Returns whether a pacing step has ended since this was last asked.
    pub fn flip(&mut self) -> (r: bool)
        ensures
            r == old(self).step_flip,
            *final(self) == (CPU { step_flip: false, ..*old(self) }),
    {
        let r = self.step_flip;
        if r {
            self.step_flip = false;
        }
        r
    }

    /// Pops a word off the stack: reads it at SP, then moves SP up by two.
    pub fn _stack_pop(&mut self) -> (v: u16)
        ensures
            v == word_at(&old(self).data_bus, old(self).reg@.sp),
            old(self).regs_to(
                *final(self),
                (RegisterView { sp: wrap16(old(self).reg@.sp + 2), ..old(self).reg@ }),
            ),
    {
        let addr = self.reg.get_SP();
        let data = self.data_bus.read_word(addr);
        self.reg.set_SP(addr.wrapping_add(2));
        data
    }

    /// Pushes a word on the stack: moves SP down by two, then writes the
    /// word at SP.
    pub fn _stack_push(&mut self, data: u16)
        ensures
            old(self).word_to(
                *final(self),
                wrap16(old(self).reg@.sp - 2),
                data,
                (RegisterView { sp: wrap16(old(self).reg@.sp - 2), ..old(self).reg@ }),
            ),
    {
        let sp = self.reg.get_SP();
        let new_sp = sp.wrapping_sub(2);
        self.reg.set_SP(new_sp);
        self.data_bus.write_word(new_sp, data);
    }

    /// Moves the program counter by the signed offset `n`.
    pub fn alu_jr(&mut self, n: u8)
        ensures
            old(self).regs_to(
                *final(self),
                (RegisterView { pc: jr_target(old(self).reg@.pc, n), ..old(self).reg@ }),
            ),
    {
        let pc = self.reg.get_PC();
        let target = if n < 128 {
            pc.wrapping_add(n as u16)
        } else {
            pc.wrapping_sub(256 - (n as u16))
        };
        self.reg.set_PC(target);
    }

    /// The flags of an increment of `v`; returns the incremented byte.
    pub fn alu_inc(&mut self, v: u8) -> (r: u8)
        ensures
            r == wrap8(v + 1),
            old(self).regs_to(*final(self), alu_inc(old(self).reg@, v)),
    {
        let r = v.wrapping_add(1);
        let c = self.reg.is_flag_set(Flag::Carry);
        self.reg.put_flags(r == 0, false, v % 16 + 1 > 15, c);
        r
    }

    /// The flags of a decrement of `v`; returns the decremented byte.
    pub fn alu_dec(&mut self, v: u8) -> (r: u8)
        ensures
            r == wrap8(v - 1),
            old(self).regs_to(*final(self), alu_dec(old(self).reg@, v)),
    {
        let r = v.wrapping_sub(1);
        let c = self.reg.is_flag_set(Flag::Carry);
        self.reg.put_flags(r == 0, true, v % 16 == 0, c);
        r
    }

    /// ADD A,v.
    pub fn _op_add(&mut self, v: u8)
        ensures
            old(self).regs_to(*final(self), alu_add(old(self).reg@, v, false)),
    {
        let a = self.reg.get_A();
        let sum: u16 = a as u16 + v as u16;
        let res: u8 = (sum % 256) as u8;
        self.reg.set_A(res);
        self.reg.put_flags(res == 0, false, a % 16 + v % 16 > 15, sum > 255);
    }

    /// ADC A,v.
    pub fn _op_adc(&mut self, v: u8)
        ensures
            old(self).regs_to(*final(self), alu_add(old(self).reg@, v, old(self).reg@.cf)),
    {
        let carry: u8 = if self.reg.is_flag_set(Flag::Carry) {
            1
        } else {
            0
        };
        let a = self.reg.get_A();
        let sum: u16 = a as u16 + v as u16 + carry as u16;
        let res: u8 = (sum % 256) as u8;
        self.reg.set_A(res);
        self.reg.put_flags(res == 0, false, a % 16 + v % 16 + carry > 15, sum > 255);
    }

    /// SUB v.
    pub fn _op_sub(&mut self, v: u8)
        ensures
            old(self).regs_to(*final(self), alu_sub(old(self).reg@, v, false)),
    {
        let a = self.reg.get_A();
        let res = a.wrapping_sub(v);
        self.reg.set_A(res);
        self.reg.put_flags(res == 0, true, a % 16 < v % 16, a < v);
    }

    /// SBC A,v.
    pub fn _op_sbc(&mut self, v: u8)
        ensures
            old(self).regs_to(*final(self), alu_sub(old(self).reg@, v, old(self).reg@.cf)),
    {
        let carry: u8 = if self.reg.is_flag_set(Flag::Carry) {
            1
        } else {
            0
        };
        let a = self.reg.get_A();
        let res = a.wrapping_sub(v).wrapping_sub(carry);
        self.reg.set_A(res);
        self.reg.put_flags(
            res == 0,
            true,
            a % 16 < v % 16 + carry,
            (a as u16) < v as u16 + carry as u16,
        );
    }

    /// AND v.
    pub fn _op_and(&mut self, v: u8)
        ensures
            old(self).regs_to(*final(self), alu_and(old(self).reg@, v)),
    {
        let res = self.reg.get_A() & v;
        self.reg.set_A(res);
        self.reg.put_flags(res == 0, false, true, false);
    }

    /// XOR v.
    pub fn _op_xor(&mut self, v: u8)
        ensures
            old(self).regs_to(*final(self), alu_xor(old(self).reg@, v)),
    {
        let res = self.reg.get_A() ^ v;
        self.reg.set_A(res);
        self.reg.put_flags(res == 0, false, false, false);
    }

    /// OR v.
    pub fn _op_or(&mut self, v: u8)
        ensures
            old(self).regs_to(*final(self), alu_or(old(self).reg@, v)),
    {
        let res = self.reg.get_A() | v;
        self.reg.set_A(res);
        self.reg.put_flags(res == 0, false, false, false);
    }

    /// CP v.
    pub fn _op_compare(&mut self, v: u8)
        ensures
            old(self).regs_to(*final(self), alu_compare(old(self).reg@, v)),
    {
        let a = self.reg.get_A();
        self.reg.put_flags(a == v, true, a % 16 < v % 16, a < v);
    }

    /// ADD HL,v.
    #[verifier::rlimit(40)]
    pub fn alu_add_hl(&mut self, v: u16)
        ensures
            old(self).regs_to(*final(self), alu_add_hl(old(self).reg@, v)),
    {
        let hl = self.reg.get_HL();
        let z = self.reg.is_flag_set(Flag::Zero);
        let sum: u32 = hl as u32 + v as u32;
        let res: u16 = (sum % 65536) as u16;
        let half: bool = hl % 4096 + v % 4096 > 4095;
        self.reg.set_HL(res);
        self.reg.put_flags(z, false, half, sum > 65535);
    }

    /// An unprefixed rotate of A.
    pub fn alu_rotate_a(&mut self, op: Shift)
        ensures
            old(self).regs_to(*final(self), alu_rotate_a(old(self).reg@, op)),
    {
        let a = self.reg.get_A();
        let r = self.alu_shift(op, a);
        self.reg.set_A(r);
        self.reg.unset_flag(Flag::Zero);
    }

    /// DAA.
    #[verifier::rlimit(40)]
    pub fn alu_daa(&mut self)
        ensures
            old(self).regs_to(*final(self), alu_daa(old(self).reg@)),
    {
        let a = self.reg.get_A();
        let n = self.reg.is_flag_set(Flag::Sub);
        let mut adjust: u8 = 0;
        if self.reg.is_flag_set(Flag::HalfCarry) || (!n && a % 16 > 9) {
            adjust = adjust + 0x06;
        }
        if self.reg.is_flag_set(Flag::Carry) || (!n && a > 0x99) {
            adjust = adjust + 0x60;
        }
        let v = if n {
            a.wrapping_sub(adjust)
        } else {
            a.wrapping_add(adjust)
        };
        self.reg.set_A(v);
        self.reg.put_flags(v == 0, n, false, adjust >= 0x60);
    }

    /// Returns SP plus the signed offset `n` and sets the flags of that sum.
    #[verifier::rlimit(40)]
    pub fn alu_add_sp(&mut self, n: u8) -> (r: u16)
        ensures
            r == sp_plus(old(self).reg@, n),
            old(self).regs_to(*final(self), alu_sp_flags(old(self).reg@, n)),
    {
        let sp = self.reg.get_SP();
        let r = if n < 128 {
            sp.wrapping_add(n as u16)
        } else {
            sp.wrapping_sub(256 - (n as u16))
        };
        self.reg.put_flags(false, false, sp % 16 + (n as u16) % 16 > 15, sp % 256 + n as u16 > 255);
        r
    }

    /// A prefixed rotate or shift of `a`: sets the flags and returns the
    /// new byte.
    pub fn alu_shift(&mut self, op: Shift, a: u8) -> (r: u8)
        ensures
            r == shift_value(op, a, old(self).reg@.cf),
            old(self).regs_to(*final(self), alu_shift(old(self).reg@, op, a)),
    {
        match op {
            Shift::Rlc => self.alu_rlc(a),
            Shift::Rrc => self.alu_rrc(a),
            Shift::Rl => self.alu_rl(a),
            Shift::Rr => self.alu_rr(a),
            Shift::Sla => self.alu_sla(a),
            Shift::Sra => self.alu_sra(a),
            Shift::Swap => self.alu_swap(a),
            Shift::Srl => self.alu_srl(a),
        }
    }

    /// RLC `a`: sets the flags and returns the new byte.
    pub fn alu_rlc(&mut self, a: u8) -> (r: u8)
        ensures
            r == shift_value(Shift::Rlc, a, old(self).reg@.cf),
            old(self).regs_to(*final(self), alu_shift(old(self).reg@, Shift::Rlc, a)),
    {
        let r: u8 = (((a as u16) * 2 + (a as u16) / 128) % 256) as u8;
        self.reg.put_flags(r == 0, false, false, a >= 128);
        r
    }

    /// RRC `a`: sets the flags and returns the new byte.
    pub fn alu_rrc(&mut self, a: u8) -> (r: u8)
        ensures
            r == shift_value(Shift::Rrc, a, old(self).reg@.cf),
            old(self).regs_to(*final(self), alu_shift(old(self).reg@, Shift::Rrc, a)),
    {
        let r: u8 = a / 2 + (a % 2) * 128;
        self.reg.put_flags(r == 0, false, false, a % 2 == 1);
        r
    }

    /// RL `a`: sets the flags and returns the new byte.
    pub fn alu_rl(&mut self, a: u8) -> (r: u8)
        ensures
            r == shift_value(Shift::Rl, a, old(self).reg@.cf),
            old(self).regs_to(*final(self), alu_shift(old(self).reg@, Shift::Rl, a)),
    {
        let c: u8 = if self.reg.is_flag_set(Flag::Carry) {
            1
        } else {
            0
        };
        let r: u8 = (((a as u16) * 2 + c as u16) % 256) as u8;
        self.reg.put_flags(r == 0, false, false, a >= 128);
        r
    }

    /// RR `a`: sets the flags and returns the new byte.
    pub fn alu_rr(&mut self, a: u8) -> (r: u8)
        ensures
            r == shift_value(Shift::Rr, a, old(self).reg@.cf),
            old(self).regs_to(*final(self), alu_shift(old(self).reg@, Shift::Rr, a)),
    {
        let c: u8 = if self.reg.is_flag_set(Flag::Carry) {
            1
        } else {
            0
        };
        let r: u8 = a / 2 + c * 128;
        self.reg.put_flags(r == 0, false, false, a % 2 == 1);
        r
    }

    /// SLA `a`: sets the flags and returns the new byte.
    pub fn alu_sla(&mut self, a: u8) -> (r: u8)
        ensures
            r == shift_value(Shift::Sla, a, old(self).reg@.cf),
            old(self).regs_to(*final(self), alu_shift(old(self).reg@, Shift::Sla, a)),
    {
        let r: u8 = (((a as u16) * 2) % 256) as u8;
        self.reg.put_flags(r == 0, false, false, a >= 128);
        r
    }

    /// SRA `a`: sets the flags and returns the new byte.
    pub fn alu_sra(&mut self, a: u8) -> (r: u8)
        ensures
            r == shift_value(Shift::Sra, a, old(self).reg@.cf),
            old(self).regs_to(*final(self), alu_shift(old(self).reg@, Shift::Sra, a)),
    {
        let r: u8 = a / 2 + (a / 128) * 128;
        self.reg.put_flags(r == 0, false, false, a % 2 == 1);
        r
    }

    /// SWAP `a`: sets the flags and returns the new byte.
    pub fn alu_swap(&mut self, a: u8) -> (r: u8)
        ensures
            r == shift_value(Shift::Swap, a, old(self).reg@.cf),
            old(self).regs_to(*final(self), alu_shift(old(self).reg@, Shift::Swap, a)),
    {
        let r: u8 = (a % 16) * 16 + a / 16;
        self.reg.put_flags(r == 0, false, false, false);
        r
    }

    /// SRL `a`: sets the flags and returns the new byte.
    pub fn alu_srl(&mut self, a: u8) -> (r: u8)
        ensures
            r == shift_value(Shift::Srl, a, old(self).reg@.cf),
            old(self).regs_to(*final(self), alu_shift(old(self).reg@, Shift::Srl, a)),
    {
        let r: u8 = a / 2;
        self.reg.put_flags(r == 0, false, false, a % 2 == 1);
        r
    }

    /// BIT `b`,`a`.
    pub fn alu_bit(&mut self, a: u8, b: u8)
        requires
            b <= 7,
        ensures
            old(self).regs_to(*final(self), alu_bit(old(self).reg@, a, b)),
    {
        let c = self.reg.is_flag_set(Flag::Carry);
        self.reg.put_flags(!test_bit(a, b), false, true, c);
    }

    /// RES `b`,`a`.
    pub fn alu_res(&mut self, a: u8, b: u8) -> (r: u8)
        requires
            b <= 7,
        ensures
            r == alu_res(a, b),
            *final(self) == *old(self),
    {
        clear_bit(a, b)
    }

    /// SET `b`,`a`.
    pub fn alu_set(&mut self, a: u8, b: u8) -> (r: u8)
        requires
            b <= 7,
        ensures
            r == alu_set(a, b),
            *final(self) == *old(self),
    {
        set_bit(a, b)
    }
}

} // verus!
