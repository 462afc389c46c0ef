//! The instructions from 0xC0: returns, jumps, calls, the stack, and
//! arithmetic with an immediate operand.

use vstd::prelude::*;

use crate::gameboy::cpu::alu::alu_add;
use crate::gameboy::cpu::alu::alu_and;
use crate::gameboy::cpu::alu::alu_compare;
use crate::gameboy::cpu::alu::alu_or;
use crate::gameboy::cpu::alu::alu_sp_flags;
use crate::gameboy::cpu::alu::alu_sub;
use crate::gameboy::cpu::alu::alu_xor;
use crate::gameboy::cpu::alu::sp_plus;
use crate::gameboy::cpu::alu::wrap16;
use crate::gameboy::cpu::cpu::CPU;
use crate::gameboy::cpu::register::Flag;
use crate::gameboy::cpu::register::RegisterView;
use crate::gameboy::mmu::IOHandler;
use crate::gameboy::util::make_word;
use crate::gameboy::util::spec_word;

verus! {

#[allow(non_snake_case)]
impl<M: IOHandler> CPU<M> {
    /// RET NZ: returns if Z is clear; a return taken costs twelve more ticks.
    pub fn op_0xC0(&mut self) -> (r: u32)
        ensures
            !old(self).reg@.zf ==> old(self).regs_to(*final(self), old(self).spec_ret()) && r == 12,
            old(self).reg@.zf ==> *final(self) == *old(self) && r == 0,
    {
        if !self.reg.is_flag_set(Flag::Zero) {
            let v = self._stack_pop();
            self.reg.set_PC(v);
            return 12;
        }
        0
    }

    /// POP BC: pops BC off the stack.
    pub fn op_0xC1(&mut self) -> (r: u32)
        ensures
            old(self).regs_to(
                *final(self),
                (RegisterView { sp: wrap16(old(self).reg@.sp + 2), ..old(self).reg@ }).with_bc(old(self).spec_top()),
            ),
            r == 0,
    {
        let v = self._stack_pop();
        self.reg.set_BC(v);
        0
    }

    /// JP NZ,a16: jumps to the address after the opcode if Z is clear; a jump
    /// taken costs four more ticks.
    pub fn op_0xC2(&mut self) -> (r: u32)
        ensures
            !old(self).reg@.zf ==> old(self).regs_to(
                *final(self),
                (RegisterView { pc: old(self).spec_imm_word(), ..old(self).reg@ }),
            ) && r == 4,
            old(self).reg@.zf ==> old(self).regs_to(*final(self), old(self).spec_skip(2)) && r == 0,
    {
        let addr = self.imm_word();
        if !self.reg.is_flag_set(Flag::Zero) {
            self.reg.set_PC(addr);
            return 4;
        }
        0
    }

    /// JP a16: jumps to the address after the opcode.
    pub fn op_0xC3(&mut self) -> (r: u32)
        ensures
            old(self).regs_to(
                *final(self),
                (RegisterView { pc: old(self).spec_imm_word(), ..old(self).reg@ }),
            ),
            r == 0,
    {
        let v = self.imm_word();
        self.reg.set_PC(v);
        0
    }

    /// CALL NZ,a16: calls the address after the opcode if Z is clear; a call
    /// taken costs twelve more ticks.
    pub fn op_0xC4(&mut self) -> (r: u32)
        ensures
            !old(self).reg@.zf ==> old(self).spec_call(*final(self)) && r == 12,
            old(self).reg@.zf ==> old(self).regs_to(*final(self), old(self).spec_skip(2)) && r == 0,
    {
        let addr = self.imm_word();
        if !self.reg.is_flag_set(Flag::Zero) {
            let pc = self.reg.get_PC();
            self._stack_push(pc);
            self.reg.set_PC(addr);
            return 12;
        }
        0
    }

    /// PUSH BC: pushes BC on the stack.
    pub fn op_0xC5(&mut self) -> (r: u32)
        ensures
            old(self).word_to(
                *final(self),
                wrap16(old(self).reg@.sp - 2),
                old(self).reg@.bc(),
                (RegisterView { sp: wrap16(old(self).reg@.sp - 2), ..old(self).reg@ }),
            ),
            r == 0,
    {
        let v = self.reg.get_BC();
        self._stack_push(v);
        0
    }

    /// ADD A,d8: adds the byte after the opcode to A.
    pub fn op_0xC6(&mut self) -> (r: u32)
        ensures
            old(self).regs_to(
                *final(self),
                alu_add(old(self).spec_skip(1), old(self).spec_imm(), false),
            ),
            r == 0,
    {
        let v = self.imm();
        self._op_add(v);
        0
    }

    /// RST 00H: pushes the program counter and jumps to 0x0000.
    pub fn op_0xC7(&mut self) -> (r: u32)
        ensures
            old(self).word_to(
                *final(self),
                wrap16(old(self).reg@.sp - 2),
                old(self).reg@.pc,
                (RegisterView { pc: 0x0000, sp: wrap16(old(self).reg@.sp - 2), ..old(self).reg@ }),
            ),
            r == 0,
    {
        let pc = self.reg.get_PC();
        self._stack_push(pc);
        self.reg.set_PC(0x0000);
        0
    }

    /// RET Z: returns if Z is set; a return taken costs twelve more ticks.
    pub fn op_0xC8(&mut self) -> (r: u32)
        ensures
            old(self).reg@.zf ==> old(self).regs_to(*final(self), old(self).spec_ret()) && r == 12,
            !old(self).reg@.zf ==> *final(self) == *old(self) && r == 0,
    {
        if self.reg.is_flag_set(Flag::Zero) {
            let v = self._stack_pop();
            self.reg.set_PC(v);
            return 12;
        }
        0
    }

    /// RET: pops the program counter.
    pub fn op_0xC9(&mut self) -> (r: u32)
        ensures
            old(self).regs_to(*final(self), old(self).spec_ret()),
            r == 0,
    {
        let v = self._stack_pop();
        self.reg.set_PC(v);
        0
    }

    /// JP Z,a16: jumps to the address after the opcode if Z is set; a jump
    /// taken costs four more ticks.
    pub fn op_0xCA(&mut self) -> (r: u32)
        ensures
            old(self).reg@.zf ==> old(self).regs_to(
                *final(self),
                (RegisterView { pc: old(self).spec_imm_word(), ..old(self).reg@ }),
            ) && r == 4,
            !old(self).reg@.zf ==> old(self).regs_to(
                *final(self),
                old(self).spec_skip(2),
            ) && r == 0,
    {
        let addr = self.imm_word();
        if self.reg.is_flag_set(Flag::Zero) {
            self.reg.set_PC(addr);
            return 4;
        }
        0
    }

    /// CALL Z,a16: calls the address after the opcode if Z is set; a call taken
    /// costs twelve more ticks.
    pub fn op_0xCC(&mut self) -> (r: u32)
        ensures
            old(self).reg@.zf ==> old(self).spec_call(*final(self)) && r == 12,
            !old(self).reg@.zf ==> old(self).regs_to(
                *final(self),
                old(self).spec_skip(2),
            ) && r == 0,
    {
        let addr = self.imm_word();
        if self.reg.is_flag_set(Flag::Zero) {
            let pc = self.reg.get_PC();
            self._stack_push(pc);
            self.reg.set_PC(addr);
            return 12;
        }
        0
    }

    /// CALL a16: pushes the address of the next instruction and jumps to the
    /// address after the opcode.
    pub fn op_0xCD(&mut self) -> (r: u32)
        ensures
            old(self).spec_call(*final(self)),
            r == 0,
    {
        let addr = self.imm_word();
        let pc = self.reg.get_PC();
        self._stack_push(pc);
        self.reg.set_PC(addr);
        0
    }

    /// ADC A,d8: adds the byte after the opcode and the carry to A.
    pub fn op_0xCE(&mut self) -> (r: u32)
        ensures
            old(self).regs_to(
                *final(self),
                alu_add(old(self).spec_skip(1), old(self).spec_imm(), old(self).reg@.cf),
            ),
            r == 0,
    {
        let v = self.imm();
        self._op_adc(v);
        0
    }

    /// RST 08H: pushes the program counter and jumps to 0x0008.
    pub fn op_0xCF(&mut self) -> (r: u32)
        ensures
            old(self).word_to(
                *final(self),
                wrap16(old(self).reg@.sp - 2),
                old(self).reg@.pc,
                (RegisterView { pc: 0x0008, sp: wrap16(old(self).reg@.sp - 2), ..old(self).reg@ }),
            ),
            r == 0,
    {
        let pc = self.reg.get_PC();
        self._stack_push(pc);
        self.reg.set_PC(0x0008);
        0
    }

    /// RET NC: returns if C is clear; a return taken costs twelve more ticks.
    pub fn op_0xD0(&mut self) -> (r: u32)
        ensures
            !old(self).reg@.cf ==> old(self).regs_to(*final(self), old(self).spec_ret()) && r == 12,
            old(self).reg@.cf ==> *final(self) == *old(self) && r == 0,
    {
        if !self.reg.is_flag_set(Flag::Carry) {
            let v = self._stack_pop();
            self.reg.set_PC(v);
            return 12;
        }
        0
    }

    /// POP DE: pops DE off the stack.
    pub fn op_0xD1(&mut self) -> (r: u32)
        ensures
            old(self).regs_to(
                *final(self),
                (RegisterView { sp: wrap16(old(self).reg@.sp + 2), ..old(self).reg@ }).with_de(old(self).spec_top()),
            ),
            r == 0,
    {
        let v = self._stack_pop();
        self.reg.set_DE(v);
        0
    }

    /// JP NC,a16: jumps to the address after the opcode if C is clear; a jump
    /// taken costs four more ticks.
    pub fn op_0xD2(&mut self) -> (r: u32)
        ensures
            !old(self).reg@.cf ==> old(self).regs_to(
                *final(self),
                (RegisterView { pc: old(self).spec_imm_word(), ..old(self).reg@ }),
            ) && r == 4,
            old(self).reg@.cf ==> old(self).regs_to(*final(self), old(self).spec_skip(2)) && r == 0,
    {
        let addr = self.imm_word();
        if !self.reg.is_flag_set(Flag::Carry) {
            self.reg.set_PC(addr);
            return 4;
        }
        0
    }

    /// CALL NC,a16: calls the address after the opcode if C is clear; a call
    /// taken costs twelve more ticks.
    pub fn op_0xD4(&mut self) -> (r: u32)
        ensures
            !old(self).reg@.cf ==> old(self).spec_call(*final(self)) && r == 12,
            old(self).reg@.cf ==> old(self).regs_to(*final(self), old(self).spec_skip(2)) && r == 0,
    {
        let addr = self.imm_word();
        if !self.reg.is_flag_set(Flag::Carry) {
            let pc = self.reg.get_PC();
            self._stack_push(pc);
            self.reg.set_PC(addr);
            return 12;
        }
        0
    }

    /// PUSH DE: pushes DE on the stack.
    pub fn op_0xD5(&mut self) -> (r: u32)
        ensures
            old(self).word_to(
                *final(self),
                wrap16(old(self).reg@.sp - 2),
                old(self).reg@.de(),
                (RegisterView { sp: wrap16(old(self).reg@.sp - 2), ..old(self).reg@ }),
            ),
            r == 0,
    {
        let v = self.reg.get_DE();
        self._stack_push(v);
        0
    }

    /// SUB d8: takes the byte after the opcode from A.
    pub fn op_0xD6(&mut self) -> (r: u32)
        ensures
            old(self).regs_to(
                *final(self),
                alu_sub(old(self).spec_skip(1), old(self).spec_imm(), false),
            ),
            r == 0,
    {
        let v = self.imm();
        self._op_sub(v);
        0
    }

    /// RST 10H: pushes the program counter and jumps to 0x0010.
    pub fn op_0xD7(&mut self) -> (r: u32)
        ensures
            old(self).word_to(
                *final(self),
                wrap16(old(self).reg@.sp - 2),
                old(self).reg@.pc,
                (RegisterView { pc: 0x0010, sp: wrap16(old(self).reg@.sp - 2), ..old(self).reg@ }),
            ),
            r == 0,
    {
        let pc = self.reg.get_PC();
        self._stack_push(pc);
        self.reg.set_PC(0x0010);
        0
    }

    /// RET C: returns if C is set; a return taken costs twelve more ticks.
    pub fn op_0xD8(&mut self) -> (r: u32)
        ensures
            old(self).reg@.cf ==> old(self).regs_to(*final(self), old(self).spec_ret()) && r == 12,
            !old(self).reg@.cf ==> *final(self) == *old(self) && r == 0,
    {
        if self.reg.is_flag_set(Flag::Carry) {
            let v = self._stack_pop();
            self.reg.set_PC(v);
            return 12;
        }
        0
    }

    /// RETI: pops the program counter and enables interrupts.
    pub fn op_0xD9(&mut self) -> (r: u32)
        ensures
            final(self).reg@ == old(self).spec_ret(),
            *final(self) == (CPU { reg: final(self).reg, ime_flag: true, ..*old(self) }),
            r == 0,
    {
        let v = self._stack_pop();
        self.reg.set_PC(v);
        self.ime_flag = true;
        0
    }

    /// JP C,a16: jumps to the address after the opcode if C is set; a jump
    /// taken costs four more ticks.
    pub fn op_0xDA(&mut self) -> (r: u32)
        ensures
            old(self).reg@.cf ==> old(self).regs_to(
                *final(self),
                (RegisterView { pc: old(self).spec_imm_word(), ..old(self).reg@ }),
            ) && r == 4,
            !old(self).reg@.cf ==> old(self).regs_to(
                *final(self),
                old(self).spec_skip(2),
            ) && r == 0,
    {
        let addr = self.imm_word();
        if self.reg.is_flag_set(Flag::Carry) {
            self.reg.set_PC(addr);
            return 4;
        }
        0
    }

    /// An unassigned opcode; as a handler it behaves as CALL C,a16.
    pub fn op_0xDB(&mut self) -> (r: u32)
        ensures
            old(self).reg@.cf ==> old(self).spec_call(*final(self)) && r == 12,
            !old(self).reg@.cf ==> old(self).regs_to(
                *final(self),
                old(self).spec_skip(2),
            ) && r == 0,
    {
        self.op_0xDC()
    }

    /// CALL C,a16: calls the address after the opcode if C is set; a call taken
    /// costs twelve more ticks.
    pub fn op_0xDC(&mut self) -> (r: u32)
        ensures
            old(self).reg@.cf ==> old(self).spec_call(*final(self)) && r == 12,
            !old(self).reg@.cf ==> old(self).regs_to(
                *final(self),
                old(self).spec_skip(2),
            ) && r == 0,
    {
        let addr = self.imm_word();
        if self.reg.is_flag_set(Flag::Carry) {
            let pc = self.reg.get_PC();
            self._stack_push(pc);
            self.reg.set_PC(addr);
            return 12;
        }
        0
    }

    /// SBC A,d8: takes the byte after the opcode and the carry from A.
    pub fn op_0xDE(&mut self) -> (r: u32)
        ensures
            old(self).regs_to(
                *final(self),
                alu_sub(old(self).spec_skip(1), old(self).spec_imm(), old(self).reg@.cf),
            ),
            r == 0,
    {
        let v = self.imm();
        self._op_sbc(v);
        0
    }

    /// RST 18H: pushes the program counter and jumps to 0x0018.
    pub fn op_0xDF(&mut self) -> (r: u32)
        ensures
            old(self).word_to(
                *final(self),
                wrap16(old(self).reg@.sp - 2),
                old(self).reg@.pc,
                (RegisterView { pc: 0x0018, sp: wrap16(old(self).reg@.sp - 2), ..old(self).reg@ }),
            ),
            r == 0,
    {
        let pc = self.reg.get_PC();
        self._stack_push(pc);
        self.reg.set_PC(0x0018);
        0
    }

    /// LDH (a8),A: writes A at 0xFF00 plus the byte after the opcode.
    pub fn op_0xE0(&mut self) -> (r: u32)
        ensures
            old(self).byte_to(
                *final(self),
                spec_word(0xff, old(self).spec_imm()),
                old(self).reg@.a,
                old(self).spec_skip(1),
            ),
            r == 0,
    {
        let n = self.imm();
        let v = self.reg.get_A();
        self.write_byte_to_memory(make_word(0xff, n), v);
        0
    }

    /// POP HL: pops HL off the stack.
    pub fn op_0xE1(&mut self) -> (r: u32)
        ensures
            old(self).regs_to(
                *final(self),
                (RegisterView { sp: wrap16(old(self).reg@.sp + 2), ..old(self).reg@ }).with_hl(old(self).spec_top()),
            ),
            r == 0,
    {
        let v = self._stack_pop();
        self.reg.set_HL(v);
        0
    }

    /// LD (C),A: writes A at 0xFF00 plus C.
    pub fn op_0xE2(&mut self) -> (r: u32)
        ensures
            old(self).byte_to(
                *final(self),
                spec_word(0xff, old(self).reg@.c),
                old(self).reg@.a,
                old(self).reg@,
            ),
            r == 0,
    {
        let n = self.reg.get_C();
        let v = self.reg.get_A();
        self.write_byte_to_memory(make_word(0xff, n), v);
        0
    }

    /// PUSH HL: pushes HL on the stack.
    pub fn op_0xE5(&mut self) -> (r: u32)
        ensures
            old(self).word_to(
                *final(self),
                wrap16(old(self).reg@.sp - 2),
                old(self).reg@.hl(),
                (RegisterView { sp: wrap16(old(self).reg@.sp - 2), ..old(self).reg@ }),
            ),
            r == 0,
    {
        let v = self.reg.get_HL();
        self._stack_push(v);
        0
    }

    /// AND d8: ands the byte after the opcode into A.
    pub fn op_0xE6(&mut self) -> (r: u32)
        ensures
            old(self).regs_to(*final(self), alu_and(old(self).spec_skip(1), old(self).spec_imm())),
            r == 0,
    {
        let v = self.imm();
        self._op_and(v);
        0
    }

    /// RST 20H: pushes the program counter and jumps to 0x0020.
    pub fn op_0xE7(&mut self) -> (r: u32)
        ensures
            old(self).word_to(
                *final(self),
                wrap16(old(self).reg@.sp - 2),
                old(self).reg@.pc,
                (RegisterView { pc: 0x0020, sp: wrap16(old(self).reg@.sp - 2), ..old(self).reg@ }),
            ),
            r == 0,
    {
        let pc = self.reg.get_PC();
        self._stack_push(pc);
        self.reg.set_PC(0x0020);
        0
    }

    /// ADD SP,r8: adds the signed byte after the opcode to SP; Z and N are
    /// cleared, H and C are the carries out of bits 3 and 7.
    pub fn op_0xE8(&mut self) -> (r: u32)
        ensures
            old(self).regs_to(
                *final(self),
                (RegisterView { sp: sp_plus(old(self).reg@, old(self).spec_imm()), ..alu_sp_flags(old(self).spec_skip(1), old(self).spec_imm()) }),
            ),
            r == 0,
    {
        let n = self.imm();
        let v = self.alu_add_sp(n);
        self.reg.set_SP(v);
        0
    }

    /// JP (HL): jumps to the address in HL.
    pub fn op_0xE9(&mut self) -> (r: u32)
        ensures
            old(self).regs_to(
                *final(self),
                (RegisterView { pc: old(self).reg@.hl(), ..old(self).reg@ }),
            ),
            r == 0,
    {
        let v = self.reg.get_HL();
        self.reg.set_PC(v);
        0
    }

    /// LD (a16),A: writes A at the address after the opcode.
    pub fn op_0xEA(&mut self) -> (r: u32)
        ensures
            old(self).byte_to(
                *final(self),
                old(self).spec_imm_word(),
                old(self).reg@.a,
                old(self).spec_skip(2),
            ),
            r == 0,
    {
        let addr = self.imm_word();
        let v = self.reg.get_A();
        self.write_byte_to_memory(addr, v);
        0
    }

    /// XOR d8: xors the byte after the opcode into A.
    pub fn op_0xEE(&mut self) -> (r: u32)
        ensures
            old(self).regs_to(*final(self), alu_xor(old(self).spec_skip(1), old(self).spec_imm())),
            r == 0,
    {
        let v = self.imm();
        self._op_xor(v);
        0
    }

    /// RST 28H: pushes the program counter and jumps to 0x0028.
    pub fn op_0xEF(&mut self) -> (r: u32)
        ensures
            old(self).word_to(
                *final(self),
                wrap16(old(self).reg@.sp - 2),
                old(self).reg@.pc,
                (RegisterView { pc: 0x0028, sp: wrap16(old(self).reg@.sp - 2), ..old(self).reg@ }),
            ),
            r == 0,
    {
        let pc = self.reg.get_PC();
        self._stack_push(pc);
        self.reg.set_PC(0x0028);
        0
    }

    /// LDH A,(a8): loads the byte at 0xFF00 plus the byte after the opcode into
    /// A.
    pub fn op_0xF0(&mut self) -> (r: u32)
        ensures
            old(self).regs_to(
                *final(self),
                (RegisterView { a: old(self).data_bus.byte_at(spec_word(0xff, old(self).spec_imm())), ..old(self).spec_skip(1) }),
            ),
            r == 0,
    {
        let n = self.imm();
        let v = self.data_bus.read_byte(make_word(0xff, n));
        self.reg.set_A(v);
        0
    }

    /// POP AF: pops AF off the stack. The low nibble of F stays zero.
    pub fn op_0xF1(&mut self) -> (r: u32)
        ensures
            old(self).regs_to(
                *final(self),
                (RegisterView { sp: wrap16(old(self).reg@.sp + 2), ..old(self).reg@ }).with_af(old(self).spec_top()),
            ),
            r == 0,
    {
        let v = self._stack_pop();
        self.reg.set_AF(v);
        0
    }

    /// LD A,(C): loads the byte at 0xFF00 plus C into A.
    pub fn op_0xF2(&mut self) -> (r: u32)
        ensures
            old(self).regs_to(
                *final(self),
                (RegisterView { a: old(self).data_bus.byte_at(spec_word(0xff, old(self).reg@.c)), ..old(self).reg@ }),
            ),
            r == 0,
    {
        let n = self.reg.get_C();
        let v = self.data_bus.read_byte(make_word(0xff, n));
        self.reg.set_A(v);
        0
    }

    /// DI: disables interrupts.
    pub fn op_0xF3(&mut self) -> (r: u32)
        ensures
            *final(self) == (CPU { ime_flag: false, ..*old(self) }),
            r == 0,
    {
        self.disable_ime();
        0
    }

    /// PUSH AF: pushes AF on the stack.
    pub fn op_0xF5(&mut self) -> (r: u32)
        ensures
            old(self).word_to(
                *final(self),
                wrap16(old(self).reg@.sp - 2),
                old(self).reg@.af(),
                (RegisterView { sp: wrap16(old(self).reg@.sp - 2), ..old(self).reg@ }),
            ),
            r == 0,
    {
        let v = self.reg.get_AF();
        self._stack_push(v);
        0
    }

    /// OR d8: ors the byte after the opcode into A.
    pub fn op_0xF6(&mut self) -> (r: u32)
        ensures
            old(self).regs_to(*final(self), alu_or(old(self).spec_skip(1), old(self).spec_imm())),
            r == 0,
    {
        let v = self.imm();
        self._op_or(v);
        0
    }

    /// RST 30H: pushes the program counter and jumps to 0x0030.
    pub fn op_0xF7(&mut self) -> (r: u32)
        ensures
            old(self).word_to(
                *final(self),
                wrap16(old(self).reg@.sp - 2),
                old(self).reg@.pc,
                (RegisterView { pc: 0x0030, sp: wrap16(old(self).reg@.sp - 2), ..old(self).reg@ }),
            ),
            r == 0,
    {
        let pc = self.reg.get_PC();
        self._stack_push(pc);
        self.reg.set_PC(0x0030);
        0
    }

    /// LD HL,SP+r8: loads SP plus the signed byte after the opcode into HL; the
    /// flags are those of ADD SP,r8.
    pub fn op_0xF8(&mut self) -> (r: u32)
        ensures
            old(self).regs_to(
                *final(self),
                alu_sp_flags(old(self).spec_skip(1), old(self).spec_imm()).with_hl(sp_plus(old(self).reg@, old(self).spec_imm())),
            ),
            r == 0,
    {
        let n = self.imm();
        let v = self.alu_add_sp(n);
        self.reg.set_HL(v);
        0
    }

    /// LD SP,HL: copies HL into SP.
    pub fn op_0xF9(&mut self) -> (r: u32)
        ensures
            old(self).regs_to(
                *final(self),
                (RegisterView { sp: old(self).reg@.hl(), ..old(self).reg@ }),
            ),
            r == 0,
    {
        let v = self.reg.get_HL();
        self.reg.set_SP(v);
        0
    }

    /// LD A,(a16): loads the byte at the address after the opcode into A.
    pub fn op_0xFA(&mut self) -> (r: u32)
        ensures
            old(self).regs_to(
                *final(self),
                (RegisterView { a: old(self).data_bus.byte_at(old(self).spec_imm_word()), ..old(self).spec_skip(2) }),
            ),
            r == 0,
    {
        let addr = self.imm_word();
        let v = self.data_bus.read_byte(addr);
        self.reg.set_A(v);
        0
    }

    /// EI: enables interrupts.
    pub fn op_0xFB(&mut self) -> (r: u32)
        ensures
            *final(self) == (CPU { ime_flag: true, ..*old(self) }),
            r == 0,
    {
        self.enable_ime();
        0
    }

    /// CP d8: sets the flags of A minus the byte after the opcode and keeps A.
    pub fn op_0xFE(&mut self) -> (r: u32)
        ensures
            old(self).regs_to(
                *final(self),
                alu_compare(old(self).spec_skip(1), old(self).spec_imm()),
            ),
            r == 0,
    {
        let v = self.imm();
        self._op_compare(v);
        0
    }

    /// RST 38H: pushes the program counter and jumps to 0x0038.
    pub fn op_0xFF(&mut self) -> (r: u32)
        ensures
            old(self).word_to(
                *final(self),
                wrap16(old(self).reg@.sp - 2),
                old(self).reg@.pc,
                (RegisterView { pc: 0x0038, sp: wrap16(old(self).reg@.sp - 2), ..old(self).reg@ }),
            ),
            r == 0,
    {
        let pc = self.reg.get_PC();
        self._stack_push(pc);
        self.reg.set_PC(0x0038);
        0
    }
}

} // verus!
