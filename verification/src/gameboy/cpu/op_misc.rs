//! The instructions below 0x40: loads, increments and decrements, relative
//! jumps, rotates of A and the adjustments of A and the flags.

use vstd::prelude::*;

use crate::gameboy::cpu::alu::alu_add_hl;
use crate::gameboy::cpu::alu::alu_ccf;
use crate::gameboy::cpu::alu::alu_cpl;
use crate::gameboy::cpu::alu::alu_daa;
use crate::gameboy::cpu::alu::alu_dec;
use crate::gameboy::cpu::alu::alu_inc;
use crate::gameboy::cpu::alu::alu_rotate_a;
use crate::gameboy::cpu::alu::alu_scf;
use crate::gameboy::cpu::alu::wrap16;
use crate::gameboy::cpu::alu::wrap8;
use crate::gameboy::cpu::alu::Shift;
use crate::gameboy::cpu::cpu::CPU;
use crate::gameboy::cpu::register::Flag;
use crate::gameboy::cpu::register::RegisterView;
use crate::gameboy::mmu::IOHandler;

verus! {

#[allow(non_snake_case)]
impl<M: IOHandler> CPU<M> {
    /// NOP: does nothing.
    pub fn op_0x00(&mut self) -> (r: u32)
        ensures
            *final(self) == *old(self),
            r == 0,
    {
        0
    }

    /// LD BC,d16: loads the word after the opcode into BC.
    pub fn op_0x01(&mut self) -> (r: u32)
        ensures
            old(self).regs_to(
                *final(self),
                old(self).spec_skip(2).with_bc(old(self).spec_imm_word()),
            ),
            r == 0,
    {
        let v = self.imm_word();
        self.reg.set_BC(v);
        0
    }

    /// LD (BC),A: writes A at the address in BC.
    pub fn op_0x02(&mut self) -> (r: u32)
        ensures
            old(self).byte_to(*final(self), old(self).reg@.bc(), old(self).reg@.a, old(self).reg@),
            r == 0,
    {
        let a = self.reg.get_BC();
        let v = self.reg.get_A();
        self.write_byte_to_memory(a, v);
        0
    }

    /// INC BC: adds one to BC, wrapping; no flag changes.
    pub fn op_0x03(&mut self) -> (r: u32)
        ensures
            old(self).regs_to(
                *final(self),
                old(self).reg@.with_bc(wrap16(old(self).reg@.bc() + 1)),
            ),
            r == 0,
    {
        let v = self.reg.get_BC();
        self.reg.set_BC(v.wrapping_add(1));
        0
    }

    /// INC B: adds one to B; Z, N and H are set from it, C is kept.
    pub fn op_0x04(&mut self) -> (r: u32)
        ensures
            old(self).regs_to(
                *final(self),
                (RegisterView { b: wrap8(old(self).reg@.b + 1), ..alu_inc(old(self).reg@, old(self).reg@.b) }),
            ),
            r == 0,
    {
        let v = self.reg.get_B();
        let n = self.alu_inc(v);
        self.reg.set_B(n);
        0
    }

    /// DEC B: takes one from B; Z, N and H are set from it, C is kept.
    pub fn op_0x05(&mut self) -> (r: u32)
        ensures
            old(self).regs_to(
                *final(self),
                (RegisterView { b: wrap8(old(self).reg@.b - 1), ..alu_dec(old(self).reg@, old(self).reg@.b) }),
            ),
            r == 0,
    {
        let v = self.reg.get_B();
        let n = self.alu_dec(v);
        self.reg.set_B(n);
        0
    }

    /// LD B,d8: loads the byte after the opcode into B.
    pub fn op_0x06(&mut self) -> (r: u32)
        ensures
            old(self).regs_to(
                *final(self),
                (RegisterView { b: old(self).spec_imm(), ..old(self).spec_skip(1) }),
            ),
            r == 0,
    {
        let v = self.imm();
        self.reg.set_B(v);
        0
    }

    /// RLCA: rotates A left; Z, N and H are cleared, C is the bit moved out.
    pub fn op_0x07(&mut self) -> (r: u32)
        ensures
            old(self).regs_to(*final(self), alu_rotate_a(old(self).reg@, Shift::Rlc)),
            r == 0,
    {
        self.alu_rotate_a(Shift::Rlc);
        0
    }

    /// LD (a16),SP: writes SP at the address after the opcode.
    pub fn op_0x08(&mut self) -> (r: u32)
        ensures
            old(self).word_to(
                *final(self),
                old(self).spec_imm_word(),
                old(self).reg@.sp,
                old(self).spec_skip(2),
            ),
            r == 0,
    {
        let addr = self.imm_word();
        let sp = self.reg.get_SP();
        self.write_word_to_memory(addr, sp);
        0
    }

    /// ADD HL,BC: adds BC to HL; N is cleared, H and C are the carries out of
    /// bits 11 and 15.
    pub fn op_0x09(&mut self) -> (r: u32)
        ensures
            old(self).regs_to(*final(self), alu_add_hl(old(self).reg@, old(self).reg@.bc())),
            r == 0,
    {
        let v = self.reg.get_BC();
        self.alu_add_hl(v);
        0
    }

    /// LD A,(BC): loads the byte at the address in BC into A.
    pub fn op_0x0A(&mut self) -> (r: u32)
        ensures
            old(self).regs_to(
                *final(self),
                (RegisterView { a: old(self).data_bus.byte_at(old(self).reg@.bc()), ..old(self).reg@ }),
            ),
            r == 0,
    {
        let v = self.data_bus.read_byte(self.reg.get_BC());
        self.reg.set_A(v);
        0
    }

    /// DEC BC: takes one from BC, wrapping; no flag changes.
    pub fn op_0x0B(&mut self) -> (r: u32)
        ensures
            old(self).regs_to(
                *final(self),
                old(self).reg@.with_bc(wrap16(old(self).reg@.bc() - 1)),
            ),
            r == 0,
    {
        let v = self.reg.get_BC();
        self.reg.set_BC(v.wrapping_sub(1));
        0
    }

    /// INC C: adds one to C; Z, N and H are set from it, C is kept.
    pub fn op_0x0C(&mut self) -> (r: u32)
        ensures
            old(self).regs_to(
                *final(self),
                (RegisterView { c: wrap8(old(self).reg@.c + 1), ..alu_inc(old(self).reg@, old(self).reg@.c) }),
            ),
            r == 0,
    {
        let v = self.reg.get_C();
        let n = self.alu_inc(v);
        self.reg.set_C(n);
        0
    }

    /// DEC C: takes one from C; Z, N and H are set from it, C is kept.
    pub fn op_0x0D(&mut self) -> (r: u32)
        ensures
            old(self).regs_to(
                *final(self),
                (RegisterView { c: wrap8(old(self).reg@.c - 1), ..alu_dec(old(self).reg@, old(self).reg@.c) }),
            ),
            r == 0,
    {
        let v = self.reg.get_C();
        let n = self.alu_dec(v);
        self.reg.set_C(n);
        0
    }

    /// LD C,d8: loads the byte after the opcode into C.
    pub fn op_0x0E(&mut self) -> (r: u32)
        ensures
            old(self).regs_to(
                *final(self),
                (RegisterView { c: old(self).spec_imm(), ..old(self).spec_skip(1) }),
            ),
            r == 0,
    {
        let v = self.imm();
        self.reg.set_C(v);
        0
    }

    /// RRCA: rotates A right; Z, N and H are cleared, C is the bit moved out.
    pub fn op_0x0F(&mut self) -> (r: u32)
        ensures
            old(self).regs_to(*final(self), alu_rotate_a(old(self).reg@, Shift::Rrc)),
            r == 0,
    {
        self.alu_rotate_a(Shift::Rrc);
        0
    }

    /// STOP: treated as NOP.
    pub fn op_0x10(&mut self) -> (r: u32)
        ensures
            *final(self) == *old(self),
            r == 0,
    {
        0
    }

    /// LD DE,d16: loads the word after the opcode into DE.
    pub fn op_0x11(&mut self) -> (r: u32)
        ensures
            old(self).regs_to(
                *final(self),
                old(self).spec_skip(2).with_de(old(self).spec_imm_word()),
            ),
            r == 0,
    {
        let v = self.imm_word();
        self.reg.set_DE(v);
        0
    }

    /// LD (DE),A: writes A at the address in DE.
    pub fn op_0x12(&mut self) -> (r: u32)
        ensures
            old(self).byte_to(*final(self), old(self).reg@.de(), old(self).reg@.a, old(self).reg@),
            r == 0,
    {
        let a = self.reg.get_DE();
        let v = self.reg.get_A();
        self.write_byte_to_memory(a, v);
        0
    }

    /// INC DE: adds one to DE, wrapping; no flag changes.
    pub fn op_0x13(&mut self) -> (r: u32)
        ensures
            old(self).regs_to(
                *final(self),
                old(self).reg@.with_de(wrap16(old(self).reg@.de() + 1)),
            ),
            r == 0,
    {
        let v = self.reg.get_DE();
        self.reg.set_DE(v.wrapping_add(1));
        0
    }

    /// INC D: adds one to D; Z, N and H are set from it, C is kept.
    pub fn op_0x14(&mut self) -> (r: u32)
        ensures
            old(self).regs_to(
                *final(self),
                (RegisterView { d: wrap8(old(self).reg@.d + 1), ..alu_inc(old(self).reg@, old(self).reg@.d) }),
            ),
            r == 0,
    {
        let v = self.reg.get_D();
        let n = self.alu_inc(v);
        self.reg.set_D(n);
        0
    }

    /// DEC D: takes one from D; Z, N and H are set from it, C is kept.
    pub fn op_0x15(&mut self) -> (r: u32)
        ensures
            old(self).regs_to(
                *final(self),
                (RegisterView { d: wrap8(old(self).reg@.d - 1), ..alu_dec(old(self).reg@, old(self).reg@.d) }),
            ),
            r == 0,
    {
        let v = self.reg.get_D();
        let n = self.alu_dec(v);
        self.reg.set_D(n);
        0
    }

    /// LD D,d8: loads the byte after the opcode into D.
    pub fn op_0x16(&mut self) -> (r: u32)
        ensures
            old(self).regs_to(
                *final(self),
                (RegisterView { d: old(self).spec_imm(), ..old(self).spec_skip(1) }),
            ),
            r == 0,
    {
        let v = self.imm();
        self.reg.set_D(v);
        0
    }

    /// RLA: rotates A left through carry; Z, N and H are cleared, C is the bit
    /// moved out.
    pub fn op_0x17(&mut self) -> (r: u32)
        ensures
            old(self).regs_to(*final(self), alu_rotate_a(old(self).reg@, Shift::Rl)),
            r == 0,
    {
        self.alu_rotate_a(Shift::Rl);
        0
    }

    /// JR r8: jumps by the signed offset after the opcode.
    pub fn op_0x18(&mut self) -> (r: u32)
        ensures
            old(self).regs_to(*final(self), old(self).spec_jr()),
            r == 0,
    {
        let v = self.imm();
        self.alu_jr(v);
        0
    }

    /// ADD HL,DE: adds DE to HL; N is cleared, H and C are the carries out of
    /// bits 11 and 15.
    pub fn op_0x19(&mut self) -> (r: u32)
        ensures
            old(self).regs_to(*final(self), alu_add_hl(old(self).reg@, old(self).reg@.de())),
            r == 0,
    {
        let v = self.reg.get_DE();
        self.alu_add_hl(v);
        0
    }

    /// LD A,(DE): loads the byte at the address in DE into A.
    pub fn op_0x1A(&mut self) -> (r: u32)
        ensures
            old(self).regs_to(
                *final(self),
                (RegisterView { a: old(self).data_bus.byte_at(old(self).reg@.de()), ..old(self).reg@ }),
            ),
            r == 0,
    {
        let v = self.data_bus.read_byte(self.reg.get_DE());
        self.reg.set_A(v);
        0
    }

    /// DEC DE: takes one from DE, wrapping; no flag changes.
    pub fn op_0x1B(&mut self) -> (r: u32)
        ensures
            old(self).regs_to(
                *final(self),
                old(self).reg@.with_de(wrap16(old(self).reg@.de() - 1)),
            ),
            r == 0,
    {
        let v = self.reg.get_DE();
        self.reg.set_DE(v.wrapping_sub(1));
        0
    }

    /// INC E: adds one to E; Z, N and H are set from it, C is kept.
    pub fn op_0x1C(&mut self) -> (r: u32)
        ensures
            old(self).regs_to(
                *final(self),
                (RegisterView { e: wrap8(old(self).reg@.e + 1), ..alu_inc(old(self).reg@, old(self).reg@.e) }),
            ),
            r == 0,
    {
        let v = self.reg.get_E();
        let n = self.alu_inc(v);
        self.reg.set_E(n);
        0
    }

    /// DEC E: takes one from E; Z, N and H are set from it, C is kept.
    pub fn op_0x1D(&mut self) -> (r: u32)
        ensures
            old(self).regs_to(
                *final(self),
                (RegisterView { e: wrap8(old(self).reg@.e - 1), ..alu_dec(old(self).reg@, old(self).reg@.e) }),
            ),
            r == 0,
    {
        let v = self.reg.get_E();
        let n = self.alu_dec(v);
        self.reg.set_E(n);
        0
    }

    /// LD E,d8: loads the byte after the opcode into E.
    pub fn op_0x1E(&mut self) -> (r: u32)
        ensures
            old(self).regs_to(
                *final(self),
                (RegisterView { e: old(self).spec_imm(), ..old(self).spec_skip(1) }),
            ),
            r == 0,
    {
        let v = self.imm();
        self.reg.set_E(v);
        0
    }

    /// RRA: rotates A right through carry; Z, N and H are cleared, C is the bit
    /// moved out.
    pub fn op_0x1F(&mut self) -> (r: u32)
        ensures
            old(self).regs_to(*final(self), alu_rotate_a(old(self).reg@, Shift::Rr)),
            r == 0,
    {
        self.alu_rotate_a(Shift::Rr);
        0
    }

    /// JR NZ,r8: jumps by the signed offset after the opcode if Z is clear; a
    /// jump taken costs four more ticks.
    pub fn op_0x20(&mut self) -> (r: u32)
        ensures
            !old(self).reg@.zf ==> old(self).regs_to(*final(self), old(self).spec_jr()) && r == 4,
            old(self).reg@.zf ==> old(self).regs_to(*final(self), old(self).spec_skip(1)) && r == 0,
    {
        let v = self.imm();
        if !self.reg.is_flag_set(Flag::Zero) {
            self.alu_jr(v);
            return 4;
        }
        0
    }

    /// LD HL,d16: loads the word after the opcode into HL.
    pub fn op_0x21(&mut self) -> (r: u32)
        ensures
            old(self).regs_to(
                *final(self),
                old(self).spec_skip(2).with_hl(old(self).spec_imm_word()),
            ),
            r == 0,
    {
        let v = self.imm_word();
        self.reg.set_HL(v);
        0
    }

    /// LD (HL+),A: writes A at the address in HL, then adds one to HL.
    pub fn op_0x22(&mut self) -> (r: u32)
        ensures
            old(self).byte_to(
                *final(self),
                old(self).reg@.hl(),
                old(self).reg@.a,
                old(self).reg@.with_hl(wrap16(old(self).reg@.hl() + 1)),
            ),
            r == 0,
    {
        let addr = self.reg.get_HL();
        let v = self.reg.get_A();
        self.write_byte_to_memory(addr, v);
        self.reg.set_HL(addr.wrapping_add(1));
        0
    }

    /// INC HL: adds one to HL, wrapping; no flag changes.
    pub fn op_0x23(&mut self) -> (r: u32)
        ensures
            old(self).regs_to(
                *final(self),
                old(self).reg@.with_hl(wrap16(old(self).reg@.hl() + 1)),
            ),
            r == 0,
    {
        let v = self.reg.get_HL();
        self.reg.set_HL(v.wrapping_add(1));
        0
    }

    /// INC H: adds one to H; Z, N and H are set from it, C is kept.
    pub fn op_0x24(&mut self) -> (r: u32)
        ensures
            old(self).regs_to(
                *final(self),
                (RegisterView { h: wrap8(old(self).reg@.h + 1), ..alu_inc(old(self).reg@, old(self).reg@.h) }),
            ),
            r == 0,
    {
        let v = self.reg.get_H();
        let n = self.alu_inc(v);
        self.reg.set_H(n);
        0
    }

    /// DEC H: takes one from H; Z, N and H are set from it, C is kept.
    pub fn op_0x25(&mut self) -> (r: u32)
        ensures
            old(self).regs_to(
                *final(self),
                (RegisterView { h: wrap8(old(self).reg@.h - 1), ..alu_dec(old(self).reg@, old(self).reg@.h) }),
            ),
            r == 0,
    {
        let v = self.reg.get_H();
        let n = self.alu_dec(v);
        self.reg.set_H(n);
        0
    }

    /// LD H,d8: loads the byte after the opcode into H.
    pub fn op_0x26(&mut self) -> (r: u32)
        ensures
            old(self).regs_to(
                *final(self),
                (RegisterView { h: old(self).spec_imm(), ..old(self).spec_skip(1) }),
            ),
            r == 0,
    {
        let v = self.imm();
        self.reg.set_H(v);
        0
    }

    /// DAA: corrects A to binary-coded decimal after an addition or a
    /// subtraction.
    pub fn op_0x27(&mut self) -> (r: u32)
        ensures
            old(self).regs_to(*final(self), alu_daa(old(self).reg@)),
            r == 0,
    {
        self.alu_daa();
        0
    }

    /// JR Z,r8: jumps by the signed offset after the opcode if Z is set; a jump
    /// taken costs four more ticks.
    pub fn op_0x28(&mut self) -> (r: u32)
        ensures
            old(self).reg@.zf ==> old(self).regs_to(*final(self), old(self).spec_jr()) && r == 4,
            !old(self).reg@.zf ==> old(self).regs_to(
                *final(self),
                old(self).spec_skip(1),
            ) && r == 0,
    {
        let v = self.imm();
        if self.reg.is_flag_set(Flag::Zero) {
            self.alu_jr(v);
            return 4;
        }
        0
    }

    /// ADD HL,HL: adds HL to HL; N is cleared, H and C are the carries out of
    /// bits 11 and 15.
    pub fn op_0x29(&mut self) -> (r: u32)
        ensures
            old(self).regs_to(*final(self), alu_add_hl(old(self).reg@, old(self).reg@.hl())),
            r == 0,
    {
        let v = self.reg.get_HL();
        self.alu_add_hl(v);
        0
    }

    /// LD A,(HL+): loads the byte at the address in HL into A, then adds one to
    /// HL.
    pub fn op_0x2A(&mut self) -> (r: u32)
        ensures
            old(self).regs_to(
                *final(self),
                (RegisterView { a: old(self).spec_at_hl(), ..old(self).reg@ }).with_hl(wrap16(old(self).reg@.hl() + 1)),
            ),
            r == 0,
    {
        let addr = self.reg.get_HL();
        let v = self.data_bus.read_byte(addr);
        self.reg.set_A(v);
        self.reg.set_HL(addr.wrapping_add(1));
        0
    }

    /// DEC HL: takes one from HL, wrapping; no flag changes.
    pub fn op_0x2B(&mut self) -> (r: u32)
        ensures
            old(self).regs_to(
                *final(self),
                old(self).reg@.with_hl(wrap16(old(self).reg@.hl() - 1)),
            ),
            r == 0,
    {
        let v = self.reg.get_HL();
        self.reg.set_HL(v.wrapping_sub(1));
        0
    }

    /// INC L: adds one to L; Z, N and H are set from it, C is kept.
    pub fn op_0x2C(&mut self) -> (r: u32)
        ensures
            old(self).regs_to(
                *final(self),
                (RegisterView { l: wrap8(old(self).reg@.l + 1), ..alu_inc(old(self).reg@, old(self).reg@.l) }),
            ),
            r == 0,
    {
        let v = self.reg.get_L();
        let n = self.alu_inc(v);
        self.reg.set_L(n);
        0
    }

    /// DEC L: takes one from L; Z, N and H are set from it, C is kept.
    pub fn op_0x2D(&mut self) -> (r: u32)
        ensures
            old(self).regs_to(
                *final(self),
                (RegisterView { l: wrap8(old(self).reg@.l - 1), ..alu_dec(old(self).reg@, old(self).reg@.l) }),
            ),
            r == 0,
    {
        let v = self.reg.get_L();
        let n = self.alu_dec(v);
        self.reg.set_L(n);
        0
    }

    /// LD L,d8: loads the byte after the opcode into L.
    pub fn op_0x2E(&mut self) -> (r: u32)
        ensures
            old(self).regs_to(
                *final(self),
                (RegisterView { l: old(self).spec_imm(), ..old(self).spec_skip(1) }),
            ),
            r == 0,
    {
        let v = self.imm();
        self.reg.set_L(v);
        0
    }

    /// CPL: complements A; N and H are set.
    pub fn op_0x2F(&mut self) -> (r: u32)
        ensures
            old(self).regs_to(*final(self), alu_cpl(old(self).reg@)),
            r == 0,
    {
        let a = self.reg.get_A();
        self.reg.set_A(255 - a);
        self.reg.set_flag(Flag::Sub);
        self.reg.set_flag(Flag::HalfCarry);
        0
    }

    /// JR NC,r8: jumps by the signed offset after the opcode if C is clear; a
    /// jump taken costs four more ticks.
    pub fn op_0x30(&mut self) -> (r: u32)
        ensures
            !old(self).reg@.cf ==> old(self).regs_to(*final(self), old(self).spec_jr()) && r == 4,
            old(self).reg@.cf ==> old(self).regs_to(*final(self), old(self).spec_skip(1)) && r == 0,
    {
        let v = self.imm();
        if !self.reg.is_flag_set(Flag::Carry) {
            self.alu_jr(v);
            return 4;
        }
        0
    }

    /// LD SP,d16: loads the word after the opcode into SP.
    pub fn op_0x31(&mut self) -> (r: u32)
        ensures
            old(self).regs_to(
                *final(self),
                (RegisterView { sp: old(self).spec_imm_word(), ..old(self).spec_skip(2) }),
            ),
            r == 0,
    {
        let v = self.imm_word();
        self.reg.set_SP(v);
        0
    }

    /// LD (HL-),A: writes A at the address in HL, then takes one from HL.
    pub fn op_0x32(&mut self) -> (r: u32)
        ensures
            old(self).byte_to(
                *final(self),
                old(self).reg@.hl(),
                old(self).reg@.a,
                old(self).reg@.with_hl(wrap16(old(self).reg@.hl() - 1)),
            ),
            r == 0,
    {
        let addr = self.reg.get_HL();
        let v = self.reg.get_A();
        self.write_byte_to_memory(addr, v);
        self.reg.set_HL(addr.wrapping_sub(1));
        0
    }

    /// INC SP: adds one to SP, wrapping; no flag changes.
    pub fn op_0x33(&mut self) -> (r: u32)
        ensures
            old(self).regs_to(
                *final(self),
                (RegisterView { sp: wrap16(old(self).reg@.sp + 1), ..old(self).reg@ }),
            ),
            r == 0,
    {
        let v = self.reg.get_SP();
        self.reg.set_SP(v.wrapping_add(1));
        0
    }

    /// INC (HL): adds one to the byte at the address in HL; Z, N and H are set
    /// from it, C is kept.
    pub fn op_0x34(&mut self) -> (r: u32)
        ensures
            old(self).byte_to(
                *final(self),
                old(self).reg@.hl(),
                wrap8(old(self).spec_at_hl() + 1),
                alu_inc(old(self).reg@, old(self).spec_at_hl()),
            ),
            r == 0,
    {
        let addr = self.reg.get_HL();
        let v = self.data_bus.read_byte(addr);
        let n = self.alu_inc(v);
        self.write_byte_to_memory(addr, n);
        0
    }

    /// DEC (HL): takes one from the byte at the address in HL; Z, N and H are
    /// set from it, C is kept.
    pub fn op_0x35(&mut self) -> (r: u32)
        ensures
            old(self).byte_to(
                *final(self),
                old(self).reg@.hl(),
                wrap8(old(self).spec_at_hl() - 1),
                alu_dec(old(self).reg@, old(self).spec_at_hl()),
            ),
            r == 0,
    {
        let addr = self.reg.get_HL();
        let v = self.data_bus.read_byte(addr);
        let n = self.alu_dec(v);
        self.write_byte_to_memory(addr, n);
        0
    }

    /// LD (HL),d8: writes the byte after the opcode at the address in HL.
    pub fn op_0x36(&mut self) -> (r: u32)
        ensures
            old(self).byte_to(
                *final(self),
                old(self).reg@.hl(),
                old(self).spec_imm(),
                old(self).spec_skip(1),
            ),
            r == 0,
    {
        let addr = self.reg.get_HL();
        let v = self.imm();
        self.write_byte_to_memory(addr, v);
        0
    }

    /// SCF: sets C; N and H are cleared.
    pub fn op_0x37(&mut self) -> (r: u32)
        ensures
            old(self).regs_to(*final(self), alu_scf(old(self).reg@)),
            r == 0,
    {
        self.reg.set_flag(Flag::Carry);
        self.reg.unset_flag(Flag::HalfCarry);
        self.reg.unset_flag(Flag::Sub);
        0
    }

    /// JR C,r8: jumps by the signed offset after the opcode if C is set; a jump
    /// taken costs four more ticks.
    pub fn op_0x38(&mut self) -> (r: u32)
        ensures
            old(self).reg@.cf ==> old(self).regs_to(*final(self), old(self).spec_jr()) && r == 4,
            !old(self).reg@.cf ==> old(self).regs_to(
                *final(self),
                old(self).spec_skip(1),
            ) && r == 0,
    {
        let v = self.imm();
        if self.reg.is_flag_set(Flag::Carry) {
            self.alu_jr(v);
            return 4;
        }
        0
    }

    /// ADD HL,SP: adds SP to HL; N is cleared, H and C are the carries out of
    /// bits 11 and 15.
    pub fn op_0x39(&mut self) -> (r: u32)
        ensures
            old(self).regs_to(*final(self), alu_add_hl(old(self).reg@, old(self).reg@.sp)),
            r == 0,
    {
        let v = self.reg.get_SP();
        self.alu_add_hl(v);
        0
    }

    /// LD A,(HL-): loads the byte at the address in HL into A, then takes one
    /// from HL.
    pub fn op_0x3A(&mut self) -> (r: u32)
        ensures
            old(self).regs_to(
                *final(self),
                (RegisterView { a: old(self).spec_at_hl(), ..old(self).reg@ }).with_hl(wrap16(old(self).reg@.hl() - 1)),
            ),
            r == 0,
    {
        let addr = self.reg.get_HL();
        let v = self.data_bus.read_byte(addr);
        self.reg.set_A(v);
        self.reg.set_HL(addr.wrapping_sub(1));
        0
    }

    /// DEC SP: takes one from SP, wrapping; no flag changes.
    pub fn op_0x3B(&mut self) -> (r: u32)
        ensures
            old(self).regs_to(
                *final(self),
                (RegisterView { sp: wrap16(old(self).reg@.sp - 1), ..old(self).reg@ }),
            ),
            r == 0,
    {
        let v = self.reg.get_SP();
        self.reg.set_SP(v.wrapping_sub(1));
        0
    }

    /// INC A: adds one to A; Z, N and H are set from it, C is kept.
    pub fn op_0x3C(&mut self) -> (r: u32)
        ensures
            old(self).regs_to(
                *final(self),
                (RegisterView { a: wrap8(old(self).reg@.a + 1), ..alu_inc(old(self).reg@, old(self).reg@.a) }),
            ),
            r == 0,
    {
        let v = self.reg.get_A();
        let n = self.alu_inc(v);
        self.reg.set_A(n);
        0
    }

    /// DEC A: takes one from A; Z, N and H are set from it, C is kept.
    pub fn op_0x3D(&mut self) -> (r: u32)
        ensures
            old(self).regs_to(
                *final(self),
                (RegisterView { a: wrap8(old(self).reg@.a - 1), ..alu_dec(old(self).reg@, old(self).reg@.a) }),
            ),
            r == 0,
    {
        let v = self.reg.get_A();
        let n = self.alu_dec(v);
        self.reg.set_A(n);
        0
    }

    /// LD A,d8: loads the byte after the opcode into A.
    pub fn op_0x3E(&mut self) -> (r: u32)
        ensures
            old(self).regs_to(
                *final(self),
                (RegisterView { a: old(self).spec_imm(), ..old(self).spec_skip(1) }),
            ),
            r == 0,
    {
        let v = self.imm();
        self.reg.set_A(v);
        0
    }

    /// CCF: toggles C; N and H are cleared.
    pub fn op_0x3F(&mut self) -> (r: u32)
        ensures
            old(self).regs_to(*final(self), alu_ccf(old(self).reg@)),
            r == 0,
    {
        self.reg.reverse_flag(Flag::Carry);
        self.reg.unset_flag(Flag::HalfCarry);
        self.reg.unset_flag(Flag::Sub);
        0
    }
}

} // verus!
