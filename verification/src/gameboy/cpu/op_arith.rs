//! The instructions 0x80 to 0xBF: arithmetic and logic on A.

use vstd::prelude::*;

use crate::gameboy::cpu::alu::alu_add;
use crate::gameboy::cpu::alu::alu_and;
use crate::gameboy::cpu::alu::alu_compare;
use crate::gameboy::cpu::alu::alu_or;
use crate::gameboy::cpu::alu::alu_sub;
use crate::gameboy::cpu::alu::alu_xor;
use crate::gameboy::cpu::cpu::CPU;
use crate::gameboy::mmu::IOHandler;

verus! {

#[allow(non_snake_case)]
impl<M: IOHandler> CPU<M> {
    /// ADD A,B: adds B to A.
    pub fn op_0x80(&mut self) -> (r: u32)
        ensures
            old(self).regs_to(*final(self), alu_add(old(self).reg@, old(self).reg@.b, false)),
            r == 0,
    {
        let v = self.reg.get_B();
        self._op_add(v);
        0
    }

    /// ADD A,C: adds C to A.
    pub fn op_0x81(&mut self) -> (r: u32)
        ensures
            old(self).regs_to(*final(self), alu_add(old(self).reg@, old(self).reg@.c, false)),
            r == 0,
    {
        let v = self.reg.get_C();
        self._op_add(v);
        0
    }

    /// ADD A,D: adds D to A.
    pub fn op_0x82(&mut self) -> (r: u32)
        ensures
            old(self).regs_to(*final(self), alu_add(old(self).reg@, old(self).reg@.d, false)),
            r == 0,
    {
        let v = self.reg.get_D();
        self._op_add(v);
        0
    }

    /// ADD A,E: adds E to A.
    pub fn op_0x83(&mut self) -> (r: u32)
        ensures
            old(self).regs_to(*final(self), alu_add(old(self).reg@, old(self).reg@.e, false)),
            r == 0,
    {
        let v = self.reg.get_E();
        self._op_add(v);
        0
    }

    /// ADD A,H: adds H to A.
    pub fn op_0x84(&mut self) -> (r: u32)
        ensures
            old(self).regs_to(*final(self), alu_add(old(self).reg@, old(self).reg@.h, false)),
            r == 0,
    {
        let v = self.reg.get_H();
        self._op_add(v);
        0
    }

    /// ADD A,L: adds L to A.
    pub fn op_0x85(&mut self) -> (r: u32)
        ensures
            old(self).regs_to(*final(self), alu_add(old(self).reg@, old(self).reg@.l, false)),
            r == 0,
    {
        let v = self.reg.get_L();
        self._op_add(v);
        0
    }

    /// ADD A,(HL): adds the byte at the address in HL to A.
    pub fn op_0x86(&mut self) -> (r: u32)
        ensures
            old(self).regs_to(*final(self), alu_add(old(self).reg@, old(self).spec_at_hl(), false)),
            r == 0,
    {
        let v = self.data_bus.read_byte(self.reg.get_HL());
        self._op_add(v);
        0
    }

    /// ADD A,A: adds A to A.
    pub fn op_0x87(&mut self) -> (r: u32)
        ensures
            old(self).regs_to(*final(self), alu_add(old(self).reg@, old(self).reg@.a, false)),
            r == 0,
    {
        let v = self.reg.get_A();
        self._op_add(v);
        0
    }

    /// ADC A,B: adds B and the carry to A.
    pub fn op_0x88(&mut self) -> (r: u32)
        ensures
            old(self).regs_to(
                *final(self),
                alu_add(old(self).reg@, old(self).reg@.b, old(self).reg@.cf),
            ),
            r == 0,
    {
        let v = self.reg.get_B();
        self._op_adc(v);
        0
    }

    /// ADC A,C: adds C and the carry to A.
    pub fn op_0x89(&mut self) -> (r: u32)
        ensures
            old(self).regs_to(
                *final(self),
                alu_add(old(self).reg@, old(self).reg@.c, old(self).reg@.cf),
            ),
            r == 0,
    {
        let v = self.reg.get_C();
        self._op_adc(v);
        0
    }

    /// ADC A,D: adds D and the carry to A.
    pub fn op_0x8A(&mut self) -> (r: u32)
        ensures
            old(self).regs_to(
                *final(self),
                alu_add(old(self).reg@, old(self).reg@.d, old(self).reg@.cf),
            ),
            r == 0,
    {
        let v = self.reg.get_D();
        self._op_adc(v);
        0
    }

    /// ADC A,E: adds E and the carry to A.
    pub fn op_0x8B(&mut self) -> (r: u32)
        ensures
            old(self).regs_to(
                *final(self),
                alu_add(old(self).reg@, old(self).reg@.e, old(self).reg@.cf),
            ),
            r == 0,
    {
        let v = self.reg.get_E();
        self._op_adc(v);
        0
    }

    /// ADC A,H: adds H and the carry to A.
    pub fn op_0x8C(&mut self) -> (r: u32)
        ensures
            old(self).regs_to(
                *final(self),
                alu_add(old(self).reg@, old(self).reg@.h, old(self).reg@.cf),
            ),
            r == 0,
    {
        let v = self.reg.get_H();
        self._op_adc(v);
        0
    }

    /// ADC A,L: adds L and the carry to A.
    pub fn op_0x8D(&mut self) -> (r: u32)
        ensures
            old(self).regs_to(
                *final(self),
                alu_add(old(self).reg@, old(self).reg@.l, old(self).reg@.cf),
            ),
            r == 0,
    {
        let v = self.reg.get_L();
        self._op_adc(v);
        0
    }

    /// ADC A,(HL): adds the byte at the address in HL and the carry to A.
    pub fn op_0x8E(&mut self) -> (r: u32)
        ensures
            old(self).regs_to(
                *final(self),
                alu_add(old(self).reg@, old(self).spec_at_hl(), old(self).reg@.cf),
            ),
            r == 0,
    {
        let v = self.data_bus.read_byte(self.reg.get_HL());
        self._op_adc(v);
        0
    }

    /// ADC A,A: adds A and the carry to A.
    pub fn op_0x8F(&mut self) -> (r: u32)
        ensures
            old(self).regs_to(
                *final(self),
                alu_add(old(self).reg@, old(self).reg@.a, old(self).reg@.cf),
            ),
            r == 0,
    {
        let v = self.reg.get_A();
        self._op_adc(v);
        0
    }

    /// SUB B: takes B from A.
    pub fn op_0x90(&mut self) -> (r: u32)
        ensures
            old(self).regs_to(*final(self), alu_sub(old(self).reg@, old(self).reg@.b, false)),
            r == 0,
    {
        let v = self.reg.get_B();
        self._op_sub(v);
        0
    }

    /// SUB C: takes C from A.
    pub fn op_0x91(&mut self) -> (r: u32)
        ensures
            old(self).regs_to(*final(self), alu_sub(old(self).reg@, old(self).reg@.c, false)),
            r == 0,
    {
        let v = self.reg.get_C();
        self._op_sub(v);
        0
    }

    /// SUB D: takes D from A.
    pub fn op_0x92(&mut self) -> (r: u32)
        ensures
            old(self).regs_to(*final(self), alu_sub(old(self).reg@, old(self).reg@.d, false)),
            r == 0,
    {
        let v = self.reg.get_D();
        self._op_sub(v);
        0
    }

    /// SUB E: takes E from A.
    pub fn op_0x93(&mut self) -> (r: u32)
        ensures
            old(self).regs_to(*final(self), alu_sub(old(self).reg@, old(self).reg@.e, false)),
            r == 0,
    {
        let v = self.reg.get_E();
        self._op_sub(v);
        0
    }

    /// SUB H: takes H from A.
    pub fn op_0x94(&mut self) -> (r: u32)
        ensures
            old(self).regs_to(*final(self), alu_sub(old(self).reg@, old(self).reg@.h, false)),
            r == 0,
    {
        let v = self.reg.get_H();
        self._op_sub(v);
        0
    }

    /// SUB L: takes L from A.
    pub fn op_0x95(&mut self) -> (r: u32)
        ensures
            old(self).regs_to(*final(self), alu_sub(old(self).reg@, old(self).reg@.l, false)),
            r == 0,
    {
        let v = self.reg.get_L();
        self._op_sub(v);
        0
    }

    /// SUB (HL): takes the byte at the address in HL from A.
    pub fn op_0x96(&mut self) -> (r: u32)
        ensures
            old(self).regs_to(*final(self), alu_sub(old(self).reg@, old(self).spec_at_hl(), false)),
            r == 0,
    {
        let v = self.data_bus.read_byte(self.reg.get_HL());
        self._op_sub(v);
        0
    }

    /// SUB A: takes A from A.
    pub fn op_0x97(&mut self) -> (r: u32)
        ensures
            old(self).regs_to(*final(self), alu_sub(old(self).reg@, old(self).reg@.a, false)),
            r == 0,
    {
        let v = self.reg.get_A();
        self._op_sub(v);
        0
    }

    /// SBC A,B: takes B and the carry from A.
    pub fn op_0x98(&mut self) -> (r: u32)
        ensures
            old(self).regs_to(
                *final(self),
                alu_sub(old(self).reg@, old(self).reg@.b, old(self).reg@.cf),
            ),
            r == 0,
    {
        let v = self.reg.get_B();
        self._op_sbc(v);
        0
    }

    /// SBC A,C: takes C and the carry from A.
    pub fn op_0x99(&mut self) -> (r: u32)
        ensures
            old(self).regs_to(
                *final(self),
                alu_sub(old(self).reg@, old(self).reg@.c, old(self).reg@.cf),
            ),
            r == 0,
    {
        let v = self.reg.get_C();
        self._op_sbc(v);
        0
    }

    /// SBC A,D: takes D and the carry from A.
    pub fn op_0x9A(&mut self) -> (r: u32)
        ensures
            old(self).regs_to(
                *final(self),
                alu_sub(old(self).reg@, old(self).reg@.d, old(self).reg@.cf),
            ),
            r == 0,
    {
        let v = self.reg.get_D();
        self._op_sbc(v);
        0
    }

    /// SBC A,E: takes E and the carry from A.
    pub fn op_0x9B(&mut self) -> (r: u32)
        ensures
            old(self).regs_to(
                *final(self),
                alu_sub(old(self).reg@, old(self).reg@.e, old(self).reg@.cf),
            ),
            r == 0,
    {
        let v = self.reg.get_E();
        self._op_sbc(v);
        0
    }

    /// SBC A,H: takes H and the carry from A.
    pub fn op_0x9C(&mut self) -> (r: u32)
        ensures
            old(self).regs_to(
                *final(self),
                alu_sub(old(self).reg@, old(self).reg@.h, old(self).reg@.cf),
            ),
            r == 0,
    {
        let v = self.reg.get_H();
        self._op_sbc(v);
        0
    }

    /// SBC A,L: takes L and the carry from A.
    pub fn op_0x9D(&mut self) -> (r: u32)
        ensures
            old(self).regs_to(
                *final(self),
                alu_sub(old(self).reg@, old(self).reg@.l, old(self).reg@.cf),
            ),
            r == 0,
    {
        let v = self.reg.get_L();
        self._op_sbc(v);
        0
    }

    /// SBC A,(HL): takes the byte at the address in HL and the carry from A.
    pub fn op_0x9E(&mut self) -> (r: u32)
        ensures
            old(self).regs_to(
                *final(self),
                alu_sub(old(self).reg@, old(self).spec_at_hl(), old(self).reg@.cf),
            ),
            r == 0,
    {
        let v = self.data_bus.read_byte(self.reg.get_HL());
        self._op_sbc(v);
        0
    }

    /// SBC A,A: takes A and the carry from A.
    pub fn op_0x9F(&mut self) -> (r: u32)
        ensures
            old(self).regs_to(
                *final(self),
                alu_sub(old(self).reg@, old(self).reg@.a, old(self).reg@.cf),
            ),
            r == 0,
    {
        let v = self.reg.get_A();
        self._op_sbc(v);
        0
    }

    /// AND B: ands B into A.
    pub fn op_0xA0(&mut self) -> (r: u32)
        ensures
            old(self).regs_to(*final(self), alu_and(old(self).reg@, old(self).reg@.b)),
            r == 0,
    {
        let v = self.reg.get_B();
        self._op_and(v);
        0
    }

    /// AND C: ands C into A.
    pub fn op_0xA1(&mut self) -> (r: u32)
        ensures
            old(self).regs_to(*final(self), alu_and(old(self).reg@, old(self).reg@.c)),
            r == 0,
    {
        let v = self.reg.get_C();
        self._op_and(v);
        0
    }

    /// AND D: ands D into A.
    pub fn op_0xA2(&mut self) -> (r: u32)
        ensures
            old(self).regs_to(*final(self), alu_and(old(self).reg@, old(self).reg@.d)),
            r == 0,
    {
        let v = self.reg.get_D();
        self._op_and(v);
        0
    }

    /// AND E: ands E into A.
    pub fn op_0xA3(&mut self) -> (r: u32)
        ensures
            old(self).regs_to(*final(self), alu_and(old(self).reg@, old(self).reg@.e)),
            r == 0,
    {
        let v = self.reg.get_E();
        self._op_and(v);
        0
    }

    /// AND H: ands H into A.
    pub fn op_0xA4(&mut self) -> (r: u32)
        ensures
            old(self).regs_to(*final(self), alu_and(old(self).reg@, old(self).reg@.h)),
            r == 0,
    {
        let v = self.reg.get_H();
        self._op_and(v);
        0
    }

    /// AND L: ands L into A.
    pub fn op_0xA5(&mut self) -> (r: u32)
        ensures
            old(self).regs_to(*final(self), alu_and(old(self).reg@, old(self).reg@.l)),
            r == 0,
    {
        let v = self.reg.get_L();
        self._op_and(v);
        0
    }

    /// AND (HL): ands the byte at the address in HL into A.
    pub fn op_0xA6(&mut self) -> (r: u32)
        ensures
            old(self).regs_to(*final(self), alu_and(old(self).reg@, old(self).spec_at_hl())),
            r == 0,
    {
        let v = self.data_bus.read_byte(self.reg.get_HL());
        self._op_and(v);
        0
    }

    /// AND A: ands A into A.
    pub fn op_0xA7(&mut self) -> (r: u32)
        ensures
            old(self).regs_to(*final(self), alu_and(old(self).reg@, old(self).reg@.a)),
            r == 0,
    {
        let v = self.reg.get_A();
        self._op_and(v);
        0
    }

    /// XOR B: xors B into A.
    pub fn op_0xA8(&mut self) -> (r: u32)
        ensures
            old(self).regs_to(*final(self), alu_xor(old(self).reg@, old(self).reg@.b)),
            r == 0,
    {
        let v = self.reg.get_B();
        self._op_xor(v);
        0
    }

    /// XOR C: xors C into A.
    pub fn op_0xA9(&mut self) -> (r: u32)
        ensures
            old(self).regs_to(*final(self), alu_xor(old(self).reg@, old(self).reg@.c)),
            r == 0,
    {
        let v = self.reg.get_C();
        self._op_xor(v);
        0
    }

    /// XOR D: xors D into A.
    pub fn op_0xAA(&mut self) -> (r: u32)
        ensures
            old(self).regs_to(*final(self), alu_xor(old(self).reg@, old(self).reg@.d)),
            r == 0,
    {
        let v = self.reg.get_D();
        self._op_xor(v);
        0
    }

    /// XOR E: xors E into A.
    pub fn op_0xAB(&mut self) -> (r: u32)
        ensures
            old(self).regs_to(*final(self), alu_xor(old(self).reg@, old(self).reg@.e)),
            r == 0,
    {
        let v = self.reg.get_E();
        self._op_xor(v);
        0
    }

    /// XOR H: xors H into A.
    pub fn op_0xAC(&mut self) -> (r: u32)
        ensures
            old(self).regs_to(*final(self), alu_xor(old(self).reg@, old(self).reg@.h)),
            r == 0,
    {
        let v = self.reg.get_H();
        self._op_xor(v);
        0
    }

    /// XOR L: xors L into A.
    pub fn op_0xAD(&mut self) -> (r: u32)
        ensures
            old(self).regs_to(*final(self), alu_xor(old(self).reg@, old(self).reg@.l)),
            r == 0,
    {
        let v = self.reg.get_L();
        self._op_xor(v);
        0
    }

    /// XOR (HL): xors the byte at the address in HL into A.
    pub fn op_0xAE(&mut self) -> (r: u32)
        ensures
            old(self).regs_to(*final(self), alu_xor(old(self).reg@, old(self).spec_at_hl())),
            r == 0,
    {
        let v = self.data_bus.read_byte(self.reg.get_HL());
        self._op_xor(v);
        0
    }

    /// XOR A: xors A into A.
    pub fn op_0xAF(&mut self) -> (r: u32)
        ensures
            old(self).regs_to(*final(self), alu_xor(old(self).reg@, old(self).reg@.a)),
            r == 0,
    {
        let v = self.reg.get_A();
        self._op_xor(v);
        0
    }

    /// OR B: ors B into A.
    pub fn op_0xB0(&mut self) -> (r: u32)
        ensures
            old(self).regs_to(*final(self), alu_or(old(self).reg@, old(self).reg@.b)),
            r == 0,
    {
        let v = self.reg.get_B();
        self._op_or(v);
        0
    }

    /// OR C: ors C into A.
    pub fn op_0xB1(&mut self) -> (r: u32)
        ensures
            old(self).regs_to(*final(self), alu_or(old(self).reg@, old(self).reg@.c)),
            r == 0,
    {
        let v = self.reg.get_C();
        self._op_or(v);
        0
    }

    /// OR D: ors D into A.
    pub fn op_0xB2(&mut self) -> (r: u32)
        ensures
            old(self).regs_to(*final(self), alu_or(old(self).reg@, old(self).reg@.d)),
            r == 0,
    {
        let v = self.reg.get_D();
        self._op_or(v);
        0
    }

    /// OR E: ors E into A.
    pub fn op_0xB3(&mut self) -> (r: u32)
        ensures
            old(self).regs_to(*final(self), alu_or(old(self).reg@, old(self).reg@.e)),
            r == 0,
    {
        let v = self.reg.get_E();
        self._op_or(v);
        0
    }

    /// OR H: ors H into A.
    pub fn op_0xB4(&mut self) -> (r: u32)
        ensures
            old(self).regs_to(*final(self), alu_or(old(self).reg@, old(self).reg@.h)),
            r == 0,
    {
        let v = self.reg.get_H();
        self._op_or(v);
        0
    }

    /// OR L: ors L into A.
    pub fn op_0xB5(&mut self) -> (r: u32)
        ensures
            old(self).regs_to(*final(self), alu_or(old(self).reg@, old(self).reg@.l)),
            r == 0,
    {
        let v = self.reg.get_L();
        self._op_or(v);
        0
    }

    /// OR (HL): ors the byte at the address in HL into A.
    pub fn op_0xB6(&mut self) -> (r: u32)
        ensures
            old(self).regs_to(*final(self), alu_or(old(self).reg@, old(self).spec_at_hl())),
            r == 0,
    {
        let v = self.data_bus.read_byte(self.reg.get_HL());
        self._op_or(v);
        0
    }

    /// OR A: ors A into A.
    pub fn op_0xB7(&mut self) -> (r: u32)
        ensures
            old(self).regs_to(*final(self), alu_or(old(self).reg@, old(self).reg@.a)),
            r == 0,
    {
        let v = self.reg.get_A();
        self._op_or(v);
        0
    }

    /// CP B: sets the flags of A minus B and keeps A.
    pub fn op_0xB8(&mut self) -> (r: u32)
        ensures
            old(self).regs_to(*final(self), alu_compare(old(self).reg@, old(self).reg@.b)),
            r == 0,
    {
        let v = self.reg.get_B();
        self._op_compare(v);
        0
    }

    /// CP C: sets the flags of A minus C and keeps A.
    pub fn op_0xB9(&mut self) -> (r: u32)
        ensures
            old(self).regs_to(*final(self), alu_compare(old(self).reg@, old(self).reg@.c)),
            r == 0,
    {
        let v = self.reg.get_C();
        self._op_compare(v);
        0
    }

    /// CP D: sets the flags of A minus D and keeps A.
    pub fn op_0xBA(&mut self) -> (r: u32)
        ensures
            old(self).regs_to(*final(self), alu_compare(old(self).reg@, old(self).reg@.d)),
            r == 0,
    {
        let v = self.reg.get_D();
        self._op_compare(v);
        0
    }

    /// CP E: sets the flags of A minus E and keeps A.
    pub fn op_0xBB(&mut self) -> (r: u32)
        ensures
            old(self).regs_to(*final(self), alu_compare(old(self).reg@, old(self).reg@.e)),
            r == 0,
    {
        let v = self.reg.get_E();
        self._op_compare(v);
        0
    }

    /// CP H: sets the flags of A minus H and keeps A.
    pub fn op_0xBC(&mut self) -> (r: u32)
        ensures
            old(self).regs_to(*final(self), alu_compare(old(self).reg@, old(self).reg@.h)),
            r == 0,
    {
        let v = self.reg.get_H();
        self._op_compare(v);
        0
    }

    /// CP L: sets the flags of A minus L and keeps A.
    pub fn op_0xBD(&mut self) -> (r: u32)
        ensures
            old(self).regs_to(*final(self), alu_compare(old(self).reg@, old(self).reg@.l)),
            r == 0,
    {
        let v = self.reg.get_L();
        self._op_compare(v);
        0
    }

    /// CP (HL): sets the flags of A minus the byte at the address in HL and
    /// keeps A.
    pub fn op_0xBE(&mut self) -> (r: u32)
        ensures
            old(self).regs_to(*final(self), alu_compare(old(self).reg@, old(self).spec_at_hl())),
            r == 0,
    {
        let v = self.data_bus.read_byte(self.reg.get_HL());
        self._op_compare(v);
        0
    }

    /// CP A: sets the flags of A minus A and keeps A.
    pub fn op_0xBF(&mut self) -> (r: u32)
        ensures
            old(self).regs_to(*final(self), alu_compare(old(self).reg@, old(self).reg@.a)),
            r == 0,
    {
        let v = self.reg.get_A();
        self._op_compare(v);
        0
    }
}

} // verus!
