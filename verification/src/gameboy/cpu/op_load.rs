//! The instructions 0x40 to 0x7F: loads between registers, and HALT.

use vstd::prelude::*;

use crate::gameboy::cpu::cpu::CPU;
use crate::gameboy::cpu::register::RegisterView;
use crate::gameboy::mmu::IOHandler;

verus! {

#[allow(non_snake_case)]
impl<M: IOHandler> CPU<M> {
    /// LD B,B: copies B into B.
    pub fn op_0x40(&mut self) -> (r: u32)
        ensures
            old(self).regs_to(
                *final(self),
                (RegisterView { b: old(self).reg@.b, ..old(self).reg@ }),
            ),
            r == 0,
    {
        let v = self.reg.get_B();
        self.reg.set_B(v);
        0
    }

    /// LD B,C: copies C into B.
    pub fn op_0x41(&mut self) -> (r: u32)
        ensures
            old(self).regs_to(
                *final(self),
                (RegisterView { b: old(self).reg@.c, ..old(self).reg@ }),
            ),
            r == 0,
    {
        let v = self.reg.get_C();
        self.reg.set_B(v);
        0
    }

    /// LD B,D: copies D into B.
    pub fn op_0x42(&mut self) -> (r: u32)
        ensures
            old(self).regs_to(
                *final(self),
                (RegisterView { b: old(self).reg@.d, ..old(self).reg@ }),
            ),
            r == 0,
    {
        let v = self.reg.get_D();
        self.reg.set_B(v);
        0
    }

    /// LD B,E: copies E into B.
    pub fn op_0x43(&mut self) -> (r: u32)
        ensures
            old(self).regs_to(
                *final(self),
                (RegisterView { b: old(self).reg@.e, ..old(self).reg@ }),
            ),
            r == 0,
    {
        let v = self.reg.get_E();
        self.reg.set_B(v);
        0
    }

    /// LD B,H: copies H into B.
    pub fn op_0x44(&mut self) -> (r: u32)
        ensures
            old(self).regs_to(
                *final(self),
                (RegisterView { b: old(self).reg@.h, ..old(self).reg@ }),
            ),
            r == 0,
    {
        let v = self.reg.get_H();
        self.reg.set_B(v);
        0
    }

    /// LD B,L: copies L into B.
    pub fn op_0x45(&mut self) -> (r: u32)
        ensures
            old(self).regs_to(
                *final(self),
                (RegisterView { b: old(self).reg@.l, ..old(self).reg@ }),
            ),
            r == 0,
    {
        let v = self.reg.get_L();
        self.reg.set_B(v);
        0
    }

    /// LD B,(HL): loads the byte at the address in HL into B.
    pub fn op_0x46(&mut self) -> (r: u32)
        ensures
            old(self).regs_to(
                *final(self),
                (RegisterView { b: old(self).spec_at_hl(), ..old(self).reg@ }),
            ),
            r == 0,
    {
        let v = self.data_bus.read_byte(self.reg.get_HL());
        self.reg.set_B(v);
        0
    }

    /// LD B,A: copies A into B.
    pub fn op_0x47(&mut self) -> (r: u32)
        ensures
            old(self).regs_to(
                *final(self),
                (RegisterView { b: old(self).reg@.a, ..old(self).reg@ }),
            ),
            r == 0,
    {
        let v = self.reg.get_A();
        self.reg.set_B(v);
        0
    }

    /// LD C,B: copies B into C.
    pub fn op_0x48(&mut self) -> (r: u32)
        ensures
            old(self).regs_to(
                *final(self),
                (RegisterView { c: old(self).reg@.b, ..old(self).reg@ }),
            ),
            r == 0,
    {
        let v = self.reg.get_B();
        self.reg.set_C(v);
        0
    }

    /// LD C,C: copies C into C.
    pub fn op_0x49(&mut self) -> (r: u32)
        ensures
            old(self).regs_to(
                *final(self),
                (RegisterView { c: old(self).reg@.c, ..old(self).reg@ }),
            ),
            r == 0,
    {
        let v = self.reg.get_C();
        self.reg.set_C(v);
        0
    }

    /// LD C,D: copies D into C.
    pub fn op_0x4A(&mut self) -> (r: u32)
        ensures
            old(self).regs_to(
                *final(self),
                (RegisterView { c: old(self).reg@.d, ..old(self).reg@ }),
            ),
            r == 0,
    {
        let v = self.reg.get_D();
        self.reg.set_C(v);
        0
    }

    /// LD C,E: copies E into C.
    pub fn op_0x4B(&mut self) -> (r: u32)
        ensures
            old(self).regs_to(
                *final(self),
                (RegisterView { c: old(self).reg@.e, ..old(self).reg@ }),
            ),
            r == 0,
    {
        let v = self.reg.get_E();
        self.reg.set_C(v);
        0
    }

    /// LD C,H: copies H into C.
    pub fn op_0x4C(&mut self) -> (r: u32)
        ensures
            old(self).regs_to(
                *final(self),
                (RegisterView { c: old(self).reg@.h, ..old(self).reg@ }),
            ),
            r == 0,
    {
        let v = self.reg.get_H();
        self.reg.set_C(v);
        0
    }

    /// LD C,L: copies L into C.
    pub fn op_0x4D(&mut self) -> (r: u32)
        ensures
            old(self).regs_to(
                *final(self),
                (RegisterView { c: old(self).reg@.l, ..old(self).reg@ }),
            ),
            r == 0,
    {
        let v = self.reg.get_L();
        self.reg.set_C(v);
        0
    }

    /// LD C,(HL): loads the byte at the address in HL into C.
    pub fn op_0x4E(&mut self) -> (r: u32)
        ensures
            old(self).regs_to(
                *final(self),
                (RegisterView { c: old(self).spec_at_hl(), ..old(self).reg@ }),
            ),
            r == 0,
    {
        let v = self.data_bus.read_byte(self.reg.get_HL());
        self.reg.set_C(v);
        0
    }

    /// LD C,A: copies A into C.
    pub fn op_0x4F(&mut self) -> (r: u32)
        ensures
            old(self).regs_to(
                *final(self),
                (RegisterView { c: old(self).reg@.a, ..old(self).reg@ }),
            ),
            r == 0,
    {
        let v = self.reg.get_A();
        self.reg.set_C(v);
        0
    }

    /// LD D,B: copies B into D.
    pub fn op_0x50(&mut self) -> (r: u32)
        ensures
            old(self).regs_to(
                *final(self),
                (RegisterView { d: old(self).reg@.b, ..old(self).reg@ }),
            ),
            r == 0,
    {
        let v = self.reg.get_B();
        self.reg.set_D(v);
        0
    }

    /// LD D,C: copies C into D.
    pub fn op_0x51(&mut self) -> (r: u32)
        ensures
            old(self).regs_to(
                *final(self),
                (RegisterView { d: old(self).reg@.c, ..old(self).reg@ }),
            ),
            r == 0,
    {
        let v = self.reg.get_C();
        self.reg.set_D(v);
        0
    }

    /// LD D,D: copies D into D.
    pub fn op_0x52(&mut self) -> (r: u32)
        ensures
            old(self).regs_to(
                *final(self),
                (RegisterView { d: old(self).reg@.d, ..old(self).reg@ }),
            ),
            r == 0,
    {
        let v = self.reg.get_D();
        self.reg.set_D(v);
        0
    }

    /// LD D,E: copies E into D.
    pub fn op_0x53(&mut self) -> (r: u32)
        ensures
            old(self).regs_to(
                *final(self),
                (RegisterView { d: old(self).reg@.e, ..old(self).reg@ }),
            ),
            r == 0,
    {
        let v = self.reg.get_E();
        self.reg.set_D(v);
        0
    }

    /// LD D,H: copies H into D.
    pub fn op_0x54(&mut self) -> (r: u32)
        ensures
            old(self).regs_to(
                *final(self),
                (RegisterView { d: old(self).reg@.h, ..old(self).reg@ }),
            ),
            r == 0,
    {
        let v = self.reg.get_H();
        self.reg.set_D(v);
        0
    }

    /// LD D,L: copies L into D.
    pub fn op_0x55(&mut self) -> (r: u32)
        ensures
            old(self).regs_to(
                *final(self),
                (RegisterView { d: old(self).reg@.l, ..old(self).reg@ }),
            ),
            r == 0,
    {
        let v = self.reg.get_L();
        self.reg.set_D(v);
        0
    }

    /// LD D,(HL): loads the byte at the address in HL into D.
    pub fn op_0x56(&mut self) -> (r: u32)
        ensures
            old(self).regs_to(
                *final(self),
                (RegisterView { d: old(self).spec_at_hl(), ..old(self).reg@ }),
            ),
            r == 0,
    {
        let v = self.data_bus.read_byte(self.reg.get_HL());
        self.reg.set_D(v);
        0
    }

    /// LD D,A: copies A into D.
    pub fn op_0x57(&mut self) -> (r: u32)
        ensures
            old(self).regs_to(
                *final(self),
                (RegisterView { d: old(self).reg@.a, ..old(self).reg@ }),
            ),
            r == 0,
    {
        let v = self.reg.get_A();
        self.reg.set_D(v);
        0
    }

    /// LD E,B: copies B into E.
    pub fn op_0x58(&mut self) -> (r: u32)
        ensures
            old(self).regs_to(
                *final(self),
                (RegisterView { e: old(self).reg@.b, ..old(self).reg@ }),
            ),
            r == 0,
    {
        let v = self.reg.get_B();
        self.reg.set_E(v);
        0
    }

    /// LD E,C: copies C into E.
    pub fn op_0x59(&mut self) -> (r: u32)
        ensures
            old(self).regs_to(
                *final(self),
                (RegisterView { e: old(self).reg@.c, ..old(self).reg@ }),
            ),
            r == 0,
    {
        let v = self.reg.get_C();
        self.reg.set_E(v);
        0
    }

    /// LD E,D: copies D into E.
    pub fn op_0x5A(&mut self) -> (r: u32)
        ensures
            old(self).regs_to(
                *final(self),
                (RegisterView { e: old(self).reg@.d, ..old(self).reg@ }),
            ),
            r == 0,
    {
        let v = self.reg.get_D();
        self.reg.set_E(v);
        0
    }

    /// LD E,E: copies E into E.
    pub fn op_0x5B(&mut self) -> (r: u32)
        ensures
            old(self).regs_to(
                *final(self),
                (RegisterView { e: old(self).reg@.e, ..old(self).reg@ }),
            ),
            r == 0,
    {
        let v = self.reg.get_E();
        self.reg.set_E(v);
        0
    }

    /// LD E,H: copies H into E.
    pub fn op_0x5C(&mut self) -> (r: u32)
        ensures
            old(self).regs_to(
                *final(self),
                (RegisterView { e: old(self).reg@.h, ..old(self).reg@ }),
            ),
            r == 0,
    {
        let v = self.reg.get_H();
        self.reg.set_E(v);
        0
    }

    /// LD E,L: copies L into E.
    pub fn op_0x5D(&mut self) -> (r: u32)
        ensures
            old(self).regs_to(
                *final(self),
                (RegisterView { e: old(self).reg@.l, ..old(self).reg@ }),
            ),
            r == 0,
    {
        let v = self.reg.get_L();
        self.reg.set_E(v);
        0
    }

    /// LD E,(HL): loads the byte at the address in HL into E.
    pub fn op_0x5E(&mut self) -> (r: u32)
        ensures
            old(self).regs_to(
                *final(self),
                (RegisterView { e: old(self).spec_at_hl(), ..old(self).reg@ }),
            ),
            r == 0,
    {
        let v = self.data_bus.read_byte(self.reg.get_HL());
        self.reg.set_E(v);
        0
    }

    /// LD E,A: copies A into E.
    pub fn op_0x5F(&mut self) -> (r: u32)
        ensures
            old(self).regs_to(
                *final(self),
                (RegisterView { e: old(self).reg@.a, ..old(self).reg@ }),
            ),
            r == 0,
    {
        let v = self.reg.get_A();
        self.reg.set_E(v);
        0
    }

    /// LD H,B: copies B into H.
    pub fn op_0x60(&mut self) -> (r: u32)
        ensures
            old(self).regs_to(
                *final(self),
                (RegisterView { h: old(self).reg@.b, ..old(self).reg@ }),
            ),
            r == 0,
    {
        let v = self.reg.get_B();
        self.reg.set_H(v);
        0
    }

    /// LD H,C: copies C into H.
    pub fn op_0x61(&mut self) -> (r: u32)
        ensures
            old(self).regs_to(
                *final(self),
                (RegisterView { h: old(self).reg@.c, ..old(self).reg@ }),
            ),
            r == 0,
    {
        let v = self.reg.get_C();
        self.reg.set_H(v);
        0
    }

    /// LD H,D: copies D into H.
    pub fn op_0x62(&mut self) -> (r: u32)
        ensures
            old(self).regs_to(
                *final(self),
                (RegisterView { h: old(self).reg@.d, ..old(self).reg@ }),
            ),
            r == 0,
    {
        let v = self.reg.get_D();
        self.reg.set_H(v);
        0
    }

    /// LD H,E: copies E into H.
    pub fn op_0x63(&mut self) -> (r: u32)
        ensures
            old(self).regs_to(
                *final(self),
                (RegisterView { h: old(self).reg@.e, ..old(self).reg@ }),
            ),
            r == 0,
    {
        let v = self.reg.get_E();
        self.reg.set_H(v);
        0
    }

    /// LD H,H: copies H into H.
    pub fn op_0x64(&mut self) -> (r: u32)
        ensures
            old(self).regs_to(
                *final(self),
                (RegisterView { h: old(self).reg@.h, ..old(self).reg@ }),
            ),
            r == 0,
    {
        let v = self.reg.get_H();
        self.reg.set_H(v);
        0
    }

    /// LD H,L: copies L into H.
    pub fn op_0x65(&mut self) -> (r: u32)
        ensures
            old(self).regs_to(
                *final(self),
                (RegisterView { h: old(self).reg@.l, ..old(self).reg@ }),
            ),
            r == 0,
    {
        let v = self.reg.get_L();
        self.reg.set_H(v);
        0
    }

    /// LD H,(HL): loads the byte at the address in HL into H.
    pub fn op_0x66(&mut self) -> (r: u32)
        ensures
            old(self).regs_to(
                *final(self),
                (RegisterView { h: old(self).spec_at_hl(), ..old(self).reg@ }),
            ),
            r == 0,
    {
        let v = self.data_bus.read_byte(self.reg.get_HL());
        self.reg.set_H(v);
        0
    }

    /// LD H,A: copies A into H.
    pub fn op_0x67(&mut self) -> (r: u32)
        ensures
            old(self).regs_to(
                *final(self),
                (RegisterView { h: old(self).reg@.a, ..old(self).reg@ }),
            ),
            r == 0,
    {
        let v = self.reg.get_A();
        self.reg.set_H(v);
        0
    }

    /// LD L,B: copies B into L.
    pub fn op_0x68(&mut self) -> (r: u32)
        ensures
            old(self).regs_to(
                *final(self),
                (RegisterView { l: old(self).reg@.b, ..old(self).reg@ }),
            ),
            r == 0,
    {
        let v = self.reg.get_B();
        self.reg.set_L(v);
        0
    }

    /// LD L,C: copies C into L.
    pub fn op_0x69(&mut self) -> (r: u32)
        ensures
            old(self).regs_to(
                *final(self),
                (RegisterView { l: old(self).reg@.c, ..old(self).reg@ }),
            ),
            r == 0,
    {
        let v = self.reg.get_C();
        self.reg.set_L(v);
        0
    }

    /// LD L,D: copies D into L.
    pub fn op_0x6A(&mut self) -> (r: u32)
        ensures
            old(self).regs_to(
                *final(self),
                (RegisterView { l: old(self).reg@.d, ..old(self).reg@ }),
            ),
            r == 0,
    {
        let v = self.reg.get_D();
        self.reg.set_L(v);
        0
    }

    /// LD L,E: copies E into L.
    pub fn op_0x6B(&mut self) -> (r: u32)
        ensures
            old(self).regs_to(
                *final(self),
                (RegisterView { l: old(self).reg@.e, ..old(self).reg@ }),
            ),
            r == 0,
    {
        let v = self.reg.get_E();
        self.reg.set_L(v);
        0
    }

    /// LD L,H: copies H into L.
    pub fn op_0x6C(&mut self) -> (r: u32)
        ensures
            old(self).regs_to(
                *final(self),
                (RegisterView { l: old(self).reg@.h, ..old(self).reg@ }),
            ),
            r == 0,
    {
        let v = self.reg.get_H();
        self.reg.set_L(v);
        0
    }

    /// LD L,L: copies L into L.
    pub fn op_0x6D(&mut self) -> (r: u32)
        ensures
            old(self).regs_to(
                *final(self),
                (RegisterView { l: old(self).reg@.l, ..old(self).reg@ }),
            ),
            r == 0,
    {
        let v = self.reg.get_L();
        self.reg.set_L(v);
        0
    }

    /// LD L,(HL): loads the byte at the address in HL into L.
    pub fn op_0x6E(&mut self) -> (r: u32)
        ensures
            old(self).regs_to(
                *final(self),
                (RegisterView { l: old(self).spec_at_hl(), ..old(self).reg@ }),
            ),
            r == 0,
    {
        let v = self.data_bus.read_byte(self.reg.get_HL());
        self.reg.set_L(v);
        0
    }

    /// LD L,A: copies A into L.
    pub fn op_0x6F(&mut self) -> (r: u32)
        ensures
            old(self).regs_to(
                *final(self),
                (RegisterView { l: old(self).reg@.a, ..old(self).reg@ }),
            ),
            r == 0,
    {
        let v = self.reg.get_A();
        self.reg.set_L(v);
        0
    }

    /// LD (HL),B: writes B at the address in HL.
    pub fn op_0x70(&mut self) -> (r: u32)
        ensures
            old(self).byte_to(*final(self), old(self).reg@.hl(), old(self).reg@.b, old(self).reg@),
            r == 0,
    {
        let addr = self.reg.get_HL();
        let v = self.reg.get_B();
        self.write_byte_to_memory(addr, v);
        0
    }

    /// LD (HL),C: writes C at the address in HL.
    pub fn op_0x71(&mut self) -> (r: u32)
        ensures
            old(self).byte_to(*final(self), old(self).reg@.hl(), old(self).reg@.c, old(self).reg@),
            r == 0,
    {
        let addr = self.reg.get_HL();
        let v = self.reg.get_C();
        self.write_byte_to_memory(addr, v);
        0
    }

    /// LD (HL),D: writes D at the address in HL.
    pub fn op_0x72(&mut self) -> (r: u32)
        ensures
            old(self).byte_to(*final(self), old(self).reg@.hl(), old(self).reg@.d, old(self).reg@),
            r == 0,
    {
        let addr = self.reg.get_HL();
        let v = self.reg.get_D();
        self.write_byte_to_memory(addr, v);
        0
    }

    /// LD (HL),E: writes E at the address in HL.
    pub fn op_0x73(&mut self) -> (r: u32)
        ensures
            old(self).byte_to(*final(self), old(self).reg@.hl(), old(self).reg@.e, old(self).reg@),
            r == 0,
    {
        let addr = self.reg.get_HL();
        let v = self.reg.get_E();
        self.write_byte_to_memory(addr, v);
        0
    }

    /// LD (HL),H: writes H at the address in HL.
    pub fn op_0x74(&mut self) -> (r: u32)
        ensures
            old(self).byte_to(*final(self), old(self).reg@.hl(), old(self).reg@.h, old(self).reg@),
            r == 0,
    {
        let addr = self.reg.get_HL();
        let v = self.reg.get_H();
        self.write_byte_to_memory(addr, v);
        0
    }

    /// LD (HL),L: writes L at the address in HL.
    pub fn op_0x75(&mut self) -> (r: u32)
        ensures
            old(self).byte_to(*final(self), old(self).reg@.hl(), old(self).reg@.l, old(self).reg@),
            r == 0,
    {
        let addr = self.reg.get_HL();
        let v = self.reg.get_L();
        self.write_byte_to_memory(addr, v);
        0
    }

    /// HALT: stops the processor until an interrupt is pending.
    pub fn op_0x76(&mut self) -> (r: u32)
        ensures
            *final(self) == (CPU { is_halt: true, ..*old(self) }),
            r == 0,
    {
        self.is_halt = true;
        0
    }

    /// LD (HL),A: writes A at the address in HL.
    pub fn op_0x77(&mut self) -> (r: u32)
        ensures
            old(self).byte_to(*final(self), old(self).reg@.hl(), old(self).reg@.a, old(self).reg@),
            r == 0,
    {
        let addr = self.reg.get_HL();
        let v = self.reg.get_A();
        self.write_byte_to_memory(addr, v);
        0
    }

    /// LD A,B: copies B into A.
    pub fn op_0x78(&mut self) -> (r: u32)
        ensures
            old(self).regs_to(
                *final(self),
                (RegisterView { a: old(self).reg@.b, ..old(self).reg@ }),
            ),
            r == 0,
    {
        let v = self.reg.get_B();
        self.reg.set_A(v);
        0
    }

    /// LD A,C: copies C into A.
    pub fn op_0x79(&mut self) -> (r: u32)
        ensures
            old(self).regs_to(
                *final(self),
                (RegisterView { a: old(self).reg@.c, ..old(self).reg@ }),
            ),
            r == 0,
    {
        let v = self.reg.get_C();
        self.reg.set_A(v);
        0
    }

    /// LD A,D: copies D into A.
    pub fn op_0x7A(&mut self) -> (r: u32)
        ensures
            old(self).regs_to(
                *final(self),
                (RegisterView { a: old(self).reg@.d, ..old(self).reg@ }),
            ),
            r == 0,
    {
        let v = self.reg.get_D();
        self.reg.set_A(v);
        0
    }

    /// LD A,E: copies E into A.
    pub fn op_0x7B(&mut self) -> (r: u32)
        ensures
            old(self).regs_to(
                *final(self),
                (RegisterView { a: old(self).reg@.e, ..old(self).reg@ }),
            ),
            r == 0,
    {
        let v = self.reg.get_E();
        self.reg.set_A(v);
        0
    }

    /// LD A,H: copies H into A.
    pub fn op_0x7C(&mut self) -> (r: u32)
        ensures
            old(self).regs_to(
                *final(self),
                (RegisterView { a: old(self).reg@.h, ..old(self).reg@ }),
            ),
            r == 0,
    {
        let v = self.reg.get_H();
        self.reg.set_A(v);
        0
    }

    /// LD A,L: copies L into A.
    pub fn op_0x7D(&mut self) -> (r: u32)
        ensures
            old(self).regs_to(
                *final(self),
                (RegisterView { a: old(self).reg@.l, ..old(self).reg@ }),
            ),
            r == 0,
    {
        let v = self.reg.get_L();
        self.reg.set_A(v);
        0
    }

    /// LD A,(HL): loads the byte at the address in HL into A.
    pub fn op_0x7E(&mut self) -> (r: u32)
        ensures
            old(self).regs_to(
                *final(self),
                (RegisterView { a: old(self).spec_at_hl(), ..old(self).reg@ }),
            ),
            r == 0,
    {
        let v = self.data_bus.read_byte(self.reg.get_HL());
        self.reg.set_A(v);
        0
    }

    /// LD A,A: copies A into A.
    pub fn op_0x7F(&mut self) -> (r: u32)
        ensures
            old(self).regs_to(
                *final(self),
                (RegisterView { a: old(self).reg@.a, ..old(self).reg@ }),
            ),
            r == 0,
    {
        let v = self.reg.get_A();
        self.reg.set_A(v);
        0
    }
}

} // verus!
