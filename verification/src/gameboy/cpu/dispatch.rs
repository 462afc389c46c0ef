//! From the code of an instruction to its handler.

use vstd::prelude::*;

use crate::gameboy::cpu::cpu::CPU;
use crate::gameboy::cpu::decode::spec_known;
use crate::gameboy::mmu::IOHandler;

verus! {

#[allow(non_snake_case)]
impl<M: IOHandler> CPU<M> {
    /// Runs the instruction `code`, from 0x00 to 0x0F, on a processor whose
    /// program counter is behind the opcode.
    #[verifier::rlimit(40)]
    pub fn dispatch_0(&mut self, code: u8) -> (r: u32)
        requires
            code / 16 == 0,
            spec_known(code),
        ensures
            Self::instr_post(code, *old(self), *final(self), r),
            r <= 12,
    {
        match code {
            0x00 => self.op_0x00(),
            0x01 => self.op_0x01(),
            0x02 => self.op_0x02(),
            0x03 => self.op_0x03(),
            0x04 => self.op_0x04(),
            0x05 => self.op_0x05(),
            0x06 => self.op_0x06(),
            0x07 => self.op_0x07(),
            0x08 => self.op_0x08(),
            0x09 => self.op_0x09(),
            0x0A => self.op_0x0A(),
            0x0B => self.op_0x0B(),
            0x0C => self.op_0x0C(),
            0x0D => self.op_0x0D(),
            0x0E => self.op_0x0E(),
            _ => self.op_0x0F(),
        }
    }

    /// Runs the instruction `code`, from 0x10 to 0x1F, on a processor whose
    /// program counter is behind the opcode.
    #[verifier::rlimit(40)]
    pub fn dispatch_1(&mut self, code: u8) -> (r: u32)
        requires
            code / 16 == 1,
            spec_known(code),
        ensures
            Self::instr_post(code, *old(self), *final(self), r),
            r <= 12,
    {
        match code {
            0x10 => self.op_0x10(),
            0x11 => self.op_0x11(),
            0x12 => self.op_0x12(),
            0x13 => self.op_0x13(),
            0x14 => self.op_0x14(),
            0x15 => self.op_0x15(),
            0x16 => self.op_0x16(),
            0x17 => self.op_0x17(),
            0x18 => self.op_0x18(),
            0x19 => self.op_0x19(),
            0x1A => self.op_0x1A(),
            0x1B => self.op_0x1B(),
            0x1C => self.op_0x1C(),
            0x1D => self.op_0x1D(),
            0x1E => self.op_0x1E(),
            _ => self.op_0x1F(),
        }
    }

    /// Runs the instruction `code`, from 0x20 to 0x2F, on a processor whose
    /// program counter is behind the opcode.
    #[verifier::rlimit(40)]
    pub fn dispatch_2(&mut self, code: u8) -> (r: u32)
        requires
            code / 16 == 2,
            spec_known(code),
        ensures
            Self::instr_post(code, *old(self), *final(self), r),
            r <= 12,
    {
        match code {
            0x20 => self.op_0x20(),
            0x21 => self.op_0x21(),
            0x22 => self.op_0x22(),
            0x23 => self.op_0x23(),
            0x24 => self.op_0x24(),
            0x25 => self.op_0x25(),
            0x26 => self.op_0x26(),
            0x27 => self.op_0x27(),
            0x28 => self.op_0x28(),
            0x29 => self.op_0x29(),
            0x2A => self.op_0x2A(),
            0x2B => self.op_0x2B(),
            0x2C => self.op_0x2C(),
            0x2D => self.op_0x2D(),
            0x2E => self.op_0x2E(),
            _ => self.op_0x2F(),
        }
    }

    /// Runs the instruction `code`, from 0x30 to 0x3F, on a processor whose
    /// program counter is behind the opcode.
    #[verifier::rlimit(40)]
    pub fn dispatch_3(&mut self, code: u8) -> (r: u32)
        requires
            code / 16 == 3,
            spec_known(code),
        ensures
            Self::instr_post(code, *old(self), *final(self), r),
            r <= 12,
    {
        match code {
            0x30 => self.op_0x30(),
            0x31 => self.op_0x31(),
            0x32 => self.op_0x32(),
            0x33 => self.op_0x33(),
            0x34 => self.op_0x34(),
            0x35 => self.op_0x35(),
            0x36 => self.op_0x36(),
            0x37 => self.op_0x37(),
            0x38 => self.op_0x38(),
            0x39 => self.op_0x39(),
            0x3A => self.op_0x3A(),
            0x3B => self.op_0x3B(),
            0x3C => self.op_0x3C(),
            0x3D => self.op_0x3D(),
            0x3E => self.op_0x3E(),
            _ => self.op_0x3F(),
        }
    }

    /// Runs the instruction `code`, from 0x40 to 0x4F, on a processor whose
    /// program counter is behind the opcode.
    #[verifier::rlimit(40)]
    pub fn dispatch_4(&mut self, code: u8) -> (r: u32)
        requires
            code / 16 == 4,
            spec_known(code),
        ensures
            Self::instr_post(code, *old(self), *final(self), r),
            r <= 12,
    {
        match code {
            0x40 => self.op_0x40(),
            0x41 => self.op_0x41(),
            0x42 => self.op_0x42(),
            0x43 => self.op_0x43(),
            0x44 => self.op_0x44(),
            0x45 => self.op_0x45(),
            0x46 => self.op_0x46(),
            0x47 => self.op_0x47(),
            0x48 => self.op_0x48(),
            0x49 => self.op_0x49(),
            0x4A => self.op_0x4A(),
            0x4B => self.op_0x4B(),
            0x4C => self.op_0x4C(),
            0x4D => self.op_0x4D(),
            0x4E => self.op_0x4E(),
            _ => self.op_0x4F(),
        }
    }

    /// Runs the instruction `code`, from 0x50 to 0x5F, on a processor whose
    /// program counter is behind the opcode.
    #[verifier::rlimit(40)]
    pub fn dispatch_5(&mut self, code: u8) -> (r: u32)
        requires
            code / 16 == 5,
            spec_known(code),
        ensures
            Self::instr_post(code, *old(self), *final(self), r),
            r <= 12,
    {
        match code {
            0x50 => self.op_0x50(),
            0x51 => self.op_0x51(),
            0x52 => self.op_0x52(),
            0x53 => self.op_0x53(),
            0x54 => self.op_0x54(),
            0x55 => self.op_0x55(),
            0x56 => self.op_0x56(),
            0x57 => self.op_0x57(),
            0x58 => self.op_0x58(),
            0x59 => self.op_0x59(),
            0x5A => self.op_0x5A(),
            0x5B => self.op_0x5B(),
            0x5C => self.op_0x5C(),
            0x5D => self.op_0x5D(),
            0x5E => self.op_0x5E(),
            _ => self.op_0x5F(),
        }
    }

    /// Runs the instruction `code`, from 0x60 to 0x6F, on a processor whose
    /// program counter is behind the opcode.
    #[verifier::rlimit(40)]
    pub fn dispatch_6(&mut self, code: u8) -> (r: u32)
        requires
            code / 16 == 6,
            spec_known(code),
        ensures
            Self::instr_post(code, *old(self), *final(self), r),
            r <= 12,
    {
        match code {
            0x60 => self.op_0x60(),
            0x61 => self.op_0x61(),
            0x62 => self.op_0x62(),
            0x63 => self.op_0x63(),
            0x64 => self.op_0x64(),
            0x65 => self.op_0x65(),
            0x66 => self.op_0x66(),
            0x67 => self.op_0x67(),
            0x68 => self.op_0x68(),
            0x69 => self.op_0x69(),
            0x6A => self.op_0x6A(),
            0x6B => self.op_0x6B(),
            0x6C => self.op_0x6C(),
            0x6D => self.op_0x6D(),
            0x6E => self.op_0x6E(),
            _ => self.op_0x6F(),
        }
    }

    /// Runs the instruction `code`, from 0x70 to 0x7F, on a processor whose
    /// program counter is behind the opcode.
    #[verifier::rlimit(40)]
    pub fn dispatch_7(&mut self, code: u8) -> (r: u32)
        requires
            code / 16 == 7,
            spec_known(code),
        ensures
            Self::instr_post(code, *old(self), *final(self), r),
            r <= 12,
    {
        match code {
            0x70 => self.op_0x70(),
            0x71 => self.op_0x71(),
            0x72 => self.op_0x72(),
            0x73 => self.op_0x73(),
            0x74 => self.op_0x74(),
            0x75 => self.op_0x75(),
            0x76 => self.op_0x76(),
            0x77 => self.op_0x77(),
            0x78 => self.op_0x78(),
            0x79 => self.op_0x79(),
            0x7A => self.op_0x7A(),
            0x7B => self.op_0x7B(),
            0x7C => self.op_0x7C(),
            0x7D => self.op_0x7D(),
            0x7E => self.op_0x7E(),
            _ => self.op_0x7F(),
        }
    }

    /// Runs the instruction `code`, from 0x80 to 0x8F, on a processor whose
    /// program counter is behind the opcode.
    #[verifier::rlimit(40)]
    pub fn dispatch_8(&mut self, code: u8) -> (r: u32)
        requires
            code / 16 == 8,
            spec_known(code),
        ensures
            Self::instr_post(code, *old(self), *final(self), r),
            r <= 12,
    {
        match code {
            0x80 => self.op_0x80(),
            0x81 => self.op_0x81(),
            0x82 => self.op_0x82(),
            0x83 => self.op_0x83(),
            0x84 => self.op_0x84(),
            0x85 => self.op_0x85(),
            0x86 => self.op_0x86(),
            0x87 => self.op_0x87(),
            0x88 => self.op_0x88(),
            0x89 => self.op_0x89(),
            0x8A => self.op_0x8A(),
            0x8B => self.op_0x8B(),
            0x8C => self.op_0x8C(),
            0x8D => self.op_0x8D(),
            0x8E => self.op_0x8E(),
            _ => self.op_0x8F(),
        }
    }

    /// Runs the instruction `code`, from 0x90 to 0x9F, on a processor whose
    /// program counter is behind the opcode.
    #[verifier::rlimit(40)]
    pub fn dispatch_9(&mut self, code: u8) -> (r: u32)
        requires
            code / 16 == 9,
            spec_known(code),
        ensures
            Self::instr_post(code, *old(self), *final(self), r),
            r <= 12,
    {
        match code {
            0x90 => self.op_0x90(),
            0x91 => self.op_0x91(),
            0x92 => self.op_0x92(),
            0x93 => self.op_0x93(),
            0x94 => self.op_0x94(),
            0x95 => self.op_0x95(),
            0x96 => self.op_0x96(),
            0x97 => self.op_0x97(),
            0x98 => self.op_0x98(),
            0x99 => self.op_0x99(),
            0x9A => self.op_0x9A(),
            0x9B => self.op_0x9B(),
            0x9C => self.op_0x9C(),
            0x9D => self.op_0x9D(),
            0x9E => self.op_0x9E(),
            _ => self.op_0x9F(),
        }
    }

    /// Runs the instruction `code`, from 0xA0 to 0xAF, on a processor whose
    /// program counter is behind the opcode.
    #[verifier::rlimit(40)]
    pub fn dispatch_a(&mut self, code: u8) -> (r: u32)
        requires
            code / 16 == 10,
            spec_known(code),
        ensures
            Self::instr_post(code, *old(self), *final(self), r),
            r <= 12,
    {
        match code {
            0xA0 => self.op_0xA0(),
            0xA1 => self.op_0xA1(),
            0xA2 => self.op_0xA2(),
            0xA3 => self.op_0xA3(),
            0xA4 => self.op_0xA4(),
            0xA5 => self.op_0xA5(),
            0xA6 => self.op_0xA6(),
            0xA7 => self.op_0xA7(),
            0xA8 => self.op_0xA8(),
            0xA9 => self.op_0xA9(),
            0xAA => self.op_0xAA(),
            0xAB => self.op_0xAB(),
            0xAC => self.op_0xAC(),
            0xAD => self.op_0xAD(),
            0xAE => self.op_0xAE(),
            _ => self.op_0xAF(),
        }
    }

    /// Runs the instruction `code`, from 0xB0 to 0xBF, on a processor whose
    /// program counter is behind the opcode.
    #[verifier::rlimit(40)]
    pub fn dispatch_b(&mut self, code: u8) -> (r: u32)
        requires
            code / 16 == 11,
            spec_known(code),
        ensures
            Self::instr_post(code, *old(self), *final(self), r),
            r <= 12,
    {
        match code {
            0xB0 => self.op_0xB0(),
            0xB1 => self.op_0xB1(),
            0xB2 => self.op_0xB2(),
            0xB3 => self.op_0xB3(),
            0xB4 => self.op_0xB4(),
            0xB5 => self.op_0xB5(),
            0xB6 => self.op_0xB6(),
            0xB7 => self.op_0xB7(),
            0xB8 => self.op_0xB8(),
            0xB9 => self.op_0xB9(),
            0xBA => self.op_0xBA(),
            0xBB => self.op_0xBB(),
            0xBC => self.op_0xBC(),
            0xBD => self.op_0xBD(),
            0xBE => self.op_0xBE(),
            _ => self.op_0xBF(),
        }
    }

    /// Runs the instruction `code`, from 0xC0 to 0xCF, on a processor whose
    /// program counter is behind the opcode.
    #[verifier::rlimit(40)]
    pub fn dispatch_c(&mut self, code: u8) -> (r: u32)
        requires
            code / 16 == 12,
            spec_known(code),
        ensures
            Self::instr_post(code, *old(self), *final(self), r),
            r <= 12,
    {
        match code {
            0xC0 => self.op_0xC0(),
            0xC1 => self.op_0xC1(),
            0xC2 => self.op_0xC2(),
            0xC3 => self.op_0xC3(),
            0xC4 => self.op_0xC4(),
            0xC5 => self.op_0xC5(),
            0xC6 => self.op_0xC6(),
            0xC7 => self.op_0xC7(),
            0xC8 => self.op_0xC8(),
            0xC9 => self.op_0xC9(),
            0xCA => self.op_0xCA(),
            0xCB => self.op_0xCB(),
            0xCC => self.op_0xCC(),
            0xCD => self.op_0xCD(),
            0xCE => self.op_0xCE(),
            _ => self.op_0xCF(),
        }
    }

    /// Runs the instruction `code`, from 0xD0 to 0xDF, on a processor whose
    /// program counter is behind the opcode.
    #[verifier::rlimit(40)]
    pub fn dispatch_d(&mut self, code: u8) -> (r: u32)
        requires
            code / 16 == 13,
            spec_known(code),
        ensures
            Self::instr_post(code, *old(self), *final(self), r),
            r <= 12,
    {
        match code {
            0xD0 => self.op_0xD0(),
            0xD1 => self.op_0xD1(),
            0xD2 => self.op_0xD2(),
            0xD4 => self.op_0xD4(),
            0xD5 => self.op_0xD5(),
            0xD6 => self.op_0xD6(),
            0xD7 => self.op_0xD7(),
            0xD8 => self.op_0xD8(),
            0xD9 => self.op_0xD9(),
            0xDA => self.op_0xDA(),
            0xDC => self.op_0xDC(),
            0xDE => self.op_0xDE(),
            _ => self.op_0xDF(),
        }
    }

    /// Runs the instruction `code`, from 0xE0 to 0xEF, on a processor whose
    /// program counter is behind the opcode.
    #[verifier::rlimit(40)]
    pub fn dispatch_e(&mut self, code: u8) -> (r: u32)
        requires
            code / 16 == 14,
            spec_known(code),
        ensures
            Self::instr_post(code, *old(self), *final(self), r),
            r <= 12,
    {
        match code {
            0xE0 => self.op_0xE0(),
            0xE1 => self.op_0xE1(),
            0xE2 => self.op_0xE2(),
            0xE5 => self.op_0xE5(),
            0xE6 => self.op_0xE6(),
            0xE7 => self.op_0xE7(),
            0xE8 => self.op_0xE8(),
            0xE9 => self.op_0xE9(),
            0xEA => self.op_0xEA(),
            0xEE => self.op_0xEE(),
            _ => self.op_0xEF(),
        }
    }

    /// Runs the instruction `code`, from 0xF0 to 0xFF, on a processor whose
    /// program counter is behind the opcode.
    #[verifier::rlimit(40)]
    pub fn dispatch_f(&mut self, code: u8) -> (r: u32)
        requires
            code / 16 == 15,
            spec_known(code),
        ensures
            Self::instr_post(code, *old(self), *final(self), r),
            r <= 12,
    {
        match code {
            0xF0 => self.op_0xF0(),
            0xF1 => self.op_0xF1(),
            0xF2 => self.op_0xF2(),
            0xF3 => self.op_0xF3(),
            0xF5 => self.op_0xF5(),
            0xF6 => self.op_0xF6(),
            0xF7 => self.op_0xF7(),
            0xF8 => self.op_0xF8(),
            0xF9 => self.op_0xF9(),
            0xFA => self.op_0xFA(),
            0xFB => self.op_0xFB(),
            0xFE => self.op_0xFE(),
            _ => self.op_0xFF(),
        }
    }

    /// Runs the instruction `code` on a processor whose program counter is
    /// behind the opcode. Returns the ticks it took beyond its base cost.
    pub fn dispatch(&mut self, code: u8) -> (r: u32)
        requires
            spec_known(code),
        ensures
            Self::instr_post(code, *old(self), *final(self), r),
            r <= 12,
    {
        match code / 16 {
            0 => self.dispatch_0(code),
            1 => self.dispatch_1(code),
            2 => self.dispatch_2(code),
            3 => self.dispatch_3(code),
            4 => self.dispatch_4(code),
            5 => self.dispatch_5(code),
            6 => self.dispatch_6(code),
            7 => self.dispatch_7(code),
            8 => self.dispatch_8(code),
            9 => self.dispatch_9(code),
            10 => self.dispatch_a(code),
            11 => self.dispatch_b(code),
            12 => self.dispatch_c(code),
            13 => self.dispatch_d(code),
            14 => self.dispatch_e(code),
            _ => self.dispatch_f(code),
        }
    }
}

} // verus!
