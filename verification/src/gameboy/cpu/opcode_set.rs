//! The table of the instructions.

use vstd::prelude::*;

use crate::gameboy::cpu::cpu::CPU;
use crate::gameboy::cpu::decode::spec_clock;
use crate::gameboy::cpu::decode::spec_known;
use crate::gameboy::mmu::IOHandler;

verus! {

/// The mnemonics of the instructions from 0x00 to 0x0F.
pub open spec fn spec_names_0(code: u8) -> Seq<char> {
    if code == 0x00 {
        "NOP"@
    } else if code == 0x01 {
        "LD BC,d16"@
    } else if code == 0x02 {
        "LD (BC),A"@
    } else if code == 0x03 {
        "INC BC"@
    } else if code == 0x04 {
        "INC B"@
    } else if code == 0x05 {
        "DEC B"@
    } else if code == 0x06 {
        "LD B,d8"@
    } else if code == 0x07 {
        "RLCA"@
    } else if code == 0x08 {
        "LD (a16),SP"@
    } else if code == 0x09 {
        "ADD HL,BC"@
    } else if code == 0x0a {
        "LD A,(BC)"@
    } else if code == 0x0b {
        "DEC BC"@
    } else if code == 0x0c {
        "INC C"@
    } else if code == 0x0d {
        "DEC C"@
    } else if code == 0x0e {
        "LD C,d8"@
    } else if code == 0x0f {
        "RRCA"@
    } else {
        ""@
    }
}

/// The mnemonics of the instructions from 0x10 to 0x1F.
pub open spec fn spec_names_1(code: u8) -> Seq<char> {
    if code == 0x10 {
        "STOP 0"@
    } else if code == 0x11 {
        "LD DE,d16"@
    } else if code == 0x12 {
        "LD (DE),A"@
    } else if code == 0x13 {
        "INC DE"@
    } else if code == 0x14 {
        "INC D"@
    } else if code == 0x15 {
        "DEC D"@
    } else if code == 0x16 {
        "LD D,d8"@
    } else if code == 0x17 {
        "RLA"@
    } else if code == 0x18 {
        "JR r8"@
    } else if code == 0x19 {
        "ADD HL,DE"@
    } else if code == 0x1a {
        "LD A,(DE)"@
    } else if code == 0x1b {
        "DEC DE"@
    } else if code == 0x1c {
        "INC E"@
    } else if code == 0x1d {
        "DEC E"@
    } else if code == 0x1e {
        "LD E,d8"@
    } else if code == 0x1f {
        "RRA"@
    } else {
        ""@
    }
}

/// The mnemonics of the instructions from 0x20 to 0x2F.
pub open spec fn spec_names_2(code: u8) -> Seq<char> {
    if code == 0x20 {
        "JR NZ,r8"@
    } else if code == 0x21 {
        "LD HL,d16"@
    } else if code == 0x22 {
        "LD (HL+),A"@
    } else if code == 0x23 {
        "INC HL"@
    } else if code == 0x24 {
        "INC H"@
    } else if code == 0x25 {
        "DEC H"@
    } else if code == 0x26 {
        "LD H,d8"@
    } else if code == 0x27 {
        "DAA"@
    } else if code == 0x28 {
        "JR Z,r8"@
    } else if code == 0x29 {
        "ADD HL,HL"@
    } else if code == 0x2a {
        "LD A,(HL+)"@
    } else if code == 0x2b {
        "DEC HL"@
    } else if code == 0x2c {
        "INC L"@
    } else if code == 0x2d {
        "DEC L"@
    } else if code == 0x2e {
        "LD L,d8"@
    } else if code == 0x2f {
        "CPL"@
    } else {
        ""@
    }
}

/// The mnemonics of the instructions from 0x30 to 0x3F.
pub open spec fn spec_names_3(code: u8) -> Seq<char> {
    if code == 0x30 {
        "JR NC,r8"@
    } else if code == 0x31 {
        "LD SP,d16"@
    } else if code == 0x32 {
        "LD (HL-),A"@
    } else if code == 0x33 {
        "INC SP"@
    } else if code == 0x34 {
        "INC (HL)"@
    } else if code == 0x35 {
        "DEC (HL)"@
    } else if code == 0x36 {
        "LD (HL),d8"@
    } else if code == 0x37 {
        "SCF"@
    } else if code == 0x38 {
        "JR C,r8"@
    } else if code == 0x39 {
        "ADD HL,SP"@
    } else if code == 0x3a {
        "LD A,(HL-)"@
    } else if code == 0x3b {
        "DEC SP"@
    } else if code == 0x3c {
        "INC A"@
    } else if code == 0x3d {
        "DEC A"@
    } else if code == 0x3e {
        "LD A,d8"@
    } else if code == 0x3f {
        "CCF"@
    } else {
        ""@
    }
}

/// The mnemonics of the instructions from 0x40 to 0x4F.
pub open spec fn spec_names_4(code: u8) -> Seq<char> {
    if code == 0x40 {
        "LD B,B"@
    } else if code == 0x41 {
        "LD B,C"@
    } else if code == 0x42 {
        "LD B,D"@
    } else if code == 0x43 {
        "LD B,E"@
    } else if code == 0x44 {
        "LD B,H"@
    } else if code == 0x45 {
        "LD B,L"@
    } else if code == 0x46 {
        "LD B,(HL)"@
    } else if code == 0x47 {
        "LD B,A"@
    } else if code == 0x48 {
        "LD C,B"@
    } else if code == 0x49 {
        "LD C,C"@
    } else if code == 0x4a {
        "LD C,D"@
    } else if code == 0x4b {
        "LD C,E"@
    } else if code == 0x4c {
        "LD C,H"@
    } else if code == 0x4d {
        "LD C,L"@
    } else if code == 0x4e {
        "LD C,(HL)"@
    } else if code == 0x4f {
        "LD C,A"@
    } else {
        ""@
    }
}

/// The mnemonics of the instructions from 0x50 to 0x5F.
pub open spec fn spec_names_5(code: u8) -> Seq<char> {
    if code == 0x50 {
        "LD D,B"@
    } else if code == 0x51 {
        "LD D,C"@
    } else if code == 0x52 {
        "LD D,D"@
    } else if code == 0x53 {
        "LD D,E"@
    } else if code == 0x54 {
        "LD D,H"@
    } else if code == 0x55 {
        "LD D,L"@
    } else if code == 0x56 {
        "LD D,(HL)"@
    } else if code == 0x57 {
        "LD D,A"@
    } else if code == 0x58 {
        "LD E,B"@
    } else if code == 0x59 {
        "LD E,C"@
    } else if code == 0x5a {
        "LD E,D"@
    } else if code == 0x5b {
        "LD E,E"@
    } else if code == 0x5c {
        "LD E,H"@
    } else if code == 0x5d {
        "LD E,L"@
    } else if code == 0x5e {
        "LD E,(HL)"@
    } else if code == 0x5f {
        "LD E,A"@
    } else {
        ""@
    }
}

/// The mnemonics of the instructions from 0x60 to 0x6F.
pub open spec fn spec_names_6(code: u8) -> Seq<char> {
    if code == 0x60 {
        "LD H,B"@
    } else if code == 0x61 {
        "LD H,C"@
    } else if code == 0x62 {
        "LD H,D"@
    } else if code == 0x63 {
        "LD H,E"@
    } else if code == 0x64 {
        "LD H,H"@
    } else if code == 0x65 {
        "LD H,L"@
    } else if code == 0x66 {
        "LD H,(HL)"@
    } else if code == 0x67 {
        "LD H,A"@
    } else if code == 0x68 {
        "LD L,B"@
    } else if code == 0x69 {
        "LD L,C"@
    } else if code == 0x6a {
        "LD L,D"@
    } else if code == 0x6b {
        "LD L,E"@
    } else if code == 0x6c {
        "LD L,H"@
    } else if code == 0x6d {
        "LD L,L"@
    } else if code == 0x6e {
        "LD L,(HL)"@
    } else if code == 0x6f {
        "LD L,A"@
    } else {
        ""@
    }
}

/// The mnemonics of the instructions from 0x70 to 0x7F.
pub open spec fn spec_names_7(code: u8) -> Seq<char> {
    if code == 0x70 {
        "LD (HL),B"@
    } else if code == 0x71 {
        "LD (HL),C"@
    } else if code == 0x72 {
        "LD (HL),D"@
    } else if code == 0x73 {
        "LD (HL),E"@
    } else if code == 0x74 {
        "LD (HL),H"@
    } else if code == 0x75 {
        "LD (HL),L"@
    } else if code == 0x76 {
        "HALT"@
    } else if code == 0x77 {
        "LD (HL),A"@
    } else if code == 0x78 {
        "LD A,B"@
    } else if code == 0x79 {
        "LD A,C"@
    } else if code == 0x7a {
        "LD A,D"@
    } else if code == 0x7b {
        "LD A,E"@
    } else if code == 0x7c {
        "LD A,H"@
    } else if code == 0x7d {
        "LD A,L"@
    } else if code == 0x7e {
        "LD A,(HL)"@
    } else if code == 0x7f {
        "LD A,A"@
    } else {
        ""@
    }
}

/// The mnemonics of the instructions from 0x80 to 0x8F.
pub open spec fn spec_names_8(code: u8) -> Seq<char> {
    if code == 0x80 {
        "ADD A,B"@
    } else if code == 0x81 {
        "ADD A,C"@
    } else if code == 0x82 {
        "ADD A,D"@
    } else if code == 0x83 {
        "ADD A,E"@
    } else if code == 0x84 {
        "ADD A,H"@
    } else if code == 0x85 {
        "ADD A,L"@
    } else if code == 0x86 {
        "ADD A,(HL)"@
    } else if code == 0x87 {
        "ADD A,A"@
    } else if code == 0x88 {
        "ADC A,B"@
    } else if code == 0x89 {
        "ADC A,C"@
    } else if code == 0x8a {
        "ADC A,D"@
    } else if code == 0x8b {
        "ADC A,E"@
    } else if code == 0x8c {
        "ADC A,H"@
    } else if code == 0x8d {
        "ADC A,L"@
    } else if code == 0x8e {
        "ADC A,(HL)"@
    } else if code == 0x8f {
        "ADC A,A"@
    } else {
        ""@
    }
}

/// The mnemonics of the instructions from 0x90 to 0x9F.
pub open spec fn spec_names_9(code: u8) -> Seq<char> {
    if code == 0x90 {
        "SUB B"@
    } else if code == 0x91 {
        "SUB C"@
    } else if code == 0x92 {
        "SUB D"@
    } else if code == 0x93 {
        "SUB E"@
    } else if code == 0x94 {
        "SUB H"@
    } else if code == 0x95 {
        "SUB L"@
    } else if code == 0x96 {
        "SUB (HL)"@
    } else if code == 0x97 {
        "SUB A"@
    } else if code == 0x98 {
        "SBC A,B"@
    } else if code == 0x99 {
        "SBC A,C"@
    } else if code == 0x9a {
        "SBC A,D"@
    } else if code == 0x9b {
        "SBC A,E"@
    } else if code == 0x9c {
        "SBC A,H"@
    } else if code == 0x9d {
        "SBC A,L"@
    } else if code == 0x9e {
        "SBC A,(HL)"@
    } else if code == 0x9f {
        "SBC A,A"@
    } else {
        ""@
    }
}

/// The mnemonics of the instructions from 0xA0 to 0xAF.
pub open spec fn spec_names_a(code: u8) -> Seq<char> {
    if code == 0xa0 {
        "AND B"@
    } else if code == 0xa1 {
        "AND C"@
    } else if code == 0xa2 {
        "AND D"@
    } else if code == 0xa3 {
        "AND E"@
    } else if code == 0xa4 {
        "AND H"@
    } else if code == 0xa5 {
        "AND L"@
    } else if code == 0xa6 {
        "AND (HL)"@
    } else if code == 0xa7 {
        "AND A"@
    } else if code == 0xa8 {
        "XOR B"@
    } else if code == 0xa9 {
        "XOR C"@
    } else if code == 0xaa {
        "XOR D"@
    } else if code == 0xab {
        "XOR E"@
    } else if code == 0xac {
        "XOR H"@
    } else if code == 0xad {
        "XOR L"@
    } else if code == 0xae {
        "XOR (HL)"@
    } else if code == 0xaf {
        "XOR A"@
    } else {
        ""@
    }
}

/// The mnemonics of the instructions from 0xB0 to 0xBF.
pub open spec fn spec_names_b(code: u8) -> Seq<char> {
    if code == 0xb0 {
        "OR B"@
    } else if code == 0xb1 {
        "OR C"@
    } else if code == 0xb2 {
        "OR D"@
    } else if code == 0xb3 {
        "OR E"@
    } else if code == 0xb4 {
        "OR H"@
    } else if code == 0xb5 {
        "OR L"@
    } else if code == 0xb6 {
        "OR (HL)"@
    } else if code == 0xb7 {
        "OR A"@
    } else if code == 0xb8 {
        "CP B"@
    } else if code == 0xb9 {
        "CP C"@
    } else if code == 0xba {
        "CP D"@
    } else if code == 0xbb {
        "CP E"@
    } else if code == 0xbc {
        "CP H"@
    } else if code == 0xbd {
        "CP L"@
    } else if code == 0xbe {
        "CP (HL)"@
    } else if code == 0xbf {
        "CP A"@
    } else {
        ""@
    }
}

/// The mnemonics of the instructions from 0xC0 to 0xCF.
pub open spec fn spec_names_c(code: u8) -> Seq<char> {
    if code == 0xc0 {
        "RET NZ"@
    } else if code == 0xc1 {
        "POP BC"@
    } else if code == 0xc2 {
        "JP NZ,a16"@
    } else if code == 0xc3 {
        "JP a16"@
    } else if code == 0xc4 {
        "CALL NZ,a16"@
    } else if code == 0xc5 {
        "PUSH BC"@
    } else if code == 0xc6 {
        "ADD A,d8"@
    } else if code == 0xc7 {
        "RST 00H"@
    } else if code == 0xc8 {
        "RET Z"@
    } else if code == 0xc9 {
        "RET"@
    } else if code == 0xca {
        "JP Z,a16"@
    } else if code == 0xcb {
        "PREFIX CB"@
    } else if code == 0xcc {
        "CALL Z,a16"@
    } else if code == 0xcd {
        "CALL a16"@
    } else if code == 0xce {
        "ADC A,d8"@
    } else if code == 0xcf {
        "RST 08H"@
    } else {
        ""@
    }
}

/// The mnemonics of the instructions from 0xD0 to 0xDF.
pub open spec fn spec_names_d(code: u8) -> Seq<char> {
    if code == 0xd0 {
        "RET NC"@
    } else if code == 0xd1 {
        "POP DE"@
    } else if code == 0xd2 {
        "JP NC,a16"@
    } else if code == 0xd4 {
        "CALL NC,a16"@
    } else if code == 0xd5 {
        "PUSH DE"@
    } else if code == 0xd6 {
        "SUB d8"@
    } else if code == 0xd7 {
        "RST 10H"@
    } else if code == 0xd8 {
        "RET C"@
    } else if code == 0xd9 {
        "RETI"@
    } else if code == 0xda {
        "JP C,a16"@
    } else if code == 0xdc {
        "CALL C,a16"@
    } else if code == 0xde {
        "SBC A,d8"@
    } else if code == 0xdf {
        "RST 18H"@
    } else {
        ""@
    }
}

/// The mnemonics of the instructions from 0xE0 to 0xEF.
pub open spec fn spec_names_e(code: u8) -> Seq<char> {
    if code == 0xe0 {
        "LDH (a8),A"@
    } else if code == 0xe1 {
        "POP HL"@
    } else if code == 0xe2 {
        "LD (C),A"@
    } else if code == 0xe5 {
        "PUSH HL"@
    } else if code == 0xe6 {
        "AND d8"@
    } else if code == 0xe7 {
        "RST 20H"@
    } else if code == 0xe8 {
        "ADD SP,r8"@
    } else if code == 0xe9 {
        "JP (HL)"@
    } else if code == 0xea {
        "LD (a16),A"@
    } else if code == 0xee {
        "XOR d8"@
    } else if code == 0xef {
        "RST 28H"@
    } else {
        ""@
    }
}

/// The mnemonics of the instructions from 0xF0 to 0xFF.
pub open spec fn spec_names_f(code: u8) -> Seq<char> {
    if code == 0xf0 {
        "LDH A,(a8)"@
    } else if code == 0xf1 {
        "POP AF"@
    } else if code == 0xf2 {
        "LD A,(C)"@
    } else if code == 0xf3 {
        "DI"@
    } else if code == 0xf5 {
        "PUSH AF"@
    } else if code == 0xf6 {
        "OR d8"@
    } else if code == 0xf7 {
        "RST 30H"@
    } else if code == 0xf8 {
        "LD HL,SP+r8"@
    } else if code == 0xf9 {
        "LD SP,HL"@
    } else if code == 0xfa {
        "LD A,(a16)"@
    } else if code == 0xfb {
        "EI"@
    } else if code == 0xfe {
        "CP d8"@
    } else if code == 0xff {
        "RST 38H"@
    } else {
        ""@
    }
}

/// The mnemonic of the instruction `code`; empty for an unassigned code.
pub open spec fn spec_name(code: u8) -> Seq<char> {
    if code / 16 == 0 {
        spec_names_0(code)
    } else if code / 16 == 1 {
        spec_names_1(code)
    } else if code / 16 == 2 {
        spec_names_2(code)
    } else if code / 16 == 3 {
        spec_names_3(code)
    } else if code / 16 == 4 {
        spec_names_4(code)
    } else if code / 16 == 5 {
        spec_names_5(code)
    } else if code / 16 == 6 {
        spec_names_6(code)
    } else if code / 16 == 7 {
        spec_names_7(code)
    } else if code / 16 == 8 {
        spec_names_8(code)
    } else if code / 16 == 9 {
        spec_names_9(code)
    } else if code / 16 == 10 {
        spec_names_a(code)
    } else if code / 16 == 11 {
        spec_names_b(code)
    } else if code / 16 == 12 {
        spec_names_c(code)
    } else if code / 16 == 13 {
        spec_names_d(code)
    } else if code / 16 == 14 {
        spec_names_e(code)
    } else {
        spec_names_f(code)
    }
}

/// An entry of the instruction table: the code of an instruction, its
/// mnemonic and the ticks it takes at least.
#[derive(Clone, Copy, Debug)]
pub struct OpCode<'a> {
    pub code: u8,
    pub name: &'a str,
    pub clock: u32,
}

impl<'a> OpCode<'a> {
    /// Returns an entry.
    pub fn new(code: u8, name: &'a str, clock: u32) -> (r: Self)
        ensures
            r.code == code,
            r.name == name,
            r.clock == clock,
    {
        OpCode { code, name, clock }
    }

    /// Returns the mnemonic.
    pub fn get_name(&self) -> (r: String)
        ensures
            r@ == self.name@,
    {
        self.name.to_owned()
    }

    /// Returns the ticks that the instruction takes at least.
    pub fn get_clock(&self) -> (r: u32)
        ensures
            r == self.clock,
    {
        self.clock
    }

    /// Returns the code of the instruction.
    pub fn get_code(&self) -> (r: u8)
        ensures
            r == self.code,
    {
        self.code
    }

    /// Runs the instruction on a processor whose program counter is behind
    /// the opcode, and returns the ticks it took.
    pub fn ex<M: IOHandler>(&self, cpu: &mut CPU<M>) -> (r: u32)
        requires
            spec_known(self.code),
            self.clock <= 0xffff,
        ensures
            self.clock <= r <= self.clock + 12,
            CPU::instr_post(self.code, *old(cpu), *final(cpu), (r - self.clock) as u32),
    {
        let extra = cpu.dispatch(self.code);
        extra + self.clock
    }

    /// The table of the instructions: the entry of `code`, or `None` where
    /// the code is unassigned.
    pub fn lookup(code: u8) -> (r: Option<OpCode<'static>>)
        ensures
            r.is_some() == spec_known(code),
            r matches Some(op) ==> op.code == code && op.clock == spec_clock(code) && op.name@
                == spec_name(code),
    {
        match code / 16 {
            0 => Self::row_0(code),
            1 => Self::row_1(code),
            2 => Self::row_2(code),
            3 => Self::row_3(code),
            4 => Self::row_4(code),
            5 => Self::row_5(code),
            6 => Self::row_6(code),
            7 => Self::row_7(code),
            8 => Self::row_8(code),
            9 => Self::row_9(code),
            10 => Self::row_a(code),
            11 => Self::row_b(code),
            12 => Self::row_c(code),
            13 => Self::row_d(code),
            14 => Self::row_e(code),
            _ => Self::row_f(code),
        }
    }

    /// The entries of the instructions from 0x00 to 0x0F.
    pub fn row_0(code: u8) -> (r: Option<OpCode<'static>>)
        requires
            code / 16 == 0,
        ensures
            r.is_some() == spec_known(code),
            r matches Some(op) ==> op.code == code && op.clock == spec_clock(code) && op.name@
                == spec_name(code),
    {
        match code {
            0x00 => Some(OpCode::new(0x00, "NOP", 4)),
            0x01 => Some(OpCode::new(0x01, "LD BC,d16", 12)),
            0x02 => Some(OpCode::new(0x02, "LD (BC),A", 8)),
            0x03 => Some(OpCode::new(0x03, "INC BC", 8)),
            0x04 => Some(OpCode::new(0x04, "INC B", 4)),
            0x05 => Some(OpCode::new(0x05, "DEC B", 4)),
            0x06 => Some(OpCode::new(0x06, "LD B,d8", 8)),
            0x07 => Some(OpCode::new(0x07, "RLCA", 4)),
            0x08 => Some(OpCode::new(0x08, "LD (a16),SP", 20)),
            0x09 => Some(OpCode::new(0x09, "ADD HL,BC", 8)),
            0x0A => Some(OpCode::new(0x0A, "LD A,(BC)", 8)),
            0x0B => Some(OpCode::new(0x0B, "DEC BC", 8)),
            0x0C => Some(OpCode::new(0x0C, "INC C", 4)),
            0x0D => Some(OpCode::new(0x0D, "DEC C", 4)),
            0x0E => Some(OpCode::new(0x0E, "LD C,d8", 8)),
            0x0F => Some(OpCode::new(0x0F, "RRCA", 4)),
            _ => None,
        }
    }

    /// The entries of the instructions from 0x10 to 0x1F.
    pub fn row_1(code: u8) -> (r: Option<OpCode<'static>>)
        requires
            code / 16 == 1,
        ensures
            r.is_some() == spec_known(code),
            r matches Some(op) ==> op.code == code && op.clock == spec_clock(code) && op.name@
                == spec_name(code),
    {
        match code {
            0x10 => Some(OpCode::new(0x10, "STOP 0", 4)),
            0x11 => Some(OpCode::new(0x11, "LD DE,d16", 12)),
            0x12 => Some(OpCode::new(0x12, "LD (DE),A", 8)),
            0x13 => Some(OpCode::new(0x13, "INC DE", 8)),
            0x14 => Some(OpCode::new(0x14, "INC D", 4)),
            0x15 => Some(OpCode::new(0x15, "DEC D", 4)),
            0x16 => Some(OpCode::new(0x16, "LD D,d8", 8)),
            0x17 => Some(OpCode::new(0x17, "RLA", 4)),
            0x18 => Some(OpCode::new(0x18, "JR r8", 12)),
            0x19 => Some(OpCode::new(0x19, "ADD HL,DE", 8)),
            0x1A => Some(OpCode::new(0x1A, "LD A,(DE)", 8)),
            0x1B => Some(OpCode::new(0x1B, "DEC DE", 8)),
            0x1C => Some(OpCode::new(0x1C, "INC E", 4)),
            0x1D => Some(OpCode::new(0x1D, "DEC E", 4)),
            0x1E => Some(OpCode::new(0x1E, "LD E,d8", 8)),
            0x1F => Some(OpCode::new(0x1F, "RRA", 4)),
            _ => None,
        }
    }

    /// The entries of the instructions from 0x20 to 0x2F.
    pub fn row_2(code: u8) -> (r: Option<OpCode<'static>>)
        requires
            code / 16 == 2,
        ensures
            r.is_some() == spec_known(code),
            r matches Some(op) ==> op.code == code && op.clock == spec_clock(code) && op.name@
                == spec_name(code),
    {
        match code {
            0x20 => Some(OpCode::new(0x20, "JR NZ,r8", 8)),
            0x21 => Some(OpCode::new(0x21, "LD HL,d16", 12)),
            0x22 => Some(OpCode::new(0x22, "LD (HL+),A", 8)),
            0x23 => Some(OpCode::new(0x23, "INC HL", 8)),
            0x24 => Some(OpCode::new(0x24, "INC H", 4)),
            0x25 => Some(OpCode::new(0x25, "DEC H", 4)),
            0x26 => Some(OpCode::new(0x26, "LD H,d8", 8)),
            0x27 => Some(OpCode::new(0x27, "DAA", 4)),
            0x28 => Some(OpCode::new(0x28, "JR Z,r8", 8)),
            0x29 => Some(OpCode::new(0x29, "ADD HL,HL", 8)),
            0x2A => Some(OpCode::new(0x2A, "LD A,(HL+)", 8)),
            0x2B => Some(OpCode::new(0x2B, "DEC HL", 8)),
            0x2C => Some(OpCode::new(0x2C, "INC L", 4)),
            0x2D => Some(OpCode::new(0x2D, "DEC L", 4)),
            0x2E => Some(OpCode::new(0x2E, "LD L,d8", 8)),
            0x2F => Some(OpCode::new(0x2F, "CPL", 4)),
            _ => None,
        }
    }

    /// The entries of the instructions from 0x30 to 0x3F.
    pub fn row_3(code: u8) -> (r: Option<OpCode<'static>>)
        requires
            code / 16 == 3,
        ensures
            r.is_some() == spec_known(code),
            r matches Some(op) ==> op.code == code && op.clock == spec_clock(code) && op.name@
                == spec_name(code),
    {
        match code {
            0x30 => Some(OpCode::new(0x30, "JR NC,r8", 8)),
            0x31 => Some(OpCode::new(0x31, "LD SP,d16", 12)),
            0x32 => Some(OpCode::new(0x32, "LD (HL-),A", 8)),
            0x33 => Some(OpCode::new(0x33, "INC SP", 8)),
            0x34 => Some(OpCode::new(0x34, "INC (HL)", 12)),
            0x35 => Some(OpCode::new(0x35, "DEC (HL)", 12)),
            0x36 => Some(OpCode::new(0x36, "LD (HL),d8", 12)),
            0x37 => Some(OpCode::new(0x37, "SCF", 4)),
            0x38 => Some(OpCode::new(0x38, "JR C,r8", 8)),
            0x39 => Some(OpCode::new(0x39, "ADD HL,SP", 8)),
            0x3A => Some(OpCode::new(0x3A, "LD A,(HL-)", 8)),
            0x3B => Some(OpCode::new(0x3B, "DEC SP", 8)),
            0x3C => Some(OpCode::new(0x3C, "INC A", 4)),
            0x3D => Some(OpCode::new(0x3D, "DEC A", 4)),
            0x3E => Some(OpCode::new(0x3E, "LD A,d8", 8)),
            0x3F => Some(OpCode::new(0x3F, "CCF", 4)),
            _ => None,
        }
    }

    /// The entries of the instructions from 0x40 to 0x4F.
    pub fn row_4(code: u8) -> (r: Option<OpCode<'static>>)
        requires
            code / 16 == 4,
        ensures
            r.is_some() == spec_known(code),
            r matches Some(op) ==> op.code == code && op.clock == spec_clock(code) && op.name@
                == spec_name(code),
    {
        match code {
            0x40 => Some(OpCode::new(0x40, "LD B,B", 4)),
            0x41 => Some(OpCode::new(0x41, "LD B,C", 4)),
            0x42 => Some(OpCode::new(0x42, "LD B,D", 4)),
            0x43 => Some(OpCode::new(0x43, "LD B,E", 4)),
            0x44 => Some(OpCode::new(0x44, "LD B,H", 4)),
            0x45 => Some(OpCode::new(0x45, "LD B,L", 4)),
            0x46 => Some(OpCode::new(0x46, "LD B,(HL)", 8)),
            0x47 => Some(OpCode::new(0x47, "LD B,A", 4)),
            0x48 => Some(OpCode::new(0x48, "LD C,B", 4)),
            0x49 => Some(OpCode::new(0x49, "LD C,C", 4)),
            0x4A => Some(OpCode::new(0x4A, "LD C,D", 4)),
            0x4B => Some(OpCode::new(0x4B, "LD C,E", 4)),
            0x4C => Some(OpCode::new(0x4C, "LD C,H", 4)),
            0x4D => Some(OpCode::new(0x4D, "LD C,L", 4)),
            0x4E => Some(OpCode::new(0x4E, "LD C,(HL)", 8)),
            0x4F => Some(OpCode::new(0x4F, "LD C,A", 4)),
            _ => None,
        }
    }

    /// The entries of the instructions from 0x50 to 0x5F.
    pub fn row_5(code: u8) -> (r: Option<OpCode<'static>>)
        requires
            code / 16 == 5,
        ensures
            r.is_some() == spec_known(code),
            r matches Some(op) ==> op.code == code && op.clock == spec_clock(code) && op.name@
                == spec_name(code),
    {
        match code {
            0x50 => Some(OpCode::new(0x50, "LD D,B", 4)),
            0x51 => Some(OpCode::new(0x51, "LD D,C", 4)),
            0x52 => Some(OpCode::new(0x52, "LD D,D", 4)),
            0x53 => Some(OpCode::new(0x53, "LD D,E", 4)),
            0x54 => Some(OpCode::new(0x54, "LD D,H", 4)),
            0x55 => Some(OpCode::new(0x55, "LD D,L", 4)),
            0x56 => Some(OpCode::new(0x56, "LD D,(HL)", 8)),
            0x57 => Some(OpCode::new(0x57, "LD D,A", 4)),
            0x58 => Some(OpCode::new(0x58, "LD E,B", 4)),
            0x59 => Some(OpCode::new(0x59, "LD E,C", 4)),
            0x5A => Some(OpCode::new(0x5A, "LD E,D", 4)),
            0x5B => Some(OpCode::new(0x5B, "LD E,E", 4)),
            0x5C => Some(OpCode::new(0x5C, "LD E,H", 4)),
            0x5D => Some(OpCode::new(0x5D, "LD E,L", 4)),
            0x5E => Some(OpCode::new(0x5E, "LD E,(HL)", 8)),
            0x5F => Some(OpCode::new(0x5F, "LD E,A", 4)),
            _ => None,
        }
    }

    /// The entries of the instructions from 0x60 to 0x6F.
    pub fn row_6(code: u8) -> (r: Option<OpCode<'static>>)
        requires
            code / 16 == 6,
        ensures
            r.is_some() == spec_known(code),
            r matches Some(op) ==> op.code == code && op.clock == spec_clock(code) && op.name@
                == spec_name(code),
    {
        match code {
            0x60 => Some(OpCode::new(0x60, "LD H,B", 4)),
            0x61 => Some(OpCode::new(0x61, "LD H,C", 4)),
            0x62 => Some(OpCode::new(0x62, "LD H,D", 4)),
            0x63 => Some(OpCode::new(0x63, "LD H,E", 4)),
            0x64 => Some(OpCode::new(0x64, "LD H,H", 4)),
            0x65 => Some(OpCode::new(0x65, "LD H,L", 4)),
            0x66 => Some(OpCode::new(0x66, "LD H,(HL)", 8)),
            0x67 => Some(OpCode::new(0x67, "LD H,A", 4)),
            0x68 => Some(OpCode::new(0x68, "LD L,B", 4)),
            0x69 => Some(OpCode::new(0x69, "LD L,C", 4)),
            0x6A => Some(OpCode::new(0x6A, "LD L,D", 4)),
            0x6B => Some(OpCode::new(0x6B, "LD L,E", 4)),
            0x6C => Some(OpCode::new(0x6C, "LD L,H", 4)),
            0x6D => Some(OpCode::new(0x6D, "LD L,L", 4)),
            0x6E => Some(OpCode::new(0x6E, "LD L,(HL)", 8)),
            0x6F => Some(OpCode::new(0x6F, "LD L,A", 4)),
            _ => None,
        }
    }

    /// The entries of the instructions from 0x70 to 0x7F.
    pub fn row_7(code: u8) -> (r: Option<OpCode<'static>>)
        requires
            code / 16 == 7,
        ensures
            r.is_some() == spec_known(code),
            r matches Some(op) ==> op.code == code && op.clock == spec_clock(code) && op.name@
                == spec_name(code),
    {
        match code {
            0x70 => Some(OpCode::new(0x70, "LD (HL),B", 8)),
            0x71 => Some(OpCode::new(0x71, "LD (HL),C", 8)),
            0x72 => Some(OpCode::new(0x72, "LD (HL),D", 8)),
            0x73 => Some(OpCode::new(0x73, "LD (HL),E", 8)),
            0x74 => Some(OpCode::new(0x74, "LD (HL),H", 8)),
            0x75 => Some(OpCode::new(0x75, "LD (HL),L", 8)),
            0x76 => Some(OpCode::new(0x76, "HALT", 4)),
            0x77 => Some(OpCode::new(0x77, "LD (HL),A", 8)),
            0x78 => Some(OpCode::new(0x78, "LD A,B", 4)),
            0x79 => Some(OpCode::new(0x79, "LD A,C", 4)),
            0x7A => Some(OpCode::new(0x7A, "LD A,D", 4)),
            0x7B => Some(OpCode::new(0x7B, "LD A,E", 4)),
            0x7C => Some(OpCode::new(0x7C, "LD A,H", 4)),
            0x7D => Some(OpCode::new(0x7D, "LD A,L", 4)),
            0x7E => Some(OpCode::new(0x7E, "LD A,(HL)", 8)),
            0x7F => Some(OpCode::new(0x7F, "LD A,A", 4)),
            _ => None,
        }
    }

    /// The entries of the instructions from 0x80 to 0x8F.
    pub fn row_8(code: u8) -> (r: Option<OpCode<'static>>)
        requires
            code / 16 == 8,
        ensures
            r.is_some() == spec_known(code),
            r matches Some(op) ==> op.code == code && op.clock == spec_clock(code) && op.name@
                == spec_name(code),
    {
        match code {
            0x80 => Some(OpCode::new(0x80, "ADD A,B", 4)),
            0x81 => Some(OpCode::new(0x81, "ADD A,C", 4)),
            0x82 => Some(OpCode::new(0x82, "ADD A,D", 4)),
            0x83 => Some(OpCode::new(0x83, "ADD A,E", 4)),
            0x84 => Some(OpCode::new(0x84, "ADD A,H", 4)),
            0x85 => Some(OpCode::new(0x85, "ADD A,L", 4)),
            0x86 => Some(OpCode::new(0x86, "ADD A,(HL)", 8)),
            0x87 => Some(OpCode::new(0x87, "ADD A,A", 4)),
            0x88 => Some(OpCode::new(0x88, "ADC A,B", 4)),
            0x89 => Some(OpCode::new(0x89, "ADC A,C", 4)),
            0x8A => Some(OpCode::new(0x8A, "ADC A,D", 4)),
            0x8B => Some(OpCode::new(0x8B, "ADC A,E", 4)),
            0x8C => Some(OpCode::new(0x8C, "ADC A,H", 4)),
            0x8D => Some(OpCode::new(0x8D, "ADC A,L", 4)),
            0x8E => Some(OpCode::new(0x8E, "ADC A,(HL)", 8)),
            0x8F => Some(OpCode::new(0x8F, "ADC A,A", 4)),
            _ => None,
        }
    }

    /// The entries of the instructions from 0x90 to 0x9F.
    pub fn row_9(code: u8) -> (r: Option<OpCode<'static>>)
        requires
            code / 16 == 9,
        ensures
            r.is_some() == spec_known(code),
            r matches Some(op) ==> op.code == code && op.clock == spec_clock(code) && op.name@
                == spec_name(code),
    {
        match code {
            0x90 => Some(OpCode::new(0x90, "SUB B", 4)),
            0x91 => Some(OpCode::new(0x91, "SUB C", 4)),
            0x92 => Some(OpCode::new(0x92, "SUB D", 4)),
            0x93 => Some(OpCode::new(0x93, "SUB E", 4)),
            0x94 => Some(OpCode::new(0x94, "SUB H", 4)),
            0x95 => Some(OpCode::new(0x95, "SUB L", 4)),
            0x96 => Some(OpCode::new(0x96, "SUB (HL)", 8)),
            0x97 => Some(OpCode::new(0x97, "SUB A", 4)),
            0x98 => Some(OpCode::new(0x98, "SBC A,B", 4)),
            0x99 => Some(OpCode::new(0x99, "SBC A,C", 4)),
            0x9A => Some(OpCode::new(0x9A, "SBC A,D", 4)),
            0x9B => Some(OpCode::new(0x9B, "SBC A,E", 4)),
            0x9C => Some(OpCode::new(0x9C, "SBC A,H", 4)),
            0x9D => Some(OpCode::new(0x9D, "SBC A,L", 4)),
            0x9E => Some(OpCode::new(0x9E, "SBC A,(HL)", 8)),
            0x9F => Some(OpCode::new(0x9F, "SBC A,A", 4)),
            _ => None,
        }
    }

    /// The entries of the instructions from 0xA0 to 0xAF.
    pub fn row_a(code: u8) -> (r: Option<OpCode<'static>>)
        requires
            code / 16 == 10,
        ensures
            r.is_some() == spec_known(code),
            r matches Some(op) ==> op.code == code && op.clock == spec_clock(code) && op.name@
                == spec_name(code),
    {
        match code {
            0xA0 => Some(OpCode::new(0xA0, "AND B", 4)),
            0xA1 => Some(OpCode::new(0xA1, "AND C", 4)),
            0xA2 => Some(OpCode::new(0xA2, "AND D", 4)),
            0xA3 => Some(OpCode::new(0xA3, "AND E", 4)),
            0xA4 => Some(OpCode::new(0xA4, "AND H", 4)),
            0xA5 => Some(OpCode::new(0xA5, "AND L", 4)),
            0xA6 => Some(OpCode::new(0xA6, "AND (HL)", 8)),
            0xA7 => Some(OpCode::new(0xA7, "AND A", 4)),
            0xA8 => Some(OpCode::new(0xA8, "XOR B", 4)),
            0xA9 => Some(OpCode::new(0xA9, "XOR C", 4)),
            0xAA => Some(OpCode::new(0xAA, "XOR D", 4)),
            0xAB => Some(OpCode::new(0xAB, "XOR E", 4)),
            0xAC => Some(OpCode::new(0xAC, "XOR H", 4)),
            0xAD => Some(OpCode::new(0xAD, "XOR L", 4)),
            0xAE => Some(OpCode::new(0xAE, "XOR (HL)", 8)),
            0xAF => Some(OpCode::new(0xAF, "XOR A", 4)),
            _ => None,
        }
    }

    /// The entries of the instructions from 0xB0 to 0xBF.
    pub fn row_b(code: u8) -> (r: Option<OpCode<'static>>)
        requires
            code / 16 == 11,
        ensures
            r.is_some() == spec_known(code),
            r matches Some(op) ==> op.code == code && op.clock == spec_clock(code) && op.name@
                == spec_name(code),
    {
        match code {
            0xB0 => Some(OpCode::new(0xB0, "OR B", 4)),
            0xB1 => Some(OpCode::new(0xB1, "OR C", 4)),
            0xB2 => Some(OpCode::new(0xB2, "OR D", 4)),
            0xB3 => Some(OpCode::new(0xB3, "OR E", 4)),
            0xB4 => Some(OpCode::new(0xB4, "OR H", 4)),
            0xB5 => Some(OpCode::new(0xB5, "OR L", 4)),
            0xB6 => Some(OpCode::new(0xB6, "OR (HL)", 8)),
            0xB7 => Some(OpCode::new(0xB7, "OR A", 4)),
            0xB8 => Some(OpCode::new(0xB8, "CP B", 4)),
            0xB9 => Some(OpCode::new(0xB9, "CP C", 4)),
            0xBA => Some(OpCode::new(0xBA, "CP D", 4)),
            0xBB => Some(OpCode::new(0xBB, "CP E", 4)),
            0xBC => Some(OpCode::new(0xBC, "CP H", 4)),
            0xBD => Some(OpCode::new(0xBD, "CP L", 4)),
            0xBE => Some(OpCode::new(0xBE, "CP (HL)", 8)),
            0xBF => Some(OpCode::new(0xBF, "CP A", 4)),
            _ => None,
        }
    }

    /// The entries of the instructions from 0xC0 to 0xCF.
    pub fn row_c(code: u8) -> (r: Option<OpCode<'static>>)
        requires
            code / 16 == 12,
        ensures
            r.is_some() == spec_known(code),
            r matches Some(op) ==> op.code == code && op.clock == spec_clock(code) && op.name@
                == spec_name(code),
    {
        match code {
            0xC0 => Some(OpCode::new(0xC0, "RET NZ", 8)),
            0xC1 => Some(OpCode::new(0xC1, "POP BC", 12)),
            0xC2 => Some(OpCode::new(0xC2, "JP NZ,a16", 12)),
            0xC3 => Some(OpCode::new(0xC3, "JP a16", 16)),
            0xC4 => Some(OpCode::new(0xC4, "CALL NZ,a16", 12)),
            0xC5 => Some(OpCode::new(0xC5, "PUSH BC", 16)),
            0xC6 => Some(OpCode::new(0xC6, "ADD A,d8", 8)),
            0xC7 => Some(OpCode::new(0xC7, "RST 00H", 16)),
            0xC8 => Some(OpCode::new(0xC8, "RET Z", 8)),
            0xC9 => Some(OpCode::new(0xC9, "RET", 16)),
            0xCA => Some(OpCode::new(0xCA, "JP Z,a16", 12)),
            0xCB => Some(OpCode::new(0xCB, "PREFIX CB", 4)),
            0xCC => Some(OpCode::new(0xCC, "CALL Z,a16", 12)),
            0xCD => Some(OpCode::new(0xCD, "CALL a16", 24)),
            0xCE => Some(OpCode::new(0xCE, "ADC A,d8", 8)),
            0xCF => Some(OpCode::new(0xCF, "RST 08H", 16)),
            _ => None,
        }
    }

    /// The entries of the instructions from 0xD0 to 0xDF.
    pub fn row_d(code: u8) -> (r: Option<OpCode<'static>>)
        requires
            code / 16 == 13,
        ensures
            r.is_some() == spec_known(code),
            r matches Some(op) ==> op.code == code && op.clock == spec_clock(code) && op.name@
                == spec_name(code),
    {
        match code {
            0xD0 => Some(OpCode::new(0xD0, "RET NC", 8)),
            0xD1 => Some(OpCode::new(0xD1, "POP DE", 12)),
            0xD2 => Some(OpCode::new(0xD2, "JP NC,a16", 12)),
            0xD4 => Some(OpCode::new(0xD4, "CALL NC,a16", 12)),
            0xD5 => Some(OpCode::new(0xD5, "PUSH DE", 16)),
            0xD6 => Some(OpCode::new(0xD6, "SUB d8", 8)),
            0xD7 => Some(OpCode::new(0xD7, "RST 10H", 16)),
            0xD8 => Some(OpCode::new(0xD8, "RET C", 8)),
            0xD9 => Some(OpCode::new(0xD9, "RETI", 16)),
            0xDA => Some(OpCode::new(0xDA, "JP C,a16", 12)),
            0xDC => Some(OpCode::new(0xDC, "CALL C,a16", 12)),
            0xDE => Some(OpCode::new(0xDE, "SBC A,d8", 8)),
            0xDF => Some(OpCode::new(0xDF, "RST 18H", 16)),
            _ => None,
        }
    }

    /// The entries of the instructions from 0xE0 to 0xEF.
    pub fn row_e(code: u8) -> (r: Option<OpCode<'static>>)
        requires
            code / 16 == 14,
        ensures
            r.is_some() == spec_known(code),
            r matches Some(op) ==> op.code == code && op.clock == spec_clock(code) && op.name@
                == spec_name(code),
    {
        match code {
            0xE0 => Some(OpCode::new(0xE0, "LDH (a8),A", 12)),
            0xE1 => Some(OpCode::new(0xE1, "POP HL", 12)),
            0xE2 => Some(OpCode::new(0xE2, "LD (C),A", 8)),
            0xE5 => Some(OpCode::new(0xE5, "PUSH HL", 16)),
            0xE6 => Some(OpCode::new(0xE6, "AND d8", 8)),
            0xE7 => Some(OpCode::new(0xE7, "RST 20H", 16)),
            0xE8 => Some(OpCode::new(0xE8, "ADD SP,r8", 16)),
            0xE9 => Some(OpCode::new(0xE9, "JP (HL)", 4)),
            0xEA => Some(OpCode::new(0xEA, "LD (a16),A", 16)),
            0xEE => Some(OpCode::new(0xEE, "XOR d8", 8)),
            0xEF => Some(OpCode::new(0xEF, "RST 28H", 16)),
            _ => None,
        }
    }

    /// The entries of the instructions from 0xF0 to 0xFF.
    pub fn row_f(code: u8) -> (r: Option<OpCode<'static>>)
        requires
            code / 16 == 15,
        ensures
            r.is_some() == spec_known(code),
            r matches Some(op) ==> op.code == code && op.clock == spec_clock(code) && op.name@
                == spec_name(code),
    {
        match code {
            0xF0 => Some(OpCode::new(0xF0, "LDH A,(a8)", 12)),
            0xF1 => Some(OpCode::new(0xF1, "POP AF", 12)),
            0xF2 => Some(OpCode::new(0xF2, "LD A,(C)", 8)),
            0xF3 => Some(OpCode::new(0xF3, "DI", 4)),
            0xF5 => Some(OpCode::new(0xF5, "PUSH AF", 16)),
            0xF6 => Some(OpCode::new(0xF6, "OR d8", 8)),
            0xF7 => Some(OpCode::new(0xF7, "RST 30H", 16)),
            0xF8 => Some(OpCode::new(0xF8, "LD HL,SP+r8", 12)),
            0xF9 => Some(OpCode::new(0xF9, "LD SP,HL", 8)),
            0xFA => Some(OpCode::new(0xFA, "LD A,(a16)", 16)),
            0xFB => Some(OpCode::new(0xFB, "EI", 4)),
            0xFE => Some(OpCode::new(0xFE, "CP d8", 8)),
            0xFF => Some(OpCode::new(0xFF, "RST 38H", 16)),
            _ => None,
        }
    }

}

} // verus!
