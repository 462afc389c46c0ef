//! One step of the processor: interrupts, halt, and the next instruction.

use vstd::prelude::*;

use crate::gameboy::cpu::alu::wrap16;
use crate::gameboy::cpu::cpu::CPU;
use crate::gameboy::cpu::decode::spec_clock;
use crate::gameboy::cpu::decode::spec_known;
use crate::gameboy::cpu::opcode_set::OpCode;
use crate::gameboy::cpu::register::RegisterView;
use crate::gameboy::mmu::word_stored;
use crate::gameboy::mmu::IOHandler;
use crate::gameboy::term::STEP_CYCLES;
use crate::gameboy::util::clear_bit;
use crate::gameboy::util::spec_clear_bit;
use crate::gameboy::util::spec_test_bit;
use crate::gameboy::util::test_bit;

verus! {

/// The address of the interrupt-flag register.
pub const ADDR_IF: u16 = 0xff0f;

/// The address of the interrupt-enable register.
pub const ADDR_IE: u16 = 0xffff;

/// The number of the lowest bit that is set in `v`; 7 where none below is.
pub open spec fn spec_lowest_bit(v: u8) -> u8 {
    if spec_test_bit(v, 0) {
        0
    } else if spec_test_bit(v, 1) {
        1
    } else if spec_test_bit(v, 2) {
        2
    } else if spec_test_bit(v, 3) {
        3
    } else if spec_test_bit(v, 4) {
        4
    } else if spec_test_bit(v, 5) {
        5
    } else if spec_test_bit(v, 6) {
        6
    } else {
        7
    }
}

/// Returns the number of the lowest bit that is set in `v`.
pub fn lowest_bit(v: u8) -> (r: u8)
    ensures
        r == spec_lowest_bit(v),
        r <= 7,
{
    if test_bit(v, 0) {
        0
    } else if test_bit(v, 1) {
        1
    } else if test_bit(v, 2) {
        2
    } else if test_bit(v, 3) {
        3
    } else if test_bit(v, 4) {
        4
    } else if test_bit(v, 5) {
        5
    } else if test_bit(v, 6) {
        6
    } else {
        7
    }
}

/// Returns whether `code` is an instruction.
pub fn is_known_opcode(code: u8) -> (r: bool)
    ensures
        r == spec_known(code),
{
    code != 0xd3 && code != 0xdb && code != 0xdd && code != 0xe3 && code != 0xe4 && code != 0xeb
        && code != 0xec && code != 0xed && code != 0xf4 && code != 0xfc && code != 0xfd
}

#[allow(non_snake_case)]
impl<M: IOHandler> CPU<M> {
    /// The interrupts that are requested and enabled.
    pub open spec fn spec_pending(self) -> u8 {
        self.data_bus.byte_at(ADDR_IF) & self.data_bus.byte_at(ADDR_IE)
    }

    /// Whether the next step services an interrupt.
    pub open spec fn spec_dispatches(self) -> bool {
        self.ime_flag && self.spec_pending() != 0
    }

    /// Whether the next step finds the processor halted and leaves it so.
    pub open spec fn spec_sleeps(self) -> bool {
        self.is_halt && self.spec_pending() == 0
    }

    /// The processor after a pending interrupt has woken it.
    pub open spec fn spec_woken(self) -> Self {
        if self.spec_pending() != 0 {
            CPU { is_halt: false, ..self }
        } else {
            self
        }
    }

    /// `post` is this processor after the pending interrupt with the lowest
    /// number was serviced: its request is cleared, interrupts are disabled,
    /// the halt is over, the program counter is pushed and then set to the
    /// vector of the interrupt, 0x40 plus eight times its number.
    pub open spec fn spec_interrupted(self, post: Self) -> bool {
        let n = spec_lowest_bit(self.spec_pending());
        let sp = wrap16(self.reg@.sp - 2);
        &&& exists|mid: M| #[trigger]
            self.data_bus.stored(
                ADDR_IF,
                spec_clear_bit(self.data_bus.byte_at(ADDR_IF), n),
                mid,
            ) && word_stored(mid, sp, self.reg@.pc, post.data_bus)
        &&& post.reg@ == (RegisterView { pc: (0x40 + 8 * n) as u16, sp: sp, ..self.reg@ })
        &&& post.reg.inv()
        &&& !post.is_halt
        &&& !post.ime_flag
        &&& post.step_cycles == self.step_cycles
        &&& post.step_flip == self.step_flip
        &&& post.speed_simulation == self.speed_simulation
    }

    /// `post` is this processor after the instruction at its program
    /// counter, which took `r` ticks.
    pub open spec fn spec_executed(self, post: Self, r: u32) -> bool {
        let code = self.spec_imm();
        &&& spec_clock(code) <= r <= spec_clock(code) + 12
        &&& Self::instr_post(
            code,
            self.with_regs(self.spec_skip(1)),
            post,
            (r - spec_clock(code)) as u32,
        )
    }

    /// `post` is this processor after one step, which took `r` ticks: an
    /// interrupt was serviced in 16 ticks, or the processor stayed halted
    /// for 4, or it ran one instruction.
    pub open spec fn spec_stepped(self, post: Self, r: u32) -> bool {
        if self.spec_dispatches() {
            self.spec_interrupted(post) && r == 16
        } else if self.spec_sleeps() {
            post == self && r == 4
        } else {
            self.spec_woken().spec_executed(post, r)
        }
    }

    /// Whether the next step needs an instruction at the program counter.
    pub open spec fn spec_fetches(self) -> bool {
        !self.spec_dispatches() && !self.spec_sleeps()
    }

    /// The processor after the pacing step that is due, if one is, has been
    /// counted.
    pub open spec fn spec_paced(self) -> Self {
        if self.spec_pace_due() {
            CPU {
                step_flip: true,
                step_cycles: (self.step_cycles - STEP_CYCLES) as u32,
                ..self
            }
        } else {
            self
        }
    }

    /// Whether a pacing step has run its ticks.
    pub open spec fn spec_pace_due(self) -> bool {
        self.speed_simulation && self.step_cycles > STEP_CYCLES
    }

    /// Handles the interrupts: wakes a halted processor when an interrupt
    /// is pending, and services the pending interrupt with the lowest number
    /// when interrupts are enabled. Returns 4 where one was serviced, else 0.
    #[verifier::rlimit(40)]
    pub fn hi(&mut self) -> (r: u32)
        ensures
            old(self).spec_dispatches() ==> old(self).spec_interrupted(*final(self)) && r == 4,
            !old(self).spec_dispatches() ==> *final(self) == old(self).spec_woken() && r == 0,
            !old(self).spec_dispatches() ==> final(self).is_halt == old(self).spec_sleeps(),
    {
        if !self.is_halt && !self.ime_flag {
            return 0;
        }
        let intf = self.data_bus.read_byte(ADDR_IF);
        let inte = self.data_bus.read_byte(ADDR_IE);
        let ii = intf & inte;
        if ii == 0x00 {
            return 0;
        }
        self.is_halt = false;
        if !self.ime_flag {
            return 0;
        }
        self.ime_flag = false;
        let n = lowest_bit(ii);
        self.write_byte_to_memory(ADDR_IF, clear_bit(intf, n));
        let ghost mid = self.data_bus;
        let pc = self.reg.get_PC();
        self._stack_push(pc);
        self.reg.set_PC(0x0040 + 8 * (n as u16));
        assert(old(self).data_bus.stored(
            ADDR_IF,
            spec_clear_bit(old(self).data_bus.byte_at(ADDR_IF), n),
            mid,
        ) && word_stored(mid, wrap16(old(self).reg@.sp - 2), old(self).reg@.pc, self.data_bus));
        4
    }

    /// Runs the instruction at the program counter and returns the ticks it
    /// took.
    pub fn execute_opcode(&mut self) -> (r: u32)
        requires
            spec_known(old(self).spec_imm()),
        ensures
            old(self).spec_executed(*final(self), r),
    {
        let opcode = self.imm();
        proof {
            old(self).lemma_regs_to(*self, old(self).spec_skip(1));
        }
        match OpCode::lookup(opcode) {
            Some(op) => op.ex(self),
            None => 0,
        }
    }

    /// One step of the processor, without pacing.
    #[verifier::rlimit(40)]
    pub fn _next(&mut self) -> (r: u32)
        requires
            old(self).spec_fetches() ==> spec_known(old(self).spec_imm()),
        ensures
            old(self).spec_stepped(*final(self), r),
            4 <= r <= 36,
    {
        let c = self.hi();
        if c != 0 {
            c * 4
        } else if self.is_halt {
            4
        } else {
            let r = self.execute_opcode();
            proof {
                lemma_clock_range(old(self).spec_woken().spec_imm());
            }
            r
        }
    }

    /// `post` is this processor after one paced step, which took `r` ticks.
    /// Without pacing it is one step. With pacing, a pacing step that has
    /// run its ticks is closed first, then the processor steps, then the
    /// ticks are counted.
    pub open spec fn spec_next(self, post: Self, r: u32) -> bool {
        if self.speed_simulation {
            &&& post.step_cycles == self.spec_paced().step_cycles + r
            &&& self.spec_paced().spec_stepped(
                (CPU { step_cycles: self.spec_paced().step_cycles, ..post }),
                r,
            )
        } else {
            self.spec_stepped(post, r)
        }
    }

    /// One step of the processor. Where the processor is paced, the ticks
    /// are counted, and a pacing step that has run its ticks is closed
    /// before the step: `flip` then reports it once.
    #[verifier::rlimit(40)]
    pub fn next(&mut self) -> (r: u32)
        requires
            old(self).spec_fetches() ==> spec_known(old(self).spec_imm()),
        ensures
            old(self).spec_next(*final(self), r),
            4 <= r <= 36,
    {
        if self.speed_simulation {
            if self.step_cycles > STEP_CYCLES {
                self.step_flip = true;
                self.step_cycles = self.step_cycles - STEP_CYCLES;
            }
            let ghost paced = *self;
            let cycles = self._next();
            let ghost stepped = *self;
            self.step_cycles = self.step_cycles + cycles;
            assert(stepped == (CPU { step_cycles: paced.step_cycles, ..*self }));
            cycles
        } else {
            self._next()
        }
    }

    /// Returns whether the next step can run: it needs no instruction, or
    /// the code at the program counter is one.
    pub fn can_step(&self) -> (r: bool)
        ensures
            r == (self.spec_fetches() ==> spec_known(self.spec_imm())),
    {
        let pending = self.data_bus.read_byte(ADDR_IF) & self.data_bus.read_byte(ADDR_IE);
        if self.ime_flag && pending != 0 {
            true
        } else if self.is_halt && pending == 0 {
            true
        } else {
            is_known_opcode(self.imm_freeze())
        }
    }

    /// Returns whether a pacing step has run its ticks, so that the caller
    /// is to wait for real time before the next step.
    pub fn pace_due(&self) -> (r: bool)
        ensures
            r == self.spec_pace_due(),
    {
        self.speed_simulation && self.step_cycles > STEP_CYCLES
    }

    /// Does nothing.
    pub fn get_opcode(&self) {
    }

    /// Does nothing.
    pub fn exexute_forever(&mut self)
        ensures
            *final(self) == *old(self),
    {
    }
}

/// No instruction takes less than 4 ticks or more than 24 at least.
pub proof fn lemma_clock_range(code: u8)
    ensures
        4 <= spec_clock(code) <= 24,
{
}

} // verus!
