//! The divider and the timer.

use vstd::prelude::*;

use crate::gameboy::cpu::register::IntFlag;
use crate::gameboy::cpu::register::IntReg;
use crate::gameboy::util::spec_set_bit;

verus! {

/// The address of the divider register DIV.
pub const ADDR_DIV: u16 = 0xff04;

/// The address of the timer counter TIMA.
pub const ADDR_TIMA: u16 = 0xff05;

/// The address of the timer modulo TMA.
pub const ADDR_TMA: u16 = 0xff06;

/// The address of the timer control TAC.
pub const ADDR_TAC: u16 = 0xff07;

/// The clock ticks between two increments of DIV.
pub const DIV_PERIOD: u32 = 256;

/// The divider and the timer.
///
/// DIV counts up once every 256 clock ticks. TIMA counts up at the rate
/// that TAC selects while bit 2 of TAC is set; when it overflows it is
/// reloaded from TMA and the timer interrupt is requested. `div_clock` and
/// `tima_clock` hold the ticks that have not yet made up an increment.
#[derive(Debug, Clone, Copy, PartialEq, Eq, Structural)]
pub struct Timer {
    pub div: u8,
    pub tima: u8,
    pub tma: u8,
    pub tac: u8,
    pub div_clock: u32,
    pub tima_clock: u32,
}

/// The clock ticks between two increments of TIMA under the control byte
/// `tac`: its low two bits select 4096, 262144, 65536 or 16384 increments
/// in a second of 4194304 ticks.
pub open spec fn spec_period(tac: u8) -> u32 {
    if tac % 4 == 0 {
        1024
    } else if tac % 4 == 1 {
        16
    } else if tac % 4 == 2 {
        64
    } else {
        256
    }
}

/// Whether the control byte `tac` lets TIMA count: its bit 2 is set.
pub open spec fn spec_running(tac: u8) -> bool {
    tac / 4 % 2 == 1
}

/// TIMA after `n` increments from `tima`, reloading from `tma` on each
/// overflow.
pub open spec fn spec_tima_after(tima: u8, tma: u8, n: nat) -> u8
    decreases n,
{
    if n == 0 {
        tima
    } else if tima == 255 {
        spec_tima_after(tma, tma, (n - 1) as nat)
    } else {
        spec_tima_after((tima + 1) as u8, tma, (n - 1) as nat)
    }
}

/// Whether `n` increments from `tima` overflow at least once.
pub open spec fn spec_overflows(tima: u8, n: nat) -> bool {
    tima + n > 255
}

impl Timer {
    /// A timer with every register zero.
    pub open spec fn spec_new() -> Timer {
        Timer { div: 0, tima: 0, tma: 0, tac: 0, div_clock: 0, tima_clock: 0 }
    }

    /// The ticks that count towards the next increment of DIV.
    pub open spec fn spec_div_ticks(self, cycles: u32) -> int {
        self.div_clock % DIV_PERIOD + cycles
    }

    /// The ticks that count towards the next increment of TIMA.
    pub open spec fn spec_tima_ticks(self, cycles: u32) -> int {
        self.tima_clock % spec_period(self.tac) + cycles
    }

    /// The timer after `cycles` clock ticks.
    pub open spec fn spec_next(self, cycles: u32) -> Timer {
        let d = self.spec_div_ticks(cycles);
        let t = self.spec_tima_ticks(cycles);
        let p = spec_period(self.tac) as int;
        Timer {
            div: ((self.div + d / 256) % 256) as u8,
            div_clock: (d % 256) as u32,
            tima: if spec_running(self.tac) {
                spec_tima_after(self.tima, self.tma, (t / p) as nat)
            } else {
                self.tima
            },
            tima_clock: if spec_running(self.tac) {
                (t % p) as u32
            } else {
                self.tima_clock
            },
            ..self
        }
    }

    /// Whether `cycles` clock ticks make the timer request its interrupt.
    pub open spec fn spec_fires(self, cycles: u32) -> bool {
        spec_running(self.tac) && spec_overflows(
            self.tima,
            (self.spec_tima_ticks(cycles) / spec_period(self.tac) as int) as nat,
        )
    }

    /// The register at `a`.
    pub open spec fn spec_get(self, a: u16) -> u8 {
        if a == ADDR_DIV {
            self.div
        } else if a == ADDR_TIMA {
            self.tima
        } else if a == ADDR_TMA {
            self.tma
        } else {
            self.tac
        }
    }

    /// The timer after a write of `v` at `a`. A write to DIV resets it; a
    /// write to TAC starts a new period.
    pub open spec fn spec_set(self, a: u16, v: u8) -> Timer {
        if a == ADDR_DIV {
            Timer { div: 0, div_clock: 0, ..self }
        } else if a == ADDR_TIMA {
            Timer { tima: v, ..self }
        } else if a == ADDR_TMA {
            Timer { tma: v, ..self }
        } else {
            Timer { tac: v, tima_clock: 0, ..self }
        }
    }

    /// Returns a timer with every register zero.
    pub fn new() -> (r: Timer)
        ensures
            r == Timer::spec_new(),
    {
        Timer { div: 0, tima: 0, tma: 0, tac: 0, div_clock: 0, tima_clock: 0 }
    }

    /// Returns the clock ticks between two increments of TIMA.
    pub fn period(&self) -> (r: u32)
        ensures
            r == spec_period(self.tac),
    {
        match self.tac % 4 {
            0 => 1024,
            1 => 16,
            2 => 64,
            _ => 256,
        }
    }

    /// Returns the register at `a`.
    pub fn get(&self, a: u16) -> (r: u8)
        requires
            ADDR_DIV <= a <= ADDR_TAC,
        ensures
            r == self.spec_get(a),
    {
        if a == ADDR_DIV {
            self.div
        } else if a == ADDR_TIMA {
            self.tima
        } else if a == ADDR_TMA {
            self.tma
        } else {
            self.tac
        }
    }

    /// Writes the register at `a`.
    pub fn set(&mut self, a: u16, v: u8)
        requires
            ADDR_DIV <= a <= ADDR_TAC,
        ensures
            *final(self) == old(self).spec_set(a, v),
    {
        if a == ADDR_DIV {
            self.div = 0;
            self.div_clock = 0;
        } else if a == ADDR_TIMA {
            self.tima = v;
        } else if a == ADDR_TMA {
            self.tma = v;
        } else {
            self.tac = v;
            self.tima_clock = 0;
        }
    }

    /// Advances the timer by `cycles` clock ticks and requests the timer
    /// interrupt where TIMA overflows.
    pub fn next(&mut self, cycles: u32, intf: &mut IntReg)
        ensures
            *final(self) == old(self).spec_next(cycles),
            final(intf).data == (if old(self).spec_fires(cycles) {
                spec_set_bit(old(intf).data, IntFlag::Timer.spec_bit())
            } else {
                old(intf).data
            }),
    {
        let d: u64 = (self.div_clock % DIV_PERIOD) as u64 + cycles as u64;
        self.div = ((self.div as u64 + d / 256) % 256) as u8;
        self.div_clock = (d % 256) as u32;
        if self.tac / 4 % 2 == 1 {
            let p = self.period() as u64;
            let t: u64 = (self.tima_clock as u64 % p) + cycles as u64;
            let n: u64 = t / p;
            self.tima_clock = (t % p) as u32;
            let mut fired = false;
            let mut i: u64 = 0;
            let ghost start = self.tima;
            while i < n
                invariant
                    i <= n,
                    self.tma == old(self).tma,
                    start == old(self).tima,
                    spec_tima_after(start, self.tma, n as nat) == spec_tima_after(
                        self.tima,
                        self.tma,
                        (n - i) as nat,
                    ),
                    fired == spec_overflows(start, i as nat),
                    !fired ==> self.tima == start + i,
                    self.div == ((old(self).div + d / 256) % 256) as u8,
                    self.div_clock == (d % 256) as u32,
                    self.tima_clock == (t % p) as u32,
                    self.tac == old(self).tac,
                decreases n - i,
            {
                if self.tima == 255 {
                    self.tima = self.tma;
                    fired = true;
                } else {
                    self.tima = self.tima + 1;
                }
                i = i + 1;
            }
            if fired {
                intf.req(IntFlag::Timer);
            }
        }
    }
}

} // verus!
