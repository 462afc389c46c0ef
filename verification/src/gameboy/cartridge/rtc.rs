//! The real-time clock of an MBC3.

use vstd::prelude::*;

use crate::gameboy::util::set_bit;
use crate::gameboy::util::spec_set_bit;

verus! {

/// The selector of the seconds register.
pub const RTC_S: u16 = 0x08;

/// The selector of the minutes register.
pub const RTC_M: u16 = 0x09;

/// The selector of the hours register.
pub const RTC_H: u16 = 0x0a;

/// The selector of the low byte of the day counter.
pub const RTC_DL: u16 = 0x0b;

/// The selector of the day flags.
pub const RTC_DH: u16 = 0x0c;

/// The real-time clock of an MBC3.
///
/// The registers hold seconds, minutes, hours, the low byte of the day
/// counter, and the day flags: bit 0 is bit 8 of the day counter, bit 6
/// halts the clock, bit 7 is set once the day counter has overflowed.
/// `zero` is the time at which the clock started to count, in seconds since
/// the Unix epoch.
#[derive(Debug, Clone, Copy, PartialEq, Eq, Structural)]
pub struct RealTimeClock {
    pub s: u8,
    pub m: u8,
    pub h: u8,
    pub dl: u8,
    pub dh: u8,
    pub zero: u64,
    pub is_locked: bool,
}

/// The day flags after a tick that finds `days` days gone.
pub open spec fn spec_day_flags(dh: u8, days: int) -> u8 {
    if days < 256 {
        dh
    } else if days < 512 {
        spec_set_bit(dh, 0)
    } else {
        spec_set_bit(spec_set_bit(dh, 0), 7)
    }
}

/// The big-endian value of eight bytes.
pub open spec fn spec_be(b: Seq<u8>) -> int {
    ((((((b[0] * 256 + b[1]) * 256 + b[2]) * 256 + b[3]) * 256 + b[4]) * 256 + b[5]) * 256 + b[6])
        * 256 + b[7]
}

/// `std::time::SystemTime`: a reading of the system clock.
#[verifier::external_type_specification]
#[verifier::external_body]
pub struct ExSystemTime(std::time::SystemTime);

/// `std::time::SystemTimeError`: the error of `duration_since` where the
/// second reading is later than the first.
#[verifier::external_type_specification]
#[verifier::external_body]
pub struct ExSystemTimeError(std::time::SystemTimeError);

/// `SystemTime::now`: the system clock as it stands. Nothing is claimed of
/// the reading.
pub assume_specification[ std::time::SystemTime::now ]() -> (r: std::time::SystemTime)
;

/// `SystemTime::duration_since`: the time from `earlier` to `t`, or an
/// error where `earlier` is the later one. Nothing is claimed of the result.
pub assume_specification[ std::time::SystemTime::duration_since ](
    t: &std::time::SystemTime,
    earlier: std::time::SystemTime,
) -> (r: Result<core::time::Duration, std::time::SystemTimeError>)
;

/// `Duration::as_secs`: the whole seconds of a duration. Nothing is claimed
/// of the number.
pub assume_specification[ core::time::Duration::as_secs ](d: &core::time::Duration) -> (r: u64)
;

/// `SystemTime::UNIX_EPOCH`: the reading of the clock at the start of 1970.
#[verifier::external_body]
fn unix_epoch() -> (r: std::time::SystemTime) {
    std::time::SystemTime::UNIX_EPOCH
}

/// Returns the time now in whole seconds since the start of 1970, or
/// `None` where the system clock stands before it.
pub fn unix_now() -> (r: Option<u64>) {
    let now = std::time::SystemTime::now();
    let elapsed = now.duration_since(unix_epoch());
    let r = seconds_of(elapsed);
    r
}

impl RealTimeClock {
    /// A clock that started at `zero`, with every register zero and the
    /// latch open.
    pub open spec fn spec_new(zero: u64) -> RealTimeClock {
        RealTimeClock { s: 0, m: 0, h: 0, dl: 0, dh: 0, zero, is_locked: false }
    }

    /// The clock after a tick at the time `now`, `now - zero` seconds after
    /// it started: seconds, minutes and hours of the day, the day counter
    /// modulo 256, and the day flags.
    pub open spec fn spec_tick_at(self, now: u64) -> RealTimeClock {
        let d = now - self.zero;
        RealTimeClock {
            s: (d % 60) as u8,
            m: (d / 60 % 60) as u8,
            h: (d / 3600 % 24) as u8,
            dl: (d / 86400 % 256) as u8,
            dh: spec_day_flags(self.dh, d / 86400),
            ..self
        }
    }

    /// The clock after a tick at the time `now`; a time before the start of
    /// the clock leaves it as it is.
    pub open spec fn spec_tick(self, now: u64) -> RealTimeClock {
        if now >= self.zero {
            self.spec_tick_at(now)
        } else {
            self
        }
    }

    /// The register that `a` selects.
    pub open spec fn spec_get(self, a: u16) -> u8 {
        if a == RTC_S {
            self.s
        } else if a == RTC_M {
            self.m
        } else if a == RTC_H {
            self.h
        } else if a == RTC_DL {
            self.dl
        } else {
            self.dh
        }
    }

    /// The clock with the register that `a` selects replaced by `v`.
    pub open spec fn spec_set(self, a: u16, v: u8) -> RealTimeClock {
        if a == RTC_S {
            RealTimeClock { s: v, ..self }
        } else if a == RTC_M {
            RealTimeClock { m: v, ..self }
        } else if a == RTC_H {
            RealTimeClock { h: v, ..self }
        } else if a == RTC_DL {
            RealTimeClock { dl: v, ..self }
        } else {
            RealTimeClock { dh: v, ..self }
        }
    }

    /// Returns a clock. It starts at `saved`, the start that an earlier run
    /// has persisted, or now where there is none.
    pub fn new(saved: Option<u64>) -> (r: RealTimeClock)
        ensures
            r == Self::spec_new(r.zero),
            saved matches Some(z) ==> r.zero == z,
    {
        let zero = match saved {
            Some(z) => z,
            None => match unix_now() {
                Some(now) => now,
                None => 0,
            },
        };
        RealTimeClock { zero, s: 0, m: 0, h: 0, dl: 0, dh: 0, is_locked: false }
    }

    /// Returns a clock that started at `zero`.
    pub fn starting_at(zero: u64) -> (r: RealTimeClock)
        ensures
            r == Self::spec_new(zero),
    {
        RealTimeClock { zero, s: 0, m: 0, h: 0, dl: 0, dh: 0, is_locked: false }
    }

    /// Closes the latch.
    #[inline]
    pub fn lock(&mut self)
        ensures
            *final(self) == (RealTimeClock { is_locked: true, ..*old(self) }),
    {
        self.is_locked = true;
    }

    /// Opens the latch.
    #[inline]
    pub fn unlock(&mut self)
        ensures
            *final(self) == (RealTimeClock { is_locked: false, ..*old(self) }),
    {
        self.is_locked = false;
    }

    /// Returns whether the latch is closed.
    #[inline]
    pub fn is_locked(&self) -> (r: bool)
        ensures
            r == self.is_locked,
    {
        self.is_locked
    }

    /// Sets the registers to the time `now`.
    pub fn tick_at(&mut self, now: u64)
        requires
            now >= old(self).zero,
        ensures
            *final(self) == old(self).spec_tick_at(now),
    {
        let d = now - self.zero;
        self.s = (d % 60) as u8;
        self.m = (d / 60 % 60) as u8;
        self.h = (d / 3600 % 24) as u8;
        let days = d / 86400;
        self.dl = (days % 256) as u8;
        if days >= 256 {
            self.dh = set_bit(self.dh, 0);
        }
        if days >= 512 {
            self.dh = set_bit(self.dh, 7);
        }
    }

    /// Whether `after` is the clock after a tick at some reading of the time.
    pub open spec fn spec_ticked(self, after: RealTimeClock) -> bool {
        exists|now: Option<u64>| after == #[trigger] self.spec_tick_from(now)
    }

    /// Sets the registers to the time of the system clock. A system clock
    /// that stands before the start of this clock changes nothing.
    pub fn tick(&mut self)
        ensures
            old(self).spec_ticked(*final(self)),
    {
        // The system clock is read once. What it gave decides the rest,
        // which `tick_from` states for each reading.
        let now = unix_now();
        self.tick_from(now);
        assert(old(self).spec_ticked(*self)) by {
            // The reading is the witness.
            let read = now;
            assert(*self == old(self).spec_tick_from(read));
        }
    }

    /// The clock after a tick at the reading `now` of the time: a reading
    /// that failed, and a time before the start of the clock, leave the
    /// clock as it is.
    pub open spec fn spec_tick_from(self, now: Option<u64>) -> RealTimeClock {
        match now {
            Some(t) => self.spec_tick(t),
            None => self,
        }
    }

    /// Sets the registers to the time `now` that a reading of the system
    /// clock gave, in seconds since the start of 1970; `None` stands for a
    /// reading that failed. A reading that failed, and a time before the
    /// start of this clock, change nothing.
    pub fn tick_from(&mut self, now: Option<u64>)
        ensures
            *final(self) == old(self).spec_tick_from(now),
    {
        match now {
            Some(t) => {
                if t >= self.zero {
                    self.tick_at(t);
                }
            },
            None => {},
        }
    }

    /// Returns the register that `a` selects.
    pub fn get(&self, a: u16) -> (r: u8)
        requires
            RTC_S <= a <= RTC_DH,
        ensures
            r == self.spec_get(a),
    {
        if a == RTC_S {
            self.s
        } else if a == RTC_M {
            self.m
        } else if a == RTC_H {
            self.h
        } else if a == RTC_DL {
            self.dl
        } else {
            self.dh
        }
    }

    /// Sets the register that `a` selects.
    pub fn set(&mut self, a: u16, v: u8)
        requires
            RTC_S <= a <= RTC_DH,
        ensures
            *final(self) == old(self).spec_set(a, v),
    {
        if a == RTC_S {
            self.s = v;
        } else if a == RTC_M {
            self.m = v;
        } else if a == RTC_H {
            self.h = v;
        } else if a == RTC_DL {
            self.dl = v;
        } else {
            self.dh = v;
        }
    }

    /// Returns the start of the clock as it is persisted: eight bytes, the
    /// most significant first.
    pub fn epoch_bytes(&self) -> (r: Vec<u8>)
        ensures
            r@.len() == 8,
            spec_be(r@) == self.zero,
    {
        let z0 = self.zero;
        let z1 = z0 / 256;
        let z2 = z1 / 256;
        let z3 = z2 / 256;
        let z4 = z3 / 256;
        let z5 = z4 / 256;
        let z6 = z5 / 256;
        let z7 = z6 / 256;
        vec![
            z7 as u8,
            (z6 % 256) as u8,
            (z5 % 256) as u8,
            (z4 % 256) as u8,
            (z3 % 256) as u8,
            (z2 % 256) as u8,
            (z1 % 256) as u8,
            (z0 % 256) as u8,
        ]
    }

    /// Reads a persisted start of a clock: `None` unless `bytes` are eight.
    pub fn epoch_from_bytes(bytes: &Vec<u8>) -> (r: Option<u64>)
        ensures
            r.is_some() == (bytes@.len() == 8),
            r matches Some(z) ==> z == spec_be(bytes@),
    {
        if bytes.len() != 8 {
            return None;
        }
        let z1: u64 = bytes[0] as u64 * 256 + bytes[1] as u64;
        let z2: u64 = z1 * 256 + bytes[2] as u64;
        let z3: u64 = z2 * 256 + bytes[3] as u64;
        let z4: u64 = z3 * 256 + bytes[4] as u64;
        let z5: u64 = z4 * 256 + bytes[5] as u64;
        let z6: u64 = z5 * 256 + bytes[6] as u64;
        let z7: u64 = z6 * 256 + bytes[7] as u64;
        Some(z7)
    }
}

/// Returns the whole seconds of the time that `duration_since` gave:
/// `None` where it gave an error, the second reading of the clock being
/// the later one.
pub fn seconds_of(elapsed: Result<core::time::Duration, std::time::SystemTimeError>) -> (r:
    Option<u64>)
    ensures
        r.is_some() == elapsed.is_ok(),
{
    match elapsed {
        Ok(d) => Some(d.as_secs()),
        Err(_) => None,
    }
}

} // verus!
