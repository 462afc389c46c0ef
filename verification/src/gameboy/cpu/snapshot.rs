//! Register files as text.

use vstd::prelude::*;
use vstd::string::StrSliceExecFns;

use crate::gameboy::cpu::register::Register;
use crate::gameboy::cpu::register::RegisterView;

verus! {

/// Whether `c` is a decimal digit.
pub open spec fn spec_is_digit(c: char) -> bool {
    48 <= c as u32 <= 57
}

/// The index behind the run of decimal digits that starts at `i` in `s`.
pub open spec fn spec_digits_end(s: Seq<char>, i: int) -> int
    decreases s.len() - i,
{
    if 0 <= i < s.len() && spec_is_digit(s[i]) {
        spec_digits_end(s, i + 1)
    } else {
        i
    }
}

/// The value of the decimal digits of `s` from `i` up to `j`.
pub open spec fn spec_value(s: Seq<char>, i: int, j: int) -> nat
    decreases j - i,
{
    if j <= i {
        0
    } else {
        spec_value(s, i, j - 1) * 10 + (s[j - 1] as u32 - 48) as nat
    }
}

/// The decimal number at `i` in `s` and the index behind it: `None` where
/// no digit stands at `i` or the number is above `max`.
pub open spec fn spec_number_at(s: Seq<char>, i: int, max: u16) -> Option<(u16, int)> {
    let j = spec_digits_end(s, i);
    if j > i && spec_value(s, i, j) <= max {
        Some((spec_value(s, i, j) as u16, j))
    } else {
        None
    }
}

/// The index behind `lit` where `lit` stands at `i` in `s`, else `None`.
pub open spec fn spec_expect(s: Seq<char>, i: int, lit: Seq<char>) -> Option<int> {
    if 0 <= i && i + lit.len() <= s.len() && s.subrange(i, i + lit.len()) == lit {
        Some(i + lit.len())
    } else {
        None
    }
}

/// The number that follows `lit` at `i` in `s`, and the index behind it.
pub open spec fn spec_field(s: Seq<char>, i: int, lit: Seq<char>, max: u16) -> Option<(u16, int)> {
    match spec_expect(s, i, lit) {
        Some(j) => spec_number_at(s, j, max),
        None => None,
    }
}

/// The registers that a snapshot describes. A snapshot is the text
/// `register { a: 1, b: 0, c: 19, d: 0, e: 216, f: 176, h: 1, l: 77, pc: 257, sp: 65534 }`
/// with any decimal numbers that fit their registers; the low nibble of
/// `f` is dropped. Any other text describes nothing.
pub open spec fn spec_snapshot(s: Seq<char>) -> Option<RegisterView> {
    match spec_field(s, 0, "register { a: "@, 255) {
        None => None,
        Some((a, i0)) =>
            match spec_field(s, i0, ", b: "@, 255) {
                None => None,
                Some((b, i1)) =>
                    match spec_field(s, i1, ", c: "@, 255) {
                        None => None,
                        Some((c, i2)) =>
                            match spec_field(s, i2, ", d: "@, 255) {
                                None => None,
                                Some((d, i3)) =>
                                    match spec_field(s, i3, ", e: "@, 255) {
                                        None => None,
                                        Some((e, i4)) =>
                                            match spec_field(s, i4, ", f: "@, 255) {
                                                None => None,
                                                Some((f, i5)) =>
                                                    match spec_field(s, i5, ", h: "@, 255) {
                                                        None => None,
                                                        Some((h, i6)) =>
                                                            match spec_field(s, i6, ", l: "@, 255) {
                                                                None => None,
                                                                Some((l, i7)) =>
                                                                    match spec_field(s, i7, ", pc: "@, 65535) {
                                                                        None => None,
                                                                        Some((pc, i8)) =>
                                                                            match spec_field(s, i8, ", sp: "@, 65535) {
                                                                                None => None,
                                                                                Some((sp, i9)) =>
                                                                                    if spec_expect(s, i9, " }"@) == Some(s.len() as int) {
                                                                                        Some(
                                                                                            (RegisterView {
                                                                                                a: a as u8,
                                                                                                b: b as u8,
                                                                                                c: c as u8,
                                                                                                d: d as u8,
                                                                                                e: e as u8,
                                                                                                h: h as u8,
                                                                                                l: l as u8,
                                                                                                zf: f / 128 % 2 == 1,
                                                                                                nf: f / 64 % 2 == 1,
                                                                                                hf: f / 32 % 2 == 1,
                                                                                                cf: f / 16 % 2 == 1,
                                                                                                pc: pc,
                                                                                                sp: sp,
                                                                                            }),
                                                                                        )
                                                                                    } else {
                                                                                        None
                                                                                    }
                                                                                ,
                                                                            }
                                                                        ,
                                                                    }
                                                                ,
                                                            }
                                                        ,
                                                    }
                                                ,
                                            }
                                        ,
                                    }
                                ,
                            }
                        ,
                    }
                ,
            }
        ,
    }
}

/// Returns the index behind `lit` where `lit` stands at `i` in `s`.
pub fn expect(s: &str, i: usize, lit: &str) -> (r: Option<usize>)
    ensures
        r.is_some() == spec_expect(s@, i as int, lit@).is_some(),
        r matches Some(j) ==> Some(j as int) == spec_expect(s@, i as int, lit@),
{
    let n = s.unicode_len();
    let m = lit.unicode_len();
    if i > n || m > n - i {
        return None;
    }
    let mut k: usize = 0;
    while k < m
        invariant
            k <= m,
            n == s@.len(),
            m == lit@.len(),
            i + m <= n,
            s@.subrange(i as int, i + k) == lit@.subrange(0, k as int),
        decreases m - k,
    {
        if s.get_char(i + k) != lit.get_char(k) {
            assert(s@.subrange(i as int, i + m)[k as int] != lit@[k as int]);
            return None;
        }
        assert(s@.subrange(i as int, i + k + 1) =~= s@.subrange(i as int, i + k).push(
            s@[i + k],
        ));
        assert(lit@.subrange(0, k + 1) =~= lit@.subrange(0, k as int).push(lit@[k as int]));
        k = k + 1;
    }
    assert(lit@.subrange(0, m as int) =~= lit@);
    Some(i + m)
}

/// The digits of a number that is no smaller than another make a value that
/// is no smaller.
proof fn lemma_value_step(s: Seq<char>, i: int, j: int)
    requires
        0 <= i <= j < s.len(),
        spec_is_digit(s[j]),
    ensures
        spec_value(s, i, j + 1) == spec_value(s, i, j) * 10 + (s[j] as u32 - 48),
        spec_value(s, i, j + 1) >= spec_value(s, i, j),
{
}

/// The run of digits that starts at `i` ends where the run that starts at
/// any index within it ends.
proof fn lemma_digits_end(s: Seq<char>, i: int, k: int)
    requires
        0 <= i <= k <= s.len(),
        forall|x: int| i <= x < k ==> spec_is_digit(#[trigger] s[x]),
    ensures
        spec_digits_end(s, i) == spec_digits_end(s, k),
    decreases k - i,
{
    if i < k {
        lemma_digits_end(s, i + 1, k);
    }
}

/// Returns whether a decimal digit stands at `k` in `s`, whose length is
/// `n`.
fn digit_at(s: &str, n: usize, k: usize) -> (r: bool)
    requires
        n == s@.len(),
    ensures
        r == (k < n && spec_is_digit(s@[k as int])),
{
    if k < n {
        let c = s.get_char(k);
        48 <= c as u32 && c as u32 <= 57
    } else {
        false
    }
}

/// Returns the decimal number at `i` in `s` and the index behind it.
pub fn number_at(s: &str, i: usize, max: u16) -> (r: Option<(u16, usize)>)
    ensures
        r.is_some() == spec_number_at(s@, i as int, max).is_some(),
        r matches Some((v, j)) ==> Some((v, j as int)) == spec_number_at(s@, i as int, max),
{
    let n = s.unicode_len();
    if i >= n {
        return None;
    }
    let mut k: usize = i;
    let mut v: u32 = 0;
    while digit_at(s, n, k)
        invariant
            i <= k <= n,
            n == s@.len(),
            forall|x: int| i <= x < k ==> spec_is_digit(#[trigger] s@[x]),
            v <= 65536,
            v == (if spec_value(s@, i as int, k as int) > 65535 {
                65536
            } else {
                spec_value(s@, i as int, k as int)
            }),
        decreases n - k,
    {
        proof {
            lemma_value_step(s@, i as int, k as int);
        }
        let d: u32 = s.get_char(k) as u32 - 48;
        v = if v * 10 + d > 65535 {
            65536
        } else {
            v * 10 + d
        };
        k = k + 1;
    }
    proof {
        lemma_digits_end(s@, i as int, k as int);
        assert(spec_digits_end(s@, k as int) == k);
    }
    if k > i && v <= max as u32 {
        Some((v as u16, k))
    } else {
        None
    }
}

/// Returns the number that follows `lit` at `i` in `s`, and the index
/// behind it.
pub fn field(s: &str, i: usize, lit: &str, max: u16) -> (r: Option<(u16, usize)>)
    ensures
        r.is_some() == spec_field(s@, i as int, lit@, max).is_some(),
        r matches Some((v, j)) ==> Some((v, j as int)) == spec_field(s@, i as int, lit@, max),
{
    match expect(s, i, lit) {
        Some(j) => number_at(s, j, max),
        None => None,
    }
}

impl Register {
    /// Reads a register file from a snapshot; `None` where the text is no
    /// snapshot.
    pub fn parse_debug_string(s: &str) -> (r: Option<Register>)
        ensures
            r.is_some() == spec_snapshot(s@).is_some(),
            r matches Some(reg) ==> Some(reg@) == spec_snapshot(s@) && reg.inv(),
    {
        let (a, i0) = match field(s, 0, "register { a: ", 255) {
            Some(p) => p,
            None => {
                return None;
            },
        };
        let (b, i1) = match field(s, i0, ", b: ", 255) {
            Some(p) => p,
            None => {
                return None;
            },
        };
        let (c, i2) = match field(s, i1, ", c: ", 255) {
            Some(p) => p,
            None => {
                return None;
            },
        };
        let (d, i3) = match field(s, i2, ", d: ", 255) {
            Some(p) => p,
            None => {
                return None;
            },
        };
        let (e, i4) = match field(s, i3, ", e: ", 255) {
            Some(p) => p,
            None => {
                return None;
            },
        };
        let (f, i5) = match field(s, i4, ", f: ", 255) {
            Some(p) => p,
            None => {
                return None;
            },
        };
        let (h, i6) = match field(s, i5, ", h: ", 255) {
            Some(p) => p,
            None => {
                return None;
            },
        };
        let (l, i7) = match field(s, i6, ", l: ", 255) {
            Some(p) => p,
            None => {
                return None;
            },
        };
        let (pc, i8) = match field(s, i7, ", pc: ", 65535) {
            Some(p) => p,
            None => {
                return None;
            },
        };
        let (sp, i9) = match field(s, i8, ", sp: ", 65535) {
            Some(p) => p,
            None => {
                return None;
            },
        };
        match expect(s, i9, " }") {
            Some(end) => {
                if end != s.unicode_len() {
                    return None;
                }
            },
            None => {
                return None;
            },
        }
        Some(
            Register::from_view(
                RegisterView {
                    a: a as u8,
                    b: b as u8,
                    c: c as u8,
                    d: d as u8,
                    e: e as u8,
                    h: h as u8,
                    l: l as u8,
                    zf: f / 128 % 2 == 1,
                    nf: f / 64 % 2 == 1,
                    hf: f / 32 % 2 == 1,
                    cf: f / 16 % 2 == 1,
                    pc,
                    sp,
                },
            ),
        )
    }

    /// Builds a register file from a snapshot.
    pub fn new_from_debug_string(s: &str) -> (r: Register)
        requires
            spec_snapshot(s@).is_some(),
        ensures
            Some(r@) == spec_snapshot(s@),
            r.inv(),
    {
        match Self::parse_debug_string(s) {
            Some(reg) => reg,
            None => Register::new(),
        }
    }
}

} // verus!
