//! Tick label formatting.
//!
//! The sequence domain prints `#` followed by the index. The continuous-time
//! domain distinguishes whole seconds from sub-second positions: a whole
//! second becomes a wall-clock `HH:MM:SS` when the value plausibly sits on a
//! wall-clock epoch (between 20 and 150 years after it), or a human duration
//! such as `3h 2m 6s` otherwise; a sub-second position becomes signed
//! milliseconds since the last whole second, printed at the coarsest decimal
//! precision that represents the remainder exactly.

use crate::num::{spec_trunc_div, trunc_div_i64};
use crate::policy::TimeDomain;
use vstd::arithmetic::div_mod::lemma_fundamental_div_mod;
use vstd::prelude::*;
use vstd::string::StringExecFns;

verus! {

/// Nanoseconds in one 365-day year.
pub const NANOS_PER_YEAR: i64 = 31_536_000_000_000_000;

/// The decimal digit `d` as a character.
pub open spec fn digit_char(d: int) -> char {
    if d == 0 {
        '0'
    } else if d == 1 {
        '1'
    } else if d == 2 {
        '2'
    } else if d == 3 {
        '3'
    } else if d == 4 {
        '4'
    } else if d == 5 {
        '5'
    } else if d == 6 {
        '6'
    } else if d == 7 {
        '7'
    } else if d == 8 {
        '8'
    } else {
        '9'
    }
}

/// The decimal digits of the nonnegative number `n`.
pub open spec fn spec_dec_nat(n: nat) -> Seq<char>
    decreases n,
{
    if n < 10 {
        seq![digit_char(n as int)]
    } else {
        spec_dec_nat(n / 10) + seq![digit_char((n % 10) as int)]
    }
}

/// The decimal form of `v`, with a leading minus sign when negative.
pub open spec fn spec_dec_int(v: int) -> Seq<char> {
    if v < 0 {
        seq!['-'] + spec_dec_nat((-v) as nat)
    } else {
        spec_dec_nat(v as nat)
    }
}

/// The last `k` decimal digits of `n`, zero-padded to width `k`.
pub open spec fn spec_pad(n: nat, k: nat) -> Seq<char>
    decreases k,
{
    if k == 0 {
        Seq::empty()
    } else {
        spec_pad(n / 10, (k - 1) as nat) + seq![digit_char((n % 10) as int)]
    }
}

/// One decimal digit as a string slice.
fn digit_str(d: u64) -> (r: &'static str)
    requires
        d < 10,
    ensures
        r@ == seq![digit_char(d as int)],
{
    proof {
        reveal_strlit("0");
        reveal_strlit("1");
        reveal_strlit("2");
        reveal_strlit("3");
        reveal_strlit("4");
        reveal_strlit("5");
        reveal_strlit("6");
        reveal_strlit("7");
        reveal_strlit("8");
        reveal_strlit("9");
    }
    match d {
        0 => "0",
        1 => "1",
        2 => "2",
        3 => "3",
        4 => "4",
        5 => "5",
        6 => "6",
        7 => "7",
        8 => "8",
        _ => "9",
    }
}

/// The decimal digits of `n`.
pub fn dec_u64(n: u64) -> (s: String)
    ensures
        s@ == spec_dec_nat(n as nat),
    decreases n,
{
    if n < 10 {
        String::from_str(digit_str(n))
    } else {
        let mut s = dec_u64(n / 10);
        s.append(digit_str(n % 10));
        s
    }
}

/// The last `k` decimal digits of `n`, zero-padded to width `k`.
pub fn pad_u64(n: u64, k: u64) -> (s: String)
    ensures
        s@ == spec_pad(n as nat, k as nat),
    decreases k,
{
    if k == 0 {
        String::new()
    } else {
        let mut s = pad_u64(n / 10, k - 1);
        s.append(digit_str(n % 10));
        s
    }
}

/// The magnitude of `v` as a `u64`.
fn abs_u64(v: i64) -> (r: u64)
    ensures
        v >= 0 ==> r == v,
        v < 0 ==> r == -(v as int),
{
    if v < 0 {
        (-(v as i128)) as u64
    } else {
        v as u64
    }
}

/// The decimal form of `v`, with a leading minus sign when negative.
pub fn dec_i64(v: i64) -> (s: String)
    ensures
        s@ == spec_dec_int(v as int),
{
    if v < 0 {
        proof {
            reveal_strlit("-");
        }
        let mut s = String::from_str("-");
        let digits = dec_u64(abs_u64(v));
        s.append(digits.as_str());
        s
    } else {
        dec_u64(abs_u64(v))
    }
}

/// A whole second rendered as wall-clock time of day, `HH:MM:SS`.
pub open spec fn spec_clock_label(secs: int) -> Seq<char> {
    spec_pad(((secs / 3600) % 24) as nat, 2) + seq![':'] + spec_pad(
        ((secs / 60) % 60) as nat,
        2,
    ) + seq![':'] + spec_pad((secs % 60) as nat, 2)
}

/// A whole second rendered as wall-clock time of day, `HH:MM:SS`.
pub fn clock_label(secs: i64) -> (s: String)
    requires
        secs >= 0,
    ensures
        s@ == spec_clock_label(secs as int),
{
    proof {
        reveal_strlit(":");
    }
    let u = secs as u64;
    let mut s = pad_u64((u / 3600) % 24, 2);
    s.append(":");
    let mins = pad_u64((u / 60) % 60, 2);
    s.append(mins.as_str());
    s.append(":");
    let ss = pad_u64(u % 60, 2);
    s.append(ss.as_str());
    s
}

/// A whole number of seconds rendered as a human duration, such as
/// `3h 2m 6s`: a minus sign for negative values, then day, hour, minute and
/// second components, beginning with the largest unit that is non-zero.
pub open spec fn spec_duration_label(secs: int) -> Seq<char> {
    let a = if secs < 0 {
        -secs
    } else {
        secs
    };
    let d = a / 86400;
    let h = (a / 3600) % 24;
    let m = (a / 60) % 60;
    let sec = a % 60;
    (if secs < 0 {
        seq!['-']
    } else {
        Seq::<char>::empty()
    }) + (if d > 0 {
        spec_dec_nat(d as nat) + seq!['d', ' ']
    } else {
        Seq::<char>::empty()
    }) + (if d > 0 || h > 0 {
        spec_dec_nat(h as nat) + seq!['h', ' ']
    } else {
        Seq::<char>::empty()
    }) + (if d > 0 || h > 0 || m > 0 {
        spec_dec_nat(m as nat) + seq!['m', ' ']
    } else {
        Seq::<char>::empty()
    }) + spec_dec_nat(sec as nat) + seq!['s']
}

/// A whole number of seconds rendered as a human duration.
pub fn duration_label(secs: i64) -> (s: String)
    ensures
        s@ == spec_duration_label(secs as int),
{
    proof {
        reveal_strlit("-");
        reveal_strlit("d ");
        reveal_strlit("h ");
        reveal_strlit("m ");
        reveal_strlit("s");
    }
    let a = abs_u64(secs);
    let d = a / 86400;
    let h = (a / 3600) % 24;
    let m = (a / 60) % 60;
    let sec = a % 60;
    let mut s = if secs < 0 {
        String::from_str("-")
    } else {
        String::new()
    };
    if d > 0 {
        let days = dec_u64(d);
        s.append(days.as_str());
        s.append("d ");
    }
    if d > 0 || h > 0 {
        let hours = dec_u64(h);
        s.append(hours.as_str());
        s.append("h ");
    }
    if d > 0 || h > 0 || m > 0 {
        let minutes = dec_u64(m);
        s.append(minutes.as_str());
        s.append("m ");
    }
    let seconds = dec_u64(sec);
    s.append(seconds.as_str());
    s.append("s");
    s
}

/// A sub-second remainder rendered as signed milliseconds since the last
/// whole second, at the coarsest decimal precision that is exact.
pub open spec fn spec_subsec_label(rel: int) -> Seq<char> {
    let a = if rel < 0 {
        -rel
    } else {
        rel
    };
    let sign = if rel > 0 {
        seq!['+']
    } else {
        seq!['-']
    };
    let whole = spec_dec_nat((a / 1_000_000) as nat);
    let ms = seq![' ', 'm', 's'];
    if a % 1_000_000 == 0 {
        sign + whole + ms
    } else if a % 100_000 == 0 {
        sign + whole + seq!['.'] + spec_pad(((a / 100_000) % 10) as nat, 1) + ms
    } else if a % 10_000 == 0 {
        sign + whole + seq!['.'] + spec_pad(((a / 10_000) % 100) as nat, 2) + ms
    } else if a % 1_000 == 0 {
        sign + whole + seq!['.'] + spec_pad(((a / 1_000) % 1_000) as nat, 3) + ms
    } else if a % 100 == 0 {
        sign + whole + seq!['.'] + spec_pad(((a / 100) % 10_000) as nat, 4) + ms
    } else if a % 10 == 0 {
        sign + whole + seq!['.'] + spec_pad(((a / 10) % 100_000) as nat, 5) + ms
    } else {
        sign + whole + seq!['.'] + spec_pad((a % 1_000_000) as nat, 6) + ms
    }
}

/// A sub-second remainder rendered as signed milliseconds.
pub fn subsec_label(rel: i64) -> (s: String)
    requires
        rel != 0,
        -1_000_000_000 < rel < 1_000_000_000,
    ensures
        s@ == spec_subsec_label(rel as int),
{
    proof {
        reveal_strlit("+");
        reveal_strlit("-");
        reveal_strlit(".");
        reveal_strlit(" ms");
    }
    let a = abs_u64(rel);
    let mut s = if rel > 0 {
        String::from_str("+")
    } else {
        String::from_str("-")
    };
    let whole = dec_u64(a / 1_000_000);
    s.append(whole.as_str());
    if a % 1_000_000 == 0 {
    } else if a % 100_000 == 0 {
        s.append(".");
        let frac = pad_u64((a / 100_000) % 10, 1);
        s.append(frac.as_str());
    } else if a % 10_000 == 0 {
        s.append(".");
        let frac = pad_u64((a / 10_000) % 100, 2);
        s.append(frac.as_str());
    } else if a % 1_000 == 0 {
        s.append(".");
        let frac = pad_u64((a / 1_000) % 1_000, 3);
        s.append(frac.as_str());
    } else if a % 100 == 0 {
        s.append(".");
        let frac = pad_u64((a / 100) % 10_000, 4);
        s.append(frac.as_str());
    } else if a % 10 == 0 {
        s.append(".");
        let frac = pad_u64((a / 10) % 100_000, 5);
        s.append(frac.as_str());
    } else {
        s.append(".");
        let frac = pad_u64(a % 1_000_000, 6);
        s.append(frac.as_str());
    }
    s.append(" ms");
    s
}

/// The sub-second remainder of `ns`: nanoseconds since the nearest whole
/// second toward zero, matching the sign of `ns`.
pub open spec fn spec_rel_ns(ns: int) -> int {
    ns - spec_trunc_div(ns, 1_000_000_000) * 1_000_000_000
}

/// Whether a nanosecond position plausibly sits on a wall-clock epoch:
/// between 20 and 150 of our 365-day years after it.
pub open spec fn spec_is_calendar_time(ns: int) -> bool {
    20 <= spec_trunc_div(ns, NANOS_PER_YEAR as int) <= 150
}

/// The continuous-time label of the tick at `ns`.
pub open spec fn spec_time_label(ns: int) -> Seq<char> {
    if spec_rel_ns(ns) == 0 {
        if spec_is_calendar_time(ns) {
            spec_clock_label(spec_trunc_div(ns, 1_000_000_000))
        } else {
            spec_duration_label(spec_trunc_div(ns, 1_000_000_000))
        }
    } else {
        spec_subsec_label(spec_rel_ns(ns))
    }
}

/// The continuous-time label of the tick at `ns`.
pub fn time_label(ns: i64) -> (s: String)
    ensures
        s@ == spec_time_label(ns as int),
{
    let q = trunc_div_i64(ns, 1_000_000_000);
    let rel_wide: i128 = ns as i128 - (q as i128) * 1_000_000_000;
    proof {
        if ns >= 0 {
            lemma_fundamental_div_mod(ns as int, 1_000_000_000);
        } else {
            lemma_fundamental_div_mod(-(ns as int), 1_000_000_000);
        }
    }
    let rel = rel_wide as i64;
    if rel == 0 {
        let years = trunc_div_i64(ns, NANOS_PER_YEAR);
        if 20 <= years && years <= 150 {
            proof {
                assert(ns >= 0 && q >= 0);
            }
            clock_label(q)
        } else {
            duration_label(q)
        }
    } else {
        subsec_label(rel)
    }
}

/// The sequence-domain label: `#` followed by the index.
pub open spec fn spec_seq_label(pos: int) -> Seq<char> {
    seq!['#'] + spec_dec_int(pos)
}

/// The sequence-domain label: `#` followed by the index.
pub fn seq_label(pos: i64) -> (s: String)
    ensures
        s@ == spec_seq_label(pos as int),
{
    proof {
        reveal_strlit("#");
    }
    let mut s = String::from_str("#");
    let digits = dec_i64(pos);
    s.append(digits.as_str());
    s
}

/// The label of the tick at `pos` for the chosen domain.
pub open spec fn spec_tick_label(domain: TimeDomain, pos: int) -> Seq<char> {
    match domain {
        TimeDomain::Time => spec_time_label(pos),
        TimeDomain::Sequence => spec_seq_label(pos),
    }
}

/// The label of the tick at `pos` for the chosen domain.
pub fn format_tick(domain: TimeDomain, pos: i64) -> (s: String)
    ensures
        s@ == spec_tick_label(domain, pos as int),
{
    match domain {
        TimeDomain::Time => time_label(pos),
        TimeDomain::Sequence => seq_label(pos),
    }
}

} // verus!
