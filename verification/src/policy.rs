//! Tick step policies: the domain-specific rule for the next coarser round
//! tick spacing above a given one.
//!
//! Two domains exist. Continuous time counts nanoseconds and jumps along
//! calendar-aware magnitudes (seconds, minutes, hours, days); integer
//! sequence numbers climb a pure power-of-ten ladder. Both saturate instead
//! of overflowing: near the top of the `i64` range the spacing stops
//! growing, which keeps every caller's enumeration loop finite.

use vstd::prelude::*;

verus! {

/// Which kind of coordinate the time axis carries.
#[derive(Clone, Copy, PartialEq, Eq, Structural, Debug)]
pub enum TimeDomain {
    /// Nanoseconds, optionally anchored to a wall-clock epoch.
    Time,
    /// Monotonically increasing integer indices without a physical unit.
    Sequence,
}

/// Next coarser spacing above `s` nanoseconds in the continuous-time domain.
pub open spec fn spec_next_step_time(s: int) -> int {
    if s <= 1_000_000_000 {
        s * 10  // up to ten-second ticks
    } else if s == 10_000_000_000 {
        s * 6  // to the whole minute
    } else if s == 60_000_000_000 {
        s * 10  // to ten minutes
    } else if s == 600_000_000_000 {
        s * 6  // to an hour
    } else if s == 3_600_000_000_000 {
        s * 12  // to twelve hours
    } else if s == 43_200_000_000_000 {
        s * 2  // to a day
    } else if s * 10 <= i64::MAX {
        s * 10  // multiple of ten days
    } else {
        s  // saturate near the top of the range
    }
}

/// Next coarser spacing above `s` in the sequence domain: a power-of-ten
/// ladder, saturating at the top of the `i64` range.
pub open spec fn spec_next_step_seq(s: int) -> int {
    if s * 10 <= i64::MAX {
        s * 10
    } else {
        s
    }
}

/// Next coarser spacing for the chosen domain.
pub open spec fn spec_next_step(domain: TimeDomain, s: int) -> int {
    match domain {
        TimeDomain::Time => spec_next_step_time(s),
        TimeDomain::Sequence => spec_next_step_seq(s),
    }
}

/// The step policy never shrinks a positive spacing, and grows it strictly
/// whenever growing would not overflow `i64`. This is what keeps the three
/// tick tiers nested: minor <= medium <= major, strictly so away from the
/// saturation point.
pub proof fn lemma_next_step_monotonic(domain: TimeDomain, s: int)
    requires
        0 < s <= i64::MAX,
    ensures
        s <= spec_next_step(domain, s),
        spec_next_step(domain, s) <= i64::MAX,
        spec_next_step(domain, s) <= 12 * s,
        s * 10 <= i64::MAX ==> s < spec_next_step(domain, s),
        s * 10 > i64::MAX ==> s == spec_next_step(domain, s),
{
}

/// Continuous-time step policy, saturating on overflow.
pub fn next_step_time(s: i64) -> (r: i64)
    requires
        s > 0,
    ensures
        r == spec_next_step_time(s as int),
{
    if s <= 1_000_000_000 {
        s * 10
    } else if s == 10_000_000_000 {
        s * 6
    } else if s == 60_000_000_000 {
        s * 10
    } else if s == 600_000_000_000 {
        s * 6
    } else if s == 3_600_000_000_000 {
        s * 12
    } else if s == 43_200_000_000_000 {
        s * 2
    } else {
        match s.checked_mul(10) {
            Some(r) => r,
            None => s,
        }
    }
}

/// Sequence step policy: times ten, saturating on overflow.
pub fn next_step_seq(s: i64) -> (r: i64)
    requires
        s > 0,
    ensures
        r == spec_next_step_seq(s as int),
{
    match s.checked_mul(10) {
        Some(r) => r,
        None => s,
    }
}

/// Step policy for the chosen domain.
pub fn next_step(domain: TimeDomain, s: i64) -> (r: i64)
    requires
        s > 0,
    ensures
        r == spec_next_step(domain, s as int),
{
    match domain {
        TimeDomain::Time => next_step_time(s),
        TimeDomain::Sequence => next_step_seq(s),
    }
}

} // verus!
