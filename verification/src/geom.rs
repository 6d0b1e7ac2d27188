//! Screen geometry in integer subpixels and time coordinates in fixed-point
//! ticks.
//!
//! A time coordinate on the axis is real-valued: when a segment is clipped
//! mid-tick its endpoints fall between native units. `TimeReal` therefore
//! carries a value in ticks of 1/65536 of a native unit, wide enough for the
//! whole `i64` range of tick positions and fine enough that clipping never
//! moves an endpoint visibly.

use crate::num::floor_div_i128;
use vstd::prelude::*;

verus! {

/// Fixed-point ticks per native time unit.
pub const TICKS_PER_UNIT: i64 = 65536;

/// Largest screen coordinate magnitude, in subpixels, that the layout
/// accepts: 32768 points. Beyond this a toolkit's `f32` coordinates could
/// not even represent single points exactly.
pub const MAX_COORD: i64 = 8_388_608;

/// Lowest representable time, in ticks: `i64::MIN` native units.
pub const TICKS_MIN: i128 = -9_223_372_036_854_775_808i128 * 65536;

/// Highest representable time, in ticks: `i64::MAX` native units.
pub const TICKS_MAX: i128 = 9_223_372_036_854_775_807i128 * 65536;

/// An axis-aligned screen rectangle, in subpixels.
#[derive(Clone, Copy, PartialEq, Eq, Structural, Debug)]
pub struct Rect {
    pub min_x: i64,
    pub min_y: i64,
    pub max_x: i64,
    pub max_y: i64,
}

impl Rect {
    /// All coordinates within the range the layout accepts.
    pub open spec fn wf(self) -> bool {
        &&& -MAX_COORD <= self.min_x <= MAX_COORD
        &&& -MAX_COORD <= self.min_y <= MAX_COORD
        &&& -MAX_COORD <= self.max_x <= MAX_COORD
        &&& -MAX_COORD <= self.max_y <= MAX_COORD
    }

    /// Whether the rectangle has positive width and height.
    pub open spec fn spec_is_positive(self) -> bool {
        self.min_x < self.max_x && self.min_y < self.max_y
    }

    /// The intersection of two rectangles (possibly empty or inverted).
    pub open spec fn spec_intersect(self, other: Rect) -> Rect {
        Rect {
            min_x: if self.min_x >= other.min_x {
                self.min_x
            } else {
                other.min_x
            },
            min_y: if self.min_y >= other.min_y {
                self.min_y
            } else {
                other.min_y
            },
            max_x: if self.max_x <= other.max_x {
                self.max_x
            } else {
                other.max_x
            },
            max_y: if self.max_y <= other.max_y {
                self.max_y
            } else {
                other.max_y
            },
        }
    }

    /// Whether the rectangle has positive width and height.
    pub fn is_positive(&self) -> (r: bool)
        ensures
            r == self.spec_is_positive(),
    {
        self.min_x < self.max_x && self.min_y < self.max_y
    }

    /// The intersection of two rectangles.
    pub fn intersect(&self, other: &Rect) -> (r: Rect)
        ensures
            r == self.spec_intersect(*other),
            self.wf() && other.wf() ==> r.wf(),
    {
        Rect {
            min_x: if self.min_x >= other.min_x {
                self.min_x
            } else {
                other.min_x
            },
            min_y: if self.min_y >= other.min_y {
                self.min_y
            } else {
                other.min_y
            },
            max_x: if self.max_x <= other.max_x {
                self.max_x
            } else {
                other.max_x
            },
            max_y: if self.max_y <= other.max_y {
                self.max_y
            } else {
                other.max_y
            },
        }
    }
}

/// A real-valued time coordinate, in fixed-point ticks.
#[derive(Clone, Copy, PartialEq, Eq, Structural, Debug)]
pub struct TimeReal {
    pub ticks: i128,
}

impl TimeReal {
    /// The value stays within the `i64` range of native units.
    pub open spec fn wf(self) -> bool {
        TICKS_MIN <= self.ticks <= TICKS_MAX
    }

    /// The time at a whole number of native units.
    pub fn from_units(units: i64) -> (r: TimeReal)
        ensures
            r.ticks == units * TICKS_PER_UNIT,
            r.wf(),
    {
        proof {
            assert(i64::MIN as int * 65536 <= units as int * 65536 <= i64::MAX as int * 65536);
        }
        TimeReal { ticks: (units as i128) * (TICKS_PER_UNIT as i128) }
    }

    /// The largest whole number of native units at or below this time.
    pub open spec fn spec_floor(self) -> int {
        self.ticks as int / TICKS_PER_UNIT as int
    }

    /// The smallest whole number of native units at or above this time.
    pub open spec fn spec_ceil(self) -> int {
        (self.ticks + TICKS_PER_UNIT - 1) as int / TICKS_PER_UNIT as int
    }

    /// The largest whole number of native units at or below this time.
    pub fn floor(&self) -> (r: i64)
        requires
            self.wf(),
        ensures
            r == self.spec_floor(),
    {
        proof {
            assert(TICKS_MIN as int / TICKS_PER_UNIT as int == i64::MIN);
            assert(TICKS_MAX as int / TICKS_PER_UNIT as int == i64::MAX);
            vstd::arithmetic::div_mod::lemma_div_is_ordered(
                TICKS_MIN as int,
                self.ticks as int,
                TICKS_PER_UNIT as int,
            );
            vstd::arithmetic::div_mod::lemma_div_is_ordered(
                self.ticks as int,
                TICKS_MAX as int,
                TICKS_PER_UNIT as int,
            );
        }
        floor_div_i128(self.ticks, TICKS_PER_UNIT as i128) as i64
    }

    /// The smallest whole number of native units at or above this time.
    pub fn ceil(&self) -> (r: i64)
        requires
            self.wf(),
        ensures
            r == self.spec_ceil(),
    {
        proof {
            assert(TICKS_MIN as int / TICKS_PER_UNIT as int == i64::MIN);
            assert((TICKS_MAX + TICKS_PER_UNIT - 1) as int / TICKS_PER_UNIT as int == i64::MAX);
            vstd::arithmetic::div_mod::lemma_div_is_ordered(
                TICKS_MIN as int,
                (self.ticks + TICKS_PER_UNIT - 1) as int,
                TICKS_PER_UNIT as int,
            );
            vstd::arithmetic::div_mod::lemma_div_is_ordered(
                (self.ticks + TICKS_PER_UNIT - 1) as int,
                (TICKS_MAX + TICKS_PER_UNIT - 1) as int,
                TICKS_PER_UNIT as int,
            );
        }
        floor_div_i128(self.ticks + (TICKS_PER_UNIT - 1) as i128, TICKS_PER_UNIT as i128) as i64
    }
}

/// A visible time sub-range, possibly with fractional endpoints.
#[derive(Clone, Copy, PartialEq, Eq, Structural, Debug)]
pub struct TimeRange {
    pub min: TimeReal,
    pub max: TimeReal,
}

impl TimeRange {
    /// Both endpoints in range.
    pub open spec fn wf(self) -> bool {
        self.min.wf() && self.max.wf()
    }

    /// The width of the range, in ticks.
    pub open spec fn spec_width_ticks(self) -> int {
        self.max.ticks - self.min.ticks
    }
}

} // verus!
