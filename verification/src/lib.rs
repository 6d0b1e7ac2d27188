//! Adaptive tick-mark generation and time-axis label formatting for a
//! zoomable, pannable timeline ruler.
//!
//! The library is a pure function from (time window, pixel geometry, time
//! domain) to a list of drawable primitives. Screen geometry is measured in
//! integer subpixels and tick positions in integer native time units, so
//! every computation here is exact integer arithmetic with a verified
//! contract; a caller converts to and from its drawing toolkit's coordinates.

pub mod dispatch;
pub mod geom;
pub mod label;
pub mod laws;
pub mod num;
pub mod policy;
pub mod ticks;

use vstd::prelude::*;

verus! {

/// Subpixels per point: all screen coordinates in this crate count 1/256 of
/// a point, so that tick geometry survives the round trip to a toolkit's
/// floating-point points without losing the layout decisions made here.
pub const SUBPIXELS_PER_POINT: i64 = 256;

} // verus!
