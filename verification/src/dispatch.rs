//! The segment dispatcher.
//!
//! The surrounding viewer maps recording time onto the screen as an ordered
//! list of disjoint pixel segments (gaps in the recording are collapsed).
//! The dispatcher culls segments that lie outside the clip rectangle,
//! reprojects a partially visible segment's time range onto just its
//! visible pixels, and runs the tick layout once per segment that remains.

use crate::geom::{Rect, TimeRange, TimeReal, MAX_COORD};
use crate::num::floor_div_i128;
use crate::policy::TimeDomain;
use crate::ticks::{layout, spec_layout, PrimModel, Primitive};
use vstd::arithmetic::div_mod::{
    lemma_div_is_ordered, lemma_div_multiples_vanish, lemma_div_pos_is_pos,
};
use vstd::prelude::*;

verus! {

/// One contiguous mapping of a time sub-range onto a pixel sub-range,
/// produced fresh each frame by the viewer's time-mapping oracle.
#[derive(Clone, Copy, PartialEq, Eq, Structural, Debug)]
pub struct Segment {
    pub x_min: i64,
    pub x_max: i64,
    pub time: TimeRange,
}

impl Segment {
    /// Pixel range ordered and in bounds, time endpoints in range.
    pub open spec fn wf(self) -> bool {
        &&& -MAX_COORD <= self.x_min <= self.x_max <= MAX_COORD
        &&& self.time.wf()
    }
}

/// The time `num / den` of the way from `tr.min` to `tr.max`, rounded down
/// to a tick.
pub open spec fn spec_time_lerp(tr: TimeRange, num: int, den: int) -> int {
    tr.min.ticks + ((tr.max.ticks - tr.min.ticks) * num) / den
}

/// The time `num / den` of the way from `tr.min` to `tr.max`.
fn time_lerp(tr: &TimeRange, num: i64, den: i64) -> (r: TimeReal)
    requires
        tr.wf(),
        0 < den <= 4 * MAX_COORD,
        0 <= num <= den,
    ensures
        r.ticks == spec_time_lerp(*tr, num as int, den as int),
        r.wf(),
        tr.min.ticks <= tr.max.ticks ==> tr.min.ticks <= r.ticks <= tr.max.ticks,
        tr.max.ticks < tr.min.ticks ==> tr.max.ticks <= r.ticks <= tr.min.ticks,
{
    let tw: i128 = tr.max.ticks - tr.min.ticks;
    proof {
        if tw >= 0 {
            assert(0 <= tw * num <= tw * den) by (nonlinear_arith)
                requires
                    tw >= 0,
                    0 <= num <= den,
            ;
        } else {
            assert(tw * den <= tw * num <= 0) by (nonlinear_arith)
                requires
                    tw < 0,
                    0 <= num <= den,
            ;
        }
        assert(tw * den == den * tw) by (nonlinear_arith);
        assert(-0x800_0000_0000_0000_0000_0000_0000i128 <= tw * num <= 0x800_0000_0000_0000_0000_0000_0000i128)
            by (nonlinear_arith)
            requires
                -0x2_0000_0000_0000_0000_0000i128 <= tw <= 0x2_0000_0000_0000_0000_0000i128,
                0 <= num <= 33_554_432,
        ;
    }
    let prod: i128 = tw * (num as i128);
    let q = floor_div_i128(prod, den as i128);
    proof {
        lemma_div_multiples_vanish(tw as int, den as int);
        if tw >= 0 {
            lemma_div_pos_is_pos(prod as int, den as int);
            lemma_div_is_ordered(prod as int, tw * den, den as int);
        } else {
            lemma_div_is_ordered(tw * den, prod as int, den as int);
            vstd::arithmetic::div_mod::lemma_div_nonincreasing(
                (0 - prod) as int,
                den as int,
            );
            lemma_div_is_ordered(prod as int, 0, den as int);
        }
    }
    TimeReal { ticks: tr.min.ticks + q }
}

/// The visible part of a segment: its pixel range with each end that
/// crosses the clip rectangle pulled onto the clip edge, and its time range
/// reprojected onto those pixels. The fraction is the clip edge's position
/// inside the pixel range; a degenerate pixel range clips at one half.
pub open spec fn spec_clipped_segment(seg: Segment, clip: Rect) -> Segment {
    let den0 = seg.x_max - seg.x_min;
    let num0 = clip.min_x - seg.x_min;
    let left = if den0 == 0 || (0 < num0 < den0) {
        Segment {
            x_min: clip.min_x,
            x_max: seg.x_max,
            time: TimeRange {
                min: TimeReal {
                    ticks: (if den0 == 0 {
                        spec_time_lerp(seg.time, 1, 2)
                    } else {
                        spec_time_lerp(seg.time, num0 as int, den0 as int)
                    }) as i128,
                },
                max: seg.time.max,
            },
        }
    } else {
        seg
    };
    let den1 = left.x_max - left.x_min;
    let num1 = clip.max_x - left.x_min;
    if den1 == 0 || (0 < num1 < den1) {
        Segment {
            x_min: left.x_min,
            x_max: clip.max_x,
            time: TimeRange {
                min: left.time.min,
                max: TimeReal {
                    ticks: (if den1 == 0 {
                        spec_time_lerp(left.time, 1, 2)
                    } else {
                        spec_time_lerp(left.time, num1 as int, den1 as int)
                    }) as i128,
                },
            },
        }
    } else {
        left
    }
}

/// What one segment contributes: nothing if its pixel range misses the
/// clip rectangle; otherwise the tick layout of its visible part, on the
/// canvas spanned by the clipped pixel range and the given vertical band.
pub open spec fn spec_segment_prims(
    seg: Segment,
    clip: Rect,
    y_min: i64,
    y_max: i64,
    domain: TimeDomain,
) -> Seq<PrimModel> {
    if seg.x_max < clip.min_x || clip.max_x < seg.x_min {
        Seq::empty()
    } else {
        let c = spec_clipped_segment(seg, clip);
        spec_layout(
            c.time,
            Rect { min_x: c.x_min, min_y: y_min, max_x: c.x_max, max_y: y_max },
            clip,
            domain,
        )
    }
}

/// What the segments from index `i` on contribute, in order.
pub open spec fn spec_dispatch_from(
    segs: Seq<Segment>,
    clip: Rect,
    y_min: i64,
    y_max: i64,
    domain: TimeDomain,
    i: int,
) -> Seq<PrimModel>
    decreases segs.len() - i,
{
    if i < 0 || i >= segs.len() {
        Seq::empty()
    } else {
        spec_segment_prims(segs[i], clip, y_min, y_max, domain) + spec_dispatch_from(
            segs,
            clip,
            y_min,
            y_max,
            domain,
            i + 1,
        )
    }
}

/// Everything the ruler draws for one frame: the contributions of all
/// visible segments, left to right.
pub open spec fn spec_dispatch(
    segs: Seq<Segment>,
    clip: Rect,
    y_min: i64,
    y_max: i64,
    domain: TimeDomain,
) -> Seq<PrimModel> {
    spec_dispatch_from(segs, clip, y_min, y_max, domain, 0)
}

/// The visible part of a segment that overlaps the clip rectangle.
fn clipped_segment(seg: &Segment, clip: &Rect) -> (c: Segment)
    requires
        seg.wf(),
        clip.wf(),
        clip.min_x <= seg.x_max,
        seg.x_min <= clip.max_x,
    ensures
        c == spec_clipped_segment(*seg, *clip),
        c.time.wf(),
        -MAX_COORD <= c.x_min <= MAX_COORD,
        -MAX_COORD <= c.x_max <= MAX_COORD,
{
    let den0 = seg.x_max - seg.x_min;
    let num0 = clip.min_x - seg.x_min;
    let left = if den0 == 0 || (0 < num0 && num0 < den0) {
        let new_min = if den0 == 0 {
            time_lerp(&seg.time, 1, 2)
        } else {
            time_lerp(&seg.time, num0, den0)
        };
        Segment {
            x_min: clip.min_x,
            x_max: seg.x_max,
            time: TimeRange { min: new_min, max: seg.time.max },
        }
    } else {
        *seg
    };
    let den1 = left.x_max - left.x_min;
    let num1 = clip.max_x - left.x_min;
    if den1 == 0 || (0 < num1 && num1 < den1) {
        let new_max = if den1 == 0 {
            time_lerp(&left.time, 1, 2)
        } else {
            time_lerp(&left.time, num1, den1)
        };
        Segment {
            x_min: left.x_min,
            x_max: clip.max_x,
            time: TimeRange { min: left.time.min, max: new_max },
        }
    } else {
        left
    }
}

/// The frame's ruler: culls each pixel segment against the clip rectangle,
/// reprojects partially visible segments onto their visible pixels, and
/// lays out ticks once per visible segment, left to right. `y_min` and
/// `y_max` bound the vertical band the tick lines live in.
pub fn paint_time_ranges_and_ticks(
    segments: &Vec<Segment>,
    clip: &Rect,
    y_min: i64,
    y_max: i64,
    domain: TimeDomain,
) -> (out: Vec<Primitive>)
    requires
        clip.wf(),
        -MAX_COORD <= y_min <= MAX_COORD,
        -MAX_COORD <= y_max <= MAX_COORD,
        forall|i: int| 0 <= i < segments@.len() ==> (#[trigger] segments@[i]).wf(),
    ensures
        out.deep_view() == spec_dispatch(segments@, *clip, y_min, y_max, domain),
{
    let mut out: Vec<Primitive> = Vec::new();
    let ghost total = spec_dispatch(segments@, *clip, y_min, y_max, domain);
    let mut i: usize = 0;
    while i < segments.len()
        invariant
            clip.wf(),
            -MAX_COORD <= y_min <= MAX_COORD,
            -MAX_COORD <= y_max <= MAX_COORD,
            forall|k: int| 0 <= k < segments@.len() ==> (#[trigger] segments@[k]).wf(),
            i <= segments@.len(),
            out.deep_view() + spec_dispatch_from(
                segments@,
                *clip,
                y_min,
                y_max,
                domain,
                i as int,
            ) == total,
        decreases segments@.len() - i,
    {
        let seg = segments[i];
        let ghost prior = out.deep_view();
        if seg.x_max < clip.min_x || clip.max_x < seg.x_min {
            proof {
                assert(out.deep_view() =~= prior + spec_segment_prims(
                    segments@[i as int],
                    *clip,
                    y_min,
                    y_max,
                    domain,
                ));
            }
        } else {
            let c = clipped_segment(&seg, clip);
            let rect = Rect { min_x: c.x_min, min_y: y_min, max_x: c.x_max, max_y: y_max };
            let mut prims = layout(&c.time, &rect, clip, domain);
            out.append(&mut prims);
            proof {
                assert(out.deep_view() =~= prior + spec_segment_prims(
                    segments@[i as int],
                    *clip,
                    y_min,
                    y_max,
                    domain,
                ));
            }
        }
        proof {
            assert(spec_dispatch_from(segments@, *clip, y_min, y_max, domain, i as int)
                == spec_segment_prims(segments@[i as int], *clip, y_min, y_max, domain)
                + spec_dispatch_from(segments@, *clip, y_min, y_max, domain, i as int + 1));
            assert(out.deep_view() + spec_dispatch_from(
                segments@,
                *clip,
                y_min,
                y_max,
                domain,
                i as int + 1,
            ) =~= total);
        }
        i = i + 1;
    }
    proof {
        assert(spec_dispatch_from(segments@, *clip, y_min, y_max, domain, i as int) =~= Seq::<
            PrimModel,
        >::empty());
        assert(out.deep_view() =~= total);
    }
    out
}

} // verus!
