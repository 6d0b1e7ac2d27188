//! The properties the ruler promises as a whole: nested tick tiers, a tick
//! budget bounded by the canvas width alone, and culling that never lets a
//! primitive escape the clip rectangle.

use crate::geom::{Rect, TimeRange, TICKS_MAX, TICKS_MIN};
use crate::policy::{lemma_next_step_monotonic, spec_next_step, TimeDomain};
use crate::ticks::{
    spec_big_spacing, spec_layout, spec_medium_spacing, spec_minor_spacing, spec_prims_at,
    spec_spacing_from, spec_ticks_from, spec_visible, PrimModel,
};
use vstd::prelude::*;

verus! {

/// The spacing search only grows the spacing it starts from, stays in the
/// `i64` range, and stops only where one more tick per minimum spacing
/// would fit on the canvas or the policy has saturated.
pub proof fn lemma_spacing_from_bounds(domain: TimeDomain, wt: int, w: int, sp: int)
    requires
        1 <= sp <= i64::MAX,
    ensures
        sp <= spec_spacing_from(domain, wt, w, sp) <= i64::MAX,
        ({
            let r = spec_spacing_from(domain, wt, w, sp);
            wt * 1024 <= w * r * 65536 || spec_next_step(domain, r) <= r
        }),
    decreases i64::MAX - sp,
{
    let r = spec_spacing_from(domain, wt, w, sp);
    if wt * 1024 <= w * sp * 65536 {
    } else {
        let n = spec_next_step(domain, sp);
        lemma_next_step_monotonic(domain, sp);
        if n <= sp || n > i64::MAX {
        } else {
            lemma_spacing_from_bounds(domain, wt, w, n);
        }
    }
}

/// Monotonic nesting: the three tick tiers are positive and ordered,
/// minor at or below medium at or below major, and strictly so wherever
/// the next policy step still fits in the `i64` range.
pub proof fn lemma_tick_tiers_nested(tr: TimeRange, canvas: Rect, domain: TimeDomain)
    ensures
        1 <= spec_minor_spacing(tr, canvas, domain),
        spec_minor_spacing(tr, canvas, domain) <= spec_medium_spacing(tr, canvas, domain),
        spec_medium_spacing(tr, canvas, domain) <= spec_big_spacing(tr, canvas, domain),
        spec_big_spacing(tr, canvas, domain) <= i64::MAX,
        spec_minor_spacing(tr, canvas, domain) * 10 <= i64::MAX ==> spec_minor_spacing(
            tr,
            canvas,
            domain,
        ) < spec_medium_spacing(tr, canvas, domain),
        spec_medium_spacing(tr, canvas, domain) * 10 <= i64::MAX ==> spec_medium_spacing(
            tr,
            canvas,
            domain,
        ) < spec_big_spacing(tr, canvas, domain),
{
    lemma_spacing_from_bounds(
        domain,
        tr.max.ticks - tr.min.ticks,
        canvas.max_x - canvas.min_x,
        1,
    );
    lemma_next_step_monotonic(domain, spec_minor_spacing(tr, canvas, domain));
    lemma_next_step_monotonic(domain, spec_medium_spacing(tr, canvas, domain));
}

/// How many tick lines a list of primitives holds.
pub open spec fn spec_line_count(s: Seq<PrimModel>) -> int {
    s.filter(|p: PrimModel| p is Line).len() as int
}

/// One tick contributes at most one line.
proof fn lemma_prims_at_count(tr: TimeRange, canvas: Rect, clip: Rect, domain: TimeDomain, t: int)
    ensures
        0 <= spec_line_count(spec_prims_at(tr, canvas, clip, domain, t)) <= 1,
{
    reveal_with_fuel(Seq::filter, 4);
    let at = spec_prims_at(tr, canvas, clip, domain, t);
    if at.len() == 2 {
        assert(at.drop_last() =~= seq![at[0]]);
        assert(seq![at[0]].drop_last() =~= Seq::<PrimModel>::empty());
    } else if at.len() == 1 {
        assert(at.drop_last() =~= Seq::<PrimModel>::empty());
    }
}

/// The enumeration from `t` to `endu` by steps of `sp` yields at most
/// `(endu - t) / sp + 1` lines.
proof fn lemma_ticks_count(
    tr: TimeRange,
    canvas: Rect,
    clip: Rect,
    domain: TimeDomain,
    sp: int,
    t: int,
    endu: int,
)
    requires
        sp >= 1,
    ensures
        0 <= spec_line_count(spec_ticks_from(tr, canvas, clip, domain, sp, t, endu)) <= (if t
            <= endu {
            (endu - t) / sp + 1
        } else {
            0
        }),
    decreases (if t <= endu { endu + 1 - t } else { 0 }),
{
    reveal_with_fuel(Seq::filter, 1);
    let whole = spec_ticks_from(tr, canvas, clip, domain, sp, t, endu);
    if t > endu {
        assert(whole =~= Seq::<PrimModel>::empty());
    } else {
        let at = spec_prims_at(tr, canvas, clip, domain, t);
        let rest = spec_ticks_from(tr, canvas, clip, domain, sp, t + sp, endu);
        lemma_prims_at_count(tr, canvas, clip, domain, t);
        lemma_ticks_count(tr, canvas, clip, domain, sp, t + sp, endu);
        Seq::filter_distributes_over_add(at, rest, |p: PrimModel| p is Line);
        vstd::arithmetic::div_mod::lemma_div_pos_is_pos(endu - t, sp);
        if t + sp <= endu {
            vstd::arithmetic::div_mod::lemma_div_plus_one(endu - t - sp, sp);
        }
    }
}

/// Tick budget: the number of lines the layout emits is bounded by the
/// canvas width in units of the minimum tick spacing, plus a small
/// constant, however wide or narrow the time range is.
pub proof fn lemma_tick_budget(tr: TimeRange, canvas: Rect, clip: Rect, domain: TimeDomain)
    requires
        tr.wf(),
        canvas.wf(),
    ensures
        spec_line_count(spec_layout(tr, canvas, clip, domain)) <= (if canvas.max_x - canvas.min_x
            >= 1 {
            (canvas.max_x - canvas.min_x) / 1024
        } else {
            0
        }) + 25,
{
    reveal_with_fuel(Seq::filter, 1);
    let vis = spec_visible(canvas, clip);
    let tw = tr.max.ticks - tr.min.ticks;
    let w = canvas.max_x - canvas.min_x;
    if !vis.spec_is_positive() || tw <= 0 {
        assert(spec_layout(tr, canvas, clip, domain) =~= Seq::<PrimModel>::empty());
        if w >= 1 {
            vstd::arithmetic::div_mod::lemma_div_pos_is_pos(w, 1024);
        }
    } else {
        let wt = tw as int;
        let minor = spec_minor_spacing(tr, canvas, domain);
        let fm = tr.min.spec_floor();
        let start = crate::ticks::spec_start(tr, canvas, domain);
        let endu = tr.max.spec_ceil();
        let mint = tr.min.ticks as int;
        let maxt = tr.max.ticks as int;
        lemma_spacing_from_bounds(domain, wt, w, 1);
        assert(1 <= minor <= i64::MAX);
        lemma_ticks_count(tr, canvas, clip, domain, minor, start, endu);
        vstd::arithmetic::div_mod::lemma_div_pos_is_pos(w, 1024);
        if start > endu {
        } else {
            // The enumeration start sits less than one minor spacing below
            // the floor of the range.
            if fm >= 0 {
                vstd::arithmetic::div_mod::lemma_fundamental_div_mod(fm, minor);
                assert(start == fm - fm % minor) by (nonlinear_arith)
                    requires
                        start == (fm / minor) * minor,
                        fm == minor * (fm / minor) + fm % minor,
                ;
                vstd::arithmetic::div_mod::lemma_mod_division_less_than_divisor(fm, minor);
            } else {
                vstd::arithmetic::div_mod::lemma_fundamental_div_mod(-fm, minor);
                assert(start == fm + (-fm) % minor) by (nonlinear_arith)
                    requires
                        start == (-((-fm) / minor)) * minor,
                        -fm == minor * ((-fm) / minor) + (-fm) % minor,
                ;
                vstd::arithmetic::div_mod::lemma_mod_division_less_than_divisor(-fm, minor);
            }
            assert(start >= fm - minor + 1);
            // The enumeration end sits at most one unit above the ceiling
            // of the range.
            assert(fm == mint / 65536);
            assert(endu == (maxt + 65535) / 65536);
            vstd::arithmetic::div_mod::lemma_div_is_ordered(maxt + 65535, maxt + 65536, 65536);
            vstd::arithmetic::div_mod::lemma_div_plus_one(maxt, 65536);
            assert(endu <= maxt / 65536 + 1);
            // Floor division is superadditive up to one.
            let a = wt / 65536;
            vstd::arithmetic::div_mod::lemma_fundamental_div_mod(mint, 65536);
            vstd::arithmetic::div_mod::lemma_fundamental_div_mod(wt, 65536);
            vstd::arithmetic::div_mod::lemma_mod_division_less_than_divisor(mint, 65536);
            vstd::arithmetic::div_mod::lemma_mod_division_less_than_divisor(wt, 65536);
            vstd::arithmetic::div_mod::lemma_mod_is_mod_recursive(mint, 65536);
            let qm = mint / 65536;
            let rm = mint % 65536;
            let rt = wt % 65536;
            if rm + rt < 65536 {
                vstd::arithmetic::div_mod::lemma_fundamental_div_mod_converse_div(
                    maxt,
                    65536,
                    qm + a,
                    rm + rt,
                );
            } else {
                vstd::arithmetic::div_mod::lemma_fundamental_div_mod_converse_div(
                    maxt,
                    65536,
                    qm + a + 1,
                    rm + rt - 65536,
                );
            }
            assert(maxt / 65536 <= mint / 65536 + a + 1);
            assert(endu - start <= a + minor + 1);
            // Count in terms of the time width per minor spacing.
            vstd::arithmetic::div_mod::lemma_div_is_ordered(endu - start, a + 1 + minor, minor);
            vstd::arithmetic::div_mod::lemma_div_plus_one(a + 1, minor);
            vstd::arithmetic::div_mod::lemma_div_is_ordered(a + 1, a + minor, minor);
            vstd::arithmetic::div_mod::lemma_div_plus_one(a, minor);
            assert((endu - start) / minor <= a / minor + 2);
            vstd::arithmetic::div_mod::lemma_div_pos_is_pos(wt, 65536);
            // Either the spacing search ended because the ticks fit, or
            // the policy saturated near the top of the range.
            if wt * 1024 <= w * minor * 65536 {
                assert(wt <= 64 * (w * minor)) by (nonlinear_arith)
                    requires
                        wt * 1024 <= w * minor * 65536,
                ;
                vstd::arithmetic::div_mod::lemma_div_is_ordered(wt, 64 * (w * minor), 65536);
                vstd::arithmetic::div_mod::lemma_div_multiples_vanish(w * minor, 64);
                assert(64 * (w * minor) / 65536 == (w * minor) / 1024) by {
                    vstd::arithmetic::div_mod::lemma_div_denominator(64 * (w * minor), 64, 1024);
                }
                assert(a <= (w * minor) / 1024);
                vstd::arithmetic::div_mod::lemma_div_is_ordered(a, (w * minor) / 1024, minor);
                assert(((w * minor) / 1024) / minor == (w * minor) / (1024 * minor)) by {
                    vstd::arithmetic::mul::lemma_mul_nonnegative(w, minor);
                    vstd::arithmetic::div_mod::lemma_div_denominator(w * minor, 1024, minor);
                }
                assert((w * minor) / (1024 * minor) == ((w * minor) / minor) / 1024) by {
                    vstd::arithmetic::mul::lemma_mul_nonnegative(w, minor);
                    vstd::arithmetic::div_mod::lemma_div_denominator(w * minor, minor, 1024);
                    assert(minor * 1024 == 1024 * minor);
                }
                assert((w * minor) / minor == w) by {
                    vstd::arithmetic::mul::lemma_mul_is_commutative(w, minor);
                    vstd::arithmetic::div_mod::lemma_div_multiples_vanish(w, minor);
                }
                assert(a / minor <= w / 1024);
            } else {
                lemma_next_step_monotonic(domain, minor);
                assert(minor >= 922_337_203_685_477_581);
                vstd::arithmetic::div_mod::lemma_div_is_ordered(
                    wt,
                    (TICKS_MAX - TICKS_MIN) as int,
                    65536,
                );
                assert((TICKS_MAX - TICKS_MIN) as int / 65536 == 0xffff_ffff_ffff_ffff);
                vstd::arithmetic::div_mod::lemma_multiply_divide_lt(a, minor, 20);
                assert(a / minor <= 19);
            }
        }
    }
}

/// Idempotence: the layout holds no hidden state, so any two primitive
/// lists laid out from identical inputs are identical. The executable
/// `layout` promises that its output's model is exactly `spec_layout` of
/// its arguments, from which this follows for any two calls.
pub proof fn lemma_layout_idempotent(
    first: Seq<PrimModel>,
    second: Seq<PrimModel>,
    tr: TimeRange,
    canvas: Rect,
    clip: Rect,
    domain: TimeDomain,
)
    requires
        first == spec_layout(tr, canvas, clip, domain),
        second == spec_layout(tr, canvas, clip, domain),
    ensures
        first == second,
{
}

/// Whether a primitive stays inside the clip rectangle's horizontal
/// extent: a line by its own X, a label by the X of the tick it belongs
/// to, one text offset to its left.
pub open spec fn prim_in_clip(p: PrimModel, clip: Rect) -> bool {
    match p {
        PrimModel::Line { x, .. } => clip.min_x <= x <= clip.max_x,
        PrimModel::Label { x, .. } => clip.min_x <= x - 1024 <= clip.max_x,
    }
}

/// Every primitive of every enumerated tick stays inside the clip
/// rectangle.
proof fn lemma_ticks_culled(
    tr: TimeRange,
    canvas: Rect,
    clip: Rect,
    domain: TimeDomain,
    sp: int,
    t: int,
    endu: int,
)
    requires
        sp >= 1,
    ensures
        forall|i: int|
            0 <= i < spec_ticks_from(tr, canvas, clip, domain, sp, t, endu).len()
                ==> prim_in_clip(
                #[trigger] spec_ticks_from(tr, canvas, clip, domain, sp, t, endu)[i],
                clip,
            ),
    decreases (if t <= endu { endu + 1 - t } else { 0 }),
{
    if t > endu {
    } else {
        let at = spec_prims_at(tr, canvas, clip, domain, t);
        let rest = spec_ticks_from(tr, canvas, clip, domain, sp, t + sp, endu);
        lemma_ticks_culled(tr, canvas, clip, domain, sp, t + sp, endu);
        assert forall|i: int| 0 <= i < at.len() implies prim_in_clip(at[i], clip) by {
            let vis = spec_visible(canvas, clip);
            assert(vis.min_x >= clip.min_x && vis.max_x <= clip.max_x);
        }
        assert forall|i: int|
            0 <= i < spec_ticks_from(tr, canvas, clip, domain, sp, t, endu).len() implies
            prim_in_clip(
            spec_ticks_from(tr, canvas, clip, domain, sp, t, endu)[i],
            clip,
        ) by {
            if i < at.len() {
                assert(spec_ticks_from(tr, canvas, clip, domain, sp, t, endu)[i] == at[i]);
            } else {
                assert(spec_ticks_from(tr, canvas, clip, domain, sp, t, endu)[i] == rest[i
                    - at.len()]);
            }
        }
    }
}

/// Culling correctness: no primitive the layout emits lies outside the
/// clip rectangle's horizontal extent; a label sits exactly one text
/// offset right of its tick, which itself lies inside.
pub proof fn lemma_layout_culled(tr: TimeRange, canvas: Rect, clip: Rect, domain: TimeDomain)
    ensures
        forall|i: int|
            0 <= i < spec_layout(tr, canvas, clip, domain).len() ==> prim_in_clip(
                #[trigger] spec_layout(tr, canvas, clip, domain)[i],
                clip,
            ),
{
    let vis = spec_visible(canvas, clip);
    let tw = tr.max.ticks - tr.min.ticks;
    if !vis.spec_is_positive() || tw <= 0 {
    } else {
        lemma_spacing_from_bounds(
            domain,
            tr.max.ticks - tr.min.ticks,
            canvas.max_x - canvas.min_x,
            1,
        );
        lemma_ticks_culled(
            tr,
            canvas,
            clip,
            domain,
            spec_minor_spacing(tr, canvas, domain),
            crate::ticks::spec_start(tr, canvas, domain),
            tr.max.spec_ceil(),
        );
    }
}

/// Every primitive of every segment from index `i` on stays inside the
/// clip rectangle.
proof fn lemma_dispatch_culled_from(
    segs: Seq<crate::dispatch::Segment>,
    clip: Rect,
    y_min: i64,
    y_max: i64,
    domain: TimeDomain,
    i: int,
)
    ensures
        forall|k: int|
            0 <= k < crate::dispatch::spec_dispatch_from(segs, clip, y_min, y_max, domain, i).len()
                ==> prim_in_clip(
                #[trigger] crate::dispatch::spec_dispatch_from(
                    segs,
                    clip,
                    y_min,
                    y_max,
                    domain,
                    i,
                )[k],
                clip,
            ),
    decreases segs.len() - i,
{
    if i < 0 || i >= segs.len() {
    } else {
        let at = crate::dispatch::spec_segment_prims(segs[i], clip, y_min, y_max, domain);
        let rest = crate::dispatch::spec_dispatch_from(segs, clip, y_min, y_max, domain, i + 1);
        lemma_dispatch_culled_from(segs, clip, y_min, y_max, domain, i + 1);
        if !(segs[i].x_max < clip.min_x || clip.max_x < segs[i].x_min) {
            let c = crate::dispatch::spec_clipped_segment(segs[i], clip);
            lemma_layout_culled(
                c.time,
                Rect { min_x: c.x_min, min_y: y_min, max_x: c.x_max, max_y: y_max },
                clip,
                domain,
            );
        }
        assert forall|k: int|
            0 <= k < crate::dispatch::spec_dispatch_from(segs, clip, y_min, y_max, domain, i).len()
            implies prim_in_clip(
            crate::dispatch::spec_dispatch_from(segs, clip, y_min, y_max, domain, i)[k],
            clip,
        ) by {
            if k < at.len() {
                assert(crate::dispatch::spec_dispatch_from(segs, clip, y_min, y_max, domain, i)[k]
                    == at[k]);
            } else {
                assert(crate::dispatch::spec_dispatch_from(segs, clip, y_min, y_max, domain, i)[k]
                    == rest[k - at.len()]);
            }
        }
    }
}

/// Culling correctness for a whole frame: no primitive the dispatcher
/// emits, over any list of segments, lies outside the clip rectangle's
/// horizontal extent.
pub proof fn lemma_dispatch_culled(
    segs: Seq<crate::dispatch::Segment>,
    clip: Rect,
    y_min: i64,
    y_max: i64,
    domain: TimeDomain,
)
    ensures
        forall|k: int|
            0 <= k < crate::dispatch::spec_dispatch(segs, clip, y_min, y_max, domain).len()
                ==> prim_in_clip(
                #[trigger] crate::dispatch::spec_dispatch(segs, clip, y_min, y_max, domain)[k],
                clip,
            ),
{
    lemma_dispatch_culled_from(segs, clip, y_min, y_max, domain, 0);
}

} // verus!
