//! The tick layout engine.
//!
//! Given a visible time range, a canvas rectangle, a clip rectangle and a
//! time domain, the engine picks three nested tick spacings (minor, medium,
//! major), derives a visual weight for each tier that cross-fades smoothly
//! as the caller zooms, enumerates candidate tick positions, culls them
//! against the clip rectangle and emits line and text primitives. Every
//! quantity is integer: screen offsets in subpixels, visual weights scaled
//! by [`STRENGTH_ONE`], times in native units and fixed-point ticks.

use crate::geom::{Rect, TimeRange, MAX_COORD, TICKS_MAX, TICKS_MIN};
use crate::label::{format_tick, spec_tick_label};
use crate::num::{floor_div_i128, is_multiple_of, spec_trunc_div, trunc_div_i64};
use crate::policy::{lemma_next_step_monotonic, next_step, spec_next_step, TimeDomain};
use vstd::arithmetic::div_mod::{
    lemma_div_is_ordered, lemma_div_pos_is_pos, lemma_multiply_divide_le,
};
use vstd::prelude::*;

verus! {

/// The scale of a visual weight: this value stands for a weight of one.
pub const STRENGTH_ONE: i64 = 65536;

/// The smallest on-screen spacing, in subpixels, at which minor ticks are
/// still drawn: 4 points. This bounds the number of emitted ticks by the
/// canvas width regardless of zoom level.
pub const MIN_SPACING_SU: i64 = 1024;

/// The on-screen room, in subpixels, at which tick labels begin to fade in:
/// 60 points of expected text width.
pub const TEXT_WIDTH_SU: i64 = 15360;

/// How far a label sits to the right of its tick line, in subpixels:
/// 4 points.
pub const TEXT_OFFSET_SU: i64 = 1024;

/// A vertical tick line, from `(x, y_top)` down to `(x, y_bottom)`, drawn
/// with opacity `strength / STRENGTH_ONE`.
#[derive(Clone, Debug, PartialEq, Eq)]
pub struct LineSegment {
    pub x: i64,
    pub y_top: i64,
    pub y_bottom: i64,
    pub strength: i64,
}

/// A tick label anchored left-centered at `(x, y)`, drawn with opacity
/// `strength / STRENGTH_ONE`.
#[derive(Clone, Debug, PartialEq, Eq)]
pub struct TextLabel {
    pub x: i64,
    pub y: i64,
    pub text: String,
    pub strength: i64,
}

/// One drawable primitive. A tick's line always precedes its label, so a
/// sink may paint in order and let text sit on top.
#[derive(Clone, Debug, PartialEq, Eq)]
pub enum Primitive {
    Line(LineSegment),
    Label(TextLabel),
}

/// The mathematical model of a primitive.
pub enum PrimModel {
    Line { x: int, y_top: int, y_bottom: int, strength: int },
    Label { x: int, y: int, text: Seq<char>, strength: int },
}

impl View for Primitive {
    type V = PrimModel;

    open spec fn view(&self) -> PrimModel {
        match self {
            Primitive::Line(l) => PrimModel::Line {
                x: l.x as int,
                y_top: l.y_top as int,
                y_bottom: l.y_bottom as int,
                strength: l.strength as int,
            },
            Primitive::Label(t) => PrimModel::Label {
                x: t.x as int,
                y: t.y as int,
                text: t.text@,
                strength: t.strength as int,
            },
        }
    }
}

impl DeepView for Primitive {
    type V = PrimModel;

    open spec fn deep_view(&self) -> PrimModel {
        self.view()
    }
}

/// The line weight of a tier with spacing `sp`, on a canvas `w` subpixels
/// wide showing `tw` ticks of time: the tier's on-screen tick spacing,
/// remapped linearly from [`MIN_SPACING_SU`] .. (ratio to the next tier) x
/// [`MIN_SPACING_SU`] onto 0 .. [`STRENGTH_ONE`], clamped.
pub open spec fn spec_line_strength(domain: TimeDomain, sp: int, w: int, tw: int) -> int {
    let m = spec_next_step(domain, sp) / sp;
    let raw = sp * 65536 * w - 1024 * tw;
    if m <= 1 {
        if raw > 0 {
            STRENGTH_ONE as int
        } else {
            0
        }
    } else {
        if raw <= 0 {
            0
        } else {
            let q = (raw * 65536) / ((m - 1) * 1024 * tw);
            if q >= STRENGTH_ONE {
                STRENGTH_ONE as int
            } else {
                q
            }
        }
    }
}

/// The text weight of a tier with spacing `sp`: the tier's on-screen tick
/// spacing remapped linearly from [`TEXT_WIDTH_SU`] .. 3 x [`TEXT_WIDTH_SU`]
/// onto 0 .. [`STRENGTH_ONE`] / 2, clamped, so labels fade in later than
/// lines and only once there is room for them.
pub open spec fn spec_text_strength(sp: int, w: int, tw: int) -> int {
    let raw = sp * 65536 * w - 15360 * tw;
    if raw <= 0 {
        0
    } else {
        let q = (raw * 32768) / (30720 * tw);
        if q >= STRENGTH_ONE / 2 {
            STRENGTH_ONE as int / 2
        } else {
            q
        }
    }
}

/// The opacity of a tick line: 0.4 of its tier's line weight.
pub open spec fn spec_line_alpha(strength: int) -> int {
    2 * strength / 5
}

/// Magnitude bounds under which the strength computations cannot overflow.
pub open spec fn strength_args_wf(sp: int, w: int, tw: int) -> bool {
    &&& 1 <= sp <= i64::MAX
    &&& 0 < w <= 2 * MAX_COORD
    &&& 0 < tw <= TICKS_MAX - TICKS_MIN
}

/// The line weight of the tier with spacing `sp`.
fn line_strength(domain: TimeDomain, sp: i64, w: i64, tw: i128) -> (r: i64)
    requires
        strength_args_wf(sp as int, w as int, tw as int),
    ensures
        r == spec_line_strength(domain, sp as int, w as int, tw as int),
        0 <= r <= STRENGTH_ONE,
{
    let next = next_step(domain, sp);
    proof {
        lemma_next_step_monotonic(domain, sp as int);
        lemma_div_pos_is_pos(next as int, sp as int);
        lemma_multiply_divide_le(next as int, sp as int, 12);
        assert(sp as int * 12 == 12 * sp as int);
    }
    let m = next / sp;
    let spw: i128 = (sp as i128) * 65536i128;
    proof {
        assert(spw * w <= 0x8000_0000_0000_0000_0000i128 * 16_777_216) by (nonlinear_arith)
            requires
                0 < spw <= 0x8000_0000_0000_0000_0000i128,
                0 < w <= 16_777_216,
        ;
        assert(spw * w > 0) by (nonlinear_arith)
            requires
                spw > 0,
                w > 0,
        ;
    }
    let xnum: i128 = spw * (w as i128);
    let at: i128 = 1024i128 * tw;
    let raw: i128 = xnum - at;
    if m <= 1 {
        if raw > 0 {
            STRENGTH_ONE
        } else {
            0
        }
    } else {
        if raw <= 0 {
            0
        } else {
            let num: i128 = raw * 65536i128;
            let k: i128 = ((m - 1) as i128) * 1024i128;
            proof {
                assert(k * tw <= 11_264 * (TICKS_MAX - TICKS_MIN)) by (nonlinear_arith)
                    requires
                        0 < k <= 11_264,
                        0 < tw <= TICKS_MAX - TICKS_MIN,
                ;
                assert(k * tw > 0) by (nonlinear_arith)
                    requires
                        k > 0,
                        tw > 0,
                ;
            }
            let den: i128 = k * tw;
            let q: i128 = num / den;
            proof {
                lemma_div_pos_is_pos(num as int, den as int);
            }
            if q >= 65536i128 {
                STRENGTH_ONE
            } else {
                q as i64
            }
        }
    }
}

/// The text weight of the tier with spacing `sp`.
fn text_strength(sp: i64, w: i64, tw: i128) -> (r: i64)
    requires
        strength_args_wf(sp as int, w as int, tw as int),
    ensures
        r == spec_text_strength(sp as int, w as int, tw as int),
        0 <= r <= STRENGTH_ONE / 2,
{
    proof {
        assert(1 <= sp <= i64::MAX && 0 < w <= 2 * MAX_COORD && 0 < tw <= TICKS_MAX - TICKS_MIN);
    }
    let spw: i128 = (sp as i128) * 65536i128;
    proof {
        assert(0 < spw <= 0x8000_0000_0000_0000_0000i128);
        assert(spw * w <= 0x8000_0000_0000_0000_0000i128 * 16_777_216) by (nonlinear_arith)
            requires
                0 < spw <= 0x8000_0000_0000_0000_0000i128,
                0 < w <= 16_777_216,
        ;
        assert(spw * w > 0) by (nonlinear_arith)
            requires
                spw > 0,
                w > 0,
        ;
    }
    let xnum: i128 = spw * (w as i128);
    let at: i128 = 15360i128 * tw;
    let raw: i128 = xnum - at;
    if raw <= 0 {
        0
    } else {
        let num: i128 = raw * 32768i128;
        let den: i128 = 30720i128 * tw;
        let q: i128 = num / den;
        proof {
            lemma_div_pos_is_pos(num as int, den as int);
        }
        if q >= 32768i128 {
            STRENGTH_ONE / 2
        } else {
            q as i64
        }
    }
}

/// The opacity of a tick line: 0.4 of its tier's line weight.
fn line_alpha(strength: i64) -> (r: i64)
    requires
        0 <= strength <= STRENGTH_ONE,
    ensures
        r == spec_line_alpha(strength as int),
        0 <= r <= STRENGTH_ONE,
{
    2 * strength / 5
}

/// The minor spacing search, started at `sp`: grow the spacing while more
/// minor ticks would fit across the canvas than one per [`MIN_SPACING_SU`],
/// stopping if the policy saturates.
pub open spec fn spec_spacing_from(domain: TimeDomain, wt: int, w: int, sp: int) -> int
    decreases i64::MAX - sp,
    when 1 <= sp <= i64::MAX
{
    if wt * 1024 <= w * sp * 65536 {
        sp
    } else {
        let n = spec_next_step(domain, sp);
        if n <= sp || n > i64::MAX {
            sp
        } else {
            spec_spacing_from(domain, wt, w, n)
        }
    }
}

/// The minor tick spacing for a canvas `w` subpixels wide showing `wt`
/// ticks of time.
pub open spec fn spec_minor_spacing(tr: TimeRange, canvas: Rect, domain: TimeDomain) -> int {
    spec_spacing_from(
        domain,
        tr.max.ticks - tr.min.ticks,
        canvas.max_x - canvas.min_x,
        1,
    )
}

/// The medium tick spacing: one policy step above minor.
pub open spec fn spec_medium_spacing(tr: TimeRange, canvas: Rect, domain: TimeDomain) -> int {
    spec_next_step(domain, spec_minor_spacing(tr, canvas, domain))
}

/// The major tick spacing: one policy step above medium.
pub open spec fn spec_big_spacing(tr: TimeRange, canvas: Rect, domain: TimeDomain) -> int {
    spec_next_step(domain, spec_medium_spacing(tr, canvas, domain))
}

/// The minor spacing search.
fn pick_minor_spacing(domain: TimeDomain, wt: i128, w: i64, sp: i64) -> (r: i64)
    requires
        0 < wt <= TICKS_MAX - TICKS_MIN,
        0 < w <= 2 * MAX_COORD,
        1 <= sp,
    ensures
        r == spec_spacing_from(domain, wt as int, w as int, sp as int),
        1 <= r <= i64::MAX,
    decreases i64::MAX - sp,
{
    proof {
        assert(0 < (w as i128) * (sp as i128) <= 16_777_216i128 * 0x7fff_ffff_ffff_ffffi128)
            by (nonlinear_arith)
            requires
                0 < w <= 16_777_216,
                0 < sp <= 0x7fff_ffff_ffff_ffffi64,
        ;
    }
    let on_screen: i128 = (w as i128) * (sp as i128) * 65536;
    if wt * 1024 <= on_screen {
        sp
    } else {
        let n = next_step(domain, sp);
        proof {
            lemma_next_step_monotonic(domain, sp as int);
        }
        if n <= sp {
            sp
        } else {
            pick_minor_spacing(domain, wt, w, n)
        }
    }
}

/// The visible region: the clip rectangle intersected with the canvas.
pub open spec fn spec_visible(canvas: Rect, clip: Rect) -> Rect {
    clip.spec_intersect(canvas)
}

/// The screen X of time `t`, in subpixels: `t` interpolated from the time
/// range onto the canvas' horizontal extent, rounded down.
pub open spec fn spec_x_at(tr: TimeRange, canvas: Rect, t: int) -> int {
    canvas.min_x + ((canvas.max_x - canvas.min_x) * (t * 65536 - tr.min.ticks)) / (tr.max.ticks
        - tr.min.ticks)
}

/// The height weight of the tick at `t`: a major tick is as tall as the
/// medium tier's line weight, a medium tick as tall as the minor tier's,
/// and a minor tick has no extra height.
pub open spec fn spec_height_at(tr: TimeRange, canvas: Rect, domain: TimeDomain, t: int) -> int {
    let w = canvas.max_x - canvas.min_x;
    let tw = tr.max.ticks - tr.min.ticks;
    if t % spec_big_spacing(tr, canvas, domain) == 0 {
        spec_line_strength(domain, spec_medium_spacing(tr, canvas, domain), w, tw)
    } else if t % spec_medium_spacing(tr, canvas, domain) == 0 {
        spec_line_strength(domain, spec_minor_spacing(tr, canvas, domain), w, tw)
    } else {
        0
    }
}

/// The line opacity of the tick at `t`: 0.4 of its own tier's line weight.
pub open spec fn spec_alpha_at(tr: TimeRange, canvas: Rect, domain: TimeDomain, t: int) -> int {
    let w = canvas.max_x - canvas.min_x;
    let tw = tr.max.ticks - tr.min.ticks;
    if t % spec_big_spacing(tr, canvas, domain) == 0 {
        spec_line_alpha(spec_line_strength(domain, spec_big_spacing(tr, canvas, domain), w, tw))
    } else if t % spec_medium_spacing(tr, canvas, domain) == 0 {
        spec_line_alpha(spec_line_strength(domain, spec_medium_spacing(tr, canvas, domain), w, tw))
    } else {
        spec_line_alpha(spec_line_strength(domain, spec_minor_spacing(tr, canvas, domain), w, tw))
    }
}

/// The text opacity of the tick at `t`: its own tier's text weight.
pub open spec fn spec_text_at(tr: TimeRange, canvas: Rect, domain: TimeDomain, t: int) -> int {
    let w = canvas.max_x - canvas.min_x;
    let tw = tr.max.ticks - tr.min.ticks;
    if t % spec_big_spacing(tr, canvas, domain) == 0 {
        spec_text_strength(spec_big_spacing(tr, canvas, domain), w, tw)
    } else if t % spec_medium_spacing(tr, canvas, domain) == 0 {
        spec_text_strength(spec_medium_spacing(tr, canvas, domain), w, tw)
    } else {
        spec_text_strength(spec_minor_spacing(tr, canvas, domain), w, tw)
    }
}

/// The top of the tick line at height weight `h`: interpolated between
/// three quarters and half of the canvas height, so stronger ticks reach
/// higher.
pub open spec fn spec_y_top(canvas: Rect, h: int) -> int {
    canvas.min_y + ((canvas.max_y - canvas.min_y) * ((3 * 65536 - h) / 4)) / 65536
}

/// Where a label sits vertically: the canvas' center line.
pub open spec fn spec_y_label(canvas: Rect) -> int {
    canvas.min_y + (canvas.max_y - canvas.min_y) / 2
}

/// The primitives of the tick at `t`: nothing if its screen X is outside
/// the visible region; otherwise a line, followed by a label if the tier's
/// text weight is positive.
pub open spec fn spec_prims_at(
    tr: TimeRange,
    canvas: Rect,
    clip: Rect,
    domain: TimeDomain,
    t: int,
) -> Seq<PrimModel> {
    let x = spec_x_at(tr, canvas, t);
    let vis = spec_visible(canvas, clip);
    if vis.min_x <= x <= vis.max_x {
        let line = PrimModel::Line {
            x: x,
            y_top: spec_y_top(canvas, spec_height_at(tr, canvas, domain, t)),
            y_bottom: canvas.max_y as int,
            strength: spec_alpha_at(tr, canvas, domain, t),
        };
        let ts = spec_text_at(tr, canvas, domain, t);
        if ts > 0 {
            seq![
                line,
                PrimModel::Label {
                    x: x + 1024,
                    y: spec_y_label(canvas),
                    text: spec_tick_label(domain, t),
                    strength: ts,
                },
            ]
        } else {
            seq![line]
        }
    } else {
        Seq::empty()
    }
}

/// The primitives of every tick from `t` to `endu`, stepping by `sp`.
pub open spec fn spec_ticks_from(
    tr: TimeRange,
    canvas: Rect,
    clip: Rect,
    domain: TimeDomain,
    sp: int,
    t: int,
    endu: int,
) -> Seq<PrimModel>
    decreases (if t <= endu { endu + 1 - t } else { 0 }),
    when sp >= 1
{
    if t > endu {
        Seq::empty()
    } else {
        spec_prims_at(tr, canvas, clip, domain, t) + spec_ticks_from(
            tr,
            canvas,
            clip,
            domain,
            sp,
            t + sp,
            endu,
        )
    }
}

/// Where tick enumeration starts: the time range's floor, snapped to the
/// minor spacing toward zero.
pub open spec fn spec_start(tr: TimeRange, canvas: Rect, domain: TimeDomain) -> int {
    spec_trunc_div(tr.min.spec_floor(), spec_minor_spacing(tr, canvas, domain))
        * spec_minor_spacing(tr, canvas, domain)
}

/// The screen X of time `t`, in subpixels.
fn x_position(tr: &TimeRange, canvas: &Rect, t: i64) -> (x: i128)
    requires
        tr.wf(),
        canvas.wf(),
        tr.max.ticks - tr.min.ticks > 0,
        canvas.max_x - canvas.min_x > 0,
    ensures
        x == spec_x_at(*tr, *canvas, t as int),
{
    let w: i64 = canvas.max_x - canvas.min_x;
    let tw: i128 = tr.max.ticks - tr.min.ticks;
    let tf: i128 = (t as i128) * 65536i128;
    let diff: i128 = tf - tr.min.ticks;
    proof {
        assert((w as i128) * diff <= 0x200_0000_0000_0000_0000_0000_0000i128 && (w as i128) * diff
            >= -0x200_0000_0000_0000_0000_0000_0000i128) by (nonlinear_arith)
            requires
                0 < w <= 16_777_216,
                -0x2_0000_0000_0000_0000_0000i128 <= diff <= 0x2_0000_0000_0000_0000_0000i128,
        ;
    }
    let num: i128 = (w as i128) * diff;
    let xq: i128 = floor_div_i128(num, tw);
    proof {
        let k: int = 0x200_0000_0000_0000_0000_0000_0000;
        lemma_div_is_ordered(num as int, k, tw as int);
        vstd::arithmetic::div_mod::lemma_div_nonincreasing(k, tw as int);
        lemma_div_is_ordered(-k, num as int, tw as int);
        vstd::arithmetic::div_mod::lemma_fundamental_div_mod(-k, tw as int);
        let qk = (-k) / (tw as int);
        assert(tw * qk <= 0 ==> qk <= 0) by (nonlinear_arith)
            requires
                tw > 0,
        ;
        assert(qk <= 0 ==> tw * qk <= qk) by (nonlinear_arith)
            requires
                tw >= 1,
        ;
    }
    (canvas.min_x as i128) + xq
}

/// The tick layout: computes the three tick tiers for the visible time
/// range, enumerates candidate positions, culls against the clip rectangle
/// and emits one line per visible tick, followed by a label where the
/// tier's text weight is positive.
pub fn layout(tr: &TimeRange, canvas: &Rect, clip: &Rect, domain: TimeDomain) -> (out: Vec<
    Primitive,
>)
    requires
        tr.wf(),
        canvas.wf(),
        clip.wf(),
    ensures
        out.deep_view() == spec_layout(*tr, *canvas, *clip, domain),
{
    let visible = clip.intersect(canvas);
    let mut out: Vec<Primitive> = Vec::new();
    if !visible.is_positive() {
        proof {
            assert(out.deep_view() =~= spec_layout(*tr, *canvas, *clip, domain));
        }
        return out;
    }
    let tw: i128 = tr.max.ticks - tr.min.ticks;
    if tw <= 0 {
        proof {
            assert(out.deep_view() =~= spec_layout(*tr, *canvas, *clip, domain));
        }
        return out;
    }
    let w: i64 = canvas.max_x - canvas.min_x;
    let minor = pick_minor_spacing(domain, tw, w, 1);
    let medium = next_step(domain, minor);
    proof {
        lemma_next_step_monotonic(domain, minor as int);
    }
    let big = next_step(domain, medium);
    proof {
        lemma_next_step_monotonic(domain, medium as int);
    }
    let minor_strength = line_strength(domain, minor, w, tw);
    let medium_strength = line_strength(domain, medium, w, tw);
    let big_strength = line_strength(domain, big, w, tw);
    let minor_alpha = line_alpha(minor_strength);
    let medium_alpha = line_alpha(medium_strength);
    let big_alpha = line_alpha(big_strength);
    let minor_text = text_strength(minor, w, tw);
    let medium_text = text_strength(medium, w, tw);
    let big_text = text_strength(big, w, tw);
    let fm = tr.min.floor();
    let q = trunc_div_i64(fm, minor);
    let start: i64 = q * minor;
    let endu: i64 = tr.max.ceil();
    let ghost total = spec_ticks_from(
        *tr,
        *canvas,
        *clip,
        domain,
        minor as int,
        start as int,
        endu as int,
    );
    proof {
        assert(spec_layout(*tr, *canvas, *clip, domain) == total);
    }
    let mut t: i128 = start as i128;
    while t <= endu as i128
        invariant
            tr.wf(),
            canvas.wf(),
            clip.wf(),
            visible == spec_visible(*canvas, *clip),
            visible.spec_is_positive(),
            tw == tr.max.ticks - tr.min.ticks,
            0 < tw <= TICKS_MAX - TICKS_MIN,
            w == canvas.max_x - canvas.min_x,
            0 < w <= 2 * MAX_COORD,
            minor as int == spec_minor_spacing(*tr, *canvas, domain),
            1 <= minor,
            medium as int == spec_medium_spacing(*tr, *canvas, domain),
            minor <= medium,
            big as int == spec_big_spacing(*tr, *canvas, domain),
            medium <= big,
            minor_strength as int == spec_line_strength(domain, minor as int, w as int, tw as int),
            medium_strength as int == spec_line_strength(
                domain,
                medium as int,
                w as int,
                tw as int,
            ),
            big_strength as int == spec_line_strength(domain, big as int, w as int, tw as int),
            0 <= minor_strength <= STRENGTH_ONE,
            0 <= medium_strength <= STRENGTH_ONE,
            0 <= big_strength <= STRENGTH_ONE,
            minor_alpha as int == spec_line_alpha(minor_strength as int),
            medium_alpha as int == spec_line_alpha(medium_strength as int),
            big_alpha as int == spec_line_alpha(big_strength as int),
            minor_text as int == spec_text_strength(minor as int, w as int, tw as int),
            medium_text as int == spec_text_strength(medium as int, w as int, tw as int),
            big_text as int == spec_text_strength(big as int, w as int, tw as int),
            endu == tr.max.spec_ceil(),
            i64::MIN as i128 <= t,
            out.deep_view() + spec_ticks_from(
                *tr,
                *canvas,
                *clip,
                domain,
                minor as int,
                t as int,
                endu as int,
            ) == total,
        decreases (if t <= endu as i128 { endu as int + 1 - t } else { 0 }),
    {
        let ti: i64 = t as i64;
        let x = x_position(tr, canvas, ti);
        let ghost prior = out.deep_view();
        if visible.min_x as i128 <= x && x <= visible.max_x as i128 {
            let xs: i64 = x as i64;
            let is_big = is_multiple_of(ti, big);
            let is_medium = is_multiple_of(ti, medium);
            let h: i64;
            let alpha: i64;
            let text_s: i64;
            if is_big {
                h = medium_strength;
                alpha = big_alpha;
                text_s = big_text;
            } else if is_medium {
                h = minor_strength;
                alpha = medium_alpha;
                text_s = medium_text;
            } else {
                h = 0;
                alpha = minor_alpha;
                text_s = minor_text;
            }
            let dy = canvas.max_y - canvas.min_y;
            let fs = (3 * 65536 - h) / 4;
            proof {
                assert(0 <= dy * fs <= 16_777_216i64 * 49_152) by (nonlinear_arith)
                    requires
                        0 < dy <= 16_777_216,
                        0 <= fs <= 49_152,
                ;
            }
            let y_top = canvas.min_y + (dy * fs) / 65536;
            out.push(
                Primitive::Line(
                    LineSegment { x: xs, y_top, y_bottom: canvas.max_y, strength: alpha },
                ),
            );
            if text_s > 0 {
                let text = format_tick(domain, ti);
                out.push(
                    Primitive::Label(
                        TextLabel {
                            x: xs + TEXT_OFFSET_SU,
                            y: canvas.min_y + dy / 2,
                            text,
                            strength: text_s,
                        },
                    ),
                );
            }
            proof {
                assert(out.deep_view() =~= prior + spec_prims_at(
                    *tr,
                    *canvas,
                    *clip,
                    domain,
                    t as int,
                ));
            }
        } else {
            proof {
                assert(spec_prims_at(*tr, *canvas, *clip, domain, t as int) =~= Seq::<
                    PrimModel,
                >::empty());
                assert(out.deep_view() =~= prior + spec_prims_at(
                    *tr,
                    *canvas,
                    *clip,
                    domain,
                    t as int,
                ));
            }
        }
        proof {
            assert(spec_ticks_from(
                *tr,
                *canvas,
                *clip,
                domain,
                minor as int,
                t as int,
                endu as int,
            ) == spec_prims_at(*tr, *canvas, *clip, domain, t as int) + spec_ticks_from(
                *tr,
                *canvas,
                *clip,
                domain,
                minor as int,
                t as int + minor as int,
                endu as int,
            ));
            assert(out.deep_view() + spec_ticks_from(
                *tr,
                *canvas,
                *clip,
                domain,
                minor as int,
                t as int + minor as int,
                endu as int,
            ) =~= total);
        }
        t = t + minor as i128;
    }
    proof {
        assert(spec_ticks_from(*tr, *canvas, *clip, domain, minor as int, t as int, endu as int)
            =~= Seq::<PrimModel>::empty());
        assert(out.deep_view() =~= total);
    }
    out
}

/// Everything the layout emits: nothing when the visible region is empty
/// or the time range is degenerate, else the primitives of every enumerated
/// tick in left-to-right order.
pub open spec fn spec_layout(
    tr: TimeRange,
    canvas: Rect,
    clip: Rect,
    domain: TimeDomain,
) -> Seq<PrimModel> {
    let vis = spec_visible(canvas, clip);
    let tw = tr.max.ticks - tr.min.ticks;
    if !vis.spec_is_positive() || tw <= 0 {
        Seq::empty()
    } else {
        spec_ticks_from(
            tr,
            canvas,
            clip,
            domain,
            spec_minor_spacing(tr, canvas, domain),
            spec_start(tr, canvas, domain),
            tr.max.spec_ceil(),
        )
    }
}

} // verus!

verus! {

} // verus!
