use time_ruler::dispatch::{paint_time_ranges_and_ticks, Segment};
use time_ruler::geom::{Rect, TimeRange, TimeReal};
use time_ruler::policy::{next_step_seq, next_step_time, TimeDomain};
use time_ruler::ticks::{layout, LineSegment, Primitive, TextLabel, MIN_SPACING_SU};

fn range(min_units: i64, max_units: i64) -> TimeRange {
    TimeRange { min: TimeReal::from_units(min_units), max: TimeReal::from_units(max_units) }
}

fn line_xs(prims: &[Primitive]) -> Vec<i64> {
    prims
        .iter()
        .filter_map(|p| match p {
            Primitive::Line(l) => Some(l.x),
            Primitive::Label(_) => None,
        })
        .collect()
}

fn label_texts(prims: &[Primitive]) -> Vec<String> {
    prims
        .iter()
        .filter_map(|p| match p {
            Primitive::Line(_) => None,
            Primitive::Label(t) => Some(t.text.clone()),
        })
        .collect()
}

#[test]
fn step_policies_climb_their_ladders() {
    // The continuous-time policy walks decades up to ten seconds, then
    // calendar boundaries: minute, ten minutes, hour, half day, day.
    assert_eq!(next_step_time(1), 10);
    assert_eq!(next_step_time(1_000_000_000), 10_000_000_000);
    assert_eq!(next_step_time(10_000_000_000), 60_000_000_000);
    assert_eq!(next_step_time(60_000_000_000), 600_000_000_000);
    assert_eq!(next_step_time(600_000_000_000), 3_600_000_000_000);
    assert_eq!(next_step_time(3_600_000_000_000), 43_200_000_000_000);
    assert_eq!(next_step_time(43_200_000_000_000), 86_400_000_000_000);
    assert_eq!(next_step_time(86_400_000_000_000), 864_000_000_000_000);
    // Near the top of the range both policies saturate instead of
    // overflowing.
    assert_eq!(next_step_time(i64::MAX), i64::MAX);
    assert_eq!(next_step_seq(3), 30);
    assert_eq!(next_step_seq(i64::MAX), i64::MAX);
    // A policy step never shrinks the spacing.
    let mut s: i64 = 1;
    for _ in 0..30 {
        let n = next_step_time(s);
        assert!(n >= s);
        s = n;
    }
}

#[test]
fn degenerate_inputs_emit_nothing() {
    let canvas = Rect { min_x: 0, min_y: 0, max_x: 256_000, max_y: 5_120 };
    // A zero-width time range.
    let out = layout(&range(5, 5), &canvas, &canvas, TimeDomain::Sequence);
    assert!(out.is_empty());
    // An inverted time range.
    let out = layout(&range(10, 0), &canvas, &canvas, TimeDomain::Sequence);
    assert!(out.is_empty());
    // A clip rectangle that misses the canvas entirely.
    let far_clip = Rect { min_x: 300_000, min_y: 0, max_x: 400_000, max_y: 5_120 };
    let out = layout(&range(0, 10), &canvas, &far_clip, TimeDomain::Sequence);
    assert!(out.is_empty());
    // A zero-area canvas.
    let flat = Rect { min_x: 0, min_y: 0, max_x: 256_000, max_y: 0 };
    let out = layout(&range(0, 10), &flat, &flat, TimeDomain::Sequence);
    assert!(out.is_empty());
}

#[test]
fn tick_budget_is_independent_of_time_magnitude() {
    let canvas = Rect { min_x: 0, min_y: 0, max_x: 256_000, max_y: 5_120 };
    let budget = (canvas.max_x - canvas.min_x) / MIN_SPACING_SU + 25;

    // A few units across the canvas: one tick per unit.
    let narrow = layout(&range(0, 10), &canvas, &canvas, TimeDomain::Sequence);
    assert_eq!(line_xs(&narrow).len(), 11);

    // A quintillion units across the same canvas: the spacing search keeps
    // the count in the same order of magnitude.
    let wide = layout(
        &range(0, 1_000_000_000_000_000_000),
        &canvas,
        &canvas,
        TimeDomain::Sequence,
    );
    assert_eq!(line_xs(&wide).len(), 101);

    assert!((line_xs(&narrow).len() as i64) <= budget);
    assert!((line_xs(&wide).len() as i64) <= budget);

    // The whole representable continuous-time axis still fits the budget.
    let tr = TimeRange {
        min: TimeReal::from_units(i64::MIN),
        max: TimeReal::from_units(i64::MAX),
    };
    let everything = layout(&tr, &canvas, &canvas, TimeDomain::Time);
    assert!(!everything.is_empty());
    assert!((line_xs(&everything).len() as i64) <= budget);
}

#[test]
fn culling_keeps_primitives_inside_the_clip() {
    let canvas = Rect { min_x: 0, min_y: 0, max_x: 256_000, max_y: 5_120 };
    let clip = Rect { min_x: 10_000, min_y: 0, max_x: 50_000, max_y: 5_120 };
    let out = layout(&range(0, 1000), &canvas, &clip, TimeDomain::Sequence);
    assert!(!out.is_empty());
    for p in &out {
        match p {
            Primitive::Line(l) => {
                assert!(clip.min_x <= l.x && l.x <= clip.max_x);
            }
            Primitive::Label(t) => {
                let tick_x = t.x - 1024;
                assert!(clip.min_x <= tick_x && tick_x <= clip.max_x);
            }
        }
    }
}

#[test]
fn layout_is_idempotent() {
    let canvas = Rect { min_x: 0, min_y: 0, max_x: 256_000, max_y: 5_120 };
    let tr = range(-123, 45_678);
    let a = layout(&tr, &canvas, &canvas, TimeDomain::Time);
    let b = layout(&tr, &canvas, &canvas, TimeDomain::Time);
    assert_eq!(a, b);
    let c = layout(&tr, &canvas, &canvas, TimeDomain::Sequence);
    let d = layout(&tr, &canvas, &canvas, TimeDomain::Sequence);
    assert_eq!(c, d);
}

#[test]
fn clip_straddling_two_segments_draws_both_sides() {
    // Two adjacent segments, 100 pixels each (25600 subpixels), with a
    // collapsed gap in time between them. The clip rectangle straddles the
    // boundary, covering the right half of the first segment and the left
    // half of the second.
    let seg1 = Segment { x_min: 0, x_max: 25_600, time: range(0, 100) };
    let seg2 = Segment { x_min: 25_600, x_max: 51_200, time: range(1000, 1100) };
    let clip = Rect { min_x: 12_800, min_y: 0, max_x: 38_400, max_y: 5_120 };

    let both = paint_time_ranges_and_ticks(
        &vec![seg1, seg2],
        &clip,
        0,
        5_120,
        TimeDomain::Sequence,
    );
    let first = paint_time_ranges_and_ticks(&vec![seg1], &clip, 0, 5_120, TimeDomain::Sequence);
    let second = paint_time_ranges_and_ticks(&vec![seg2], &clip, 0, 5_120, TimeDomain::Sequence);

    // The dispatcher emits each visible segment's ticks in order.
    let mut concat = first.clone();
    concat.extend(second.iter().cloned());
    assert_eq!(both, concat);

    // Each side contributes its clipped half: ticks every ten units map to
    // every 2560 subpixels, six per side.
    assert_eq!(
        line_xs(&first),
        vec![12_800, 15_360, 17_920, 20_480, 23_040, 25_600]
    );
    assert_eq!(
        line_xs(&second),
        vec![25_600, 28_160, 30_720, 33_280, 35_840, 38_400]
    );

    // At the boundary pixel the last tick of the first segment and the
    // first tick of the second both appear, each from its own time
    // sub-range, and neither is lost or doubled.
    let xs = line_xs(&both);
    assert_eq!(xs.iter().filter(|&&x| x == 25_600).count(), 2);
    assert_eq!(label_texts(&both), vec!["#100".to_string(), "#1000".to_string()]);
}

#[test]
fn small_layout_is_exact_to_the_subpixel() {
    // Ten sequence units across 100 points: minor ticks every unit
    // (10 points apart), medium every ten, major every hundred.
    let canvas = Rect { min_x: 0, min_y: 0, max_x: 25_600, max_y: 4_096 };
    let out = layout(&range(0, 10), &canvas, &canvas, TimeDomain::Sequence);

    let mut expected: Vec<Primitive> = Vec::new();
    // The tick at zero is major: full line weight, tallest line, label.
    expected.push(Primitive::Line(LineSegment { x: 0, y_top: 2_048, y_bottom: 4_096, strength: 26_214 }));
    expected.push(Primitive::Label(TextLabel { x: 1_024, y: 2_048, text: "#0".to_string(), strength: 32_768 }));
    // Nine minor ticks: faint, short, unlabeled.
    for t in 1..10 {
        expected.push(Primitive::Line(LineSegment { x: 2_560 * t, y_top: 3_072, y_bottom: 4_096, strength: 4_368 }));
    }
    // The tick at ten is medium: mid-height, fainter label.
    expected.push(Primitive::Line(LineSegment { x: 25_600, y_top: 2_901, y_bottom: 4_096, strength: 26_214 }));
    expected.push(Primitive::Label(TextLabel { x: 26_624, y: 2_048, text: "#10".to_string(), strength: 10_922 }));

    assert_eq!(out, expected);
}

#[test]
fn degenerate_pixel_range_clips_at_the_midpoint() {
    // A segment squeezed to a single pixel column: the inverse pixel
    // interpolation is undefined, so clipping falls back to the midpoint
    // of the time range. The left clip edge pulls the segment open again
    // and its lower half of time is dropped.
    let seg = Segment { x_min: 20_000, x_max: 20_000, time: range(0, 100) };
    let clip = Rect { min_x: 12_800, min_y: 0, max_x: 38_400, max_y: 5_120 };
    let out = paint_time_ranges_and_ticks(&vec![seg], &clip, 0, 5_120, TimeDomain::Sequence);
    assert!(!out.is_empty());
    let xs = line_xs(&out);
    // Ticks every ten units from 50 to 100, spread over the reopened
    // pixel range 12800 ..= 20000.
    assert_eq!(xs, vec![12_800, 14_240, 15_680, 17_120, 18_560, 20_000]);
}

#[test]
fn fully_hidden_segments_are_culled() {
    let seg = Segment { x_min: 0, x_max: 25_600, time: range(0, 100) };
    let clip = Rect { min_x: 30_000, min_y: 0, max_x: 40_000, max_y: 5_120 };
    let out = paint_time_ranges_and_ticks(&vec![seg], &clip, 0, 5_120, TimeDomain::Sequence);
    assert!(out.is_empty());
}
