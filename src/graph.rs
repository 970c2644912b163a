//! A single-curve moisture plot over a borrowed set of data points.
//!
//! The plot decides what is drawn: nothing for an empty data set or a target
//! too small to hold a curve, otherwise a curve plot whose axis ranges are the
//! data's extent, widened where it is too short for its axis tick policy. It also
//! gives the pixel polyline of the data under that plan, with the largest y
//! value on the top row.
use embedded_plots::axis::Scale;
use embedded_plots::curve::PlotPoint;
use crate::geometry::{bottom_right_of, point_sum_fits, translated_spec, Point, Rectangle, Size};
use vstd::prelude::*;

verus! {

/// Ticks along the x axis of a new plot.
pub const X_TICKS: usize = 3;

/// Ticks along the y axis of a new plot.
pub const Y_TICKS: usize = 2;

/// A data sample of embedded-plots: two public `i32` fields, `x` and `y`.
#[verifier::external_type_specification]
pub struct ExPlotPoint(embedded_plots::curve::PlotPoint);

/// An axis tick policy of embedded-plots: a fixed step between ticks, or a
/// number of ticks over the whole range.
#[verifier::external_type_specification]
pub struct ExScale(embedded_plots::axis::Scale);

/// Whether embedded-plots can step through an axis with this policy: a
/// positive step, or a positive tick count that a range within `i32` can hold.
pub open spec fn scale_usable(s: Scale) -> bool {
    match s {
        Scale::Fixed(step) => step > 0,
        Scale::RangeFraction(n) => 1 <= n <= u32::MAX,
    }
}

/// The shortest axis range on which the policy's tick step is positive.
pub open spec fn min_span(s: Scale) -> int {
    match s {
        Scale::Fixed(_) => 1,
        Scale::RangeFraction(n) => n as int,
    }
}

/// The data interval that an axis spans, from `start` to `end`.
#[derive(Clone, Copy, Debug, PartialEq, Eq, Structural)]
pub struct AxisRange {
    pub start: i32,
    pub end: i32,
}

/// What a draw pass renders.
#[derive(Clone, Copy, Debug, PartialEq, Eq, Structural)]
pub enum PlotPlan {
    /// Nothing is drawn.
    Blank,
    /// Axes and a curve, with the data ranges scaled onto the pixels from
    /// `top_left` to `bottom_right`.
    Curve { top_left: Point, bottom_right: Point, x_range: AxisRange, y_range: AxisRange },
}

/// The x coordinates of the data.
pub open spec fn xs(s: Seq<PlotPoint>) -> Seq<int> {
    s.map_values(|p: PlotPoint| p.x as int)
}

/// The y coordinates of the data.
pub open spec fn ys(s: Seq<PlotPoint>) -> Seq<int> {
    s.map_values(|p: PlotPoint| p.y as int)
}

/// The smallest element of a non-empty sequence.
pub open spec fn seq_min(s: Seq<int>) -> int
    decreases s.len(),
{
    if s.len() <= 1 {
        s[0]
    } else {
        let m = seq_min(s.drop_last());
        if s.last() < m {
            s.last()
        } else {
            m
        }
    }
}

/// The largest element of a non-empty sequence.
pub open spec fn seq_max(s: Seq<int>) -> int
    decreases s.len(),
{
    if s.len() <= 1 {
        s[0]
    } else {
        let m = seq_max(s.drop_last());
        if s.last() > m {
            s.last()
        } else {
            m
        }
    }
}

/// The axis range for data from `lo` to `hi`: the data's own span when it is at
/// least `span` long, else the span widened by `span` on each side, stopping
/// at the ends of `i32`.
pub open spec fn padded_range(lo: int, hi: int, span: int) -> AxisRange {
    if hi - lo >= span {
        AxisRange { start: lo as i32, end: hi as i32 }
    } else {
        AxisRange {
            start: if lo - span >= i32::MIN { (lo - span) as i32 } else { i32::MIN },
            end: if hi + span <= i32::MAX { (hi + span) as i32 } else { i32::MAX },
        }
    }
}

/// What a plot with the given bounds, data and tick policies draws: nothing
/// when there is no data, a policy has no tick step, or the bounds are narrower
/// or lower than two pixels (or reach past `i32`); else a curve plot over the
/// whole bounds.
pub open spec fn plan_of(
    bounds: Rectangle,
    pts: Seq<PlotPoint>,
    x_scale: Scale,
    y_scale: Scale,
) -> PlotPlan {
    if pts.len() == 0 || !scale_usable(x_scale) || !scale_usable(y_scale) || bounds.size.width < 2 || bounds.size.height < 2 || bottom_right_of(
        bounds,
    ) is None {
        PlotPlan::Blank
    } else {
        PlotPlan::Curve {
            top_left: bounds.top_left,
            bottom_right: bottom_right_of(bounds)->Some_0,
            x_range: padded_range(seq_min(xs(pts)), seq_max(xs(pts)), min_span(x_scale)),
            y_range: padded_range(seq_min(ys(pts)), seq_max(ys(pts)), min_span(y_scale)),
        }
    }
}

/// The pixel column of data value `v`: the range's start on the left edge, its
/// end on the right edge, rounded toward the left.
pub open spec fn map_x(v: int, range: AxisRange, left: int, right: int) -> int {
    left + (v - range.start) * (right - left) / (range.end - range.start)
}

/// The pixel row of data value `v`: the range's start on the bottom edge, its
/// end on the top edge, rounded toward the bottom.
pub open spec fn map_y(v: int, range: AxisRange, top: int, bottom: int) -> int {
    bottom - (v - range.start) * (bottom - top) / (range.end - range.start)
}

/// The pixel at which a data point is drawn under a curve plan.
pub open spec fn pixel_of(p: PlotPoint, plan: PlotPlan) -> Point {
    match plan {
        PlotPlan::Blank => Point { x: 0, y: 0 },
        PlotPlan::Curve { top_left, bottom_right, x_range, y_range } => Point {
            x: map_x(p.x as int, x_range, top_left.x as int, bottom_right.x as int) as i32,
            y: map_y(p.y as int, y_range, top_left.y as int, bottom_right.y as int) as i32,
        },
    }
}

proof fn lemma_seq_bounds(s: Seq<int>)
    requires
        s.len() > 0,
    ensures
        forall|k: int| 0 <= k < s.len() ==> seq_min(s) <= #[trigger] s[k] <= seq_max(s),
        exists|k: int| 0 <= k < s.len() && s[k] == seq_min(s),
        exists|k: int| 0 <= k < s.len() && s[k] == seq_max(s),
    decreases s.len(),
{
    if s.len() > 1 {
        let t = s.drop_last();
        lemma_seq_bounds(t);
        assert forall|k: int| 0 <= k < s.len() implies seq_min(s) <= #[trigger] s[k] <= seq_max(
            s,
        ) by {
            if k < t.len() {
                assert(t[k] == s[k]);
            }
        }
        let i = choose|k: int| 0 <= k < t.len() && t[k] == seq_min(t);
        let j = choose|k: int| 0 <= k < t.len() && t[k] == seq_max(t);
        assert(s[i] == t[i] && s[j] == t[j]);
        assert(s[s.len() - 1] == s.last());
    } else {
        assert(s[0] == seq_min(s));
    }
}

/// Smallest and largest x and y of a non-empty data set.
fn extent(points: &[PlotPoint]) -> (r: (i32, i32, i32, i32))
    requires
        points@.len() > 0,
    ensures
        r.0 == seq_min(xs(points@)),
        r.1 == seq_max(xs(points@)),
        r.2 == seq_min(ys(points@)),
        r.3 == seq_max(ys(points@)),
{
    let ghost s = points@;
    let mut lo_x: i32 = points[0].x;
    let mut hi_x: i32 = points[0].x;
    let mut lo_y: i32 = points[0].y;
    let mut hi_y: i32 = points[0].y;
    let mut i: usize = 1;
    assert(xs(s).take(1) =~= seq![s[0].x as int]);
    assert(ys(s).take(1) =~= seq![s[0].y as int]);
    while i < points.len()
        invariant
            s == points@,
            1 <= i <= s.len(),
            lo_x == seq_min(xs(s).take(i as int)),
            hi_x == seq_max(xs(s).take(i as int)),
            lo_y == seq_min(ys(s).take(i as int)),
            hi_y == seq_max(ys(s).take(i as int)),
        decreases s.len() - i,
    {
        let p = &points[i];
        assert(xs(s).take(i + 1).drop_last() =~= xs(s).take(i as int));
        assert(ys(s).take(i + 1).drop_last() =~= ys(s).take(i as int));
        assert(xs(s).take(i + 1).last() == p.x);
        assert(ys(s).take(i + 1).last() == p.y);
        if p.x < lo_x {
            lo_x = p.x;
        }
        if p.x > hi_x {
            hi_x = p.x;
        }
        if p.y < lo_y {
            lo_y = p.y;
        }
        if p.y > hi_y {
            hi_y = p.y;
        }
        i = i + 1;
    }
    assert(xs(s).take(s.len() as int) =~= xs(s));
    assert(ys(s).take(s.len() as int) =~= ys(s));
    (lo_x, hi_x, lo_y, hi_y)
}

/// The axis range for data from `lo` to `hi` that is at least `span` long.
fn padded(lo: i32, hi: i32, span: i64) -> (r: AxisRange)
    requires
        lo <= hi,
        1 <= span <= u32::MAX,
    ensures
        r == padded_range(lo as int, hi as int, span as int),
        r.start <= lo,
        hi <= r.end,
        r.end - r.start >= span,
{
    if hi as i64 - lo as i64 >= span {
        AxisRange { start: lo, end: hi }
    } else {
        let start = if lo as i64 - span >= i32::MIN as i64 {
            (lo as i64 - span) as i32
        } else {
            i32::MIN
        };
        let end = if hi as i64 + span <= i32::MAX as i64 {
            (hi as i64 + span) as i32
        } else {
            i32::MAX
        };
        AxisRange { start, end }
    }
}

/// Whether a tick policy has a tick step.
fn usable(s: &Scale) -> (r: bool)
    ensures
        r == scale_usable(*s),
{
    match s {
        Scale::Fixed(step) => *step > 0,
        Scale::RangeFraction(n) => 1 <= *n && *n as u64 <= u32::MAX as u64,
    }
}

/// The shortest axis range on which a usable policy's tick step is positive.
fn span_of(s: &Scale) -> (r: i64)
    requires
        scale_usable(*s),
    ensures
        r == min_span(*s),
{
    match s {
        Scale::Fixed(_) => 1,
        Scale::RangeFraction(n) => *n as i64,
    }
}

/// The pixel column of `v` between `left` and `right`.
fn scale_x(v: i32, range: AxisRange, left: i32, right: i32) -> (r: i32)
    requires
        range.start <= v <= range.end,
        range.start < range.end,
        left < right,
    ensures
        r == map_x(v as int, range, left as int, right as int),
        left <= r <= right,
{
    let a: u64 = (v as i64 - range.start as i64) as u64;
    let w: u64 = (right as i64 - left as i64) as u64;
    let d: u64 = (range.end as i64 - range.start as i64) as u64;
    assert(a * w <= d * w) by (nonlinear_arith)
        requires
            a <= d,
    ;
    assert(a * w <= u64::MAX) by (nonlinear_arith)
        requires
            a <= d,
            d <= u32::MAX,
            w <= u32::MAX,
    ;
    let q: u64 = a * w / d;
    assert(q <= w) by (nonlinear_arith)
        requires
            q == (a * w) as int / (d as int),
            a * w <= d * w,
            d > 0,
    ;
    (left as i64 + q as i64) as i32
}

/// The pixel row of `v` between `top` and `bottom`, larger values higher up.
fn scale_y(v: i32, range: AxisRange, top: i32, bottom: i32) -> (r: i32)
    requires
        range.start <= v <= range.end,
        range.start < range.end,
        top < bottom,
    ensures
        r == map_y(v as int, range, top as int, bottom as int),
        top <= r <= bottom,
{
    let a: u64 = (v as i64 - range.start as i64) as u64;
    let h: u64 = (bottom as i64 - top as i64) as u64;
    let d: u64 = (range.end as i64 - range.start as i64) as u64;
    assert(a * h <= d * h) by (nonlinear_arith)
        requires
            a <= d,
    ;
    assert(a * h <= u64::MAX) by (nonlinear_arith)
        requires
            a <= d,
            d <= u32::MAX,
            h <= u32::MAX,
    ;
    let q: u64 = a * h / d;
    assert(q <= h) by (nonlinear_arith)
        requires
            q == (a * h) as int / (d as int),
            a * h <= d * h,
            d > 0,
    ;
    (bottom as i64 - q as i64) as i32
}

/// A curve plot region: target bounds in pixels and the data it shows.
pub struct MoisturePlot<'a> {
    pub bounds: Rectangle,
    pub points: &'a [PlotPoint],
    pub x_scale: Scale,
    pub y_scale: Scale,
}

impl<'a> MoisturePlot<'a> {
    /// The plot has a configurable position and size; its axes start with
    /// `X_TICKS` and `Y_TICKS` ticks over their ranges.
    pub fn new(points: &'a [PlotPoint], position: Point, size: Size) -> (r: MoisturePlot<'a>)
        ensures
            r.bounds == (Rectangle { top_left: position, size }),
            r.points@ == points@,
            r.x_scale == Scale::RangeFraction(X_TICKS),
            r.y_scale == Scale::RangeFraction(Y_TICKS),
    {
        MoisturePlot {
            bounds: Rectangle::new(position, size),
            points,
            x_scale: Scale::RangeFraction(X_TICKS),
            y_scale: Scale::RangeFraction(Y_TICKS),
        }
    }

    /// The same plot with the given tick policies.
    pub fn with_scales(self, x_scale: Scale, y_scale: Scale) -> (r: MoisturePlot<'a>)
        ensures
            r.bounds == self.bounds,
            r.points@ == self.points@,
            r.x_scale == x_scale,
            r.y_scale == y_scale,
    {
        MoisturePlot { bounds: self.bounds, points: self.points, x_scale, y_scale }
    }

    /// Moves the plot by `by`; its size and data stay as they are.
    pub fn translate_impl(&mut self, by: Point)
        requires
            point_sum_fits(old(self).bounds.top_left, by),
        ensures
            final(self).bounds == translated_spec(old(self).bounds, by),
            final(self).points@ == old(self).points@,
            final(self).x_scale == old(self).x_scale,
            final(self).y_scale == old(self).y_scale,
    {
        self.bounds.translate_mut(by);
    }

    /// The rectangle the plot occupies.
    pub fn bounds(&self) -> (r: Rectangle)
        ensures
            r == self.bounds,
    {
        self.bounds
    }

    /// What a draw pass renders for this plot. Where a curve is drawn, the
    /// pixel box has positive width and height and each axis range is long
    /// enough for a positive tick step, so no scale divides by zero.
    pub fn plan(&self) -> (r: PlotPlan)
        ensures
            r == plan_of(self.bounds, self.points@, self.x_scale, self.y_scale),
            self.points@.len() == 0 ==> r is Blank,
            r matches PlotPlan::Curve { top_left, bottom_right, x_range, y_range } ==> {
                &&& top_left.x < bottom_right.x
                &&& top_left.y < bottom_right.y
                &&& x_range.end - x_range.start >= min_span(self.x_scale) >= 1
                &&& y_range.end - y_range.start >= min_span(self.y_scale) >= 1
            },
    {
        if self.points.len() == 0 || !usable(&self.x_scale) || !usable(&self.y_scale)
            || self.bounds.size.width < 2 || self.bounds.size.height < 2 {
            return PlotPlan::Blank;
        }
        match self.bounds.bottom_right() {
            None => PlotPlan::Blank,
            Some(bottom_right) => {
                let (lo_x, hi_x, lo_y, hi_y) = extent(self.points);
                proof {
                    lemma_seq_bounds(xs(self.points@));
                    lemma_seq_bounds(ys(self.points@));
                    assert(xs(self.points@)[0] == self.points@[0].x);
                    assert(ys(self.points@)[0] == self.points@[0].y);
                }
                PlotPlan::Curve {
                    top_left: self.bounds.top_left,
                    bottom_right,
                    x_range: padded(lo_x, hi_x, span_of(&self.x_scale)),
                    y_range: padded(lo_y, hi_y, span_of(&self.y_scale)),
                }
            },
        }
    }

    /// The pixels that the curve joins, in data order: one per data point
    /// under a curve plan, none when nothing is drawn.
    pub fn polyline(&self) -> (r: Vec<Point>)
        ensures
            plan_of(self.bounds, self.points@, self.x_scale, self.y_scale) is Blank ==> r@.len() == 0,
            plan_of(self.bounds, self.points@, self.x_scale, self.y_scale) is Curve ==> {
                &&& r@.len() == self.points@.len()
                &&& forall|k: int|
                    0 <= k < r@.len() ==> #[trigger] r@[k] == pixel_of(
                        self.points@[k],
                        plan_of(self.bounds, self.points@, self.x_scale, self.y_scale),
                    )
            },
    {
        let plan = self.plan();
        let mut out: Vec<Point> = Vec::new();
        match plan {
            PlotPlan::Blank => {},
            PlotPlan::Curve { top_left, bottom_right, x_range, y_range } => {
                let ghost s = self.points@;
                proof {
                    lemma_seq_bounds(xs(s));
                    lemma_seq_bounds(ys(s));
                }
                let mut i: usize = 0;
                while i < self.points.len()
                    invariant
                        s == self.points@,
                        plan == plan_of(self.bounds, s, self.x_scale, self.y_scale),
                        plan == (PlotPlan::Curve { top_left, bottom_right, x_range, y_range }),
                        top_left.x < bottom_right.x,
                        top_left.y < bottom_right.y,
                        x_range.start <= seq_min(xs(s)),
                        seq_max(xs(s)) <= x_range.end,
                        y_range.start <= seq_min(ys(s)),
                        seq_max(ys(s)) <= y_range.end,
                        x_range.start < x_range.end,
                        y_range.start < y_range.end,
                        forall|k: int| 0 <= k < s.len() ==> seq_min(xs(s)) <= #[trigger] xs(s)[k] <= seq_max(xs(s)),
                        forall|k: int| 0 <= k < s.len() ==> seq_min(ys(s)) <= #[trigger] ys(s)[k] <= seq_max(ys(s)),
                        i <= s.len(),
                        out@.len() == i,
                        forall|k: int| 0 <= k < i ==> #[trigger] out@[k] == pixel_of(s[k], plan),
                    decreases s.len() - i,
                {
                    let p = &self.points[i];
                    assert(xs(s)[i as int] == p.x && ys(s)[i as int] == p.y);
                    let x = scale_x(p.x, x_range, top_left.x, bottom_right.x);
                    let y = scale_y(p.y, y_range, top_left.y, bottom_right.y);
                    out.push(Point { x, y });
                    i = i + 1;
                }
            },
        }
        out
    }
}

/// A plot of a single data point draws a curve whenever its bounds can hold
/// one and its tick policies have a step: each axis range is widened around
/// the point (centred on it where `i32` leaves room), so neither scale divides
/// by zero.
pub proof fn lemma_single_point_plots(
    bounds: Rectangle,
    p: PlotPoint,
    x_scale: Scale,
    y_scale: Scale,
)
    requires
        bounds.size.width >= 2,
        bounds.size.height >= 2,
        bottom_right_of(bounds) is Some,
        scale_usable(x_scale),
        scale_usable(y_scale),
    ensures
        ({
            let plan = plan_of(bounds, seq![p], x_scale, y_scale);
            let (sx, sy) = (min_span(x_scale), min_span(y_scale));
            &&& plan is Curve
            &&& plan->x_range.start <= p.x <= plan->x_range.end
            &&& plan->x_range.end - plan->x_range.start >= sx >= 1
            &&& plan->y_range.start <= p.y <= plan->y_range.end
            &&& plan->y_range.end - plan->y_range.start >= sy >= 1
            &&& i32::MIN + sx <= p.x <= i32::MAX - sx ==> plan->x_range == (AxisRange {
                start: (p.x - sx) as i32,
                end: (p.x + sx) as i32,
            })
            &&& i32::MIN + sy <= p.y <= i32::MAX - sy ==> plan->y_range == (AxisRange {
                start: (p.y - sy) as i32,
                end: (p.y + sy) as i32,
            })
        }),
{
    let s = seq![p];
    assert(xs(s).len() == 1 && xs(s)[0] == p.x);
    assert(ys(s).len() == 1 && ys(s)[0] == p.y);
}

/// An empty data set draws nothing.
pub proof fn lemma_empty_draws_nothing(bounds: Rectangle, x_scale: Scale, y_scale: Scale)
    ensures
        plan_of(bounds, Seq::<PlotPoint>::empty(), x_scale, y_scale) is Blank,
{
}

} // verus!
