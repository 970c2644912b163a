use moisture_display::geometry::{Point, Rectangle, Size};
use embedded_plots::axis::Scale;
use embedded_plots::curve::PlotPoint;
use moisture_display::graph::{AxisRange, MoisturePlot, PlotPlan};

fn pts(v: &[(i32, i32)]) -> Vec<PlotPoint> {
    v.iter().map(|&(x, y)| PlotPoint { x, y }).collect()
}

#[test]
fn bottom_right_of_rectangles() {
    let zero = Rectangle::new(Point::new(10, 20), Size::new(0, 0));
    assert_eq!(zero.bottom_right(), None);
    let odd = Rectangle::new(Point::new(10, 20), Size::new(5, 7));
    assert_eq!(odd.bottom_right(), Some(Point::new(14, 26)));
    let even = Rectangle::new(Point::new(20, 30), Size::new(4, 8));
    assert_eq!(even.bottom_right(), Some(Point::new(23, 37)));
    let past = Rectangle::new(Point::new(i32::MAX, 0), Size::new(2, 2));
    assert_eq!(past.bottom_right(), None);
}

#[test]
fn bounds_are_what_was_given() {
    let data = pts(&[(0, 0)]);
    let plot = MoisturePlot::new(&data, Point::new(3, 4), Size::new(50, 60));
    assert_eq!(plot.bounds(), Rectangle::new(Point::new(3, 4), Size::new(50, 60)));
}

#[test]
fn translate_twice_equals_translate_by_sum() {
    let data = pts(&[(1, 1), (2, 3)]);
    let mut a = MoisturePlot::new(&data, Point::new(5, 5), Size::new(10, 10));
    let mut b = MoisturePlot::new(&data, Point::new(5, 5), Size::new(10, 10));
    a.translate_impl(Point::new(3, -7));
    a.translate_impl(Point::new(-10, 2));
    b.translate_impl(Point::new(-7, -5));
    assert_eq!(a.bounds(), b.bounds());
    assert_eq!(a.bounds(), Rectangle::new(Point::new(-2, 0), Size::new(10, 10)));
    assert_eq!(a.points.len(), 2);
}

#[test]
fn rectangle_translate_moves_corner_only() {
    let r = Rectangle::new(Point::new(1, 2), Size::new(3, 4));
    assert_eq!(r.translate(Point::new(10, -20)), Rectangle::new(Point::new(11, -18), Size::new(3, 4)));
}

#[test]
fn peak_points_are_drawn_higher() {
    let data = pts(&[(0, 0), (1, 2), (2, 2), (3, 0)]);
    let plot = MoisturePlot::new(&data, Point::zero(), Size::new(60, 40));
    let line = plot.polyline();
    assert_eq!(line.len(), 4);
    assert!(line[1].y < line[0].y && line[1].y < line[3].y);
    assert!(line[2].y < line[0].y && line[2].y < line[3].y);
    assert_eq!(
        line,
        vec![Point::new(0, 39), Point::new(19, 0), Point::new(39, 0), Point::new(59, 39)]
    );
}

#[test]
fn four_point_plan_uses_data_extent() {
    let data = pts(&[(0, 0), (1, 2), (2, 2), (3, 0)]);
    let plot = MoisturePlot::new(&data, Point::zero(), Size::new(60, 40));
    assert_eq!(
        plot.plan(),
        PlotPlan::Curve {
            top_left: Point::new(0, 0),
            bottom_right: Point::new(59, 39),
            x_range: AxisRange { start: 0, end: 3 },
            y_range: AxisRange { start: 0, end: 2 },
        }
    );
}

#[test]
fn single_point_is_centred() {
    let data = pts(&[(5, 7)]);
    let plot = MoisturePlot::new(&data, Point::new(10, 10), Size::new(21, 11));
    assert_eq!(
        plot.plan(),
        PlotPlan::Curve {
            top_left: Point::new(10, 10),
            bottom_right: Point::new(30, 20),
            x_range: AxisRange { start: 2, end: 8 },
            y_range: AxisRange { start: 5, end: 9 },
        }
    );
    assert_eq!(plot.polyline(), vec![Point::new(20, 15)]);
}

#[test]
fn single_point_at_coordinate_limit() {
    let data = pts(&[(i32::MAX, i32::MIN)]);
    let plot = MoisturePlot::new(&data, Point::zero(), Size::new(10, 10));
    match plot.plan() {
        PlotPlan::Curve { x_range, y_range, .. } => {
            assert_eq!(x_range, AxisRange { start: i32::MAX - 3, end: i32::MAX });
            assert_eq!(y_range, AxisRange { start: i32::MIN, end: i32::MIN + 2 });
        }
        PlotPlan::Blank => panic!("expected a curve"),
    }
    assert_eq!(plot.polyline(), vec![Point::new(9, 9)]);
}

#[test]
fn empty_data_draws_nothing() {
    let data: Vec<PlotPoint> = Vec::new();
    let plot = MoisturePlot::new(&data, Point::zero(), Size::new(60, 40));
    assert_eq!(plot.plan(), PlotPlan::Blank);
    assert!(plot.polyline().is_empty());
}

#[test]
fn too_small_target_draws_nothing() {
    let data = pts(&[(0, 0), (1, 1)]);
    let thin = MoisturePlot::new(&data, Point::zero(), Size::new(1, 40));
    assert_eq!(thin.plan(), PlotPlan::Blank);
    let flat = MoisturePlot::new(&data, Point::zero(), Size::new(40, 0));
    assert_eq!(flat.plan(), PlotPlan::Blank);
    assert!(flat.polyline().is_empty());
}

#[test]
fn short_span_is_widened_by_tick_count() {
    let data = pts(&[(0, 10), (1, 10)]);
    let plot = MoisturePlot::new(&data, Point::zero(), Size::new(8, 8));
    match plot.plan() {
        PlotPlan::Curve { x_range, y_range, .. } => {
            assert_eq!(x_range, AxisRange { start: -3, end: 4 });
            assert_eq!(y_range, AxisRange { start: 8, end: 12 });
        }
        PlotPlan::Blank => panic!("expected a curve"),
    }
    assert_eq!(plot.polyline(), vec![Point::new(3, 4), Point::new(4, 4)]);
}

#[test]
fn new_plot_has_default_tick_policies() {
    let data = pts(&[(0, 0)]);
    let plot = MoisturePlot::new(&data, Point::zero(), Size::new(10, 10));
    assert!(matches!(plot.x_scale, Scale::RangeFraction(3)));
    assert!(matches!(plot.y_scale, Scale::RangeFraction(2)));
}

#[test]
fn fixed_step_widens_single_point_by_one() {
    let data = pts(&[(4, -4)]);
    let plot = MoisturePlot::new(&data, Point::new(0, 0), Size::new(11, 11))
        .with_scales(Scale::Fixed(1), Scale::Fixed(5));
    assert_eq!(
        plot.plan(),
        PlotPlan::Curve {
            top_left: Point::new(0, 0),
            bottom_right: Point::new(10, 10),
            x_range: AxisRange { start: 3, end: 5 },
            y_range: AxisRange { start: -5, end: -3 },
        }
    );
    assert_eq!(plot.polyline(), vec![Point::new(5, 5)]);
}

#[test]
fn tick_count_sets_shortest_range() {
    let data = pts(&[(0, 0), (4, 4)]);
    let plot = MoisturePlot::new(&data, Point::zero(), Size::new(9, 9))
        .with_scales(Scale::RangeFraction(5), Scale::RangeFraction(4));
    match plot.plan() {
        PlotPlan::Curve { x_range, y_range, .. } => {
            assert_eq!(x_range, AxisRange { start: -5, end: 9 });
            assert_eq!(y_range, AxisRange { start: 0, end: 4 });
        }
        PlotPlan::Blank => panic!("expected a curve"),
    }
    assert_eq!(plot.polyline(), vec![Point::new(2, 8), Point::new(5, 0)]);
}

#[test]
fn scale_without_step_draws_nothing() {
    let data = pts(&[(0, 0), (1, 1)]);
    let no_count = MoisturePlot::new(&data, Point::zero(), Size::new(20, 20))
        .with_scales(Scale::RangeFraction(0), Scale::RangeFraction(2));
    assert_eq!(no_count.plan(), PlotPlan::Blank);
    let no_step = MoisturePlot::new(&data, Point::zero(), Size::new(20, 20))
        .with_scales(Scale::Fixed(1), Scale::Fixed(0));
    assert_eq!(no_step.plan(), PlotPlan::Blank);
    assert!(no_step.polyline().is_empty());
}
