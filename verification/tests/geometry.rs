use druid::geometry::{clamp, UNBOUNDED};
use druid::{Axis, BoxConstraints, Point, Rect, Size};

#[test]
fn point_plus_and_minus() {
    let p = Point::new(10, 20);
    assert_eq!(p.plus(Point::new(5, -30)), Point::new(15, -10));
    assert_eq!(p.minus(Point::new(40, 5)), Point::new(-30, 15));
    assert_eq!(Point::origin(), Point::new(0, 0));
}

#[test]
fn point_arithmetic_clips_at_the_ends_of_the_range() {
    let far = Point::new(i64::MAX, i64::MIN);
    assert_eq!(far.plus(Point::new(1, -1)), Point::new(i64::MAX, i64::MIN));
    assert_eq!(far.minus(Point::new(-1, 1)), Point::new(i64::MAX, i64::MIN));
    assert_eq!(Point::new(0, 0).minus(Point::new(i64::MIN, 0)), Point::new(i64::MAX, 0));
}

#[test]
fn rect_hit_test_is_half_open() {
    let r = Rect::from_origin_size(Point::new(10, 20), Size::new(100, 50));
    assert!(r.contains(Point::new(10, 20)));
    assert!(r.contains(Point::new(109, 69)));
    assert!(!r.contains(Point::new(110, 20)));
    assert!(!r.contains(Point::new(10, 70)));
    assert!(!r.contains(Point::new(9, 20)));
    assert!(!r.contains(Point::new(10, 19)));
    let empty = Rect::from_origin_size(Point::new(0, 0), Size::zero());
    assert!(!empty.contains(Point::new(0, 0)));
}

#[test]
fn rect_hit_test_at_the_ends_of_the_range() {
    let r = Rect::from_origin_size(Point::new(i64::MIN, i64::MAX), Size::new(u32::MAX, 1));
    assert!(r.contains(Point::new(i64::MIN, i64::MAX)));
    assert!(!r.contains(Point::new(i64::MAX, i64::MAX)));
    assert_eq!(r.with_origin(Point::origin()).origin(), Point::new(0, 0));
    assert_eq!(r.with_origin(Point::origin()).size(), Size::new(u32::MAX, 1));
}

#[test]
fn axis_takes_sizes_apart_and_packs_them() {
    let s = Size::new(3, 4);
    assert_eq!(Axis::Horizontal.major(s), 3);
    assert_eq!(Axis::Horizontal.minor(s), 4);
    assert_eq!(Axis::Vertical.major(s), 4);
    assert_eq!(Axis::Vertical.minor(s), 3);
    assert_eq!(Axis::Horizontal.pack(3, 4), s);
    assert_eq!(Axis::Vertical.pack(4, 3), s);
    assert_eq!(Axis::Horizontal.place(7, 9), Point::new(7, 9));
    assert_eq!(Axis::Vertical.place(7, 9), Point::new(9, 7));
}

#[test]
fn constraints_clip_sizes() {
    let bc = BoxConstraints::new(Size::new(10, 20), Size::new(100, 200));
    assert_eq!(bc.min(), Size::new(10, 20));
    assert_eq!(bc.max(), Size::new(100, 200));
    assert_eq!(bc.constrain(Size::new(50, 60)), Size::new(50, 60));
    assert_eq!(bc.constrain(Size::new(0, 0)), Size::new(10, 20));
    assert_eq!(bc.constrain(Size::new(500, 600)), Size::new(100, 200));
    assert_eq!(bc.constrain(Size::new(5, 600)), Size::new(10, 200));
    assert!(bc.contains(Size::new(10, 200)));
    assert!(!bc.contains(Size::new(9, 200)));
    assert!(!bc.contains(Size::new(10, 201)));
}

#[test]
fn tight_constraints_admit_one_size() {
    let bc = BoxConstraints::tight(Size::new(30, 40));
    assert!(bc.contains(Size::new(30, 40)));
    assert!(!bc.contains(Size::new(30, 41)));
    assert_eq!(bc.constrain(Size::new(0, 1000)), Size::new(30, 40));
}

#[test]
fn clamp_brings_a_length_into_range() {
    assert_eq!(clamp(5, 10, 20), 10);
    assert_eq!(clamp(15, 10, 20), 15);
    assert_eq!(clamp(25, 10, 20), 20);
    assert_eq!(clamp(7, 0, UNBOUNDED), 7);
    assert_eq!(UNBOUNDED, u32::MAX);
}
