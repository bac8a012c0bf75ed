use sleek::geometry::{Point, Rect, RGB};
use sleek::{line_colour, LINE_WIDTH};

#[test]
fn point_min_and_max_are_componentwise() {
    let a = Point::new(10, -4);
    let b = Point::new(-3, 7);
    assert_eq!(a.min(&b), Point::new(-3, -4));
    assert_eq!(a.max(&b), Point::new(10, 7));
}

#[test]
fn rect_origin_is_minimum_and_size_non_negative() {
    let r = Rect::from_points(Point::new(110, 10), Point::new(10, 60));
    assert_eq!(r, Rect { x: 10, y: 10, width: 100, height: 50 });
}

#[test]
fn rect_ignores_drag_direction() {
    let p = Point::new(-20, 35);
    let q = Point::new(40, -5);
    assert_eq!(Rect::from_points(p, q), Rect::from_points(q, p));
    assert_eq!(Rect::from_points(p, q), Rect { x: -20, y: -5, width: 60, height: 40 });
}

#[test]
fn rect_spans_the_whole_coordinate_range() {
    let r = Rect::from_points(Point::new(i32::MIN, i32::MIN), Point::new(i32::MAX, i32::MAX));
    assert_eq!(r.width, u32::MAX);
    assert_eq!(r.height, u32::MAX);
    assert_eq!(r.area(), u32::MAX as u64 * u32::MAX as u64);
}

#[test]
fn degenerate_rect_is_saved_as_one_pixel() {
    let r = Rect::from_points(Point::new(5, 6), Point::new(5, 6));
    assert_eq!(r, Rect { x: 5, y: 6, width: 0, height: 0 });
    assert_eq!(r.saved_region(), Rect { x: 5, y: 6, width: 1, height: 1 });
    let line = Rect { x: 0, y: 0, width: 7, height: 0 };
    assert_eq!(line.saved_region(), Rect { x: 0, y: 0, width: 7, height: 1 });
    let full = Rect { x: 1, y: 2, width: 3, height: 4 };
    assert_eq!(full.saved_region(), full);
}

#[test]
fn colour_pixel_value() {
    assert_eq!(RGB::new(128, 0, 128).into_pixel(), 0x80_00_80);
    assert_eq!(RGB::new(1, 2, 3).into_pixel(), 0x01_02_03);
    assert_eq!(line_colour(), RGB::new(128, 0, 128));
    assert_eq!(LINE_WIDTH, 5);
}
