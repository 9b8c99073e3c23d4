use palimpsest::{inside_rect, Point, Rect, Size};

#[test]
fn rect_from_size_corners() {
    let rect = Rect::from_size(Point::new(10, 20), Size::new(30, 40));
    assert_eq!(rect.top_left, Point::new(10, 20));
    assert_eq!(rect.top_right, Point::new(40, 20));
    assert_eq!(rect.bottom_left, Point::new(10, 60));
    assert_eq!(rect.bottom_right, Point::new(40, 60));
    assert_eq!(rect.size, Size::new(30, 40));
}

#[test]
fn rect_from_points_corners() {
    let rect = Rect::from_points(Point::new(10, 20), Point::new(30, 40));
    assert_eq!(rect.top_left, Point::new(10, 20));
    assert_eq!(rect.top_right, Point::new(30, 20));
    assert_eq!(rect.bottom_left, Point::new(10, 40));
    assert_eq!(rect.bottom_right, Point::new(30, 40));
    assert_eq!(rect.size, Size::new(20, 20));
}

#[test]
fn rect_from_values_matches_from_size() {
    assert_eq!(
        Rect::from_values(10, 20, 30, 40),
        Rect::from_size(Point::new(10, 20), Size::new(30, 40))
    );
}

#[test]
fn rect_from_point_values_matches_from_points() {
    assert_eq!(
        Rect::from_point_values(10, 20, 30, 40),
        Rect::from_points(Point::new(10, 20), Point::new(30, 40))
    );
}

#[test]
fn new_safe_raises_negatives() {
    assert_eq!(Point::new_safe(-3, 4), Point { x: 0, y: 4 });
    assert_eq!(Point::new_safe(3, -4), Point { x: 3, y: 0 });
}

#[test]
fn point_add_moves_and_clamps() {
    let p = Point::new(10, 5);
    assert_eq!(p.add(-8, 0), Point { x: 2, y: 5 });
    assert_eq!(p.add(-20, 2), Point { x: 0, y: 7 });
}

#[test]
fn inside_rect_edges() {
    assert!(inside_rect(Point::new(2, 3), 2, 3, 4, 5));
    assert!(inside_rect(Point::new(5, 7), 2, 3, 4, 5));
    assert!(!inside_rect(Point::new(6, 7), 2, 3, 4, 5));
    assert!(!inside_rect(Point::new(5, 8), 2, 3, 4, 5));
    assert!(!inside_rect(Point::new(1, 3), 2, 3, 4, 5));
}

#[test]
fn inside_rect_near_integer_limits() {
    assert!(inside_rect(Point { x: i32::MAX - 1, y: 0 }, i32::MAX - 1, 0, i32::MAX, 1));
}

