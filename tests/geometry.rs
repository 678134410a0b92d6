use small_3d_game::geometry::{contains_point, isqrt, Rect, Vec2i};

#[test]
fn test_contains_point() {
    let rect = Rect::new(0, 0, 100, 100);
    let corner_radius = 10;

    // test corners
    assert!(!contains_point(rect, corner_radius, Vec2i::new(0, 0)));
    assert!(!contains_point(rect, corner_radius, Vec2i::new(100, 0)));
    assert!(!contains_point(rect, corner_radius, Vec2i::new(0, 100)));
    assert!(!contains_point(rect, corner_radius, Vec2i::new(100, 100)));

    // test edges
    assert!(contains_point(rect, corner_radius, Vec2i::new(50, 0)));
    assert!(contains_point(rect, corner_radius, Vec2i::new(0, 50)));
    assert!(contains_point(rect, corner_radius, Vec2i::new(50, 100)));
    assert!(contains_point(rect, corner_radius, Vec2i::new(100, 50)));

    // test inside
    assert!(contains_point(rect, corner_radius, Vec2i::new(50, 50)));

    // test outside
    assert!(!contains_point(rect, corner_radius, Vec2i::new(101, 50)));
    assert!(!contains_point(rect, corner_radius, Vec2i::new(50, 101)));
    assert!(!contains_point(rect, corner_radius, Vec2i::new(-1, 50)));
    assert!(!contains_point(rect, corner_radius, Vec2i::new(50, -1)));
}

#[test]
fn rounded_corner_holds_points_on_its_arc() {
    let rect = Rect::new(0, 0, 100, 100);
    // (3, 3) is about 9.9 from the corner centre (10, 10): inside the arc.
    assert!(contains_point(rect, 10, Vec2i::new(3, 3)));
    // (2, 2) is about 11.3 away: outside.
    assert!(!contains_point(rect, 10, Vec2i::new(2, 2)));
    // (4, 2) is exactly 10 away: on the arc.
    assert!(contains_point(rect, 10, Vec2i::new(4, 2)));
}

#[test]
fn rect_new_orders_its_corners() {
    let r = Rect::new(10, 20, -5, 3);
    assert_eq!(r.min, Vec2i::new(-5, 3));
    assert_eq!(r.max, Vec2i::new(10, 20));
    assert!(r.contains(Vec2i::new(10, 3)));
    assert!(!r.contains(Vec2i::new(11, 3)));
}

#[test]
fn isqrt_rounds_down() {
    assert_eq!(isqrt(0), 0);
    assert_eq!(isqrt(1), 1);
    assert_eq!(isqrt(15), 3);
    assert_eq!(isqrt(16), 4);
    assert_eq!(isqrt(17), 4);
    assert_eq!(isqrt(1_000_000_000_000), 1_000_000);
}
