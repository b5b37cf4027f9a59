use reaping::math::{Rectangle, Vector2};

#[test]
fn vector_construction() {
    let v = Vector2::new(3, -4);
    assert_eq!(v.x, 3);
    assert_eq!(v.y, -4);
    let z = Vector2::zero();
    assert_eq!(z.x, 0);
    assert_eq!(z.y, 0);
}

#[test]
fn negative_size_is_rejected_at_construction() {
    assert!(Rectangle::new(Vector2::zero(), Vector2::new(-1, 5)).is_none());
    assert!(Rectangle::new(Vector2::zero(), Vector2::new(5, -1)).is_none());
    assert!(Rectangle::new(Vector2::zero(), Vector2::new(0, 0)).is_some());
}

#[test]
fn set_size_clamps_negative_components_to_zero() {
    let mut r = Rectangle::new(Vector2::zero(), Vector2::new(10, 10)).unwrap();
    r.set_size(Vector2::new(-3, 7));
    assert_eq!(r.get_size(), Vector2::new(0, 7));
    r.set_size(Vector2::new(4, -9));
    assert_eq!(r.get_size(), Vector2::new(4, 0));
}

#[test]
fn contains_is_half_open() {
    let r = Rectangle::new(Vector2::new(10, 20), Vector2::new(30, 40)).unwrap();
    assert!(r.contains(Vector2::new(10, 20)));
    assert!(r.contains(Vector2::new(39, 59)));
    assert!(!r.contains(Vector2::new(40, 20)));
    assert!(!r.contains(Vector2::new(10, 60)));
    assert!(!r.contains(Vector2::new(9, 20)));
}

#[test]
fn an_empty_rectangle_contains_nothing() {
    let r = Rectangle::new(Vector2::new(5, 5), Vector2::new(0, 0)).unwrap();
    assert!(!r.contains(Vector2::new(5, 5)));
}
