use boat::geometry::{DragVector, Vec2i};

#[test]
fn points_are_built_from_their_coordinates() {
    assert_eq!(Vec2i::new(3, -4), Vec2i { x: 3, y: -4 });
    assert_eq!(Vec2i::new(0, 0), Vec2i { x: 0, y: 0 });
}

#[test]
fn displacement_leads_from_anchor_to_position() {
    let v = DragVector::between(Vec2i::new(100, 100), Vec2i::new(100, 200));
    assert_eq!(v, DragVector { dx: 0, dy: 100 });
    let w = DragVector::between(Vec2i::new(10, -3), Vec2i::new(-20, 4));
    assert_eq!(w, DragVector { dx: -30, dy: 7 });
    assert_eq!(DragVector::between(Vec2i::new(5, 6), Vec2i::new(5, 6)), DragVector { dx: 0, dy: 0 });
}

#[test]
fn displacement_never_overflows() {
    let v = DragVector::between(Vec2i::new(i32::MIN, i32::MAX), Vec2i::new(i32::MAX, i32::MIN));
    assert_eq!(v, DragVector { dx: 4294967295, dy: -4294967295 });
}

#[test]
fn within_compares_the_exact_length() {
    let v = DragVector { dx: 30, dy: 40 };
    assert!(v.within(50));
    assert!(!v.within(49));
    assert!(v.within(51));
    let w = DragVector { dx: -30, dy: -41 };
    assert!(!w.within(50));
    assert!(w.within(51));
}

#[test]
fn within_at_the_edges_of_the_range() {
    assert!(DragVector { dx: 0, dy: 0 }.within(0));
    assert!(!DragVector { dx: 0, dy: 1 }.within(0));
    assert!(DragVector { dx: 4294967295, dy: 0 }.within(u32::MAX));
    assert!(!DragVector { dx: 4294967295, dy: 1 }.within(u32::MAX));
    assert!(!DragVector { dx: i64::MIN, dy: i64::MIN }.within(u32::MAX));
    assert!(!DragVector { dx: i64::MAX, dy: 0 }.within(u32::MAX));
    assert!(!DragVector { dx: 0, dy: i64::MIN }.within(0));
}
