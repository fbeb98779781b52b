use digit_recognizer::vector::{Vec2i, Vec2u};

#[test]
fn builders_fill_the_components() {
    assert_eq!(Vec2u::new(3, 4), Vec2u { x: 3, y: 4 });
    assert_eq!(Vec2u::zero(), Vec2u { x: 0, y: 0 });
    assert_eq!(Vec2u::fill(560), Vec2u { x: 560, y: 560 });
    assert_eq!(Vec2i::new(-3, 4), Vec2i { x: -3, y: 4 });
    assert_eq!(Vec2i::zero(), Vec2i { x: 0, y: 0 });
}

#[test]
fn division_is_component_wise_and_rounds_down() {
    assert_eq!(Vec2u::new(45, 61).per(Vec2u::fill(20)), Vec2u::new(2, 3));
    assert_eq!(Vec2u::new(19, 20).per(Vec2u::fill(20)), Vec2u::new(0, 1));
    assert_eq!(Vec2u::new(100, 100).per(Vec2u::new(3, 7)), Vec2u::new(33, 14));
    assert_eq!(Vec2u::new(u32::MAX, 0).per(Vec2u::fill(1)), Vec2u::new(u32::MAX, 0));
}

#[test]
fn sum_is_component_wise() {
    assert_eq!(Vec2i::new(3, -4).plus(Vec2i::new(-10, 6)), Vec2i::new(-7, 2));
    assert_eq!(Vec2i::new(i32::MAX, i32::MIN).plus(Vec2i::new(-1, 1)), Vec2i::new(i32::MAX - 1, i32::MIN + 1));
}
