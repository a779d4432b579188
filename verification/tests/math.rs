use emigui::math::add_saturating;
use emigui::math::midpoint;
use emigui::math::remap_clamp;
use emigui::math::vec2;
use emigui::math::Rect;
use emigui::math::Vec2;

#[test]
fn vec2_builds_a_vector() {
    assert_eq!(vec2(3, -4), Vec2 { x: 3, y: -4 });
}

#[test]
fn sums_saturate_at_both_ends() {
    assert_eq!(add_saturating(2, 3), 5);
    assert_eq!(add_saturating(i32::MAX, 1), i32::MAX);
    assert_eq!(add_saturating(i32::MIN, -1), i32::MIN);
    assert_eq!(add_saturating(i32::MAX, i32::MIN), -1);
}

#[test]
fn plus_adds_componentwise_and_saturates() {
    assert_eq!(vec2(1, 2).plus(vec2(10, 20)), vec2(11, 22));
    assert_eq!(vec2(i32::MAX, 0).plus(vec2(1, -5)), vec2(i32::MAX, -5));
    assert_eq!(vec2(-7, i32::MIN).plus(vec2(7, -1)), vec2(0, i32::MIN));
}

#[test]
fn midpoint_rounds_down() {
    assert_eq!(midpoint(0, 10), 5);
    assert_eq!(midpoint(1, 2), 1);
    assert_eq!(midpoint(-3, 0), -2);
    assert_eq!(midpoint(-4, 0), -2);
    assert_eq!(midpoint(-1, 0), -1);
    assert_eq!(midpoint(i32::MAX, i32::MAX), i32::MAX);
    assert_eq!(midpoint(i32::MIN, i32::MIN), i32::MIN);
    assert_eq!(midpoint(i32::MIN, i32::MAX), -1);
}

#[test]
fn rect_from_corners_and_from_size() {
    let rect = Rect::from_min_max(vec2(1, 2), vec2(5, 9));
    assert_eq!(rect, Rect { min: vec2(1, 2), max: vec2(5, 9) });
    assert_eq!(Rect::from_min_size(vec2(1, 2), vec2(4, 7)), rect);
    assert_eq!(
        Rect::from_min_size(vec2(i32::MAX - 1, 0), vec2(10, 3)),
        Rect { min: vec2(i32::MAX - 1, 0), max: vec2(i32::MAX, 3) }
    );
}

#[test]
fn rect_center_is_halfway() {
    let rect = Rect { min: vec2(0, 0), max: vec2(50, 20) };
    assert_eq!(rect.center(), vec2(25, 10));
    let odd = Rect { min: vec2(-5, 1), max: vec2(0, 4) };
    assert_eq!(odd.center(), vec2(-3, 2));
}

#[test]
fn rect_contains_its_edges() {
    let rect = Rect { min: vec2(0, 0), max: vec2(50, 20) };
    assert!(rect.contains(vec2(10, 10)));
    assert!(rect.contains(vec2(0, 0)));
    assert!(rect.contains(vec2(50, 20)));
    assert!(!rect.contains(vec2(51, 10)));
    assert!(!rect.contains(vec2(10, -1)));
    assert!(!rect.contains(vec2(-1, 21)));
}

#[test]
fn remap_in_the_middle() {
    assert_eq!(remap_clamp(200, 100, 300, 0, 100), 50);
    assert_eq!(remap_clamp(150, 100, 300, 0, 100), 25);
    assert_eq!(remap_clamp(5, 0, 10, -100, 100), 0);
}

#[test]
fn remap_rounds_down() {
    assert_eq!(remap_clamp(1, 0, 3, 0, 10), 3);
    assert_eq!(remap_clamp(2, 0, 3, 0, 10), 6);
    assert_eq!(remap_clamp(1, 0, 3, -10, 0), -7);
}

#[test]
fn remap_at_the_ends() {
    assert_eq!(remap_clamp(100, 100, 300, 7, 93), 7);
    assert_eq!(remap_clamp(300, 100, 300, 7, 93), 93);
}

#[test]
fn remap_outside_is_held_to_the_ends() {
    assert_eq!(remap_clamp(-1000, 100, 300, 7, 93), 7);
    assert_eq!(remap_clamp(99, 100, 300, 7, 93), 7);
    assert_eq!(remap_clamp(301, 100, 300, 7, 93), 93);
    assert_eq!(remap_clamp(i32::MAX, 100, 300, 7, 93), 93);
}

#[test]
fn remap_onto_a_single_value() {
    assert_eq!(remap_clamp(42, 0, 100, 5, 5), 5);
}

#[test]
fn remap_over_the_whole_range() {
    assert_eq!(remap_clamp(i32::MAX, i32::MIN, i32::MAX, i32::MIN, i32::MAX), i32::MAX);
    assert_eq!(remap_clamp(i32::MIN, i32::MIN, i32::MAX, i32::MIN, i32::MAX), i32::MIN);
    assert_eq!(remap_clamp(0, i32::MIN, i32::MAX, i32::MIN, i32::MAX), 0);
    assert_eq!(remap_clamp(-1, i32::MIN, i32::MAX, i32::MIN, i32::MAX), -1);
}

#[test]
fn remap_never_decreases() {
    let mut last = i32::MIN;
    let mut from = -20;
    while from <= 120 {
        let value = remap_clamp(from, 0, 97, -13, 29);
        assert!(value >= last);
        assert!(-13 <= value && value <= 29);
        last = value;
        from += 1;
    }
}
