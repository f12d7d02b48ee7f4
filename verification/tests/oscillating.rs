use enemy_core::oscillation::{oscillate, Bounds, MovementPattern, Vector};
use enemy_core::scalar::Scalar;

fn scalar(value: f32) -> Scalar {
    Scalar { bits: value.to_bits() }
}

fn vector(x: f32, y: f32) -> Vector {
    Vector { x: scalar(x), y: scalar(y) }
}

fn bounds(min: f32, max: f32) -> Bounds {
    Bounds { min: scalar(min), max: scalar(max) }
}

fn after(pattern: MovementPattern, position: Vector, velocity: Vector) -> (f32, f32) {
    let mut velocity = velocity;
    oscillate(&pattern, &position, &mut velocity);
    (f32::from_bits(velocity.x.bits), f32::from_bits(velocity.y.bits))
}

#[test]
fn horizontal_turns_around_right_of_the_bounds() {
    let pattern = MovementPattern::HorizontalOscillation(bounds(100.0, 500.0));
    assert_eq!(after(pattern, vector(600.0, 50.0), vector(2.0, 1.5)), (-2.0, 1.5));
}

#[test]
fn horizontal_turns_around_left_of_the_bounds() {
    let pattern = MovementPattern::HorizontalOscillation(bounds(100.0, 500.0));
    assert_eq!(after(pattern, vector(99.5, 50.0), vector(-2.0, 1.5)), (2.0, 1.5));
    assert_eq!(after(pattern, vector(-300.0, 50.0), vector(-2.0, 1.5)), (2.0, 1.5));
}

#[test]
fn horizontal_keeps_velocity_within_the_bounds() {
    let pattern = MovementPattern::HorizontalOscillation(bounds(100.0, 500.0));
    assert_eq!(after(pattern, vector(300.0, 50.0), vector(2.0, 1.5)), (2.0, 1.5));
    assert_eq!(after(pattern, vector(300.0, 9000.0), vector(-2.0, 1.5)), (-2.0, 1.5));
}

#[test]
fn bounds_themselves_are_within() {
    let pattern = MovementPattern::HorizontalOscillation(bounds(100.0, 500.0));
    assert_eq!(after(pattern, vector(100.0, 0.0), vector(2.0, 1.5)), (2.0, 1.5));
    assert_eq!(after(pattern, vector(500.0, 0.0), vector(2.0, 1.5)), (2.0, 1.5));
    let down = MovementPattern::VerticalOscillation(bounds(-20.0, 0.0));
    assert_eq!(after(down, vector(0.0, -20.0), vector(2.0, 1.5)), (2.0, 1.5));
    assert_eq!(after(down, vector(0.0, -0.0), vector(2.0, 1.5)), (2.0, 1.5));
    assert_eq!(after(down, vector(0.0, 0.0), vector(2.0, 1.5)), (2.0, 1.5));
}

#[test]
fn vertical_turns_around_outside_the_bounds() {
    let pattern = MovementPattern::VerticalOscillation(bounds(20.0, 300.0));
    assert_eq!(after(pattern, vector(50.0, 300.5), vector(2.0, 1.5)), (2.0, -1.5));
    assert_eq!(after(pattern, vector(50.0, 19.0), vector(2.0, -1.5)), (2.0, 1.5));
}

#[test]
fn vertical_keeps_velocity_within_the_bounds() {
    let pattern = MovementPattern::VerticalOscillation(bounds(20.0, 300.0));
    assert_eq!(after(pattern, vector(5000.0, 150.0), vector(2.0, 1.5)), (2.0, 1.5));
}

#[test]
fn second_call_at_the_same_position_turns_back() {
    let pattern = MovementPattern::HorizontalOscillation(bounds(100.0, 500.0));
    let position = vector(600.0, 0.0);
    let mut velocity = vector(3.25, -1.0);
    oscillate(&pattern, &position, &mut velocity);
    assert_eq!(velocity, vector(-3.25, -1.0));
    oscillate(&pattern, &position, &mut velocity);
    assert_eq!(velocity, vector(3.25, -1.0));
}

#[test]
fn a_position_that_is_no_number_is_out_of_bounds() {
    let pattern = MovementPattern::HorizontalOscillation(bounds(100.0, 500.0));
    assert_eq!(after(pattern, vector(f32::NAN, 0.0), vector(2.0, 1.5)), (-2.0, 1.5));
}

#[test]
fn nothing_is_within_empty_bounds() {
    let pattern = MovementPattern::VerticalOscillation(bounds(300.0, 20.0));
    assert_eq!(after(pattern, vector(0.0, 150.0), vector(2.0, 1.5)), (2.0, -1.5));
}

#[test]
fn containment_agrees_with_float_ranges() {
    let values = [-1.0e9f32, -20.0, -0.0, 0.0, 19.99, 20.0, 150.0, 300.0, 300.01, f32::INFINITY];
    let interval = bounds(20.0, 300.0);
    for value in values {
        assert_eq!(interval.holds(&scalar(value)), (20.0..=300.0).contains(&value));
    }
}

#[test]
fn zero_velocity_changes_sign_only() {
    let pattern = MovementPattern::HorizontalOscillation(bounds(100.0, 500.0));
    let mut velocity = vector(0.0, 0.0);
    oscillate(&pattern, &vector(0.0, 0.0), &mut velocity);
    assert_eq!(velocity.x.bits, (-0.0f32).to_bits());
    assert_eq!(velocity.y.bits, 0);
}
