use enemy_core::scalar::Scalar;
use enemy_core::trajectory::{
    clamp_to_screen, plan, plan_with_coin, BulletArchetype, Trajectory, AIMED_SPEED,
    BOUNCING_SPEED, PLAYER_SPRITE_HEIGHT, PREDICTION_STEPS, PREDICTIVE_SPEED, STRAIGHT_SPEED,
    TRACKING_SPEED,
};
use enemy_core::unrolling::{unroll, UnrolledPath};

fn clamp(x: f32, width: f32) -> f32 {
    f32::from_bits(clamp_to_screen(Scalar { bits: x.to_bits() }, Scalar { bits: width.to_bits() }).bits)
}

#[test]
fn speeds_are_fixed() {
    assert_eq!(STRAIGHT_SPEED, 8);
    assert_eq!(AIMED_SPEED, 9);
    assert_eq!(TRACKING_SPEED, 5);
    assert_eq!(PREDICTIVE_SPEED, 10);
    assert_eq!(BOUNCING_SPEED, 8);
    assert_eq!(PREDICTION_STEPS, 2);
    assert_eq!(PLAYER_SPRITE_HEIGHT as f32 / 2.0, 22.5);
}

#[test]
fn straight_shot_flies_down_at_eight() {
    assert_eq!(plan(BulletArchetype::Straight), Trajectory::Fixed { vx: 0, vy: 8 });
    assert_eq!(plan_with_coin(BulletArchetype::Straight, false), Trajectory::Fixed { vx: 0, vy: 8 });
}

#[test]
fn aimed_shot_aims_at_nine() {
    assert_eq!(plan(BulletArchetype::Aimed), Trajectory::Aim { speed: 9 });
}

#[test]
fn tracking_shot_aims_once_at_five() {
    assert_eq!(plan(BulletArchetype::Tracking(0)), Trajectory::Aim { speed: 5 });
    assert_eq!(plan(BulletArchetype::Tracking(77)), Trajectory::Aim { speed: 5 });
}

#[test]
fn predictive_shot_refines_twice_at_ten() {
    assert_eq!(plan(BulletArchetype::Predictive), Trajectory::Lead { speed: 10, steps: 2 });
}

#[test]
fn single_bounce_has_no_middle_distance() {
    for heads_right in [true, false] {
        let path = unroll(1, heads_right);
        assert_eq!(path.full_spans, 0);
        assert_eq!(path.heads_right, heads_right);
        assert_eq!(path.arrives_from_right, heads_right);
        assert_eq!(
            plan_with_coin(BulletArchetype::Bouncing(1), heads_right),
            Trajectory::Ricochet { speed: 8, path }
        );
    }
}

#[test]
fn each_bounce_after_the_first_adds_one_span() {
    assert_eq!(unroll(0, true).full_spans, 0);
    assert_eq!(unroll(2, true).full_spans, 1);
    assert_eq!(unroll(3, false).full_spans, 2);
    assert_eq!(unroll(u32::MAX, false).full_spans, u32::MAX - 1);
}

#[test]
fn arrival_side_follows_parity_and_first_direction() {
    assert!(unroll(1, true).arrives_from_right);
    assert!(!unroll(2, true).arrives_from_right);
    assert!(unroll(3, true).arrives_from_right);
    assert!(!unroll(1, false).arrives_from_right);
    assert!(unroll(2, false).arrives_from_right);
    assert!(unroll(0, false).arrives_from_right);
    assert!(!unroll(0, true).arrives_from_right);
}

#[test]
fn bouncing_plan_with_a_given_coin() {
    assert_eq!(
        plan_with_coin(BulletArchetype::Bouncing(4), false),
        Trajectory::Ricochet {
            speed: 8,
            path: UnrolledPath { heads_right: false, arrives_from_right: true, full_spans: 3 },
        }
    );
}

#[test]
fn bouncing_plan_draws_its_first_direction() {
    let right = plan_with_coin(BulletArchetype::Bouncing(2), true);
    let left = plan_with_coin(BulletArchetype::Bouncing(2), false);
    let mut seen_right = false;
    let mut seen_left = false;
    for _ in 0..400 {
        let planned = plan(BulletArchetype::Bouncing(2));
        assert!(planned == right || planned == left);
        seen_right = seen_right || planned == right;
        seen_left = seen_left || planned == left;
    }
    assert!(seen_right && seen_left);
}

#[test]
fn clamp_keeps_what_is_on_the_screen() {
    assert_eq!(clamp(0.0, 800.0), 0.0);
    assert_eq!(clamp(0.25, 800.0), 0.25);
    assert_eq!(clamp(400.0, 800.0), 400.0);
    assert_eq!(clamp(800.0, 800.0), 800.0);
}

#[test]
fn clamp_brings_back_what_is_off_the_screen() {
    assert_eq!(clamp(-0.25, 800.0), 0.0);
    assert_eq!(clamp(-1.0e30, 800.0), 0.0);
    assert_eq!(clamp(f32::NEG_INFINITY, 800.0), 0.0);
    assert_eq!(clamp(800.5, 800.0), 800.0);
    assert_eq!(clamp(f32::INFINITY, 800.0), 800.0);
}

#[test]
fn clamp_agrees_with_max_then_min() {
    let values = [
        -5.0f32, -0.0, 0.0, 1.0e-40, 3.5, 799.9, 800.0, 800.1, 1.0e20,
        f32::INFINITY, f32::NEG_INFINITY, f32::NAN,
    ];
    let widths = [800.0f32, 0.0, 1.0, -3.0, f32::INFINITY, f32::NAN];
    for x in values {
        for width in widths {
            let expected = x.max(0.0).min(width);
            assert_eq!(clamp(x, width), expected, "{x:?} on {width:?}");
        }
    }
}

/// Follows a shot that sets out from `origin_x` and covers `distance`
/// horizontally, turning around at the walls at 0 and `width`; returns where it
/// ends and how many times it turned around on the way.
fn bounce_along(width: u64, origin_x: u64, heads_right: bool, distance: u64) -> (u64, u32) {
    let mut x = origin_x;
    let mut right = heads_right;
    let mut left_to_go = distance;
    let mut bounces = 0;
    loop {
        let to_wall = if right { width - x } else { x };
        if left_to_go <= to_wall {
            let end = if right { x + left_to_go } else { x - left_to_go };
            return (end, bounces);
        }
        left_to_go -= to_wall;
        x = if right { width } else { 0 };
        right = !right;
        bounces += 1;
    }
}

fn total_x_dist(path: UnrolledPath, width: u64, origin_x: u64, player_x: u64) -> u64 {
    let initial = if path.heads_right { width - origin_x } else { origin_x };
    let last = if path.arrives_from_right { width - player_x } else { player_x };
    initial + width * path.full_spans as u64 + last
}

#[test]
fn unrolled_path_bounces_as_often_as_asked_and_ends_at_the_player() {
    let width = 360;
    for bounce_count in 1..=6u32 {
        for heads_right in [true, false] {
            for origin_x in [1u64, 100, 359] {
                for player_x in [1u64, 45, 180, 359] {
                    let path = unroll(bounce_count, heads_right);
                    let distance = total_x_dist(path, width, origin_x, player_x);
                    assert_eq!(
                        bounce_along(width, origin_x, heads_right, distance),
                        (player_x, bounce_count)
                    );
                }
            }
        }
    }
}

#[test]
fn single_bounce_runs_to_the_wall_and_back() {
    let right = unroll(1, true);
    assert_eq!(total_x_dist(right, 360, 100, 300), (360 - 100) + (360 - 300));
    let left = unroll(1, false);
    assert_eq!(total_x_dist(left, 360, 100, 300), 100 + 300);
}
