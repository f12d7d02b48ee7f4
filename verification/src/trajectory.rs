//! Firing plans: what each bullet archetype asks of the geometry that launches it.
//!
//! Positions and velocities are real-valued, so the vector arithmetic itself is
//! left to the caller. This module fixes everything about a shot that is
//! discrete: which rule applies, at which speed, how often a prediction is
//! refined, and how a bouncing path is unrolled into a straight one.

use crate::scalar::Scalar;
use crate::unrolling::{unroll, unrolled, UnrolledPath};
use rand::Rng;
use vstd::prelude::*;

verus! {

/// Speed of a straight shot, which always flies down the screen.
pub const STRAIGHT_SPEED: u32 = 8;

/// Speed of an aimed shot.
pub const AIMED_SPEED: u32 = 9;

/// Speed of a tracking shot.
pub const TRACKING_SPEED: u32 = 5;

/// Speed of a predictive shot; also the speed assumed while predicting.
pub const PREDICTIVE_SPEED: u32 = 10;

/// Speed of a bouncing shot.
pub const BOUNCING_SPEED: u32 = 8;

/// Number of times a predictive shot refines the projected player position.
pub const PREDICTION_STEPS: u32 = 2;

/// Height of the player's sprite. A bouncing shot aims at the point half this
/// height above the player's position.
pub const PLAYER_SPRITE_HEIGHT: u32 = 45;

/// The firing pattern of a projectile.
#[derive(Clone, Copy, Debug, PartialEq, Eq, Structural)]
pub enum BulletArchetype {
    /// Flies straight down.
    Straight,
    /// Aimed at the player's position at fire time.
    Aimed,
    /// Aimed at where the player is predicted to be on impact.
    Predictive,
    /// Bounces off the side walls the given number of times before it reaches the player.
    Bouncing(u32),
    /// Aimed once at fire time, like `Aimed`, but slower. The value is carried
    /// along for whoever steers the projectile later; planning does not read it.
    Tracking(u32),
    /// Fired by the player. No enemy ever fires it.
    PlayerOwned,
}

/// How the initial velocity of a shot is obtained from the shooter's position
/// `origin` and the player's position and velocity at fire time. Where a unit
/// vector is asked of a vector without length, it points straight down the
/// screen.
#[derive(Clone, Copy, Debug, PartialEq, Eq, Structural)]
pub enum Trajectory {
    /// The velocity is `(vx, vy)`, wherever the player is.
    Fixed { vx: u32, vy: u32 },
    /// The velocity is the unit vector from `origin` to the player's position,
    /// times `speed`.
    Aim { speed: u32 },
    /// Start with the player's position as the projected position. `steps`
    /// times: take the distance from `origin` to the projected position,
    /// divide it by `speed` for the flight time, move the projected position to
    /// the player's position plus the player's velocity times that time, and
    /// clamp its x to the screen. The velocity is the unit vector from `origin`
    /// to the projected position, times `speed`.
    Lead { speed: u32, steps: u32 },
    /// The velocity is the unit vector along the unrolled path, times `speed`.
    /// The path is as long horizontally as `path` says, and vertically as far
    /// as it is from `origin` to the point `PLAYER_SPRITE_HEIGHT / 2` above the
    /// player; it leaves to the right iff `path.heads_right`.
    Ricochet { speed: u32, path: UnrolledPath },
}

/// The trajectory of an enemy shot of the given archetype. `heads_right` is the
/// coin of a bouncing shot and matters to no other archetype.
pub open spec fn planned(archetype: BulletArchetype, heads_right: bool) -> Trajectory
    recommends
        !(archetype is PlayerOwned),
{
    match archetype {
        BulletArchetype::Straight => Trajectory::Fixed { vx: 0, vy: STRAIGHT_SPEED },
        BulletArchetype::Aimed => Trajectory::Aim { speed: AIMED_SPEED },
        BulletArchetype::Tracking(_) => Trajectory::Aim { speed: TRACKING_SPEED },
        BulletArchetype::Predictive => Trajectory::Lead {
            speed: PREDICTIVE_SPEED,
            steps: PREDICTION_STEPS,
        },
        BulletArchetype::Bouncing(bounce_count) => Trajectory::Ricochet {
            speed: BOUNCING_SPEED,
            path: unrolled(bounce_count, heads_right),
        },
        BulletArchetype::PlayerOwned => arbitrary(),
    }
}

/// The x of a projected position, brought back onto a screen that reaches from
/// 0 to `screen_width`: first raised to zero, then lowered to the width. A NaN
/// is taken for zero, and a width that is a NaN for no limit.
pub open spec fn clamped_to_screen(x: Scalar, screen_width: Scalar) -> Scalar {
    let raised = if x.is_nan() || x.le(Scalar::zero()) {
        Scalar::zero()
    } else {
        x
    };
    if screen_width.is_nan() || raised.le(screen_width) {
        raised
    } else {
        screen_width
    }
}

/// Draws a fair coin from the thread-local generator: `rand::thread_rng()`,
/// then `Rng::gen_ratio(1, 2)`, which compares 64 fresh random bits with 2^63.
/// Nothing is claimed of the outcome; each call draws anew.
#[verifier::external_body]
fn toss_coin() -> (heads: bool) {
    rand::thread_rng().gen_ratio(1, 2)
}

/// Brings the x of a projected position back onto the screen.
pub fn clamp_to_screen(x: Scalar, screen_width: Scalar) -> (clamped: Scalar)
    ensures
        clamped == clamped_to_screen(x, screen_width),
{
    let zero = Scalar { bits: 0 };
    let raised = if x.not_a_number() || x.at_most(&zero) {
        zero
    } else {
        x
    };
    if screen_width.not_a_number() || raised.at_most(&screen_width) {
        raised
    } else {
        screen_width
    }
}

/// Plans an enemy shot whose coin has already been drawn.
pub fn plan_with_coin(archetype: BulletArchetype, heads_right: bool) -> (trajectory: Trajectory)
    requires
        !(archetype is PlayerOwned),
    ensures
        trajectory == planned(archetype, heads_right),
{
    match archetype {
        BulletArchetype::Straight => Trajectory::Fixed { vx: 0, vy: STRAIGHT_SPEED },
        BulletArchetype::Aimed => Trajectory::Aim { speed: AIMED_SPEED },
        BulletArchetype::Tracking(_) => Trajectory::Aim { speed: TRACKING_SPEED },
        BulletArchetype::Predictive => Trajectory::Lead {
            speed: PREDICTIVE_SPEED,
            steps: PREDICTION_STEPS,
        },
        BulletArchetype::Bouncing(bounce_count) => Trajectory::Ricochet {
            speed: BOUNCING_SPEED,
            path: unroll(bounce_count, heads_right),
        },
        BulletArchetype::PlayerOwned => unreached(),
    }
}

/// Plans an enemy shot. A bouncing shot draws one fair coin for its first
/// direction; every other archetype is planned without any randomness.
pub fn plan(archetype: BulletArchetype) -> (trajectory: Trajectory)
    requires
        !(archetype is PlayerOwned),
    ensures
        trajectory == planned(archetype, true) || trajectory == planned(archetype, false),
        !(archetype is Bouncing) ==> trajectory == planned(archetype, true),
{
    match archetype {
        BulletArchetype::Bouncing(_) => {
            let heads_right = toss_coin();
            plan_with_coin(archetype, heads_right)
        },
        _ => plan_with_coin(archetype, true),
    }
}

/// On a screen of a width that is a number and not below zero, a clamped x
/// lies on the screen, and an x that lay on the screen is not moved.
pub proof fn lemma_clamped_is_on_screen(x: Scalar, screen_width: Scalar)
    requires
        Scalar::zero().le(screen_width),
    ensures
        Scalar::zero().le(clamped_to_screen(x, screen_width)),
        clamped_to_screen(x, screen_width).le(screen_width),
        Scalar::zero().le(x) && x.le(screen_width) ==> clamped_to_screen(x, screen_width).place()
            == x.place(),
        Scalar::zero().le(x) && x.le(screen_width) && x.magnitude() != 0 ==> clamped_to_screen(
            x,
            screen_width,
        ) == x,
{
}

} // verus!
