//! Oscillating enemies: back and forth between two bounds on one axis.

use crate::scalar::Scalar;
use vstd::prelude::*;

verus! {

/// A position or a velocity in the plane.
#[derive(Clone, Copy, Debug, PartialEq, Eq, Structural)]
pub struct Vector {
    pub x: Scalar,
    pub y: Scalar,
}

/// A closed interval on one axis.
#[derive(Clone, Copy, Debug, PartialEq, Eq, Structural)]
pub struct Bounds {
    pub min: Scalar,
    pub max: Scalar,
}

/// How an enemy moves.
#[derive(Clone, Copy, Debug, PartialEq, Eq, Structural)]
pub enum MovementPattern {
    /// Left and right between the bounds.
    HorizontalOscillation(Bounds),
    /// Up and down between the bounds.
    VerticalOscillation(Bounds),
}

impl Bounds {
    /// Whether `value` lies in the interval, the bounds included. Nothing lies
    /// in an interval with a NaN for a bound, and a NaN lies in no interval.
    pub open spec fn contains(self, value: Scalar) -> bool {
        self.min.le(value) && value.le(self.max)
    }

    /// Whether `value` lies in the interval, the bounds included.
    pub fn holds(&self, value: &Scalar) -> (inside: bool)
        ensures
            inside == self.contains(*value),
    {
        self.min.at_most(value) && value.at_most(&self.max)
    }
}

impl MovementPattern {
    /// Whether an enemy at `position` has left the bounds of its pattern.
    pub open spec fn out_of_bounds(self, position: Vector) -> bool {
        match self {
            MovementPattern::HorizontalOscillation(bounds) => !bounds.contains(position.x),
            MovementPattern::VerticalOscillation(bounds) => !bounds.contains(position.y),
        }
    }

    /// The velocity with which an enemy at `position` goes on: turned around
    /// on the axis of the pattern where the enemy has left the bounds, and
    /// unchanged otherwise.
    pub open spec fn reflected(self, position: Vector, velocity: Vector) -> Vector {
        if !self.out_of_bounds(position) {
            velocity
        } else {
            match self {
                MovementPattern::HorizontalOscillation(_) => Vector {
                    x: velocity.x.negated(),
                    y: velocity.y,
                },
                MovementPattern::VerticalOscillation(_) => Vector {
                    x: velocity.x,
                    y: velocity.y.negated(),
                },
            }
        }
    }

    /// Turning around twice at one position gives the velocity back: the
    /// position does not change by turning around, so an enemy out of bounds
    /// turns around each time this is asked.
    pub proof fn lemma_reflected_twice(self, position: Vector, velocity: Vector)
        ensures
            self.reflected(position, self.reflected(position, velocity)) == velocity,
    {
        velocity.x.lemma_negated();
        velocity.y.lemma_negated();
    }

    /// Out of bounds, the velocity along the axis of the pattern changes its
    /// sign and keeps its magnitude, and the velocity along the other axis
    /// stays. In bounds, the velocity stays as it is.
    pub proof fn lemma_reflected_flips_one_sign(self, position: Vector, velocity: Vector)
        ensures
            !self.out_of_bounds(position) ==> self.reflected(position, velocity) == velocity,
            self.out_of_bounds(position) && self is HorizontalOscillation ==> {
                let after = self.reflected(position, velocity);
                &&& after.x.is_negative() == !velocity.x.is_negative()
                &&& after.x.magnitude() == velocity.x.magnitude()
                &&& after.y == velocity.y
            },
            self.out_of_bounds(position) && self is VerticalOscillation ==> {
                let after = self.reflected(position, velocity);
                &&& after.y.is_negative() == !velocity.y.is_negative()
                &&& after.y.magnitude() == velocity.y.magnitude()
                &&& after.x == velocity.x
            },
    {
        velocity.x.lemma_negated();
        velocity.y.lemma_negated();
    }
}

/// Turns an oscillating enemy around where it has left its bounds. To be
/// called once per tick: the position is not moved here, so a second call at
/// the same position turns the enemy back.
pub fn oscillate(pattern: &MovementPattern, position: &Vector, velocity: &mut Vector)
    ensures
        *final(velocity) == pattern.reflected(*position, *old(velocity)),
{
    match pattern {
        MovementPattern::HorizontalOscillation(bounds) => {
            if !bounds.holds(&position.x) {
                velocity.x = velocity.x.negate();
            }
        },
        MovementPattern::VerticalOscillation(bounds) => {
            if !bounds.holds(&position.y) {
                velocity.y = velocity.y.negate();
            }
        },
    }
}

} // verus!
