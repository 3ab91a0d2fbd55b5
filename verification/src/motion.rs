//! Directions and the steps taken along them.
//!
//! The crate keeps no coordinates. A step goes out as a direction, given by
//! any vector that points that way, and the distance to cover along it; the
//! host scales the direction to unit length and moves its own position.

use vstd::prelude::*;

verus! {

/// A vector on the plane whose length carries no meaning: only where it
/// points matters. The zero vector points nowhere and stands for rest.
#[derive(Clone, Copy, Debug, PartialEq, Eq, Structural)]
pub struct Direction {
    pub x: i32,
    pub y: i32,
}

/// One step: `distance` along `direction`, which is never the zero vector in
/// a step that this crate hands out. The distance is in billionths of a world
/// unit, the product of a speed in units per second and a time in
/// nanoseconds.
#[derive(Clone, Copy, Debug, PartialEq, Eq, Structural)]
pub struct Travel {
    pub direction: Direction,
    pub distance: u128,
}

impl Direction {
    /// The zero vector.
    pub open spec fn rest() -> Direction {
        Direction { x: 0, y: 0 }
    }

    /// Whether this is the zero vector.
    pub open spec fn is_rest(self) -> bool {
        self.x == 0 && self.y == 0
    }

    /// The zero vector.
    pub fn zero() -> (direction: Direction)
        ensures
            direction == Direction::rest(),
    {
        Direction { x: 0, y: 0 }
    }

    /// Whether this is the zero vector.
    pub fn is_zero(&self) -> (zero: bool)
        ensures
            zero == self.is_rest(),
    {
        self.x == 0 && self.y == 0
    }
}

/// The step of one frame for something that heads along `direction` at
/// `speed` units per second while `delta` nanoseconds pass: none at rest,
/// else the full distance `speed * delta` along the direction, whatever the
/// length of the vector that gives it.
pub open spec fn step_for(direction: Direction, speed: u32, delta: u64) -> Option<Travel> {
    if direction.is_rest() {
        None
    } else {
        Some(Travel { direction, distance: (speed * delta) as u128 })
    }
}

/// How far a frame's step carries: its distance, or nothing without a step.
pub open spec fn step_length(step: Option<Travel>) -> nat {
    match step {
        Some(travel) => travel.distance as nat,
        None => 0,
    }
}

/// Computes the step of one frame.
pub fn plan_step(direction: Direction, speed: u32, delta: u64) -> (step: Option<Travel>)
    ensures
        step == step_for(direction, speed, delta),
        step is Some <==> !direction.is_rest(),
        step_length(step) <= speed * delta,
        !direction.is_rest() ==> step_length(step) == speed * delta,
{
    if direction.is_zero() {
        None
    } else {
        assert(speed * delta <= u128::MAX) by (nonlinear_arith)
            requires
                speed <= u32::MAX,
                delta <= u64::MAX,
        ;
        Some(Travel { direction, distance: speed as u128 * delta as u128 })
    }
}

} // verus!
