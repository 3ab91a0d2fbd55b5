//! The player and the movement that the direction keys ask for.

use vstd::prelude::*;
use crate::motion::{plan_step, step_for, step_length, Direction, Travel};

verus! {

/// Speed of the player in a new game, in world units per second.
pub const PLAYER_SPEED: u32 = 100;

/// The player's avatar.
#[derive(Clone, Copy, Debug, PartialEq, Eq, Structural)]
pub struct Player {
    /// World units per second.
    pub speed: u32,
}

/// What the keys say during one frame.
#[derive(Clone, Copy, Debug, PartialEq, Eq, Structural)]
pub struct InputSnapshot {
    /// The four direction keys, each true while held.
    pub up: bool,
    pub down: bool,
    pub left: bool,
    pub right: bool,
    /// The spawn key, true only in the frame in which it went down.
    pub spawn: bool,
}

/// What a pair of opposite keys adds up to along their axis.
pub open spec fn axis(forward: bool, backward: bool) -> int {
    (if forward { 1int } else { 0int }) - (if backward { 1int } else { 0int })
}

impl Player {
    /// The player of a new game.
    pub fn new() -> (player: Player)
        ensures
            player.speed == PLAYER_SPEED,
    {
        Player { speed: PLAYER_SPEED }
    }
}

impl InputSnapshot {
    /// Whether any direction key is held.
    pub open spec fn any_direction(self) -> bool {
        self.up || self.down || self.left || self.right
    }

    /// Where the held direction keys point together: each key adds one step
    /// along its axis, so opposite keys cancel.
    pub open spec fn heading(self) -> Direction {
        Direction { x: axis(self.right, self.left) as i32, y: axis(self.up, self.down) as i32 }
    }

    /// Where the held direction keys point together.
    pub fn direction(&self) -> (direction: Direction)
        ensures
            direction == self.heading(),
            !self.any_direction() ==> direction.is_rest(),
    {
        let mut x: i32 = 0;
        let mut y: i32 = 0;
        if self.up {
            y = y + 1;
        }
        if self.down {
            y = y - 1;
        }
        if self.right {
            x = x + 1;
        }
        if self.left {
            x = x - 1;
        }
        Direction { x, y }
    }
}

/// The player's step for one frame of `delta` nanoseconds.
///
/// Without a direction key there is no step, and neither where the held keys
/// cancel. Any other combination gives a step of exactly `speed * delta`, on
/// a diagonal as along an axis.
pub fn character_movement(player: &Player, input: &InputSnapshot, delta: u64) -> (step: Option<
    Travel,
>)
    ensures
        step == step_for(input.heading(), player.speed, delta),
        !input.any_direction() ==> step is None,
        step is Some <==> !input.heading().is_rest(),
        step_length(step) <= player.speed * delta,
        !input.heading().is_rest() ==> step_length(step) == player.speed * delta,
{
    plan_step(input.direction(), player.speed, delta)
}

/// The length of the player's step never exceeds `speed * delta`, and it
/// equals `speed * delta` exactly when a direction key is held.
///
/// Two kinds of frame are left out, on which the second half does not hold:
/// one in which the held keys cancel while `speed * delta` is positive (no
/// step although a key is held), and one without any key in which
/// `speed * delta` is zero (both sides are zero although no key is held).
pub proof fn lemma_step_length_is_speed_times_time(player: Player, input: InputSnapshot, delta: u64)
    requires
        !(input.any_direction() && input.heading().is_rest() && player.speed * delta > 0),
        !(!input.any_direction() && player.speed * delta == 0),
    ensures
        step_length(step_for(input.heading(), player.speed, delta)) <= player.speed * delta,
        step_length(step_for(input.heading(), player.speed, delta)) == player.speed * delta
            <==> input.any_direction(),
{
    assert(0 <= player.speed * delta <= u128::MAX) by (nonlinear_arith)
        requires
            0 <= player.speed <= u32::MAX,
            0 <= delta <= u64::MAX,
    ;
}

} // verus!
