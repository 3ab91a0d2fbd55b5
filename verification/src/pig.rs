//! Pigs: bought at a price, wandering at random, sold when their time is up.

use vstd::prelude::*;
use rand::rngs::StdRng;
use crate::economy::{Money, PIG_COST};
use crate::motion::{plan_step, step_for, step_length, Direction, Travel};
use crate::random::draw_direction;
use crate::timer::{total_time, Timer, TimerMode};

verus! {

/// How long a pig lives: 25 seconds.
pub const PIG_LIFETIME: u64 = 25_000_000_000;

/// How often a pig picks a new heading: once a second.
pub const WANDER_PERIOD: u64 = 1_000_000_000;

/// Speed of a pig, in world units per second.
pub const PIG_SPEED: u32 = 50;

/// One pig.
#[derive(Clone, Copy, Debug, PartialEq, Eq, Structural)]
pub struct Pig {
    /// Runs once; the pig is sold in the frame in which it finishes.
    pub lifetime: Timer,
    /// World units per second.
    pub speed: u32,
    /// Repeats; each time it fires the pig picks a new heading.
    pub wander_timer: Timer,
    /// Where the pig is heading; at rest it stays where it is.
    pub direction: Direction,
}

impl Pig {
    /// A pig as it is bought: its whole life ahead, the first heading one
    /// period away, at rest until then.
    pub open spec fn newborn() -> Pig {
        Pig {
            lifetime: Timer::fresh(PIG_LIFETIME, TimerMode::Once),
            speed: PIG_SPEED,
            wander_timer: Timer::fresh(WANDER_PERIOD, TimerMode::Repeating),
            direction: Direction::rest(),
        }
    }

    /// Whether the pig's time is up.
    pub open spec fn expired(self) -> bool {
        self.lifetime.finished
    }

    /// The pig after `delta` of its life has passed.
    pub open spec fn aged(self, delta: u64) -> Pig {
        Pig { lifetime: self.lifetime.ticked(delta), ..self }
    }

    /// The pig after a run of frames of its life, one after the other.
    pub open spec fn aged_through(self, deltas: Seq<u64>) -> Pig
        decreases deltas.len(),
    {
        if deltas.len() == 0 {
            self
        } else {
            self.aged_through(deltas.drop_last()).aged(deltas.last())
        }
    }

    /// Growing older frame by frame changes nothing but the lifetime timer,
    /// which is ticked once for each frame.
    pub proof fn lemma_aged_through_ticks_lifetime(self, deltas: Seq<u64>)
        ensures
            self.aged_through(deltas) == (Pig {
                lifetime: self.lifetime.ticked_through(deltas),
                ..self
            }),
        decreases deltas.len(),
    {
        if deltas.len() > 0 {
            self.lemma_aged_through_ticks_lifetime(deltas.drop_last());
        }
    }

    /// However the time is cut into frames, a pig's time is up exactly when
    /// the frames it has lived through since it was bought add up to
    /// `PIG_LIFETIME` or more; so it is once they add up to exactly that.
    pub proof fn lemma_newborn_expires_on_time(deltas: Seq<u64>)
        ensures
            Pig::newborn().aged_through(deltas).expired() <==> total_time(deltas) >= PIG_LIFETIME,
            total_time(deltas) == PIG_LIFETIME ==> Pig::newborn().aged_through(deltas).expired(),
    {
        Pig::newborn().lemma_aged_through_ticks_lifetime(deltas);
        Pig::newborn().lifetime.lemma_once_finishes_on_time(deltas);
    }

    /// Whether the pig picks a new heading in a frame of `delta`.
    pub open spec fn turns(self, delta: u64) -> bool {
        self.wander_timer.ticked(delta).finished
    }

    /// The pig after the wander step of a frame of `delta`, where `draw` is
    /// the heading that was drawn for it. Where the wander timer fires, the
    /// draw becomes the heading and the timer starts over from zero, also
    /// where the frame spans more than one period; where it does not fire,
    /// the draw is not looked at.
    pub open spec fn wandered(self, delta: u64, draw: Direction) -> Pig {
        if self.turns(delta) {
            Pig {
                wander_timer: self.wander_timer.ticked(delta).restarted(),
                direction: draw,
                ..self
            }
        } else {
            Pig { wander_timer: self.wander_timer.ticked(delta), ..self }
        }
    }

    /// Whether `after` is what the wander step of a frame of `delta` can
    /// make of this pig, for some heading in the range that they are drawn
    /// from.
    pub open spec fn may_wander_to(self, after: Pig, delta: u64) -> bool {
        exists|draw: Direction| draw.is_draw() && after == #[trigger] self.wandered(delta, draw)
    }

    /// The step that the pig takes in a frame of `delta`, with the heading
    /// it has after the wander step.
    pub open spec fn step(self, delta: u64) -> Option<Travel> {
        step_for(self.direction, self.speed, delta)
    }

    /// Creates a pig as it is bought.
    pub fn new() -> (pig: Pig)
        ensures
            pig == Pig::newborn(),
    {
        Pig {
            lifetime: Timer::new(PIG_LIFETIME, TimerMode::Once),
            speed: PIG_SPEED,
            wander_timer: Timer::new(WANDER_PERIOD, TimerMode::Repeating),
            direction: Direction::zero(),
        }
    }

    /// Lets `delta` of the pig's life pass and says whether its time is up.
    pub fn age(&mut self, delta: u64) -> (expired: bool)
        ensures
            *final(self) == old(self).aged(delta),
            expired == final(self).expired(),
    {
        self.lifetime.tick(delta);
        self.lifetime.finished
    }

    /// The wander step of one frame, with the heading to take should the
    /// wander timer fire. Returns the step that the pig takes in this frame:
    /// none at rest, else the full distance `speed * delta` along its
    /// heading, whatever the length of the drawn vector.
    pub fn wander_with(&mut self, delta: u64, draw: Direction) -> (step: Option<Travel>)
        ensures
            *final(self) == old(self).wandered(delta, draw),
            step == final(self).step(delta),
            step is Some <==> !final(self).direction.is_rest(),
            step_length(step) <= final(self).speed * delta,
            !final(self).direction.is_rest() ==> step_length(step) == final(self).speed * delta,
    {
        self.wander_timer.tick(delta);
        if self.wander_timer.finished {
            self.direction = draw;
            self.wander_timer.reset();
        }
        plan_step(self.direction, self.speed, delta)
    }

    /// The wander step of one frame, drawing the new heading from `rng`
    /// where the wander timer fires.
    pub fn wander(&mut self, delta: u64, rng: &mut StdRng) -> (step: Option<Travel>)
        ensures
            old(self).may_wander_to(*final(self), delta),
            old(self).turns(delta) ==> final(self).direction.is_draw(),
            !old(self).turns(delta) ==> final(self).direction == old(self).direction,
            step == final(self).step(delta),
            step is Some <==> !final(self).direction.is_rest(),
            step_length(step) <= final(self).speed * delta,
            !final(self).direction.is_rest() ==> step_length(step) == final(self).speed * delta,
    {
        let mut probe = self.wander_timer;
        probe.tick(delta);
        let draw = if probe.finished {
            draw_direction(rng)
        } else {
            Direction::zero()
        };
        self.wander_with(delta, draw)
    }
}

/// The spawner: buys a pig where the spawn key has just gone down and the
/// balance is strictly above the cost. The cost is then taken from the
/// balance and the new pig returned. In every other frame nothing happens:
/// no pig, and the balance stays as it is.
pub fn spawn_pig(just_pressed: bool, money: &mut Money) -> (bought: Option<Pig>)
    ensures
        bought is Some <==> just_pressed && old(money).affords_pig(),
        bought is Some ==> bought == Some(Pig::newborn()) && final(money)@ == old(money)@
            - PIG_COST,
        bought is None ==> *final(money) == *old(money),
{
    if just_pressed && money.buy_pig() {
        Some(Pig::new())
    } else {
        None
    }
}

} // verus!
