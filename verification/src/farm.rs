//! The whole game: the player, the ledger and the herd, moved on one frame
//! at a time.

use vstd::prelude::*;
use rand::rngs::StdRng;
use crate::economy::{Money, PIG_COST, PIG_PRICE, STARTING_BALANCE};
use crate::herd::{lists_expired, lists_steps, roamed, survivors, Handle, Herd};
use crate::motion::{step_for, Travel};
use crate::pig::{spawn_pig, Pig};
use crate::player::{character_movement, InputSnapshot, Player, PLAYER_SPEED};

verus! {

/// The state of a game.
#[derive(Debug)]
pub struct Farm {
    pub player: Player,
    pub money: Money,
    pub herd: Herd,
}

/// What one frame asks of the host.
#[derive(Debug, PartialEq, Eq)]
pub struct FrameReport {
    /// The step by which to move the player, if any.
    pub player_step: Option<Travel>,
    /// The pig that was bought in this frame, to be shown where the player
    /// stands.
    pub spawned: Option<Handle>,
    /// The pigs that were sold in this frame, to be taken away.
    pub sold: Vec<Handle>,
    /// The steps by which to move pigs.
    pub moves: Vec<(Handle, Travel)>,
}

/// The herd without the pig that was bought in this frame.
pub open spec fn without_newcomer(herd: Map<Handle, Pig>, spawned: Option<Handle>) -> Map<
    Handle,
    Pig,
> {
    match spawned {
        Some(handle) => herd.remove(handle),
        None => herd,
    }
}

/// A new game: the player at the starting speed, the starting balance, and
/// no pigs.
pub fn setup() -> (farm: Farm)
    ensures
        farm.player.speed == PLAYER_SPEED,
        farm.money@ == STARTING_BALANCE,
        farm.herd@ == Map::<Handle, Pig>::empty(),
        farm.herd.population() == 0,
        forall|h: Handle| !farm.herd.gone(h),
{
    Farm { player: Player::new(), money: Money::new(), herd: Herd::new() }
}

impl Farm {
    /// Whether the ledger has room for the sale of every pig in the herd,
    /// which is what `frame` asks for.
    pub open spec fn has_room(&self) -> bool {
        self.money@ + PIG_PRICE * self.herd.population() <= i64::MAX
    }

    /// Whether the ledger has room for the sale of every pig in the herd.
    pub fn can_sell_all(&self) -> (room: bool)
        ensures
            room == self.has_room(),
    {
        let balance: i128 = self.money.0 as i128;
        let pigs: i128 = self.herd.len() as i128;
        let price: i128 = PIG_PRICE as i128;
        assert(0 <= price * pigs <= 15 * 0x1_0000_0000_0000_0000) by (nonlinear_arith)
            requires
                price == 15,
                0 <= pigs <= 0x1_0000_0000_0000_0000,
        ;
        balance + price * pigs <= i64::MAX as i128
    }

    /// Moves the game on by one frame of `delta` nanoseconds.
    ///
    /// In turn: the player's step is planned from the direction keys; a pig
    /// is bought if the spawn key has just gone down and the balance covers
    /// it; every pig grows older and those whose time is up are sold and
    /// leave; the pigs that are left wander; last, the pig that was bought
    /// joins the herd, untouched by this frame. A pig that is sold in a frame
    /// takes no step in it.
    pub fn frame(&mut self, input: &InputSnapshot, delta: u64, rng: &mut StdRng) -> (report:
        FrameReport)
        requires
            old(self).has_room(),
        ensures
            final(self).player == old(self).player,
            report.player_step == step_for(input.heading(), old(self).player.speed, delta),
            !input.any_direction() ==> report.player_step is None,
            report.spawned is Some <==> input.spawn && old(self).money.affords_pig(),
            final(self).money@ == old(self).money@ - (if report.spawned is Some {
                PIG_COST as int
            } else {
                0
            }) + PIG_PRICE * report.sold@.len(),
            lists_expired(report.sold@, old(self).herd@, delta),
            roamed(
                survivors(old(self).herd@, delta),
                without_newcomer(final(self).herd@, report.spawned),
                delta,
            ),
            forall|h: Handle| #[trigger]
                survivors(old(self).herd@, delta).contains_key(h) ==> final(self).herd@[h].lifetime
                    == old(self).herd@[h].lifetime.ticked(delta) && final(self).herd@[h].speed
                    == old(self).herd@[h].speed,
            lists_steps(
                report.moves@,
                without_newcomer(final(self).herd@, report.spawned),
                delta,
            ),
            forall|k: int|
                0 <= k < report.moves@.len() ==> !report.sold@.contains(
                    (#[trigger] report.moves@[k]).0,
                ),
            report.spawned matches Some(handle) ==> {
                &&& !old(self).herd@.contains_key(handle)
                &&& !old(self).herd.gone(handle)
                &&& final(self).herd@.contains_key(handle)
                &&& final(self).herd@[handle] == Pig::newborn()
            },
            final(self).herd.population() + report.sold@.len() == old(self).herd.population() + (
            if report.spawned is Some {
                1int
            } else {
                0
            }),
            forall|h: Handle| report.sold@.contains(h) ==> final(self).herd.gone(h),
            forall|h: Handle| old(self).herd.gone(h) ==> final(self).herd.gone(h),
            old(self).herd.a_frame_before(&final(self).herd, delta),
    {
        let player_step = character_movement(&self.player, input, delta);
        let bought = spawn_pig(input.spawn, &mut self.money);
        let sold = self.herd.pig_lifetime(delta, &mut self.money);
        let moves = self.herd.pig_wander(delta, rng);
        let spawned = match bought {
            Some(pig) => Some(self.herd.insert(pig)),
            None => None,
        };
        FrameReport { player_step, spawned, sold, moves }
    }
}

} // verus!
