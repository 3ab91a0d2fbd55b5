//! The herd: every pig that is alive, each under a handle that stays its own.
//!
//! Pigs live in numbered slots. A handle names a slot and the generation of
//! its tenant. A slot that has been vacated takes its next tenant under the
//! next generation, and a slot whose generations have run out is never used
//! again, so the handle of a pig that has left never comes to name another.

use vstd::prelude::*;
use rand::rngs::StdRng;
use crate::economy::{Money, PIG_PRICE};
use crate::motion::Travel;
use crate::pig::Pig;
use crate::timer::{total_time, TimerMode};

verus! {

/// The name of one pig in a herd.
#[derive(Clone, Copy, Debug, PartialEq, Eq, Hash, Structural)]
pub struct Handle {
    pub index: usize,
    pub generation: u64,
}

/// One slot: the generation of its latest tenant, and the tenant while it
/// is there.
#[derive(Clone, Copy, Debug)]
struct Slot {
    generation: u64,
    pig: Option<Pig>,
}

/// All the pigs that are alive.
#[derive(Debug)]
pub struct Herd {
    slots: Vec<Slot>,
}

/// How many of the slots have a tenant.
spec fn tenants(slots: Seq<Slot>) -> nat
    decreases slots.len(),
{
    if slots.len() == 0 {
        0
    } else {
        tenants(slots.drop_last()) + if slots.last().pig is Some {
            1nat
        } else {
            0nat
        }
    }
}

proof fn lemma_tenants_bound(slots: Seq<Slot>)
    ensures
        tenants(slots) <= slots.len(),
    decreases slots.len(),
{
    if slots.len() > 0 {
        lemma_tenants_bound(slots.drop_last());
    }
}

proof fn lemma_tenants_push(slots: Seq<Slot>, slot: Slot)
    ensures
        tenants(slots.push(slot)) == tenants(slots) + if slot.pig is Some {
            1nat
        } else {
            0nat
        },
{
    assert(slots.push(slot).drop_last() =~= slots);
}

proof fn lemma_tenants_update(slots: Seq<Slot>, i: int, slot: Slot)
    requires
        0 <= i < slots.len(),
    ensures
        tenants(slots.update(i, slot)) + (if slots[i].pig is Some {
            1nat
        } else {
            0nat
        }) == tenants(slots) + if slot.pig is Some {
            1nat
        } else {
            0nat
        },
    decreases slots.len(),
{
    if i == slots.len() - 1 {
        assert(slots.update(i, slot).drop_last() =~= slots.drop_last());
    } else {
        lemma_tenants_update(slots.drop_last(), i, slot);
        assert(slots.update(i, slot).drop_last() =~= slots.drop_last().update(i, slot));
    }
}

proof fn lemma_tenants_prefix(slots: Seq<Slot>, i: int)
    requires
        0 <= i < slots.len(),
    ensures
        tenants(slots.take(i + 1)) == tenants(slots.take(i)) + if slots[i].pig is Some {
            1nat
        } else {
            0nat
        },
{
    assert(slots.take(i + 1).drop_last() =~= slots.take(i));
}

/// The slot after the lifetime pass: a tenant whose time is up has left,
/// any other is older by `delta`.
spec fn culled(slot: Slot, delta: u64) -> Slot {
    match slot.pig {
        Some(pig) => Slot {
            generation: slot.generation,
            pig: if pig.aged(delta).expired() {
                None
            } else {
                Some(pig.aged(delta))
            },
        },
        None => slot,
    }
}

/// Whether the lifetime pass sells the tenant of the slot.
spec fn sells(slot: Slot, delta: u64) -> bool {
    slot.pig is Some && slot.pig->0.aged(delta).expired()
}

/// Whether the wander pass can turn the slot `before` into the slot `after`.
spec fn roams(before: Slot, after: Slot, delta: u64) -> bool {
    &&& after.generation == before.generation
    &&& after.pig is Some <==> before.pig is Some
    &&& before.pig is Some ==> before.pig->0.may_wander_to(after.pig->0, delta)
}

/// The pigs that are still alive once `delta` of their lives has passed,
/// each older by `delta`.
pub open spec fn survivors(before: Map<Handle, Pig>, delta: u64) -> Map<Handle, Pig> {
    Map::new(
        |h: Handle| before.contains_key(h) && !before[h].aged(delta).expired(),
        |h: Handle| before[h].aged(delta),
    )
}

/// Whether `sold` names, each once, the pigs of `before` whose time is up
/// once `delta` of their lives has passed, and nothing else.
pub open spec fn lists_expired(sold: Seq<Handle>, before: Map<Handle, Pig>, delta: u64) -> bool {
    &&& sold.no_duplicates()
    &&& forall|h: Handle|
        sold.contains(h) <==> before.contains_key(h) && before[h].aged(delta).expired()
}

/// Whether `after` is what the wander pass of a frame of `delta` can make of
/// `before`: the same pigs under the same handles, each changed as its own
/// wander step allows.
pub open spec fn roamed(before: Map<Handle, Pig>, after: Map<Handle, Pig>, delta: u64) -> bool {
    &&& after.dom() =~= before.dom()
    &&& forall|h: Handle| #[trigger]
        before.contains_key(h) ==> before[h].may_wander_to(after[h], delta)
}

/// Whether some entry of `moves` is for the pig `handle`.
pub open spec fn moves_pig(moves: Seq<(Handle, Travel)>, handle: Handle) -> bool {
    exists|k: int| 0 <= k < moves.len() && (#[trigger] moves[k]).0 == handle
}

/// Whether `moves` holds, once each, the pigs of `herd` that are not at
/// rest, each with the step it takes in a frame of `delta`, and nothing
/// else.
pub open spec fn lists_steps(moves: Seq<(Handle, Travel)>, herd: Map<Handle, Pig>, delta: u64) -> bool {
    &&& forall|k: int|
        0 <= k < moves.len() ==> herd.contains_key((#[trigger] moves[k]).0) && herd[moves[k].0].step(
            delta,
        ) == Some(moves[k].1)
    &&& forall|h: Handle|
        herd.contains_key(h) && !herd[h].direction.is_rest() ==> #[trigger] moves_pig(moves, h)
    &&& forall|a: int, b: int|
        0 <= a < b < moves.len() ==> (#[trigger] moves[a]).0 != (#[trigger] moves[b]).0
}

/// The tenants of the slots, each under the handle made of its slot's
/// number and generation.
spec fn housed(slots: Seq<Slot>) -> Map<Handle, Pig> {
    Map::new(
        |h: Handle|
            h.index < slots.len() && slots[h.index as int].generation == h.generation
                && slots[h.index as int].pig is Some,
        |h: Handle| slots[h.index as int].pig->0,
    )
}

proof fn lemma_housed_counts_tenants(slots: Seq<Slot>)
    requires
        slots.len() <= usize::MAX,
    ensures
        housed(slots).dom().finite(),
        housed(slots).dom().len() == tenants(slots),
    decreases slots.len(),
{
    if slots.len() == 0 {
        assert(housed(slots).dom() =~= Set::<Handle>::empty());
    } else {
        let rest = slots.drop_last();
        let last = slots.last();
        lemma_housed_counts_tenants(rest);
        let name = Handle { index: rest.len() as usize, generation: last.generation };
        if last.pig is Some {
            assert(housed(slots).dom() =~= housed(rest).dom().insert(name));
        } else {
            assert(housed(slots).dom() =~= housed(rest).dom());
        }
    }
}

impl View for Herd {
    type V = Map<Handle, Pig>;

    /// The pigs that are alive, by handle.
    closed spec fn view(&self) -> Map<Handle, Pig> {
        housed(self.slots@)
    }
}

impl Herd {
    /// How many pigs are alive.
    pub closed spec fn population(&self) -> nat {
        tenants(self.slots@)
    }

    /// Whether `handle` named a pig that has left this herd. Such a handle
    /// names no pig now, and no operation of this module brings it back.
    pub closed spec fn gone(&self, handle: Handle) -> bool {
        &&& handle.index < self.slots@.len()
        &&& {
            let slot = self.slots@[handle.index as int];
            slot.generation > handle.generation || (slot.generation == handle.generation
                && slot.pig is None)
        }
    }

    /// The population is the number of handles that name a pig.
    pub proof fn lemma_population_counts_handles(&self)
        ensures
            self@.dom().finite(),
            self@.dom().len() == self.population(),
    {
        assert(self.slots@.len() == self.slots.len());
        lemma_housed_counts_tenants(self.slots@);
    }

    /// A handle that is gone names no pig.
    pub proof fn lemma_gone_is_absent(&self, handle: Handle)
        requires
            self.gone(handle),
        ensures
            !self@.contains_key(handle),
    {
    }

    /// Whether `later` can be this herd one frame of `delta` on, as far as
    /// the lives of its pigs go: each pig whose time is up after `delta` is
    /// gone, each other pig is still there with `delta` more on its lifetime
    /// timer, and what was gone is gone.
    pub open spec fn a_frame_before(&self, later: &Herd, delta: u64) -> bool {
        &&& forall|h: Handle| #[trigger]
            self@.contains_key(h) ==> if self@[h].aged(delta).expired() {
                later.gone(h)
            } else {
                later@.contains_key(h) && later@[h].lifetime == self@[h].lifetime.ticked(delta)
            }
        &&& forall|h: Handle| self.gone(h) ==> later.gone(h)
    }

    /// Over any run of frames, a pig whose lifetime timer is running stays in
    /// the herd for as long as the frames add up to less than what is left
    /// of its life. From the frame on in which they reach it, the pig is gone:
    /// its handle names nothing, in that frame's herd and in every later one.
    pub proof fn lemma_pig_leaves_on_time(herds: Seq<Herd>, deltas: Seq<u64>, handle: Handle)
        requires
            herds.len() == deltas.len() + 1,
            forall|i: int|
                0 <= i < deltas.len() ==> (#[trigger] herds[i]).a_frame_before(
                    &herds[i + 1],
                    deltas[i],
                ),
            herds[0]@.contains_key(handle),
            herds[0]@[handle].lifetime.mode == TimerMode::Once,
            !herds[0]@[handle].lifetime.finished,
            herds[0]@[handle].lifetime.elapsed <= herds[0]@[handle].lifetime.duration,
        ensures
            ({
                let lifetime = herds[0]@[handle].lifetime;
                if deltas.len() > 0 && lifetime.elapsed + total_time(deltas) >= lifetime.duration {
                    herds.last().gone(handle) && !herds.last()@.contains_key(handle)
                } else {
                    herds.last()@.contains_key(handle) && herds.last()@[handle].lifetime
                        == lifetime.ticked_through(deltas)
                }
            }),
        decreases deltas.len(),
    {
        if deltas.len() > 0 {
            herds[0]@[handle].lifetime.lemma_once_finishes_on_time(deltas.drop_last());
            Self::lemma_pig_leaves_on_time(herds.drop_last(), deltas.drop_last(), handle);
        }
    }

    /// An empty herd.
    pub fn new() -> (herd: Herd)
        ensures
            herd@ == Map::<Handle, Pig>::empty(),
            herd.population() == 0,
            forall|h: Handle| !herd.gone(h),
    {
        let herd = Herd { slots: Vec::new() };
        herd
    }

    /// How many pigs are alive.
    pub fn len(&self) -> (count: usize)
        ensures
            count == self.population(),
    {
        let mut count: usize = 0;
        let mut i: usize = 0;
        while i < self.slots.len()
            invariant
                i <= self.slots@.len(),
                count == tenants(self.slots@.take(i as int)),
            decreases self.slots@.len() - i,
        {
            proof {
                lemma_tenants_prefix(self.slots@, i as int);
                lemma_tenants_bound(self.slots@.take(i as int));
            }
            if self.slots[i].pig.is_some() {
                count = count + 1;
            }
            i = i + 1;
        }
        assert(self.slots@.take(i as int) =~= self.slots@);
        count
    }

    /// The pig that `handle` names, if it is alive.
    pub fn get(&self, handle: Handle) -> (pig: Option<Pig>)
        ensures
            pig == if self@.contains_key(handle) {
                Some(self@[handle])
            } else {
                None
            },
    {
        if handle.index < self.slots.len() && self.slots[handle.index].generation
            == handle.generation {
            self.slots[handle.index].pig
        } else {
            None
        }
    }

    /// Takes a pig into the herd and returns the handle it goes by from now
    /// on: one that names no other pig and never did.
    pub fn insert(&mut self, pig: Pig) -> (handle: Handle)
        ensures
            !old(self)@.contains_key(handle),
            !old(self).gone(handle),
            final(self)@ == old(self)@.insert(handle, pig),
            final(self).population() == old(self).population() + 1,
            forall|h: Handle| old(self).gone(h) ==> final(self).gone(h),
    {
        let mut i: usize = 0;
        while i < self.slots.len()
            invariant
                i <= self.slots@.len(),
                self.slots@ == old(self).slots@,
            decreases self.slots@.len() - i,
        {
            let slot = self.slots[i];
            if slot.pig.is_none() && slot.generation < u64::MAX {
                let handle = Handle { index: i, generation: slot.generation + 1 };
                proof {
                    lemma_tenants_update(
                        self.slots@,
                        i as int,
                        Slot { generation: handle.generation, pig: Some(pig) },
                    );
                }
                self.slots[i] = Slot { generation: handle.generation, pig: Some(pig) };
                return handle;
            }
            i = i + 1;
        }
        let handle = Handle { index: self.slots.len(), generation: 0 };
        proof {
            lemma_tenants_push(self.slots@, Slot { generation: 0, pig: Some(pig) });
        }
        self.slots.push(Slot { generation: 0, pig: Some(pig) });
        handle
    }

    /// The lifetime pass of one frame: every pig grows older by `delta`.
    /// Each pig whose time is up is sold for `PIG_PRICE` and leaves the herd
    /// for good; the handles of those pigs are returned.
    pub fn pig_lifetime(&mut self, delta: u64, money: &mut Money) -> (sold: Vec<Handle>)
        requires
            old(money)@ + PIG_PRICE * old(self).population() <= i64::MAX,
        ensures
            final(self)@ == survivors(old(self)@, delta),
            lists_expired(sold@, old(self)@, delta),
            final(money)@ == old(money)@ + PIG_PRICE * sold@.len(),
            final(self).population() + sold@.len() == old(self).population(),
            forall|h: Handle| sold@.contains(h) ==> final(self).gone(h),
            forall|h: Handle| old(self).gone(h) ==> final(self).gone(h),
            old(self).a_frame_before(final(self), delta),
    {
        let ghost before = self.slots@;
        let ghost funds = money@;
        let n: usize = self.slots.len();
        let mut sold: Vec<Handle> = Vec::new();
        let mut i: usize = 0;
        while i < n
            invariant
                i <= n,
                n == before.len(),
                self.slots@.len() == n,
                forall|j: int| 0 <= j < i ==> self.slots@[j] == culled(#[trigger] before[j], delta),
                forall|j: int| i <= j < n ==> self.slots@[j] == #[trigger] before[j],
                forall|k: int|
                    0 <= k < sold@.len() ==> (#[trigger] sold@[k]).index < i && sells(
                        before[sold@[k].index as int],
                        delta,
                    ) && sold@[k].generation == before[sold@[k].index as int].generation,
                forall|j: int|
                    0 <= j < i && sells(#[trigger] before[j], delta) ==> sold@.contains(
                        Handle { index: j as usize, generation: before[j].generation },
                    ),
                forall|a: int, b: int|
                    0 <= a < b < sold@.len() ==> (#[trigger] sold@[a]).index < (
                    #[trigger] sold@[b]).index,
                money@ == funds + PIG_PRICE * sold@.len(),
                tenants(self.slots@) + sold@.len() == tenants(before),
                funds + PIG_PRICE * tenants(before) <= i64::MAX,
            decreases n - i,
        {
            let slot = self.slots[i];
            let ghost listed = sold@;
            match slot.pig {
                Some(tenant) => {
                    let mut pig = tenant;
                    let expired = pig.age(delta);
                    let after = Slot {
                        generation: slot.generation,
                        pig: if expired {
                            None
                        } else {
                            Some(pig)
                        },
                    };
                    proof {
                        lemma_tenants_update(self.slots@, i as int, after);
                    }
                    self.slots[i] = after;
                    if expired {
                        money.sell_pig();
                        let handle = Handle { index: i, generation: slot.generation };
                        sold.push(handle);
                        assert(sold@[listed.len() as int] == handle);
                        assert forall|j: int|
                            0 <= j < i + 1 && sells(#[trigger] before[j], delta) implies sold@.contains(
                            Handle { index: j as usize, generation: before[j].generation },
                        ) by {
                            let h = Handle { index: j as usize, generation: before[j].generation };
                            if j < i {
                                let k = choose|k: int| 0 <= k < listed.len() && listed[k] == h;
                                assert(sold@[k] == h);
                            }
                        }
                    }
                },
                None => {},
            }
            i = i + 1;
        }
        sold
    }

    /// The wander pass of one frame: every pig lets `delta` run on its
    /// wander timer and, where it fires, draws a new heading from `rng`.
    /// Returned are the steps of this frame, one for each pig that is not at
    /// rest. No pig joins or leaves.
    pub fn pig_wander(&mut self, delta: u64, rng: &mut StdRng) -> (moves: Vec<(Handle, Travel)>)
        ensures
            roamed(old(self)@, final(self)@, delta),
            forall|h: Handle| #[trigger]
                old(self)@.contains_key(h) ==> final(self)@[h].lifetime == old(self)@[h].lifetime
                    && final(self)@[h].speed == old(self)@[h].speed,
            lists_steps(moves@, final(self)@, delta),
            final(self).population() == old(self).population(),
            forall|h: Handle| old(self).gone(h) <==> final(self).gone(h),
    {
        let ghost before = self.slots@;
        let n: usize = self.slots.len();
        let mut moves: Vec<(Handle, Travel)> = Vec::new();
        let mut i: usize = 0;
        while i < n
            invariant
                i <= n,
                n == before.len(),
                self.slots@.len() == n,
                forall|j: int| 0 <= j < i ==> roams(#[trigger] before[j], self.slots@[j], delta),
                forall|j: int| i <= j < n ==> self.slots@[j] == #[trigger] before[j],
                forall|k: int|
                    0 <= k < moves@.len() ==> {
                        let slot = self.slots@[(#[trigger] moves@[k]).0.index as int];
                        &&& moves@[k].0.index < i
                        &&& slot.generation == moves@[k].0.generation
                        &&& slot.pig is Some
                        &&& slot.pig->0.step(delta) == Some(moves@[k].1)
                    },
                forall|j: int|
                    0 <= j < i && (#[trigger] self.slots@[j]).pig is Some
                        && !self.slots@[j].pig->0.direction.is_rest() ==> moves_pig(
                        moves@,
                        Handle { index: j as usize, generation: self.slots@[j].generation },
                    ),
                forall|a: int, b: int|
                    0 <= a < b < moves@.len() ==> (#[trigger] moves@[a]).0.index < (
                    #[trigger] moves@[b]).0.index,
                tenants(self.slots@) == tenants(before),
            decreases n - i,
        {
            let slot = self.slots[i];
            let ghost listed = moves@;
            match slot.pig {
                Some(tenant) => {
                    let mut pig = tenant;
                    let step = pig.wander(delta, rng);
                    let after = Slot { generation: slot.generation, pig: Some(pig) };
                    proof {
                        lemma_tenants_update(self.slots@, i as int, after);
                    }
                    self.slots[i] = after;
                    let handle = Handle { index: i, generation: slot.generation };
                    match step {
                        Some(travel) => {
                            moves.push((handle, travel));
                        },
                        None => {},
                    }
                    proof {
                        assert forall|j: int|
                            0 <= j < i + 1 && (#[trigger] self.slots@[j]).pig is Some
                                && !self.slots@[j].pig->0.direction.is_rest() implies moves_pig(
                            moves@,
                            Handle { index: j as usize, generation: self.slots@[j].generation },
                        ) by {
                            let h = Handle {
                                index: j as usize,
                                generation: self.slots@[j].generation,
                            };
                            if j < i {
                                let k = choose|k: int| 0 <= k < listed.len() && listed[k].0 == h;
                                assert(moves@[k].0 == h);
                            } else {
                                assert(moves@[listed.len() as int].0 == h);
                            }
                        }
                    }
                },
                None => {},
            }
            i = i + 1;
        }
        moves
    }
}

} // verus!
