//! The ledger: one balance, debited when a pig is bought and credited when
//! one is sold.

use vstd::prelude::*;

verus! {

/// Balance a new game starts with.
pub const STARTING_BALANCE: i64 = 100;

/// Price of one pig. A purchase needs a balance strictly above it.
pub const PIG_COST: i64 = 10;

/// What a pig brings in when its time is up.
pub const PIG_PRICE: i64 = 15;

/// The player's balance in whole currency units.
///
/// Nothing keeps the balance from being negative; purchases are refused
/// before they could make it so, sales are booked unconditionally.
#[derive(Clone, Copy, Debug, PartialEq, Eq, Structural)]
pub struct Money(pub i64);

impl View for Money {
    type V = int;

    open spec fn view(&self) -> int {
        self.0 as int
    }
}

impl Money {
    /// The ledger of a new game.
    pub fn new() -> (money: Money)
        ensures
            money@ == STARTING_BALANCE,
    {
        Money(STARTING_BALANCE)
    }

    /// Whether the balance covers a pig: strictly more than its cost.
    pub open spec fn affords_pig(self) -> bool {
        self@ > PIG_COST
    }

    /// The ledger after an attempt to buy a pig: debited by the cost where
    /// the balance covers it, untouched where it does not.
    pub open spec fn after_purchase(self) -> Money {
        if self.affords_pig() {
            Money((self.0 - PIG_COST) as i64)
        } else {
            self
        }
    }

    /// Tries to pay for one pig and says whether the purchase went through.
    /// A balance that does not cover the cost is left as it is.
    pub fn buy_pig(&mut self) -> (bought: bool)
        ensures
            bought == old(self).affords_pig(),
            *final(self) == old(self).after_purchase(),
    {
        if self.0 > PIG_COST {
            self.0 = self.0 - PIG_COST;
            true
        } else {
            false
        }
    }

    /// Books the sale of one pig.
    pub fn sell_pig(&mut self)
        requires
            old(self)@ + PIG_PRICE <= i64::MAX,
        ensures
            final(self)@ == old(self)@ + PIG_PRICE,
    {
        self.0 = self.0 + PIG_PRICE;
    }
}

} // verus!
