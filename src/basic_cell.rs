//! A plain cell that holds its supply, demand and cash as fields.

use vstd::prelude::*;

use crate::single_item::{Trade, Transact};

verus! {

/// A cell whose state is exactly its three fields.
///
/// Its policy on transactions: a withdrawal moves what was asked for, or the
/// whole balance if that is less; a deposit moves what was asked for, or as
/// much as keeps the balance within `u64::MAX` if that is less.
#[derive(Clone, Copy, Debug, PartialEq, Eq, Structural)]
pub struct BasicCell {
    pub supply: u64,
    pub demand: u64,
    pub cash: u64,
}

/// The part of `amount` that can leave a balance of `balance`.
fn take_from(balance: u64, amount: u64) -> (r: u64)
    ensures
        r == if amount <= balance { amount } else { balance },
{
    if amount <= balance {
        amount
    } else {
        balance
    }
}

/// The part of `amount` that a balance of `balance` can receive.
fn room_for(balance: u64, amount: u64) -> (r: u64)
    ensures
        r == if amount <= u64::MAX - balance { amount } else { (u64::MAX - balance) as u64 },
{
    let room = u64::MAX - balance;
    if amount <= room {
        amount
    } else {
        room
    }
}

impl Trade for BasicCell {
    open spec fn spec_supply(&self) -> nat {
        self.supply as nat
    }

    open spec fn spec_demand(&self) -> nat {
        self.demand as nat
    }

    open spec fn spec_cash(&self) -> nat {
        self.cash as nat
    }

    fn supply(&self) -> (r: u64) {
        self.supply
    }

    fn demand(&self) -> (r: u64) {
        self.demand
    }

    fn cash(&self) -> (r: u64) {
        self.cash
    }
}

impl Transact for BasicCell {
    fn withdraw_cash(&mut self, amount: u64) -> (r: u64)
        ensures
            r == if amount <= old(self).cash { amount } else { old(self).cash },
    {
        let moved = take_from(self.cash, amount);
        self.cash = self.cash - moved;
        moved
    }

    fn deposit_cash(&mut self, amount: u64) -> (r: u64)
        ensures
            r == if amount <= u64::MAX - old(self).cash { amount } else { (u64::MAX - old(self).cash) as u64 },
    {
        let moved = room_for(self.cash, amount);
        self.cash = self.cash + moved;
        moved
    }

    fn withdraw_supply(&mut self, amount: u64) -> (r: u64)
        ensures
            r == if amount <= old(self).supply { amount } else { old(self).supply },
    {
        let moved = take_from(self.supply, amount);
        self.supply = self.supply - moved;
        moved
    }

    fn deposit_supply(&mut self, amount: u64) -> (r: u64)
        ensures
            r == if amount <= u64::MAX - old(self).supply { amount } else { (u64::MAX - old(self).supply) as u64 },
    {
        let moved = room_for(self.supply, amount);
        self.supply = self.supply + moved;
        moved
    }
}

} // verus!
