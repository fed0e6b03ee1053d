//! Cells of a market with a single item: supply and demand both refer to
//! that one item. Quantities are counts of a smallest unit that the
//! simulation chooses, the same unit for every cell.

use vstd::prelude::*;

use crate::price::Price;

verus! {

/// The most basic properties of a cell that can buy and sell the item.
///
/// Each query is free of side effects: it reports the value that the
/// corresponding spec function gives for the cell as it stands.
pub trait Trade {
    /// The quantity of the item the cell currently holds.
    spec fn spec_supply(&self) -> nat;

    /// The cell's demand for the item.
    spec fn spec_demand(&self) -> nat;

    /// The money the cell holds.
    spec fn spec_cash(&self) -> nat;

    /// Reports the quantity of the item currently owned as supply.
    fn supply(&self) -> (r: u64)
        ensures
            r == self.spec_supply(),
    ;

    /// Reports the demand for the item in the market.
    fn demand(&self) -> (r: u64)
        ensures
            r == self.spec_demand(),
    ;

    /// Reports the amount of money the cell possesses.
    fn cash(&self) -> (r: u64)
        ensures
            r == self.spec_cash(),
    ;
}

/// A balance of `before` became `after` when `moved` of a requested
/// `amount` was taken out: never more than asked for, nor than was there.
pub open spec fn moved_out(before: nat, after: nat, amount: u64, moved: u64) -> bool {
    &&& moved <= amount
    &&& moved <= before
    &&& after == before - moved
}

/// A balance of `before` became `after` when `moved` of a requested
/// `amount` was put in: never more than asked for.
pub open spec fn moved_in(before: nat, after: nat, amount: u64, moved: u64) -> bool {
    &&& moved <= amount
    &&& after == before + moved
}

/// Mutable operations that move cash and supply into or out of a cell.
///
/// Each returns the quantity actually moved, which may be less than the
/// amount requested (a lack of funds or stock, a limit on storage): callers
/// go by the returned quantity. An operation on cash leaves supply and
/// demand as they were, and one on supply leaves cash and demand.
pub trait Transact: Trade {
    fn withdraw_cash(&mut self, amount: u64) -> (r: u64)
        ensures
            moved_out(old(self).spec_cash(), final(self).spec_cash(), amount, r),
            final(self).spec_supply() == old(self).spec_supply(),
            final(self).spec_demand() == old(self).spec_demand(),
    ;

    fn deposit_cash(&mut self, amount: u64) -> (r: u64)
        ensures
            moved_in(old(self).spec_cash(), final(self).spec_cash(), amount, r),
            final(self).spec_supply() == old(self).spec_supply(),
            final(self).spec_demand() == old(self).spec_demand(),
    ;

    fn withdraw_supply(&mut self, amount: u64) -> (r: u64)
        ensures
            moved_out(old(self).spec_supply(), final(self).spec_supply(), amount, r),
            final(self).spec_cash() == old(self).spec_cash(),
            final(self).spec_demand() == old(self).spec_demand(),
    ;

    fn deposit_supply(&mut self, amount: u64) -> (r: u64)
        ensures
            moved_in(old(self).spec_supply(), final(self).spec_supply(), amount, r),
            final(self).spec_cash() == old(self).spec_cash(),
            final(self).spec_demand() == old(self).spec_demand(),
    ;
}

/// A deposit of `x` in cash followed at once by a withdrawal of `x` gives
/// back at most `x`, and leaves the cell with no more cash than it had plus
/// what the deposit actually moved in.
pub proof fn lemma_deposit_then_withdraw_cash<T: Trade>(
    start: T,
    mid: T,
    end: T,
    x: u64,
    deposited: u64,
    withdrawn: u64,
)
    requires
        moved_in(start.spec_cash(), mid.spec_cash(), x, deposited),
        moved_out(mid.spec_cash(), end.spec_cash(), x, withdrawn),
    ensures
        withdrawn <= x,
        end.spec_cash() <= start.spec_cash() + deposited,
        end.spec_cash() <= start.spec_cash() + x,
{
}

/// A price from the demand of one cell applied to the supply of another:
/// `cell_1.demand() / cell_2.supply()`. This is a local form of price that
/// ignores the second cell's demand. A zero supply is not guarded against.
pub fn price_for<T: Trade>(cell_1: &T, cell_2: &T) -> (r: Price)
    ensures
        r.numer == cell_1.spec_demand(),
        r.denom == cell_2.spec_supply(),
{
    Price { numer: cell_1.demand() as u128, denom: cell_2.supply() as u128 }
}

/// Like `price_for`, but the selling cell's demand counts as well:
/// `(cell_1.demand() + cell_2.demand()) / cell_2.supply()`. In a single
/// item market all demand is directed at the same item, so a seller may
/// take its own into account.
pub fn price_for_demand<T: Trade>(cell_1: &T, cell_2: &T) -> (r: Price)
    ensures
        r.numer == cell_1.spec_demand() + cell_2.spec_demand(),
        r.denom == cell_2.spec_supply(),
{
    let numer = cell_1.demand() as u128 + cell_2.demand() as u128;
    Price { numer, denom: cell_2.supply() as u128 }
}

/// Like `price_for`, but the first cell's demand is first divided by its own
/// supply: `(cell_1.demand() / cell_1.supply()) / cell_2.supply()`, which is
/// `cell_1.demand() / (cell_1.supply() * cell_2.supply())`. A cell holding
/// more of the item thus has its demand count for less.
pub fn price_self_supply<T: Trade>(cell_1: &T, cell_2: &T) -> (r: Price)
    ensures
        r.numer == cell_1.spec_demand(),
        r.denom == cell_1.spec_supply() * cell_2.spec_supply(),
{
    let s1 = cell_1.supply() as u128;
    let s2 = cell_2.supply() as u128;
    proof {
        vstd::arithmetic::mul::lemma_mul_upper_bound(
            s1 as int, u64::MAX as int, s2 as int, u64::MAX as int);
    }
    Price { numer: cell_1.demand() as u128, denom: s1 * s2 }
}

/// The cell holds more of the item than it demands.
pub open spec fn supply_major<T: Trade>(cell: T) -> bool {
    cell.spec_supply() > cell.spec_demand()
}

/// The cell demands more of the item than it holds.
pub open spec fn demand_major<T: Trade>(cell: T) -> bool {
    cell.spec_supply() < cell.spec_demand()
}

/// Determines if the cell has more supply than demand.
pub fn is_supply_major<T: Trade>(cell: &T) -> (r: bool)
    ensures
        r == supply_major(*cell),
{
    cell.supply() > cell.demand()
}

/// Determines if the cell has more demand than supply.
pub fn is_demand_major<T: Trade>(cell: &T) -> (r: bool)
    ensures
        r == demand_major(*cell),
{
    cell.supply() < cell.demand()
}

/// No cell is both supply-major and demand-major, and a cell whose supply
/// equals its demand is neither.
pub proof fn lemma_major_classes_exclusive<T: Trade>(cell: T)
    ensures
        !(supply_major(cell) && demand_major(cell)),
        cell.spec_supply() == cell.spec_demand() ==> !supply_major(cell) && !demand_major(cell),
{
}

/// Position `i` holds the first cell of greatest demand in `cells`: no cell
/// demands more, and every cell before it demands strictly less.
pub open spec fn is_first_max_demand<T: Trade>(cells: Seq<T>, i: int) -> bool {
    &&& 0 <= i < cells.len()
    &&& forall|j: int| 0 <= j < cells.len() ==> #[trigger] cells[j].spec_demand() <= cells[i].spec_demand()
    &&& forall|j: int| 0 <= j < i ==> #[trigger] cells[j].spec_demand() < cells[i].spec_demand()
}

/// A population has at most one first cell of greatest demand.
pub proof fn lemma_first_max_demand_unique<T: Trade>(cells: Seq<T>, i: int, k: int)
    requires
        is_first_max_demand(cells, i),
        is_first_max_demand(cells, k),
    ensures
        i == k,
{
    if i < k {
        assert(cells[i].spec_demand() < cells[k].spec_demand());
        assert(cells[i].spec_demand() >= cells[k].spec_demand());
    } else if k < i {
        assert(cells[k].spec_demand() < cells[i].spec_demand());
        assert(cells[k].spec_demand() >= cells[i].spec_demand());
    }
}

/// The position of the cell with the greatest demand, the first one of them
/// on a tie, or `None` for an empty population.
pub fn find_max_demand_index<T: Trade>(cells: &[T]) -> (r: Option<usize>)
    ensures
        r is None <==> cells@.len() == 0,
        r matches Some(i) ==> is_first_max_demand(cells@, i as int),
{
    if cells.len() == 0 {
        return None;
    }
    let mut best: usize = 0;
    let mut best_demand = cells[0].demand();
    let mut i: usize = 1;
    while i < cells.len()
        invariant
            1 <= i <= cells@.len(),
            best < i,
            best_demand == cells@[best as int].spec_demand(),
            forall|j: int| 0 <= j < i ==> #[trigger] cells@[j].spec_demand() <= best_demand,
            forall|j: int| 0 <= j < best ==> #[trigger] cells@[j].spec_demand() < best_demand,
        decreases cells@.len() - i,
    {
        let d = cells[i].demand();
        if d > best_demand {
            best = i;
            best_demand = d;
        }
        i += 1;
    }
    Some(best)
}

/// The cell with the greatest demand in a non-empty population; on a tie
/// the earliest one. The result borrows from `cells`.
pub fn find_max_demand<T: Trade>(cells: &[T]) -> (r: &T)
    requires
        cells@.len() > 0,
    ensures
        exists|i: int| is_first_max_demand(cells@, i) && *r == cells@[i],
{
    let i = find_max_demand_index(cells).unwrap();
    &cells[i]
}

} // verus!
