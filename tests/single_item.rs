use sapphire_cells::basic_cell::BasicCell;
use sapphire_cells::price::Price;
use sapphire_cells::single_item::{
    find_max_demand, find_max_demand_index, is_demand_major, is_supply_major, price_for,
    price_for_demand, price_self_supply, Trade, Transact,
};

// Quantities are counted in tenths of a unit where the values have a decimal.
fn trader() -> BasicCell {
    BasicCell { supply: 1, demand: 2, cash: 10 }
}

fn customer(demand: u64) -> BasicCell {
    BasicCell { supply: 7, demand, cash: 50 }
}

#[test]
fn it_works() {
    assert_eq!(2 + 2, 4);
}

#[test]
fn price_for_works() {
    let a = trader();
    let b = trader();
    assert!(price_for(&a, &b).is_whole(2));
    assert_eq!(price_for(&a, &b), Price { numer: 2, denom: 1 });
}

#[test]
fn price_for_demand_works() {
    let a = trader();
    let b = trader();
    assert!(price_for_demand(&a, &b).is_whole(4));
}

#[test]
fn price_self_supply_works() {
    let a = trader();
    let b = trader();
    assert!(price_self_supply(&a, &b).is_whole(2));
}

#[test]
fn find_max_demand_works() {
    let lst = [customer(42), customer(22), customer(63)];
    let maxer = find_max_demand(&lst);
    assert_eq!(maxer.demand(), 63);
}

#[test]
fn find_max_demand_index_is_third() {
    let lst = [customer(42), customer(22), customer(63)];
    assert_eq!(find_max_demand_index(&lst), Some(2));
}

#[test]
fn find_max_demand_keeps_first_on_tie() {
    let lst = [customer(10), customer(30), customer(5), customer(30)];
    assert_eq!(find_max_demand_index(&lst), Some(1));
    let first = find_max_demand(&lst);
    assert!(std::ptr::eq(first, &lst[1]));
}

#[test]
fn find_max_demand_single_cell() {
    let lst = [customer(0)];
    assert_eq!(find_max_demand_index(&lst), Some(0));
}

#[test]
fn find_max_demand_index_empty_population() {
    let lst: [BasicCell; 0] = [];
    assert_eq!(find_max_demand_index(&lst), None);
}

#[test]
fn price_formulas_exact_values() {
    let a = BasicCell { supply: 2, demand: 12, cash: 0 };
    let b = BasicCell { supply: 3, demand: 9, cash: 0 };
    assert_eq!(price_for(&a, &b), Price { numer: 12, denom: 3 });
    assert!(price_for(&a, &b).is_whole(4));
    assert_eq!(price_for_demand(&a, &b), Price { numer: 21, denom: 3 });
    assert!(price_for_demand(&a, &b).is_whole(7));
    assert_eq!(price_self_supply(&a, &b), Price { numer: 12, denom: 6 });
    assert!(price_self_supply(&a, &b).is_whole(2));
    assert_eq!(price_for(&b, &a), Price { numer: 9, denom: 2 });
    assert!(!price_for(&b, &a).is_whole(4));
    assert!(!price_for(&b, &a).is_whole(5));
}

#[test]
fn price_for_demand_largest_quantities() {
    let a = BasicCell { supply: u64::MAX, demand: u64::MAX, cash: 0 };
    let p = price_for_demand(&a, &a);
    assert_eq!(p.numer, 2 * (u64::MAX as u128));
    assert!(p.is_whole(2));
    let q = price_self_supply(&a, &a);
    assert_eq!(q.denom, (u64::MAX as u128) * (u64::MAX as u128));
}

#[test]
fn price_for_zero_supply_is_infinite() {
    let a = trader();
    let b = BasicCell { supply: 0, demand: 2, cash: 10 };
    let p = price_for(&a, &b);
    assert!(p.is_infinite());
    assert!(!p.is_finite());
    assert!(!p.is_undefined());
    assert!(!p.is_whole(0));
    assert!(price_for_demand(&a, &b).is_infinite());
}

#[test]
fn price_zero_over_zero_is_undefined() {
    let a = BasicCell { supply: 0, demand: 0, cash: 0 };
    let p = price_for(&a, &a);
    assert!(p.is_undefined());
    assert!(!p.is_infinite());
    assert!(!p.is_finite());
}

#[test]
fn price_self_supply_zero_own_supply_is_infinite() {
    let a = BasicCell { supply: 0, demand: 5, cash: 0 };
    let b = trader();
    assert!(price_self_supply(&a, &b).is_infinite());
}

#[test]
fn demand_major_cell() {
    let c = BasicCell { supply: 7, demand: 63, cash: 50 };
    assert!(is_demand_major(&c));
    assert!(!is_supply_major(&c));
}

#[test]
fn supply_major_cell() {
    let c = BasicCell { supply: 63, demand: 7, cash: 50 };
    assert!(is_supply_major(&c));
    assert!(!is_demand_major(&c));
}

#[test]
fn balanced_cell_is_neither() {
    let c = BasicCell { supply: 5, demand: 5, cash: 0 };
    assert!(!is_supply_major(&c));
    assert!(!is_demand_major(&c));
}

#[test]
fn deposit_then_withdraw_cash() {
    let mut c = BasicCell { supply: 1, demand: 1, cash: 10 };
    let deposited = c.deposit_cash(5);
    let withdrawn = c.withdraw_cash(5);
    assert_eq!(deposited, 5);
    assert_eq!(withdrawn, 5);
    assert!(c.cash() <= 10 + deposited);
    assert_eq!(c.cash(), 10);
}

#[test]
fn deposit_then_withdraw_cash_near_limit() {
    let mut c = BasicCell { supply: 1, demand: 1, cash: u64::MAX - 3 };
    let deposited = c.deposit_cash(10);
    assert_eq!(deposited, 3);
    assert_eq!(c.cash(), u64::MAX);
    let withdrawn = c.withdraw_cash(10);
    assert_eq!(withdrawn, 10);
    assert!(withdrawn <= 10);
    assert_eq!(c.cash(), u64::MAX - 10);
}

#[test]
fn withdraw_cash_is_partial_when_short() {
    let mut c = BasicCell { supply: 4, demand: 2, cash: 3 };
    assert_eq!(c.withdraw_cash(8), 3);
    assert_eq!(c.cash(), 0);
    assert_eq!(c.supply(), 4);
    assert_eq!(c.demand(), 2);
}

#[test]
fn withdraw_and_deposit_supply() {
    let mut c = BasicCell { supply: 4, demand: 2, cash: 3 };
    assert_eq!(c.withdraw_supply(1), 1);
    assert_eq!(c.supply(), 3);
    assert_eq!(c.withdraw_supply(9), 3);
    assert_eq!(c.supply(), 0);
    assert_eq!(c.deposit_supply(6), 6);
    assert_eq!(c.supply(), 6);
    assert_eq!(c.cash(), 3);
    assert_eq!(c.demand(), 2);
}

#[test]
fn deposit_supply_stops_at_limit() {
    let mut c = BasicCell { supply: u64::MAX - 1, demand: 0, cash: 0 };
    assert_eq!(c.deposit_supply(5), 1);
    assert_eq!(c.supply(), u64::MAX);
}
