use double_auction::clearing::{calculate_market_clearing_price_index, distance};
use double_auction::fills::{calculate_buy_order_outputs, calculate_sell_order_outputs};
use double_auction::types::{Order, OrderInput};

fn order(id: i16, quantity_per_price: [i16; 6]) -> OrderInput {
    OrderInput { id, quantity_per_price }
}

#[test]
fn distance_is_the_absolute_difference() {
    assert_eq!(distance(5, 7), 2);
    assert_eq!(distance(7, 5), 2);
    assert_eq!(distance(-32768, 32767), 65535);
    assert_eq!(distance(4, 4), 0);
}

#[test]
fn clearing_tier_of_the_worked_round() {
    let supply: [i16; 6] = [0, 0, 5, 10, 20, 30];
    let demand: [i16; 6] = [25, 15, 7, 2, 0, 0];
    assert_eq!(calculate_market_clearing_price_index(supply, demand), 2);
}

#[test]
fn clearing_tier_of_equal_curves_is_the_middle_one() {
    assert_eq!(calculate_market_clearing_price_index([0; 6], [0; 6]), 3);
    assert_eq!(calculate_market_clearing_price_index([9; 6], [9; 6]), 3);
}

#[test]
fn clearing_tier_ties_go_to_the_tier_probed_first() {
    assert_eq!(calculate_market_clearing_price_index([9, 9, 1, 9, 1, 9], [0; 6]), 2);
    assert_eq!(calculate_market_clearing_price_index([1, 9, 9, 9, 9, 1], [0; 6]), 5);
    assert_eq!(calculate_market_clearing_price_index([9, 1, 9, 9, 9, 1], [0; 6]), 1);
    assert_eq!(calculate_market_clearing_price_index([1, 9, 9, 9, 9, 9], [0; 6]), 0);
    assert_eq!(calculate_market_clearing_price_index([2, 2, 2, 2, 1, 2], [0; 6]), 4);
}

#[test]
fn clearing_tier_with_every_gap_at_its_largest() {
    assert_eq!(calculate_market_clearing_price_index([32767; 6], [0; 6]), 3);
    assert_eq!(calculate_market_clearing_price_index([32767; 6], [-32768; 6]), 3);
    assert_eq!(
        calculate_market_clearing_price_index([32767, 32767, 32767, 32767, 32767, 32766], [-32768; 6]),
        5
    );
}

#[test]
fn clearing_tier_is_the_same_on_every_call() {
    let supply: [i16; 6] = [3, 8, 8, 12, 12, 40];
    let demand: [i16; 6] = [30, 14, 10, 10, 2, 0];
    let first = calculate_market_clearing_price_index(supply, demand);
    assert_eq!(first, 3);
    for _ in 0..10 {
        assert_eq!(calculate_market_clearing_price_index(supply, demand), first);
    }
}

#[test]
fn fills_are_read_at_the_clearing_tier() {
    let curves = vec![order(1, [0, 0, 5, 10, 20, 30]), order(2, [1, 2, 3, 4, 5, 6])];
    assert_eq!(
        calculate_sell_order_outputs(&curves, 2),
        vec![Order { id: 1, quantity: 5 }, Order { id: 2, quantity: 3 }]
    );
    assert_eq!(
        calculate_buy_order_outputs(&curves, 5),
        vec![Order { id: 1, quantity: 30 }, Order { id: 2, quantity: 6 }]
    );
}

#[test]
fn fills_leave_out_orders_with_nothing_at_the_tier() {
    let curves = vec![
        order(1, [0, 0, 5, 10, 20, 30]),
        order(2, [1, 2, 3, 4, 5, 6]),
        order(3, [0, 0, 0, 0, 0, 0]),
        order(4, [-4, 1, 1, 1, 1, 1]),
    ];
    assert_eq!(calculate_sell_order_outputs(&curves, 0), vec![Order { id: 2, quantity: 1 }]);
    assert_eq!(
        calculate_buy_order_outputs(&curves, 1),
        vec![Order { id: 2, quantity: 2 }, Order { id: 4, quantity: 1 }]
    );
}

#[test]
fn fills_are_never_empty_or_negative() {
    let curves = vec![order(1, [0, -1, 5, 0, -20, 30]), order(2, [1, 0, -3, 4, 0, 6])];
    for tier in 0..6 {
        for fill in calculate_sell_order_outputs(&curves, tier) {
            assert!(fill.quantity > 0);
        }
        for fill in calculate_buy_order_outputs(&curves, tier) {
            assert!(fill.quantity > 0);
        }
    }
}

#[test]
fn fills_outside_the_ladder_are_none() {
    let curves = vec![order(1, [1, 2, 3, 4, 5, 6])];
    assert_eq!(calculate_sell_order_outputs(&curves, 6), vec![]);
    assert_eq!(calculate_buy_order_outputs(&curves, -1), vec![]);
    assert_eq!(calculate_sell_order_outputs(&vec![], 3), vec![]);
}
