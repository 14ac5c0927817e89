use double_auction::curve::{
    aggregate_buy_orders, aggregate_sell_orders, buy_curve, calculate_total_demand,
    calculate_total_supply, check_totals_fit, sell_curve,
};
use double_auction::pipeline::{check_order_fits, check_side_fits};
use double_auction::types::{OrderInput, Trade};

fn order(id: i16, quantity_per_price: [i16; 6]) -> OrderInput {
    OrderInput { id, quantity_per_price }
}

#[test]
fn new_trade_keeps_its_three_fields() {
    let trade = Trade::new_trade(7, 9, 12);
    assert_eq!(trade.buyer_id, 7);
    assert_eq!(trade.seller_id, 9);
    assert_eq!(trade.quantity, 12);
}

#[test]
fn sell_curve_runs_forward() {
    let curve = sell_curve(order(1, [0, 0, 5, 5, 10, 10]));
    assert_eq!(curve.id, 1);
    assert_eq!(curve.quantity_per_price, [0, 0, 5, 10, 20, 30]);
}

#[test]
fn buy_curve_runs_backward() {
    let curve = buy_curve(order(2, [10, 8, 5, 2, 0, 0]));
    assert_eq!(curve.id, 2);
    assert_eq!(curve.quantity_per_price, [25, 15, 7, 2, 0, 0]);
}

#[test]
fn sell_curve_never_falls_with_the_tier() {
    let curve = sell_curve(order(3, [4, 0, 9, 1, 0, 6]));
    for tier in 1..6 {
        assert!(curve.quantity_per_price[tier] >= curve.quantity_per_price[tier - 1]);
    }
}

#[test]
fn buy_curve_never_falls_as_the_tier_drops() {
    let curve = buy_curve(order(3, [4, 0, 9, 1, 0, 6]));
    assert_eq!(curve.quantity_per_price, [20, 16, 16, 7, 6, 6]);
    for tier in 0..5 {
        assert!(curve.quantity_per_price[tier] >= curve.quantity_per_price[tier + 1]);
    }
}

#[test]
fn aggregate_sell_orders_keeps_the_order_of_submission() {
    let inputs = vec![order(1, [1, 1, 1, 1, 1, 1]), order(2, [0, 2, 0, 2, 0, 2])];
    let curves = aggregate_sell_orders(&inputs);
    assert_eq!(curves, vec![order(1, [1, 2, 3, 4, 5, 6]), order(2, [0, 2, 2, 4, 4, 6])]);
}

#[test]
fn aggregate_buy_orders_keeps_the_order_of_submission() {
    let inputs = vec![order(1, [1, 1, 1, 1, 1, 1]), order(2, [0, 2, 0, 2, 0, 2])];
    let curves = aggregate_buy_orders(&inputs);
    assert_eq!(curves, vec![order(1, [6, 5, 4, 3, 2, 1]), order(2, [6, 6, 4, 4, 2, 2])]);
}

#[test]
fn aggregate_of_nothing_is_nothing() {
    assert_eq!(aggregate_sell_orders(&vec![]), vec![]);
    assert_eq!(aggregate_buy_orders(&vec![]), vec![]);
}

#[test]
fn totals_of_no_order_are_zero() {
    assert_eq!(calculate_total_supply(&[]), [0, 0, 0, 0, 0, 0]);
    assert_eq!(calculate_total_demand(&[]), [0, 0, 0, 0, 0, 0]);
}

#[test]
fn totals_add_tier_by_tier() {
    let curves = [order(1, [1, 2, 3, 4, 5, 6]), order(2, [0, 2, 2, 4, 4, 6]), order(3, [9, 9, 9, 9, 9, 9])];
    assert_eq!(calculate_total_supply(&curves), [10, 13, 14, 17, 18, 21]);
    assert_eq!(calculate_total_demand(&curves), [10, 13, 14, 17, 18, 21]);
}

#[test]
fn totals_do_not_depend_on_the_order_of_arrival() {
    let a = order(1, [1, 2, 3, 4, 5, 6]);
    let b = order(2, [0, 2, 2, 4, 4, 6]);
    let c = order(3, [7, 7, 8, 8, 9, 9]);
    let expected = calculate_total_supply(&[a, b, c]);
    assert_eq!(calculate_total_supply(&[c, a, b]), expected);
    assert_eq!(calculate_total_supply(&[b, c, a]), expected);
    assert_eq!(calculate_total_supply(&[c, b, a]), expected);
}

#[test]
fn totals_pass_through_sums_beyond_the_type_on_the_way() {
    let curves = [
        order(1, [32767, 0, 0, 0, 0, 0]),
        order(2, [32767, 0, 0, 0, 0, 0]),
        order(3, [-32767, 0, 0, 0, 0, 0]),
        order(4, [-32767, 0, 0, 0, 0, 0]),
    ];
    assert_eq!(calculate_total_supply(&curves), [0, 0, 0, 0, 0, 0]);
}

#[test]
fn an_order_fits_when_its_running_sums_do() {
    assert!(check_order_fits(&order(1, [32767, 0, 0, 0, 0, 0]), true));
    assert!(!check_order_fits(&order(1, [32767, 1, 0, 0, 0, 0]), true));
    assert!(!check_order_fits(&order(1, [32767, 1, 0, 0, 0, 0]), false));
    assert!(check_order_fits(&order(1, [32767, 1, -1, 0, 0, 0]), false));
    assert!(!check_order_fits(&order(1, [32767, 1, -1, 0, 0, 0]), true));
    assert!(!check_order_fits(&order(1, [0, 0, 0, 0, -32768, -1]), false));
}

#[test]
fn a_side_fits_when_its_orders_and_its_totals_do() {
    let half = order(1, [0, 0, 0, 0, 0, 16384]);
    assert!(check_side_fits(&vec![half], true));
    assert!(!check_side_fits(&vec![half, half], true));
    assert!(check_side_fits(&vec![], false));
    assert!(!check_side_fits(&vec![order(1, [32767, 1, 0, 0, 0, 0])], true));
    let most = order(2, [16383, 0, 0, 0, 0, 0]);
    assert!(check_side_fits(&vec![half, most], false));
    assert!(!check_side_fits(&vec![half, most, order(3, [1, 0, 0, 0, 0, 0])], false));
}

#[test]
fn totals_fit_when_every_tier_does() {
    assert!(check_totals_fit(&[]));
    let half = order(1, [0, 0, 0, 0, 0, 16384]);
    assert!(check_totals_fit(&[half]));
    assert!(!check_totals_fit(&[half, half]));
    assert!(check_totals_fit(&[half, half, order(2, [0, 0, 0, 0, 0, -1])]));
    let low = order(3, [-16384, 0, 0, 0, 0, 0]);
    assert!(check_totals_fit(&[low, low]));
    assert!(!check_totals_fit(&[low, low, order(4, [-1, 0, 0, 0, 0, 0])]));
}
