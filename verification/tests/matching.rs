use double_auction::matching::match_orders;
use double_auction::types::{Order, Trade};

fn fill(id: i16, quantity: i16) -> Order {
    Order { id, quantity }
}

fn trade(buyer_id: i16, seller_id: i16, quantity: i16) -> Trade {
    Trade { buyer_id, seller_id, quantity }
}

fn traded(trades: &Vec<Trade>) -> i32 {
    let mut sum: i32 = 0;
    for item in trades {
        sum += item.quantity as i32;
    }
    sum
}

fn offered(orders: &Vec<Order>) -> i32 {
    let mut sum: i32 = 0;
    for item in orders {
        sum += item.quantity as i32;
    }
    sum
}

#[test]
fn equal_heads_leave_together() {
    let trades = match_orders(&vec![fill(1, 5), fill(2, 3)], &vec![fill(10, 5), fill(11, 3)]);
    assert_eq!(trades, vec![trade(10, 1, 5), trade(11, 2, 3)]);
}

#[test]
fn smaller_seller_is_served_and_the_buyer_stays() {
    let trades = match_orders(&vec![fill(1, 5)], &vec![fill(10, 7)]);
    assert_eq!(trades, vec![trade(10, 1, 5)]);
}

#[test]
fn remainders_carry_over_within_the_pass() {
    let sells = vec![fill(1, 5), fill(2, 3)];
    let buys = vec![fill(10, 4), fill(11, 4)];
    let trades = match_orders(&sells, &buys);
    assert_eq!(trades, vec![trade(10, 1, 4), trade(11, 1, 1), trade(11, 2, 3)]);
    assert_eq!(traded(&trades), 8);
}

#[test]
fn what_is_left_on_the_longer_side_is_dropped() {
    let sells = vec![fill(1, 10)];
    let buys = vec![fill(10, 3), fill(11, 2)];
    let trades = match_orders(&sells, &buys);
    assert_eq!(trades, vec![trade(10, 1, 3), trade(11, 1, 2)]);
    assert_eq!(traded(&trades), offered(&buys));
    assert!(traded(&trades) <= offered(&sells));
}

#[test]
fn an_empty_side_gives_no_trade() {
    assert_eq!(match_orders(&vec![], &vec![fill(10, 3)]), vec![]);
    assert_eq!(match_orders(&vec![fill(1, 3)], &vec![]), vec![]);
    assert_eq!(match_orders(&vec![], &vec![]), vec![]);
}

#[test]
fn empty_fills_are_passed_over() {
    let trades = match_orders(&vec![fill(1, 0), fill(2, 5)], &vec![fill(10, 5)]);
    assert_eq!(trades, vec![trade(10, 2, 5)]);
    let trades = match_orders(&vec![fill(1, 0)], &vec![fill(10, 0)]);
    assert_eq!(trades, vec![]);
    let trades = match_orders(&vec![fill(1, 4)], &vec![fill(10, 0), fill(11, 0), fill(12, 6)]);
    assert_eq!(trades, vec![trade(12, 1, 4)]);
}

#[test]
fn trades_move_the_smaller_of_the_two_totals() {
    let sells = vec![fill(1, 7), fill(2, 1), fill(3, 20), fill(4, 2)];
    let buys = vec![fill(10, 2), fill(11, 9), fill(12, 4)];
    let trades = match_orders(&sells, &buys);
    assert_eq!(
        trades,
        vec![trade(10, 1, 2), trade(11, 1, 5), trade(11, 2, 1), trade(11, 3, 3), trade(12, 3, 4)]
    );
    assert_eq!(traded(&trades), 15);
    assert_eq!(offered(&buys), 15);
    assert_eq!(offered(&sells), 30);
    for item in &trades {
        assert!(item.quantity > 0);
    }
}

#[test]
fn the_largest_quantities_cross_without_loss() {
    let trades = match_orders(&vec![fill(1, 32767), fill(2, 32767)], &vec![fill(10, 1), fill(11, 32767)]);
    assert_eq!(trades, vec![trade(10, 1, 1), trade(11, 1, 32766), trade(11, 2, 1)]);
}
