use double_auction::auction::{price_ladder, AuctionError, AuctionState, Identity};
use double_auction::pipeline::double_auction;
use double_auction::types::{Order, OrderInput, Trade};

fn account(last: u8) -> Identity {
    let mut bytes = [0u8; 21];
    bytes[20] = last;
    Identity { bytes }
}

fn order(id: i16, quantity_per_price: [i16; 6]) -> OrderInput {
    OrderInput { id, quantity_per_price }
}

fn worked_round() -> AuctionState {
    let mut state = AuctionState::initialize(account(1));
    state.input_sell_order(order(1, [0, 0, 5, 5, 10, 10]));
    state.input_buy_order(order(2, [10, 8, 5, 2, 0, 0]));
    state
}

#[test]
fn identities_compare_byte_by_byte() {
    assert!(account(1).same_as(&account(1)));
    assert!(!account(1).same_as(&account(2)));
    let mut other = account(1);
    other.bytes[0] = 1;
    assert!(!account(1).same_as(&other));
}

#[test]
fn only_the_holder_passes() {
    let state = AuctionState::initialize(account(1));
    assert_eq!(state.check_holder(&account(1)), Ok(()));
    assert_eq!(state.check_holder(&account(2)), Err(AuctionError::Authorization));
}

#[test]
fn price_ladder_from_zero_to_fifty() {
    assert_eq!(price_ladder(0, 50), [0, 10, 20, 30, 40, 50]);
}

#[test]
fn price_ladder_rounds_its_step_towards_zero() {
    assert_eq!(price_ladder(0, 52), [0, 10, 20, 30, 40, 50]);
    assert_eq!(price_ladder(0, 4), [0, 0, 0, 0, 0, 0]);
    assert_eq!(price_ladder(0, -7), [0, -1, -2, -3, -4, -5]);
    assert_eq!(price_ladder(50, 0), [50, 40, 30, 20, 10, 0]);
    assert_eq!(price_ladder(7, 7), [7, 7, 7, 7, 7, 7]);
}

#[test]
fn price_ladder_over_the_whole_range() {
    assert_eq!(price_ladder(-32768, 32767), [-32768, -19661, -6554, 6553, 19660, 32767]);
    assert_eq!(price_ladder(32767, -32768), [32767, 19660, 6553, -6554, -19661, -32768]);
}

#[test]
fn a_new_auction_is_empty() {
    let state = AuctionState::initialize(account(1));
    assert_eq!(state.auction_holder, account(1));
    assert_eq!(state.prices, [0, 0, 0, 0, 0, 0]);
    assert_eq!(state.market_clearing_price_index, None);
    assert!(state.matched_orders.is_empty());
    assert!(state.sell_orders.is_empty());
    assert!(state.buy_orders.is_empty());
    assert!(state.sell_order_inputs.is_empty());
    assert!(state.buy_order_inputs.is_empty());
}

#[test]
fn orders_are_appended_to_their_backlog() {
    let state = worked_round();
    assert_eq!(state.sell_order_inputs, vec![order(1, [0, 0, 5, 5, 10, 10])]);
    assert_eq!(state.buy_order_inputs, vec![order(2, [10, 8, 5, 2, 0, 0])]);
    assert_eq!(state.market_clearing_price_index, None);
}

#[test]
fn update_prices_by_the_holder() {
    let mut state = worked_round();
    assert_eq!(state.update_prices(&account(1), 0, 50), Ok(()));
    assert_eq!(state.prices, [0, 10, 20, 30, 40, 50]);
    assert_eq!(state.sell_order_inputs.len(), 1);
    assert_eq!(state.buy_order_inputs.len(), 1);
}

#[test]
fn update_prices_by_another_is_refused() {
    let mut state = worked_round();
    let before = state.clone();
    assert_eq!(state.update_prices(&account(2), 0, 50), Err(AuctionError::Authorization));
    assert_eq!(state, before);
}

#[test]
fn the_worked_round_clears_at_the_third_tier() {
    let mut state = worked_round();
    assert_eq!(state.update_prices(&account(1), 0, 50), Ok(()));
    assert!(state.can_clear());
    assert_eq!(state.hold_double_auction(&account(1)), Ok(()));
    assert_eq!(state.market_clearing_price_index, Some(2));
    assert_eq!(state.sell_orders, vec![Order { id: 1, quantity: 5 }]);
    assert_eq!(state.buy_orders, vec![Order { id: 2, quantity: 7 }]);
    assert_eq!(state.matched_orders, vec![Trade { buyer_id: 2, seller_id: 1, quantity: 5 }]);
    assert_eq!(state.prices[2], 20);
    assert_eq!(state.sell_order_inputs, vec![order(1, [0, 0, 5, 5, 10, 10])]);
    assert_eq!(state.buy_order_inputs, vec![order(2, [10, 8, 5, 2, 0, 0])]);
}

#[test]
fn clearing_by_another_is_refused() {
    let mut state = worked_round();
    let before = state.clone();
    assert_eq!(state.hold_double_auction(&account(9)), Err(AuctionError::Authorization));
    assert_eq!(state, before);
}

#[test]
fn clearing_twice_gives_the_same_trades() {
    let mut state = worked_round();
    state.input_sell_order(order(3, [1, 1, 1, 1, 1, 1]));
    state.input_buy_order(order(4, [0, 0, 0, 3, 3, 3]));
    assert_eq!(state.hold_double_auction(&account(1)), Ok(()));
    let once = state.clone();
    assert_eq!(state.hold_double_auction(&account(1)), Ok(()));
    assert_eq!(state, once);
    assert_eq!(state.matched_orders, once.matched_orders);
}

#[test]
fn reset_before_any_clearing_is_refused() {
    let mut state = worked_round();
    let before = state.clone();
    assert_eq!(state.reset_contract(&account(1)), Err(AuctionError::Precondition));
    assert_eq!(state, before);
}

#[test]
fn reset_by_another_is_refused() {
    let mut state = worked_round();
    assert_eq!(state.hold_double_auction(&account(1)), Ok(()));
    let before = state.clone();
    assert_eq!(state.reset_contract(&account(2)), Err(AuctionError::Authorization));
    assert_eq!(state, before);
    let mut fresh = AuctionState::initialize(account(1));
    assert_eq!(fresh.reset_contract(&account(2)), Err(AuctionError::Authorization));
}

#[test]
fn reset_after_a_clearing_empties_the_ledger() {
    let mut state = worked_round();
    assert_eq!(state.update_prices(&account(1), 0, 50), Ok(()));
    assert_eq!(state.hold_double_auction(&account(1)), Ok(()));
    assert_eq!(state.reset_contract(&account(1)), Ok(()));
    assert_eq!(state, AuctionState::initialize(account(1)));
}

#[test]
fn a_round_without_orders_clears_in_the_middle() {
    let mut state = AuctionState::initialize(account(1));
    assert_eq!(state.hold_double_auction(&account(1)), Ok(()));
    assert_eq!(state.market_clearing_price_index, Some(3));
    assert!(state.matched_orders.is_empty());
    assert_eq!(state.reset_contract(&account(1)), Ok(()));
}

#[test]
fn a_backlog_beyond_the_quantity_type_cannot_clear() {
    let mut state = AuctionState::initialize(account(1));
    state.input_sell_order(order(1, [32767, 1, 0, 0, 0, 0]));
    assert!(!state.can_clear());
    let mut state = AuctionState::initialize(account(1));
    state.input_buy_order(order(1, [20000, 0, 0, 0, 0, 0]));
    assert!(state.can_clear());
    state.input_buy_order(order(2, [20000, 0, 0, 0, 0, 0]));
    assert!(!state.can_clear());
}

#[test]
fn save_opened_variable_crosses_the_fills_of_the_ledger() {
    let mut state = AuctionState::initialize(account(1));
    state.sell_orders = vec![Order { id: 1, quantity: 5 }, Order { id: 2, quantity: 3 }];
    state.buy_orders = vec![Order { id: 10, quantity: 4 }, Order { id: 11, quantity: 4 }];
    state.matched_orders = vec![Trade { buyer_id: 0, seller_id: 0, quantity: 1 }];
    state.save_opened_variable();
    assert_eq!(
        state.matched_orders,
        vec![
            Trade { buyer_id: 10, seller_id: 1, quantity: 4 },
            Trade { buyer_id: 11, seller_id: 1, quantity: 1 },
            Trade { buyer_id: 11, seller_id: 2, quantity: 3 },
        ]
    );
}

#[test]
fn double_auction_with_several_orders_on_each_side() {
    let sells = vec![order(1, [0, 0, 5, 5, 10, 10]), order(3, [2, 0, 0, 0, 0, 0]), order(5, [0, 0, 0, 0, 0, 9])];
    let buys = vec![order(2, [10, 8, 5, 2, 0, 0]), order(4, [0, 0, 0, 4, 0, 0]), order(6, [0, 0, 0, 0, 0, 3])];
    let outcome = double_auction(&sells, &buys);
    assert_eq!(outcome.market_clearing_price_index, 3);
    assert_eq!(outcome.sell_orders, vec![Order { id: 1, quantity: 10 }, Order { id: 3, quantity: 2 }]);
    assert_eq!(
        outcome.buy_orders,
        vec![Order { id: 2, quantity: 2 }, Order { id: 4, quantity: 4 }, Order { id: 6, quantity: 3 }]
    );
    assert_eq!(
        outcome.matched_orders,
        vec![
            Trade { buyer_id: 2, seller_id: 1, quantity: 2 },
            Trade { buyer_id: 4, seller_id: 1, quantity: 4 },
            Trade { buyer_id: 6, seller_id: 1, quantity: 3 },
        ]
    );
}
