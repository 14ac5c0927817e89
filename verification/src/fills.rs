//! Reading each order's fill at the clearing tier.

use vstd::prelude::*;
use crate::types::{quantity_at, Order, OrderInput};

verus! {

/// The fills of `orders` at `tier`: for each order whose curve is positive
/// there, its identifier and that quantity, in the order of submission.
pub open spec fn fills(orders: Seq<OrderInput>, tier: int) -> Seq<Order>
    decreases orders.len(),
{
    if orders.len() == 0 {
        Seq::empty()
    } else {
        let earlier = fills(orders.drop_last(), tier);
        let quantity = quantity_at(orders.last(), tier);
        if quantity > 0 {
            earlier.push(Order { id: orders.last().id, quantity: quantity as i16 })
        } else {
            earlier
        }
    }
}

/// Every quantity of the list is above zero.
pub open spec fn all_positive(orders: Seq<Order>) -> bool {
    forall|k: int| 0 <= k < orders.len() ==> (#[trigger] orders[k]).quantity > 0
}

/// No fill is ever empty or negative.
pub proof fn lemma_fills_positive(orders: Seq<OrderInput>, tier: int)
    ensures
        all_positive(fills(orders, tier)),
        fills(orders, tier).len() <= orders.len(),
    decreases orders.len(),
{
    if orders.len() > 0 {
        lemma_fills_positive(orders.drop_last(), tier);
    }
}

fn quantity_at_tier(order: &OrderInput, tier: i16) -> (quantity: i16)
    ensures
        quantity == quantity_at(*order, tier as int),
{
    let mut quantity: i16 = 0;
    for i in 0usize..6usize
        invariant
            quantity == (if 0 <= tier < i { quantity_at(*order, tier as int) } else { 0 }),
    {
        if tier == i as i16 {
            quantity = order.quantity_per_price[i];
        }
    }
    quantity
}

fn fills_at(orders: &Vec<OrderInput>, tier: i16) -> (outputs: Vec<Order>)
    ensures
        outputs@ == fills(orders@, tier as int),
        all_positive(outputs@),
{
    let mut outputs: Vec<Order> = Vec::new();
    let n: usize = orders.len();
    for k in 0usize..n
        invariant
            n == orders@.len(),
            outputs@ == fills(orders@.take(k as int), tier as int),
    {
        proof {
            assert(orders@.take(k + 1).drop_last() =~= orders@.take(k as int));
            assert(orders@.take(k + 1).last() == orders@[k as int]);
        }
        let quantity: i16 = quantity_at_tier(&orders[k], tier);
        if quantity > 0 {
            outputs.push(Order { id: orders[k].id, quantity });
        }
    }
    proof {
        assert(orders@.take(n as int) =~= orders@);
        lemma_fills_positive(orders@, tier as int);
    }
    outputs
}

/// The sellers' fills at the clearing tier. A seller whose curve is not
/// positive there takes no part and is left out.
pub fn calculate_sell_order_outputs(
    sell_orders: &Vec<OrderInput>,
    market_clearing_price_index: i16,
) -> (sell_order_outputs: Vec<Order>)
    ensures
        sell_order_outputs@ == fills(sell_orders@, market_clearing_price_index as int),
        all_positive(sell_order_outputs@),
{
    fills_at(sell_orders, market_clearing_price_index)
}

/// The buyers' fills at the clearing tier. A buyer whose curve is not
/// positive there takes no part and is left out.
pub fn calculate_buy_order_outputs(
    buy_orders: &Vec<OrderInput>,
    market_clearing_price_index: i16,
) -> (buy_order_outputs: Vec<Order>)
    ensures
        buy_order_outputs@ == fills(buy_orders@, market_clearing_price_index as int),
        all_positive(buy_order_outputs@),
{
    fills_at(buy_orders, market_clearing_price_index)
}

} // verus!
