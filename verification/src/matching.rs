//! Crossing the sellers' fills against the buyers' fills.

use vstd::prelude::*;
use crate::types::{Order, Trade};

verus! {

/// The trade that a crossing step emits: none when nothing changes hands.
pub open spec fn emitted(buyer_id: i16, seller_id: i16, quantity: int) -> Seq<Trade> {
    if quantity > 0 {
        seq![Trade { buyer_id, seller_id, quantity: quantity as i16 }]
    } else {
        Seq::empty()
    }
}

/// `order` with `taken` units less.
pub open spec fn reduced(order: Order, taken: int) -> Order {
    Order { id: order.id, quantity: (order.quantity - taken) as i16 }
}

/// The trades of a first-come, first-served crossing. The heads of the two
/// lists are compared; the smaller one is served in full and leaves, the
/// larger one stays with what is left of it; equal heads leave together.
/// The crossing ends when either list is used up.
pub open spec fn crossing(sellers: Seq<Order>, buyers: Seq<Order>) -> Seq<Trade>
    decreases sellers.len() + buyers.len(),
{
    if sellers.len() == 0 || buyers.len() == 0 {
        Seq::empty()
    } else {
        let seller = sellers[0];
        let buyer = buyers[0];
        if seller.quantity == buyer.quantity {
            emitted(buyer.id, seller.id, buyer.quantity as int)
                + crossing(sellers.skip(1), buyers.skip(1))
        } else if seller.quantity < buyer.quantity {
            emitted(buyer.id, seller.id, seller.quantity as int)
                + crossing(sellers.skip(1), buyers.update(0, reduced(buyer, seller.quantity as int)))
        } else {
            emitted(buyer.id, seller.id, buyer.quantity as int)
                + crossing(sellers.update(0, reduced(seller, buyer.quantity as int)), buyers.skip(1))
        }
    }
}

/// No quantity of the list is negative.
pub open spec fn none_negative(orders: Seq<Order>) -> bool {
    forall|k: int| 0 <= k < orders.len() ==> (#[trigger] orders[k]).quantity >= 0
}

/// The sum of the quantities of a list of fills.
pub open spec fn fill_total(orders: Seq<Order>) -> int
    decreases orders.len(),
{
    if orders.len() == 0 {
        0
    } else {
        orders[0].quantity + fill_total(orders.skip(1))
    }
}

/// The sum of the quantities of a list of trades.
pub open spec fn traded_total(trades: Seq<Trade>) -> int
    decreases trades.len(),
{
    if trades.len() == 0 {
        0
    } else {
        trades[0].quantity + traded_total(trades.skip(1))
    }
}

/// Every trade of the list moves at least one unit.
pub open spec fn all_trades_positive(trades: Seq<Trade>) -> bool {
    forall|k: int| 0 <= k < trades.len() ==> (#[trigger] trades[k]).quantity > 0
}

/// Tells whether no quantity of the list is negative.
pub fn check_none_negative(orders: &Vec<Order>) -> (valid: bool)
    ensures
        valid == none_negative(orders@),
{
    let mut valid: bool = true;
    let n: usize = orders.len();
    for k in 0usize..n
        invariant
            n == orders@.len(),
            valid == (forall|j: int| 0 <= j < k ==> (#[trigger] orders@[j]).quantity >= 0),
    {
        if orders[k].quantity < 0 {
            valid = false;
        }
    }
    valid
}

/// Crosses the two sides, each in the order of submission, and returns the
/// trades. What is left on the longer side is dropped.
pub fn match_orders(sell_orders: &Vec<Order>, buy_orders: &Vec<Order>) -> (trades: Vec<Trade>)
    requires
        none_negative(sell_orders@),
        none_negative(buy_orders@),
    ensures
        trades@ == crossing(sell_orders@, buy_orders@),
        all_trades_positive(trades@),
        traded_total(trades@) <= fill_total(sell_orders@),
        traded_total(trades@) <= fill_total(buy_orders@),
        traded_total(trades@) == fill_total(sell_orders@)
            || traded_total(trades@) == fill_total(buy_orders@),
{
    let mut trades: Vec<Trade> = Vec::new();
    let sell_count: usize = sell_orders.len();
    let buy_count: usize = buy_orders.len();
    let mut sell_index: usize = 0;
    let mut buy_index: usize = 0;
    if sell_count == 0 || buy_count == 0 {
        proof {
            lemma_crossing_total(sell_orders@, buy_orders@);
        }
        return trades;
    }
    let mut seller: Order = sell_orders[0];
    let mut buyer: Order = buy_orders[0];
    proof {
        assert(sell_orders@.skip(0).update(0, seller) =~= sell_orders@);
        assert(buy_orders@.skip(0).update(0, buyer) =~= buy_orders@);
        assert(trades@ + crossing(sell_orders@, buy_orders@) =~= crossing(sell_orders@, buy_orders@));
    }
    while sell_index < sell_count && buy_index < buy_count
        invariant
            sell_count == sell_orders@.len(),
            buy_count == buy_orders@.len(),
            sell_index <= sell_count,
            buy_index <= buy_count,
            none_negative(sell_orders@),
            none_negative(buy_orders@),
            sell_index < sell_count ==> seller.id == sell_orders@[sell_index as int].id
                && 0 <= seller.quantity <= sell_orders@[sell_index as int].quantity,
            buy_index < buy_count ==> buyer.id == buy_orders@[buy_index as int].id
                && 0 <= buyer.quantity <= buy_orders@[buy_index as int].quantity,
            sell_index < sell_count && buy_index < buy_count ==>
                trades@ + crossing(
                    sell_orders@.skip(sell_index as int).update(0, seller),
                    buy_orders@.skip(buy_index as int).update(0, buyer),
                ) == crossing(sell_orders@, buy_orders@),
            !(sell_index < sell_count && buy_index < buy_count) ==>
                trades@ == crossing(sell_orders@, buy_orders@),
        decreases (sell_count - sell_index) + (buy_count - buy_index),
    {
        let ghost sellers = sell_orders@.skip(sell_index as int).update(0, seller);
        let ghost buyers = buy_orders@.skip(buy_index as int).update(0, buyer);
        let ghost before = trades@;
        let quantity: i16 = if seller.quantity < buyer.quantity {
            seller.quantity
        } else {
            buyer.quantity
        };
        if quantity > 0 {
            trades.push(Trade::new_trade(buyer.id, seller.id, quantity));
        }
        let seller_leaves: bool = seller.quantity <= buyer.quantity;
        let buyer_leaves: bool = buyer.quantity <= seller.quantity;
        let ghost emitted_now = emitted(buyer.id, seller.id, quantity as int);
        assert(trades@ =~= before + emitted_now);
        if seller_leaves {
            sell_index = sell_index + 1;
        }
        if buyer_leaves {
            buy_index = buy_index + 1;
        }
        let ghost old_seller = seller;
        let ghost old_buyer = buyer;
        if seller_leaves {
            if sell_index < sell_count {
                seller = sell_orders[sell_index];
            }
        } else {
            seller = Order { id: seller.id, quantity: seller.quantity - quantity };
        }
        if buyer_leaves {
            if buy_index < buy_count {
                buyer = buy_orders[buy_index];
            }
        } else {
            buyer = Order { id: buyer.id, quantity: buyer.quantity - quantity };
        }
        proof {
            let next_sellers = if seller_leaves {
                sellers.skip(1)
            } else {
                sellers.update(0, reduced(old_seller, quantity as int))
            };
            let next_buyers = if buyer_leaves {
                buyers.skip(1)
            } else {
                buyers.update(0, reduced(old_buyer, quantity as int))
            };
            assert(crossing(sellers, buyers) == emitted_now + crossing(next_sellers, next_buyers));
            assert(before + (emitted_now + crossing(next_sellers, next_buyers))
                =~= (before + emitted_now) + crossing(next_sellers, next_buyers));
            if sell_index < sell_count && buy_index < buy_count {
                assert(next_sellers =~= sell_orders@.skip(sell_index as int).update(0, seller));
                assert(next_buyers =~= buy_orders@.skip(buy_index as int).update(0, buyer));
            } else {
                assert(next_sellers.len() == 0 || next_buyers.len() == 0);
                assert(crossing(next_sellers, next_buyers) =~= Seq::<Trade>::empty());
                assert(trades@ =~= crossing(sell_orders@, buy_orders@));
            }
        }
    }
    proof {
        lemma_crossing_total(sell_orders@, buy_orders@);
    }
    trades
}

/// A list without negative quantities has no negative total.
pub proof fn lemma_fill_total_non_negative(orders: Seq<Order>)
    requires
        none_negative(orders),
    ensures
        fill_total(orders) >= 0,
    decreases orders.len(),
{
    if orders.len() > 0 {
        assert(orders[0].quantity >= 0);
        assert forall|k: int| 0 <= k < orders.skip(1).len() implies (#[trigger] orders.skip(
            1,
        )[k]).quantity >= 0 by {
            assert(orders.skip(1)[k] == orders[k + 1]);
        }
        lemma_fill_total_non_negative(orders.skip(1));
    }
}

/// The total of two lists of trades, one after the other.
pub proof fn lemma_traded_total_concat(first: Seq<Trade>, second: Seq<Trade>)
    ensures
        traded_total(first + second) == traded_total(first) + traded_total(second),
    decreases first.len(),
{
    if first.len() == 0 {
        assert(first + second =~= second);
    } else {
        assert((first + second).skip(1) =~= first.skip(1) + second);
        lemma_traded_total_concat(first.skip(1), second);
    }
}

/// What a crossing conserves. Every trade moves at least one unit. The
/// trades together move no more than either side offers, and they use up
/// the side that offers less: the traded total is the smaller of the two
/// sides' totals.
pub proof fn lemma_crossing_total(sellers: Seq<Order>, buyers: Seq<Order>)
    requires
        none_negative(sellers),
        none_negative(buyers),
    ensures
        all_trades_positive(crossing(sellers, buyers)),
        traded_total(crossing(sellers, buyers)) <= fill_total(sellers),
        traded_total(crossing(sellers, buyers)) <= fill_total(buyers),
        traded_total(crossing(sellers, buyers)) == fill_total(sellers)
            || traded_total(crossing(sellers, buyers)) == fill_total(buyers),
    decreases sellers.len() + buyers.len(),
{
    lemma_fill_total_non_negative(sellers);
    lemma_fill_total_non_negative(buyers);
    if sellers.len() == 0 || buyers.len() == 0 {
    } else {
        let seller = sellers[0];
        let buyer = buyers[0];
        assert(seller.quantity >= 0 && buyer.quantity >= 0);
        let quantity: int = if seller.quantity < buyer.quantity {
            seller.quantity as int
        } else {
            buyer.quantity as int
        };
        let now = emitted(buyer.id, seller.id, quantity);
        let next_sellers = if seller.quantity <= buyer.quantity {
            sellers.skip(1)
        } else {
            sellers.update(0, reduced(seller, quantity))
        };
        let next_buyers = if buyer.quantity <= seller.quantity {
            buyers.skip(1)
        } else {
            buyers.update(0, reduced(buyer, quantity))
        };
        let rest = crossing(next_sellers, next_buyers);
        assert(crossing(sellers, buyers) == now + rest);
        lemma_step_keeps_none_negative(sellers, quantity);
        lemma_step_keeps_none_negative(buyers, quantity);
        lemma_crossing_total(next_sellers, next_buyers);
        lemma_traded_total_concat(now, rest);
        assert(traded_total(now) == quantity) by {
            if quantity > 0 {
                assert(now.skip(1) =~= Seq::<Trade>::empty());
                assert(traded_total(now.skip(1)) == 0);
            }
        }
        assert(fill_total(next_sellers) == fill_total(sellers) - quantity) by {
            if seller.quantity > buyer.quantity {
                assert(next_sellers.skip(1) =~= sellers.skip(1));
            }
        }
        assert(fill_total(next_buyers) == fill_total(buyers) - quantity) by {
            if buyer.quantity > seller.quantity {
                assert(next_buyers.skip(1) =~= buyers.skip(1));
            }
        }
        assert forall|k: int| 0 <= k < (now + rest).len() implies (#[trigger] (now + rest)[k]).quantity
            > 0 by {
            if k >= now.len() {
                assert((now + rest)[k] == rest[k - now.len()]);
            }
        }
    }
}

/// The fills of the list that hold a quantity, in their order.
pub open spec fn without_empty(orders: Seq<Order>) -> Seq<Order>
    decreases orders.len(),
{
    if orders.len() == 0 {
        Seq::empty()
    } else if orders[0].quantity > 0 {
        seq![orders[0]] + without_empty(orders.skip(1))
    } else {
        without_empty(orders.skip(1))
    }
}

/// A list stays without negative quantities when its head leaves, and when
/// its head gives up no more than it holds.
pub proof fn lemma_step_keeps_none_negative(orders: Seq<Order>, taken: int)
    requires
        none_negative(orders),
        orders.len() > 0,
        0 <= taken <= orders[0].quantity,
    ensures
        none_negative(orders.skip(1)),
        none_negative(orders.update(0, reduced(orders[0], taken))),
{
    assert forall|k: int| 0 <= k < orders.skip(1).len() implies (#[trigger] orders.skip(1)[k]).quantity
        >= 0 by {
        assert(orders.skip(1)[k] == orders[k + 1]);
    }
    let changed = orders.update(0, reduced(orders[0], taken));
    assert forall|k: int| 0 <= k < changed.len() implies (#[trigger] changed[k]).quantity >= 0 by {
        if k > 0 {
            assert(changed[k] == orders[k]);
        }
    }
}

/// Adding a fill at the end adds it to the fills that hold a quantity, if
/// it holds one.
pub proof fn lemma_without_empty_push(orders: Seq<Order>, last: Order)
    ensures
        without_empty(orders.push(last)) == if last.quantity > 0 {
            without_empty(orders).push(last)
        } else {
            without_empty(orders)
        },
    decreases orders.len(),
{
    let longer = orders.push(last);
    if orders.len() == 0 {
        assert(longer.skip(1) =~= Seq::<Order>::empty());
        assert(without_empty(longer.skip(1)) =~= Seq::<Order>::empty());
        assert(longer[0] == last);
        if last.quantity > 0 {
            assert(seq![last] + Seq::<Order>::empty() =~= Seq::<Order>::empty().push(last));
        }
    } else {
        lemma_without_empty_push(orders.skip(1), last);
        assert(longer.skip(1) =~= orders.skip(1).push(last));
        assert(longer[0] == orders[0]);
        if orders[0].quantity > 0 && last.quantity > 0 {
            assert(seq![orders[0]] + without_empty(orders.skip(1)).push(last) =~= (seq![orders[0]]
                + without_empty(orders.skip(1))).push(last));
        }
    }
}

/// Fills that hold nothing take no part in a crossing: the trades are those
/// of the two lists with such fills left out.
pub proof fn lemma_crossing_passes_over_empty(sellers: Seq<Order>, buyers: Seq<Order>)
    requires
        none_negative(sellers),
        none_negative(buyers),
    ensures
        crossing(sellers, buyers) == crossing(without_empty(sellers), without_empty(buyers)),
    decreases sellers.len() + buyers.len(),
{
    if sellers.len() == 0 || buyers.len() == 0 {
    } else {
        let seller = sellers[0];
        let buyer = buyers[0];
        assert(seller.quantity >= 0 && buyer.quantity >= 0);
        let quantity: int = if seller.quantity < buyer.quantity {
            seller.quantity as int
        } else {
            buyer.quantity as int
        };
        let now = emitted(buyer.id, seller.id, quantity);
        let next_sellers = if seller.quantity <= buyer.quantity {
            sellers.skip(1)
        } else {
            sellers.update(0, reduced(seller, quantity))
        };
        let next_buyers = if buyer.quantity <= seller.quantity {
            buyers.skip(1)
        } else {
            buyers.update(0, reduced(buyer, quantity))
        };
        assert(crossing(sellers, buyers) == now + crossing(next_sellers, next_buyers));
        lemma_step_keeps_none_negative(sellers, quantity);
        lemma_step_keeps_none_negative(buyers, quantity);
        lemma_crossing_passes_over_empty(next_sellers, next_buyers);
        let kept_sellers = without_empty(sellers);
        let kept_buyers = without_empty(buyers);
        if quantity == 0 {
            assert(now + crossing(next_sellers, next_buyers) =~= crossing(next_sellers, next_buyers));
            if seller.quantity > 0 {
                assert(next_sellers =~= sellers);
            }
            if buyer.quantity > 0 {
                assert(next_buyers =~= buyers);
            }
        } else {
            assert(kept_sellers[0] == seller);
            assert(kept_buyers[0] == buyer);
            assert(kept_sellers.skip(1) =~= without_empty(sellers.skip(1)));
            assert(kept_buyers.skip(1) =~= without_empty(buyers.skip(1)));
            if seller.quantity > buyer.quantity {
                let left = reduced(seller, quantity);
                assert(next_sellers[0] == left);
                assert(next_sellers.skip(1) =~= sellers.skip(1));
                assert(without_empty(next_sellers) =~= kept_sellers.update(0, left));
            }
            if buyer.quantity > seller.quantity {
                let left = reduced(buyer, quantity);
                assert(next_buyers[0] == left);
                assert(next_buyers.skip(1) =~= buyers.skip(1));
                assert(without_empty(next_buyers) =~= kept_buyers.update(0, left));
            }
        }
    }
}

} // verus!
