//! One clearing run, from the raw backlogs to the trades.

use vstd::prelude::*;
use crate::types::{Order, OrderInput, Trade};
use crate::curve::{
    aggregate_buy_orders, aggregate_sell_orders, buy_curve, buy_curve_fits, calculate_total_demand,
    calculate_total_supply, is_buy_curve, is_sell_curve, prefix_sum, sell_curve, sell_curve_fits, suffix_sum,
    tier_total,
};
use crate::clearing::{calculate_market_clearing_price_index, clearing_tier};
use crate::fills::{calculate_buy_order_outputs, calculate_sell_order_outputs, fills};
use crate::matching::{crossing, match_orders};

verus! {

/// The value of the curve of `raw` at `tier`: the forward running sum for a
/// seller, the backward one for a buyer.
pub open spec fn curve_at(raw: OrderInput, selling: bool, tier: int) -> int {
    if selling {
        prefix_sum(raw.quantity_per_price@, tier)
    } else {
        suffix_sum(raw.quantity_per_price@, tier)
    }
}

/// The total curve of one side at `tier`, from the raw orders.
pub open spec fn side_total(inputs: Seq<OrderInput>, selling: bool, tier: int) -> int
    decreases inputs.len(),
{
    if inputs.len() == 0 {
        0
    } else {
        side_total(inputs.drop_last(), selling, tier) + curve_at(inputs.last(), selling, tier)
    }
}

/// The fills of one side at `tier`, from the raw orders.
pub open spec fn side_fills(inputs: Seq<OrderInput>, selling: bool, tier: int) -> Seq<Order>
    decreases inputs.len(),
{
    if inputs.len() == 0 {
        Seq::empty()
    } else {
        let earlier = side_fills(inputs.drop_last(), selling, tier);
        let quantity = if 0 <= tier < 6 {
            curve_at(inputs.last(), selling, tier)
        } else {
            0
        };
        if quantity > 0 {
            earlier.push(Order { id: inputs.last().id, quantity: quantity as i16 })
        } else {
            earlier
        }
    }
}

/// The curve of every order of the side, and the side's total at every
/// tier, fit the quantity type.
pub open spec fn side_fits(inputs: Seq<OrderInput>, selling: bool) -> bool {
    &&& forall|k: int| 0 <= k < inputs.len() ==> order_fits(#[trigger] inputs[k], selling)
    &&& forall|tier: int| 0 <= tier < 6 ==>
        i16::MIN <= #[trigger] side_total(inputs, selling, tier) <= i16::MAX
}

/// `curves` holds the curve of each order of `inputs`, in the same place.
pub open spec fn curves_of(inputs: Seq<OrderInput>, curves: Seq<OrderInput>, selling: bool) -> bool {
    &&& curves.len() == inputs.len()
    &&& forall|k: int| 0 <= k < inputs.len() ==> if selling {
        is_sell_curve(inputs[k], #[trigger] curves[k])
    } else {
        is_buy_curve(inputs[k], #[trigger] curves[k])
    }
}

/// The total supply curve of a round.
pub open spec fn total_curve(inputs: Seq<OrderInput>, selling: bool) -> Seq<i16> {
    Seq::new(6, |tier: int| side_total(inputs, selling, tier) as i16)
}

/// The tier at which a round clears.
pub open spec fn round_tier(sell_inputs: Seq<OrderInput>, buy_inputs: Seq<OrderInput>) -> int {
    clearing_tier(total_curve(sell_inputs, true), total_curve(buy_inputs, false))
}

/// The trades of a round.
pub open spec fn round_trades(sell_inputs: Seq<OrderInput>, buy_inputs: Seq<OrderInput>) -> Seq<Trade> {
    let tier = round_tier(sell_inputs, buy_inputs);
    crossing(side_fills(sell_inputs, true, tier), side_fills(buy_inputs, false, tier))
}

/// The sums and the fills of accumulated curves are those of the raw orders.
pub proof fn lemma_curves_agree(
    inputs: Seq<OrderInput>,
    curves: Seq<OrderInput>,
    selling: bool,
    tier: int,
)
    requires
        curves_of(inputs, curves, selling),
    ensures
        0 <= tier < 6 ==> tier_total(curves, tier) == side_total(inputs, selling, tier),
        fills(curves, tier) == side_fills(inputs, selling, tier),
    decreases inputs.len(),
{
    if inputs.len() > 0 {
        let raw = inputs.last();
        let curve = curves.last();
        assert(curve == curves[curves.len() - 1]);
        assert(raw == inputs[inputs.len() - 1]);
        assert forall|k: int| 0 <= k < inputs.drop_last().len() implies if selling {
            is_sell_curve(inputs.drop_last()[k], #[trigger] curves.drop_last()[k])
        } else {
            is_buy_curve(inputs.drop_last()[k], #[trigger] curves.drop_last()[k])
        } by {
            assert(curves.drop_last()[k] == curves[k]);
            assert(inputs.drop_last()[k] == inputs[k]);
        }
        lemma_curves_agree(inputs.drop_last(), curves.drop_last(), selling, tier);
        if 0 <= tier < 6 {
            assert(curve.quantity_per_price@[tier] == curve_at(raw, selling, tier));
        }
    }
}

/// The curve of one order fits the quantity type.
pub open spec fn order_fits(raw: OrderInput, selling: bool) -> bool {
    if selling {
        sell_curve_fits(raw.quantity_per_price@)
    } else {
        buy_curve_fits(raw.quantity_per_price@)
    }
}

/// Tells whether the curve of `raw` can be built without leaving the
/// quantity type.
pub fn check_order_fits(raw: &OrderInput, selling: bool) -> (fits: bool)
    ensures
        fits == order_fits(*raw, selling),
{
    let mut running: i32 = 0;
    for i in 0usize..6usize
        invariant
            i16::MIN <= running <= i16::MAX,
            selling ==> running == prefix_sum(raw.quantity_per_price@, i - 1),
            !selling ==> running == suffix_sum(raw.quantity_per_price@, 6 - i),
            selling ==> forall|tier: int| 0 <= tier < i ==>
                i16::MIN <= #[trigger] prefix_sum(raw.quantity_per_price@, tier) <= i16::MAX,
            !selling ==> forall|tier: int| 6 - i <= tier < 6 ==>
                i16::MIN <= #[trigger] suffix_sum(raw.quantity_per_price@, tier) <= i16::MAX,
    {
        let tier: usize = if selling { i } else { 5 - i };
        let sum: i32 = running + raw.quantity_per_price[tier] as i32;
        if sum < -32768 || sum > 32767 {
            proof {
                if selling {
                    assert(prefix_sum(raw.quantity_per_price@, tier as int) == sum);
                } else {
                    assert(suffix_sum(raw.quantity_per_price@, tier as int) == sum);
                }
            }
            return false;
        }
        running = sum;
    }
    true
}

/// Tells whether one side's backlog can be cleared within the quantity
/// type: each order's curve, and the side's total at every tier.
pub fn check_side_fits(inputs: &Vec<OrderInput>, selling: bool) -> (fits: bool)
    ensures
        fits == side_fits(inputs@, selling),
{
    let mut wide: [i128; 6] = [0; 6];
    let n: usize = inputs.len();
    for k in 0usize..n
        invariant
            n == inputs@.len(),
            forall|j: int| 0 <= j < k ==> order_fits(#[trigger] inputs@[j], selling),
            forall|tier: int| 0 <= tier < 6 ==>
                #[trigger] wide@[tier] == side_total(inputs@.take(k as int), selling, tier),
            forall|tier: int| 0 <= tier < 6 ==>
                -32768 * k <= #[trigger] wide@[tier] <= 32767 * k,
    {
        let raw = inputs[k];
        if !check_order_fits(&raw, selling) {
            return false;
        }
        let curve = if selling { sell_curve(raw) } else { buy_curve(raw) };
        proof {
            assert(inputs@.take(k + 1).drop_last() =~= inputs@.take(k as int));
            assert(inputs@.take(k + 1).last() == raw);
        }
        for i in 0usize..6usize
            invariant
                k < n,
                n == inputs@.len(),
                inputs@.take(k + 1).drop_last() == inputs@.take(k as int),
                inputs@.take(k + 1).last() == raw,
                forall|tier: int| 0 <= tier < 6 ==>
                    #[trigger] curve.quantity_per_price@[tier] == curve_at(raw, selling, tier),
                forall|tier: int| 0 <= tier < i ==>
                    #[trigger] wide@[tier] == side_total(inputs@.take(k + 1), selling, tier),
                forall|tier: int| i <= tier < 6 ==>
                    #[trigger] wide@[tier] == side_total(inputs@.take(k as int), selling, tier),
                forall|tier: int| 0 <= tier < i ==>
                    -32768 * (k + 1) <= #[trigger] wide@[tier] <= 32767 * (k + 1),
                forall|tier: int| i <= tier < 6 ==>
                    -32768 * k <= #[trigger] wide@[tier] <= 32767 * k,
        {
            let quantity: i16 = curve.quantity_per_price[i];
            assert(quantity == curve_at(raw, selling, i as int));
            wide[i] = wide[i] + quantity as i128;
        }
    }
    assert(inputs@.take(n as int) =~= inputs@);
    for i in 0usize..6usize
        invariant
            forall|j: int| 0 <= j < inputs@.len() ==> order_fits(#[trigger] inputs@[j], selling),
            forall|tier: int| 0 <= tier < 6 ==>
                #[trigger] wide@[tier] == side_total(inputs@, selling, tier),
            forall|tier: int| 0 <= tier < i ==>
                i16::MIN <= #[trigger] side_total(inputs@, selling, tier) <= i16::MAX,
    {
        if wide[i] < -32768 || wide[i] > 32767 {
            assert(side_total(inputs@, selling, i as int) == wide@[i as int]);
            return false;
        }
    }
    true
}

/// What one clearing run yields.
#[derive(Clone, Debug, PartialEq, Eq)]
pub struct Outcome {
    pub market_clearing_price_index: i16,
    pub sell_orders: Vec<Order>,
    pub buy_orders: Vec<Order>,
    pub matched_orders: Vec<Trade>,
}

/// `outcome` is the result of clearing the two backlogs.
pub open spec fn is_outcome(
    sell_inputs: Seq<OrderInput>,
    buy_inputs: Seq<OrderInput>,
    outcome: Outcome,
) -> bool {
    let tier = round_tier(sell_inputs, buy_inputs);
    &&& outcome.market_clearing_price_index == tier
    &&& outcome.sell_orders@ == side_fills(sell_inputs, true, tier)
    &&& outcome.buy_orders@ == side_fills(buy_inputs, false, tier)
    &&& outcome.matched_orders@ == round_trades(sell_inputs, buy_inputs)
}

/// Clears one round: accumulates the orders of both sides, sums them, picks
/// the clearing tier, reads the fills and crosses them.
pub fn double_auction(sell_order_inputs: &Vec<OrderInput>, buy_order_inputs: &Vec<OrderInput>) -> (outcome: Outcome)
    requires
        side_fits(sell_order_inputs@, true),
        side_fits(buy_order_inputs@, false),
    ensures
        is_outcome(sell_order_inputs@, buy_order_inputs@, outcome),
        0 <= outcome.market_clearing_price_index < 6,
{
    let sell_curves = aggregate_sell_orders(sell_order_inputs);
    let buy_curves = aggregate_buy_orders(buy_order_inputs);
    proof {
        assert(curves_of(sell_order_inputs@, sell_curves@, true));
        assert(curves_of(buy_order_inputs@, buy_curves@, false));
        assert forall|tier: int| 0 <= tier < 6 implies i16::MIN <= #[trigger] tier_total(
            sell_curves@,
            tier,
        ) <= i16::MAX by {
            lemma_curves_agree(sell_order_inputs@, sell_curves@, true, tier);
        }
        assert forall|tier: int| 0 <= tier < 6 implies i16::MIN <= #[trigger] tier_total(
            buy_curves@,
            tier,
        ) <= i16::MAX by {
            lemma_curves_agree(buy_order_inputs@, buy_curves@, false, tier);
        }
    }
    let total_supply = calculate_total_supply(sell_curves.as_slice());
    let total_demand = calculate_total_demand(buy_curves.as_slice());
    proof {
        assert forall|tier: int| 0 <= tier < 6 implies total_supply@[tier] == total_curve(
            sell_order_inputs@,
            true,
        )[tier] by {
            lemma_curves_agree(sell_order_inputs@, sell_curves@, true, tier);
        }
        assert forall|tier: int| 0 <= tier < 6 implies total_demand@[tier] == total_curve(
            buy_order_inputs@,
            false,
        )[tier] by {
            lemma_curves_agree(buy_order_inputs@, buy_curves@, false, tier);
        }
        assert(total_supply@ =~= total_curve(sell_order_inputs@, true));
        assert(total_demand@ =~= total_curve(buy_order_inputs@, false));
    }
    let index = calculate_market_clearing_price_index(total_supply, total_demand);
    let sell_orders = calculate_sell_order_outputs(&sell_curves, index);
    let buy_orders = calculate_buy_order_outputs(&buy_curves, index);
    proof {
        lemma_curves_agree(sell_order_inputs@, sell_curves@, true, index as int);
        lemma_curves_agree(buy_order_inputs@, buy_curves@, false, index as int);
    }
    let matched_orders = match_orders(&sell_orders, &buy_orders);
    Outcome { market_clearing_price_index: index, sell_orders, buy_orders, matched_orders }
}

} // verus!
