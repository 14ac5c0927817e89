//! Cumulative curves of single orders, and their sums over one side.

use vstd::prelude::*;
use crate::types::OrderInput;

verus! {

/// The sum of the quantities at tiers `0..=tier`.
pub open spec fn prefix_sum(quantities: Seq<i16>, tier: int) -> int
    decreases tier + 1,
{
    if tier < 0 {
        0
    } else {
        prefix_sum(quantities, tier - 1) + quantities[tier]
    }
}

/// The sum of the quantities at tiers `tier..=5`.
pub open spec fn suffix_sum(quantities: Seq<i16>, tier: int) -> int
    decreases 6 - tier,
{
    if tier > 5 {
        0
    } else {
        suffix_sum(quantities, tier + 1) + quantities[tier]
    }
}

/// Every forward running sum of `quantities` fits the quantity type.
pub open spec fn sell_curve_fits(quantities: Seq<i16>) -> bool {
    forall|tier: int| 0 <= tier < 6 ==> i16::MIN <= #[trigger] prefix_sum(quantities, tier) <= i16::MAX
}

/// Every backward running sum of `quantities` fits the quantity type.
pub open spec fn buy_curve_fits(quantities: Seq<i16>) -> bool {
    forall|tier: int| 0 <= tier < 6 ==> i16::MIN <= #[trigger] suffix_sum(quantities, tier) <= i16::MAX
}

/// No quantity of the six is negative.
pub open spec fn non_negative(quantities: Seq<i16>) -> bool {
    forall|tier: int| 0 <= tier < 6 ==> #[trigger] quantities[tier] >= 0
}

/// `curve` is what a seller's `raw` order accumulates to.
pub open spec fn is_sell_curve(raw: OrderInput, curve: OrderInput) -> bool {
    &&& curve.id == raw.id
    &&& forall|tier: int| 0 <= tier < 6 ==>
        #[trigger] curve.quantity_per_price@[tier] == prefix_sum(raw.quantity_per_price@, tier)
}

/// `curve` is what a buyer's `raw` order accumulates to.
pub open spec fn is_buy_curve(raw: OrderInput, curve: OrderInput) -> bool {
    &&& curve.id == raw.id
    &&& forall|tier: int| 0 <= tier < 6 ==>
        #[trigger] curve.quantity_per_price@[tier] == suffix_sum(raw.quantity_per_price@, tier)
}

/// The curve of one sell order: at each tier, what is offered at that tier
/// and all tiers below it.
pub fn sell_curve(raw: OrderInput) -> (curve: OrderInput)
    requires
        sell_curve_fits(raw.quantity_per_price@),
    ensures
        is_sell_curve(raw, curve),
{
    let mut curve = OrderInput { id: raw.id, quantity_per_price: raw.quantity_per_price };
    let mut running: i16 = 0;
    for i in 0usize..6usize
        invariant
            sell_curve_fits(raw.quantity_per_price@),
            curve.id == raw.id,
            running == prefix_sum(raw.quantity_per_price@, i - 1),
            forall|tier: int| 0 <= tier < i ==>
                #[trigger] curve.quantity_per_price@[tier] == prefix_sum(raw.quantity_per_price@, tier),
            forall|tier: int| i <= tier < 6 ==>
                #[trigger] curve.quantity_per_price@[tier] == raw.quantity_per_price@[tier],
    {
        assert(i16::MIN <= prefix_sum(raw.quantity_per_price@, i as int) <= i16::MAX);
        let sum: i16 = curve.quantity_per_price[i] + running;
        curve.quantity_per_price[i] = sum;
        running = sum;
    }
    curve
}

/// The curve of one buy order: at each tier, what is wanted at that tier and
/// all tiers above it.
pub fn buy_curve(raw: OrderInput) -> (curve: OrderInput)
    requires
        buy_curve_fits(raw.quantity_per_price@),
    ensures
        is_buy_curve(raw, curve),
{
    let mut curve = OrderInput { id: raw.id, quantity_per_price: raw.quantity_per_price };
    let mut running: i16 = 0;
    for i in 0usize..6usize
        invariant
            buy_curve_fits(raw.quantity_per_price@),
            curve.id == raw.id,
            running == suffix_sum(raw.quantity_per_price@, 6 - i),
            forall|tier: int| 6 - i <= tier < 6 ==>
                #[trigger] curve.quantity_per_price@[tier] == suffix_sum(raw.quantity_per_price@, tier),
            forall|tier: int| 0 <= tier < 6 - i ==>
                #[trigger] curve.quantity_per_price@[tier] == raw.quantity_per_price@[tier],
    {
        assert(i16::MIN <= suffix_sum(raw.quantity_per_price@, 5 - i) <= i16::MAX);
        let sum: i16 = curve.quantity_per_price[5 - i] + running;
        curve.quantity_per_price[5 - i] = sum;
        running = sum;
    }
    curve
}

/// Accumulates every sell order of the backlog, in the order of submission.
pub fn aggregate_sell_orders(sell_order_inputs: &Vec<OrderInput>) -> (sell_orders: Vec<OrderInput>)
    requires
        forall|k: int| 0 <= k < sell_order_inputs@.len() ==>
            sell_curve_fits(#[trigger] sell_order_inputs@[k].quantity_per_price@),
    ensures
        sell_orders@.len() == sell_order_inputs@.len(),
        forall|k: int| 0 <= k < sell_order_inputs@.len() ==>
            is_sell_curve(sell_order_inputs@[k], #[trigger] sell_orders@[k]),
{
    let mut sell_orders: Vec<OrderInput> = Vec::new();
    let n: usize = sell_order_inputs.len();
    for k in 0usize..n
        invariant
            n == sell_order_inputs@.len(),
            forall|j: int| 0 <= j < sell_order_inputs@.len() ==>
                sell_curve_fits(#[trigger] sell_order_inputs@[j].quantity_per_price@),
            sell_orders@.len() == k,
            forall|j: int| 0 <= j < k ==>
                is_sell_curve(sell_order_inputs@[j], #[trigger] sell_orders@[j]),
    {
        let curve = sell_curve(sell_order_inputs[k]);
        sell_orders.push(curve);
    }
    sell_orders
}

/// Accumulates every buy order of the backlog, in the order of submission.
pub fn aggregate_buy_orders(buy_order_inputs: &Vec<OrderInput>) -> (buy_orders: Vec<OrderInput>)
    requires
        forall|k: int| 0 <= k < buy_order_inputs@.len() ==>
            buy_curve_fits(#[trigger] buy_order_inputs@[k].quantity_per_price@),
    ensures
        buy_orders@.len() == buy_order_inputs@.len(),
        forall|k: int| 0 <= k < buy_order_inputs@.len() ==>
            is_buy_curve(buy_order_inputs@[k], #[trigger] buy_orders@[k]),
{
    let mut buy_orders: Vec<OrderInput> = Vec::new();
    let n: usize = buy_order_inputs.len();
    for k in 0usize..n
        invariant
            n == buy_order_inputs@.len(),
            forall|j: int| 0 <= j < buy_order_inputs@.len() ==>
                buy_curve_fits(#[trigger] buy_order_inputs@[j].quantity_per_price@),
            buy_orders@.len() == k,
            forall|j: int| 0 <= j < k ==>
                is_buy_curve(buy_order_inputs@[j], #[trigger] buy_orders@[j]),
    {
        let curve = buy_curve(buy_order_inputs[k]);
        buy_orders.push(curve);
    }
    buy_orders
}

/// The sum, over all `orders`, of the quantity held at `tier`.
pub open spec fn tier_total(orders: Seq<OrderInput>, tier: int) -> int
    decreases orders.len(),
{
    if orders.len() == 0 {
        0
    } else {
        tier_total(orders.drop_last(), tier) + orders.last().quantity_per_price@[tier]
    }
}

/// At every tier the sum over `orders` fits the quantity type.
pub open spec fn totals_fit(orders: Seq<OrderInput>) -> bool {
    forall|tier: int| 0 <= tier < 6 ==> i16::MIN <= #[trigger] tier_total(orders, tier) <= i16::MAX
}

/// `totals` holds, tier by tier, the sum over `orders`.
pub open spec fn is_total(orders: Seq<OrderInput>, totals: Seq<i16>) -> bool {
    forall|tier: int| 0 <= tier < 6 ==> #[trigger] totals[tier] == tier_total(orders, tier)
}

fn wide_tier_totals(orders: &[OrderInput]) -> (wide: [i128; 6])
    ensures
        forall|tier: int| 0 <= tier < 6 ==> #[trigger] wide@[tier] == tier_total(orders@, tier),
{
    let mut wide: [i128; 6] = [0; 6];
    let n: usize = orders.len();
    for k in 0usize..n
        invariant
            n == orders@.len(),
            forall|tier: int| 0 <= tier < 6 ==>
                #[trigger] wide@[tier] == tier_total(orders@.take(k as int), tier),
            forall|tier: int| 0 <= tier < 6 ==>
                -32768 * k <= #[trigger] wide@[tier] <= 32767 * k,
    {
        let order = orders[k];
        proof {
            assert(orders@.take(k + 1).drop_last() =~= orders@.take(k as int));
            assert(orders@.take(k + 1).last() == order);
        }
        for i in 0usize..6usize
            invariant
                k < n,
                n == orders@.len(),
                order == orders@[k as int],
                orders@.take(k + 1).drop_last() == orders@.take(k as int),
                orders@.take(k + 1).last() == order,
                forall|tier: int| 0 <= tier < i ==>
                    #[trigger] wide@[tier] == tier_total(orders@.take(k + 1), tier),
                forall|tier: int| i <= tier < 6 ==>
                    #[trigger] wide@[tier] == tier_total(orders@.take(k as int), tier),
                forall|tier: int| 0 <= tier < i ==>
                    -32768 * (k + 1) <= #[trigger] wide@[tier] <= 32767 * (k + 1),
                forall|tier: int| i <= tier < 6 ==>
                    -32768 * k <= #[trigger] wide@[tier] <= 32767 * k,
        {
            let quantity: i16 = order.quantity_per_price[i];
            wide[i] = wide[i] + quantity as i128;
        }
    }
    assert(orders@.take(n as int) =~= orders@);
    wide
}

/// Tells whether the sum over `orders` fits the quantity type at every tier.
pub fn check_totals_fit(orders: &[OrderInput]) -> (fits: bool)
    ensures
        fits == totals_fit(orders@),
{
    let wide = wide_tier_totals(orders);
    let mut fits: bool = true;
    for i in 0usize..6usize
        invariant
            fits == (forall|tier: int| 0 <= tier < i ==>
                i16::MIN <= #[trigger] wide@[tier] <= i16::MAX),
    {
        let inside: bool = -32768 <= wide[i] && wide[i] <= 32767;
        fits = fits && inside;
    }
    proof {
        if fits {
            assert forall|tier: int| 0 <= tier < 6 implies i16::MIN <= #[trigger] tier_total(
                orders@,
                tier,
            ) <= i16::MAX by {
                assert(i16::MIN <= wide@[tier] <= i16::MAX);
            }
        } else {
            let tier = choose|tier: int| 0 <= tier < 6 && !(i16::MIN <= #[trigger] wide@[tier]
                <= i16::MAX);
            assert(wide@[tier] == tier_total(orders@, tier));
        }
    }
    fits
}

fn tier_totals(orders: &[OrderInput]) -> (totals: [i16; 6])
    requires
        totals_fit(orders@),
    ensures
        is_total(orders@, totals@),
{
    let wide = wide_tier_totals(orders);
    let mut totals: [i16; 6] = [0; 6];
    for i in 0usize..6usize
        invariant
            totals_fit(orders@),
            forall|tier: int| 0 <= tier < 6 ==>
                #[trigger] wide@[tier] == tier_total(orders@, tier),
            forall|tier: int| 0 <= tier < i ==>
                #[trigger] totals@[tier] == tier_total(orders@, tier),
    {
        assert(i16::MIN <= tier_total(orders@, i as int) <= i16::MAX);
        totals[i] = wide[i] as i16;
    }
    totals
}

/// The total supply curve: tier by tier, the sum of the sellers' curves.
/// With no seller every tier is zero.
pub fn calculate_total_supply(sell_order_inputs: &[OrderInput]) -> (total_supply: [i16; 6])
    requires
        totals_fit(sell_order_inputs@),
    ensures
        is_total(sell_order_inputs@, total_supply@),
{
    tier_totals(sell_order_inputs)
}

/// The total demand curve: tier by tier, the sum of the buyers' curves.
/// With no buyer every tier is zero.
pub fn calculate_total_demand(buy_order_inputs: &[OrderInput]) -> (total_demand: [i16; 6])
    requires
        totals_fit(buy_order_inputs@),
    ensures
        is_total(buy_order_inputs@, total_demand@),
{
    tier_totals(buy_order_inputs)
}

/// The total of two batches taken together is the sum of their totals.
pub proof fn lemma_tier_total_concat(first: Seq<OrderInput>, second: Seq<OrderInput>, tier: int)
    ensures
        tier_total(first + second, tier) == tier_total(first, tier) + tier_total(second, tier),
    decreases second.len(),
{
    if second.len() == 0 {
        assert(first + second =~= first);
    } else {
        lemma_tier_total_concat(first, second.drop_last(), tier);
        assert((first + second).drop_last() =~= first + second.drop_last());
        assert((first + second).last() == second.last());
    }
}

/// Taking one order out of a batch lowers the total by that order's quantity.
pub proof fn lemma_tier_total_remove(orders: Seq<OrderInput>, at: int, tier: int)
    requires
        0 <= at < orders.len(),
    ensures
        tier_total(orders, tier) == tier_total(orders.remove(at), tier)
            + orders[at].quantity_per_price@[tier],
{
    let head = orders.take(at);
    let one = seq![orders[at]];
    let tail = orders.skip(at + 1);
    assert(orders =~= (head + one) + tail);
    assert(orders.remove(at) =~= head + tail);
    lemma_tier_total_concat(head + one, tail, tier);
    lemma_tier_total_concat(head, one, tier);
    lemma_tier_total_concat(head, tail, tier);
    assert(one.drop_last() =~= Seq::<OrderInput>::empty());
    assert(tier_total(one, tier) == orders[at].quantity_per_price@[tier]) by {
        assert(one.last() == orders[at]);
        assert(tier_total(one.drop_last(), tier) == 0);
    }
}

/// The totals do not depend on the order in which the orders arrived: two
/// batches that hold the same orders, each as often as the other, have the
/// same total at every tier.
pub proof fn lemma_tier_total_order_independent(
    first: Seq<OrderInput>,
    second: Seq<OrderInput>,
    tier: int,
)
    requires
        first.to_multiset() == second.to_multiset(),
    ensures
        tier_total(first, tier) == tier_total(second, tier),
    decreases first.len(),
{
    broadcast use vstd::seq_lib::group_to_multiset_ensures;
    first.to_multiset_ensures();
    second.to_multiset_ensures();
    if first.len() == 0 {
        assert(second.len() == 0);
    } else {
        let moved = first.last();
        assert(first.to_multiset().count(moved) > 0) by {
            assert(first.contains(moved));
        }
        assert(second.contains(moved));
        let at = choose|at: int| 0 <= at < second.len() && second[at] == moved;
        let rest = first.drop_last();
        assert(first.remove(first.len() - 1) =~= rest);
        assert(rest.to_multiset() == first.to_multiset().remove(moved));
        assert(second.remove(at).to_multiset() == second.to_multiset().remove(moved));
        lemma_tier_total_order_independent(rest, second.remove(at), tier);
        lemma_tier_total_remove(second, at, tier);
    }
}

/// A seller's curve never falls as the tier rises, whenever no quantity of
/// the order is negative.
pub proof fn lemma_sell_curve_monotonic(quantities: Seq<i16>, low: int, high: int)
    requires
        quantities.len() == 6,
        non_negative(quantities),
        0 <= low <= high < 6,
    ensures
        prefix_sum(quantities, low) <= prefix_sum(quantities, high),
    decreases high - low,
{
    if low < high {
        lemma_sell_curve_monotonic(quantities, low, high - 1);
        assert(quantities[high] >= 0);
    }
}

/// A buyer's curve never falls as the tier drops, whenever no quantity of
/// the order is negative.
pub proof fn lemma_buy_curve_monotonic(quantities: Seq<i16>, low: int, high: int)
    requires
        quantities.len() == 6,
        non_negative(quantities),
        0 <= low <= high < 6,
    ensures
        suffix_sum(quantities, low) >= suffix_sum(quantities, high),
    decreases high - low,
{
    if low < high {
        lemma_buy_curve_monotonic(quantities, low + 1, high);
        assert(quantities[low] >= 0);
    }
}

} // verus!
