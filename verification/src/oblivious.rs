//! The same round, under the discipline of oblivious execution.
//!
//! Here the orders, their quantities and their roles stand for secret
//! values. The stages of the round (the totals, the clearing tier, the
//! fills) never branch on one of them, and no index into memory depends on
//! one: every choice is made by `select`, which computes both alternatives
//! and keeps one by arithmetic. Their loops run over the public number of
//! variables and the fixed capacity only, so the sequence of operations is
//! the same whatever the secret values are. Each variable keeps its place:
//! the variable submitted in place `k` fills slot `k` of its side and leaves
//! zeros in slot `k` of the other.
//!
//! The functions that guard a bound, and those that take values which have
//! been opened, work in the open.

use vstd::prelude::*;
use crate::types::{Order, OrderInput};
use crate::auction::{AuctionError, AuctionState, Identity};
use crate::matching::{
    crossing, lemma_crossing_passes_over_empty, lemma_without_empty_push, match_orders,
    none_negative, without_empty,
};
use crate::fills::fills;
use crate::clearing::{best_after, clearing_tier, imbalance, probe_at};
use crate::curve::tier_total;

verus! {

/// The number of slots of each side's output.
pub const CAPACITY: usize = 85;

/// The role tag of a buyer's order.
pub const BUYING_ORDER: u8 = 1;

/// The role tag of a seller's order.
pub const SELLING_ORDER: u8 = 2;

/// The tag of a value that a round has computed.
pub const MATCHED_OUTPUT: u8 = 3;

/// A secret order: an identifier and the participant's curve.
#[derive(Clone, Copy, Debug, PartialEq, Eq)]
pub struct SecretOrderInput {
    pub id: i16,
    pub quantity_per_price: [i16; 6],
}

/// A secret fill: an identifier and the quantity at the clearing tier.
#[derive(Clone, Copy, Debug, PartialEq, Eq, Structural)]
pub struct SecretOrderOutput {
    pub id: i16,
    pub quantity: i16,
}

/// The fills of both sides, slot by slot.
#[derive(Clone, Copy, Debug, PartialEq, Eq)]
pub struct SecretSellBuyOutputs {
    pub sell_orders: [SecretOrderOutput; 85],
    pub buy_orders: [SecretOrderOutput; 85],
}

/// One submitted variable: the secret order and its role tag.
#[derive(Clone, Copy, Debug, PartialEq, Eq)]
pub struct SecretVariable {
    pub order_type: u8,
    pub order: SecretOrderInput,
}

/// Keeps `chosen` where `mask` holds and `otherwise` where it does not,
/// computing the same operations in both cases.
pub fn select(mask: bool, chosen: i32, otherwise: i32) -> (kept: i32)
    ensures
        kept == (if mask { chosen } else { otherwise }),
{
    let bit: i64 = mask as i64;
    let spread: i64 = chosen as i64 - otherwise as i64;
    assert(bit * spread == (if mask { spread } else { 0 })) by (nonlinear_arith)
        requires bit == (if mask { 1i64 } else { 0i64 });
    (otherwise as i64 + bit * spread) as i32
}


impl SecretOrderInput {
    /// The order once it is opened.
    pub open spec fn opened(self) -> OrderInput {
        OrderInput { id: self.id, quantity_per_price: self.quantity_per_price }
    }
}

/// The opened orders of the variables that carry `role`, in the order of
/// submission.
pub open spec fn orders_of(variables: Seq<SecretVariable>, role: u8) -> Seq<OrderInput>
    decreases variables.len(),
{
    if variables.len() == 0 {
        Seq::empty()
    } else {
        let earlier = orders_of(variables.drop_last(), role);
        if variables.last().order_type == role {
            earlier.push(variables.last().order.opened())
        } else {
            earlier
        }
    }
}

/// The sum at `tier` over the variables that carry `role`.
pub open spec fn role_total(variables: Seq<SecretVariable>, role: u8, tier: int) -> int {
    tier_total(orders_of(variables, role), tier)
}

/// At every tier the sum over the variables of `role` fits the quantity type.
pub open spec fn role_fits(variables: Seq<SecretVariable>, role: u8) -> bool {
    forall|tier: int| 0 <= tier < 6 ==>
        i16::MIN <= #[trigger] role_total(variables, role, tier) <= i16::MAX
}

/// `totals` is the total curve of the variables of `role`.
pub open spec fn is_role_total(variables: Seq<SecretVariable>, role: u8, totals: Seq<i16>) -> bool {
    forall|tier: int| 0 <= tier < 6 ==> #[trigger] totals[tier] == role_total(variables, role, tier)
}

/// What slot `slot` of the output of `role` holds at `tier`: the identifier
/// and the quantity of the variable in that place where it carries the
/// role, and zeros where it does not or where there is no variable.
pub open spec fn slot_output(
    variables: Seq<SecretVariable>,
    role: u8,
    tier: int,
    slot: int,
) -> SecretOrderOutput {
    if 0 <= slot < variables.len() && variables[slot].order_type == role {
        SecretOrderOutput {
            id: variables[slot].order.id,
            quantity: crate::types::quantity_at(variables[slot].order.opened(), tier) as i16,
        }
    } else {
        SecretOrderOutput { id: 0, quantity: 0 }
    }
}

/// `outputs` holds, in each of its slots, what the variables give to `role`.
pub open spec fn is_role_output(
    variables: Seq<SecretVariable>,
    role: u8,
    tier: int,
    outputs: Seq<SecretOrderOutput>,
) -> bool {
    &&& outputs.len() == 85
    &&& forall|slot: int| 0 <= slot < 85 ==>
        #[trigger] outputs[slot] == slot_output(variables, role, tier, slot)
}

fn wide_supply_demand(variables: &Vec<SecretVariable>) -> (totals: ([i128; 6], [i128; 6]))
    ensures
        forall|tier: int| 0 <= tier < 6 ==>
            #[trigger] totals.0@[tier] == role_total(variables@, SELLING_ORDER, tier),
        forall|tier: int| 0 <= tier < 6 ==>
            #[trigger] totals.1@[tier] == role_total(variables@, BUYING_ORDER, tier),
{
    let mut supply: [i128; 6] = [0; 6];
    let mut demand: [i128; 6] = [0; 6];
    let n: usize = variables.len();
    for k in 0usize..n
        invariant
            n == variables@.len(),
            forall|tier: int| 0 <= tier < 6 ==>
                #[trigger] supply@[tier] == role_total(variables@.take(k as int), SELLING_ORDER, tier),
            forall|tier: int| 0 <= tier < 6 ==>
                #[trigger] demand@[tier] == role_total(variables@.take(k as int), BUYING_ORDER, tier),
            forall|tier: int| 0 <= tier < 6 ==> -32768 * k <= #[trigger] supply@[tier] <= 32767 * k,
            forall|tier: int| 0 <= tier < 6 ==> -32768 * k <= #[trigger] demand@[tier] <= 32767 * k,
    {
        let variable = variables[k];
        let selling: bool = variable.order_type == SELLING_ORDER;
        let buying: bool = variable.order_type == BUYING_ORDER;
        let ghost earlier = variables@.take(k as int);
        let ghost now = variables@.take(k + 1);
        proof {
            assert(now.drop_last() =~= earlier);
            assert(now.last() == variable);
            let sold = orders_of(now, SELLING_ORDER);
            let bought = orders_of(now, BUYING_ORDER);
            if selling {
                assert(sold.drop_last() =~= orders_of(earlier, SELLING_ORDER));
                assert(sold.last() == variable.order.opened());
            }
            if buying {
                assert(bought.drop_last() =~= orders_of(earlier, BUYING_ORDER));
                assert(bought.last() == variable.order.opened());
            }
        }
        for i in 0usize..6usize
            invariant
                k < n,
                n == variables@.len(),
                selling == (variable.order_type == SELLING_ORDER),
                buying == (variable.order_type == BUYING_ORDER),
                now == variables@.take(k + 1),
                earlier == variables@.take(k as int),
                forall|tier: int| 0 <= tier < 6 ==> role_total(now, SELLING_ORDER, tier)
                    == #[trigger] role_total(earlier, SELLING_ORDER, tier) + (if selling {
                        variable.order.quantity_per_price@[tier] as int
                    } else {
                        0
                    }),
                forall|tier: int| 0 <= tier < 6 ==> role_total(now, BUYING_ORDER, tier)
                    == #[trigger] role_total(earlier, BUYING_ORDER, tier) + (if buying {
                        variable.order.quantity_per_price@[tier] as int
                    } else {
                        0
                    }),
                forall|tier: int| 0 <= tier < i ==>
                    #[trigger] supply@[tier] == role_total(now, SELLING_ORDER, tier),
                forall|tier: int| i <= tier < 6 ==>
                    #[trigger] supply@[tier] == role_total(earlier, SELLING_ORDER, tier),
                forall|tier: int| 0 <= tier < i ==>
                    #[trigger] demand@[tier] == role_total(now, BUYING_ORDER, tier),
                forall|tier: int| i <= tier < 6 ==>
                    #[trigger] demand@[tier] == role_total(earlier, BUYING_ORDER, tier),
                forall|tier: int| 0 <= tier < i ==>
                    -32768 * (k + 1) <= #[trigger] supply@[tier] <= 32767 * (k + 1),
                forall|tier: int| i <= tier < 6 ==>
                    -32768 * k <= #[trigger] supply@[tier] <= 32767 * k,
                forall|tier: int| 0 <= tier < i ==>
                    -32768 * (k + 1) <= #[trigger] demand@[tier] <= 32767 * (k + 1),
                forall|tier: int| i <= tier < 6 ==>
                    -32768 * k <= #[trigger] demand@[tier] <= 32767 * k,
        {
            let quantity: i32 = variable.order.quantity_per_price[i] as i32;
            assert(supply@[i as int] == role_total(earlier, SELLING_ORDER, i as int));
            assert(demand@[i as int] == role_total(earlier, BUYING_ORDER, i as int));
            supply[i] = supply[i] + select(selling, quantity, 0) as i128;
            demand[i] = demand[i] + select(buying, quantity, 0) as i128;
        }
    }
    assert(variables@.take(n as int) =~= variables@);
    (supply, demand)
}

/// Tells whether the totals of both sides fit the quantity type at every
/// tier.
pub fn check_roles_fit(variables: &Vec<SecretVariable>) -> (fits: bool)
    ensures
        fits == (role_fits(variables@, SELLING_ORDER) && role_fits(variables@, BUYING_ORDER)),
{
    let (supply, demand) = wide_supply_demand(variables);
    let mut supply_fits: bool = true;
    let mut demand_fits: bool = true;
    for i in 0usize..6usize
        invariant
            supply_fits == (forall|tier: int| 0 <= tier < i ==>
                i16::MIN <= #[trigger] supply@[tier] <= i16::MAX),
            demand_fits == (forall|tier: int| 0 <= tier < i ==>
                i16::MIN <= #[trigger] demand@[tier] <= i16::MAX),
    {
        let supply_inside: bool = -32768 <= supply[i] && supply[i] <= 32767;
        let demand_inside: bool = -32768 <= demand[i] && demand[i] <= 32767;
        supply_fits = supply_fits && supply_inside;
        demand_fits = demand_fits && demand_inside;
    }
    proof {
        if supply_fits {
            assert forall|tier: int| 0 <= tier < 6 implies i16::MIN <= #[trigger] role_total(
                variables@,
                SELLING_ORDER,
                tier,
            ) <= i16::MAX by {
                assert(i16::MIN <= supply@[tier] <= i16::MAX);
            }
        } else {
            let tier = choose|tier: int| 0 <= tier < 6 && !(i16::MIN <= #[trigger] supply@[tier]
                <= i16::MAX);
            assert(supply@[tier] == role_total(variables@, SELLING_ORDER, tier));
        }
        if demand_fits {
            assert forall|tier: int| 0 <= tier < 6 implies i16::MIN <= #[trigger] role_total(
                variables@,
                BUYING_ORDER,
                tier,
            ) <= i16::MAX by {
                assert(i16::MIN <= demand@[tier] <= i16::MAX);
            }
        } else {
            let tier = choose|tier: int| 0 <= tier < 6 && !(i16::MIN <= #[trigger] demand@[tier]
                <= i16::MAX);
            assert(demand@[tier] == role_total(variables@, BUYING_ORDER, tier));
        }
    }
    supply_fits && demand_fits
}

/// The total supply and the total demand of the submitted variables, in
/// this order. A variable adds to the side whose tag it carries and to no
/// side where it carries neither.
pub fn calculate_supply_demand(variables: &Vec<SecretVariable>) -> (totals: ([i16; 6], [i16; 6]))
    requires
        role_fits(variables@, SELLING_ORDER),
        role_fits(variables@, BUYING_ORDER),
    ensures
        is_role_total(variables@, SELLING_ORDER, totals.0@),
        is_role_total(variables@, BUYING_ORDER, totals.1@),
{
    let (supply, demand) = wide_supply_demand(variables);
    let mut total_supply: [i16; 6] = [0; 6];
    let mut total_demand: [i16; 6] = [0; 6];
    for i in 0usize..6usize
        invariant
            role_fits(variables@, SELLING_ORDER),
            role_fits(variables@, BUYING_ORDER),
            forall|tier: int| 0 <= tier < 6 ==>
                #[trigger] supply@[tier] == role_total(variables@, SELLING_ORDER, tier),
            forall|tier: int| 0 <= tier < 6 ==>
                #[trigger] demand@[tier] == role_total(variables@, BUYING_ORDER, tier),
            forall|tier: int| 0 <= tier < i ==>
                #[trigger] total_supply@[tier] == role_total(variables@, SELLING_ORDER, tier),
            forall|tier: int| 0 <= tier < i ==>
                #[trigger] total_demand@[tier] == role_total(variables@, BUYING_ORDER, tier),
    {
        assert(i16::MIN <= role_total(variables@, SELLING_ORDER, i as int) <= i16::MAX);
        assert(i16::MIN <= role_total(variables@, BUYING_ORDER, i as int) <= i16::MAX);
        total_supply[i] = supply[i] as i16;
        total_demand[i] = demand[i] as i16;
    }
    (total_supply, total_demand)
}

/// The clearing tier, chosen as in the open: the same probe order and the
/// same strict comparison, with every choice made by `select`.
pub fn calculate_market_clearing_price_index(
    total_supply: [i16; 6],
    total_demand: [i16; 6],
) -> (index: i16)
    ensures
        index == clearing_tier(total_supply@, total_demand@),
        0 <= index < 6,
{
    let probes: [usize; 6] = [3, 2, 4, 1, 5, 0];
    let mut best: i32 = 3;
    let mut least: i32 = 65535;
    for step in 0usize..6usize
        invariant
            forall|k: int| 0 <= k < 6 ==> #[trigger] probes@[k] == probe_at(k),
            step == 0 ==> best == 3 && least == 65535,
            step > 0 ==> best == best_after(total_supply@, total_demand@, step - 1),
            step > 0 ==> least == imbalance(total_supply@, total_demand@, best as int),
            0 <= best < 6,
    {
        let probed: usize = probes[step];
        let difference: i32 = total_supply[probed] as i32 - total_demand[probed] as i32;
        let found: i32 = select(difference < 0, -difference, difference);
        let better: bool = found < least;
        least = select(better, found, least);
        best = select(better, probed as i32, best);
    }
    best as i16
}

/// The quantity of `order` at the secret tier `index`, read without
/// branching on it: every tier is visited and the one that matches is kept.
pub fn quantity_at_secret_tier(order: &SecretOrderInput, index: i16) -> (quantity: i16)
    ensures
        quantity == crate::types::quantity_at(order.opened(), index as int),
{
    let mut quantity: i32 = 0;
    for i in 0usize..6usize
        invariant
            quantity == (if 0 <= index < i {
                crate::types::quantity_at(order.opened(), index as int)
            } else {
                0
            }),
    {
        let here: bool = index == i as i16;
        quantity = select(here, order.quantity_per_price[i] as i32, quantity);
    }
    quantity as i16
}

/// The fills of both sides at the clearing tier, slot by slot. The variable
/// in place `k` fills slot `k` of the side whose tag it carries; every other
/// slot holds zeros. More variables than the capacity are refused.
pub fn calculate_sell_buy_order_outputs(
    variables: &Vec<SecretVariable>,
    market_clearing_price_index: i16,
) -> (result: Result<SecretSellBuyOutputs, AuctionError>)
    ensures
        variables@.len() > 85 ==> result == Err::<SecretSellBuyOutputs, AuctionError>(
            AuctionError::CapacityOverflow,
        ),
        variables@.len() <= 85 ==> result.is_ok(),
        result.is_ok() ==> is_role_output(
            variables@,
            SELLING_ORDER,
            market_clearing_price_index as int,
            result.unwrap().sell_orders@,
        ),
        result.is_ok() ==> is_role_output(
            variables@,
            BUYING_ORDER,
            market_clearing_price_index as int,
            result.unwrap().buy_orders@,
        ),
{
    let n: usize = variables.len();
    if n > CAPACITY {
        return Err(AuctionError::CapacityOverflow);
    }
    let mut sell_orders: [SecretOrderOutput; 85] = [SecretOrderOutput { id: 0, quantity: 0 }; 85];
    let mut buy_orders: [SecretOrderOutput; 85] = [SecretOrderOutput { id: 0, quantity: 0 }; 85];
    for k in 0usize..n
        invariant
            n == variables@.len(),
            n <= 85,
            forall|slot: int| 0 <= slot < k ==> #[trigger] sell_orders@[slot] == slot_output(
                variables@,
                SELLING_ORDER,
                market_clearing_price_index as int,
                slot,
            ),
            forall|slot: int| 0 <= slot < k ==> #[trigger] buy_orders@[slot] == slot_output(
                variables@,
                BUYING_ORDER,
                market_clearing_price_index as int,
                slot,
            ),
            forall|slot: int| k <= slot < 85 ==> #[trigger] sell_orders@[slot] == (SecretOrderOutput {
                id: 0,
                quantity: 0,
            }),
            forall|slot: int| k <= slot < 85 ==> #[trigger] buy_orders@[slot] == (SecretOrderOutput {
                id: 0,
                quantity: 0,
            }),
    {
        let variable = variables[k];
        let selling: bool = variable.order_type == SELLING_ORDER;
        let buying: bool = variable.order_type == BUYING_ORDER;
        let quantity: i32 = quantity_at_secret_tier(&variable.order, market_clearing_price_index) as i32;
        let id: i32 = variable.order.id as i32;
        sell_orders[k] = SecretOrderOutput {
            id: select(selling, id, 0) as i16,
            quantity: select(selling, quantity, 0) as i16,
        };
        buy_orders[k] = SecretOrderOutput {
            id: select(buying, id, 0) as i16,
            quantity: select(buying, quantity, 0) as i16,
        };
    }
    Ok(SecretSellBuyOutputs { sell_orders, buy_orders })
}

/// One oblivious round: the total curves, the clearing tier and the fills
/// of both sides, ready to be opened.
pub fn double_auction(variables: &Vec<SecretVariable>) -> (result: Result<
    (i16, [SecretOrderOutput; 85], [SecretOrderOutput; 85]),
    AuctionError,
>)
    requires
        role_fits(variables@, SELLING_ORDER),
        role_fits(variables@, BUYING_ORDER),
    ensures
        variables@.len() > 85 ==> result == Err::<
            (i16, [SecretOrderOutput; 85], [SecretOrderOutput; 85]),
            AuctionError,
        >(AuctionError::CapacityOverflow),
        variables@.len() <= 85 ==> result.is_ok(),
        result.is_ok() ==> is_round_output(variables@, result.unwrap()),
{
    let totals = calculate_supply_demand(variables);
    let index = calculate_market_clearing_price_index(totals.0, totals.1);
    proof {
        assert(totals.0@ =~= secret_total_curve(variables@, SELLING_ORDER));
        assert(totals.1@ =~= secret_total_curve(variables@, BUYING_ORDER));
    }
    match calculate_sell_buy_order_outputs(variables, index) {
        Ok(outputs) => Ok((index, outputs.sell_orders, outputs.buy_orders)),
        Err(error) => Err(error),
    }
}

/// The total curve of the variables of `role`.
pub open spec fn secret_total_curve(variables: Seq<SecretVariable>, role: u8) -> Seq<i16> {
    Seq::new(6, |tier: int| role_total(variables, role, tier) as i16)
}

/// `output` is what an oblivious round over `variables` hands over to be
/// opened: the clearing tier of the two total curves, then the sellers'
/// slots and the buyers' slots at that tier.
pub open spec fn is_round_output(
    variables: Seq<SecretVariable>,
    output: (i16, [SecretOrderOutput; 85], [SecretOrderOutput; 85]),
) -> bool {
    let tier = clearing_tier(
        secret_total_curve(variables, SELLING_ORDER),
        secret_total_curve(variables, BUYING_ORDER),
    );
    &&& output.0 == tier
    &&& is_role_output(variables, SELLING_ORDER, tier, output.1@)
    &&& is_role_output(variables, BUYING_ORDER, tier, output.2@)
}

/// Tells whether one more secret order can be taken when `submitted` are
/// already held: the capacity is never exceeded.
pub fn check_capacity(submitted: usize) -> (result: Result<(), AuctionError>)
    ensures
        submitted < 85 ==> result.is_ok(),
        submitted >= 85 ==> result == Err::<(), AuctionError>(AuctionError::CapacityOverflow),
{
    if submitted < CAPACITY {
        Ok(())
    } else {
        Err(AuctionError::CapacityOverflow)
    }
}

/// Resets the ledger of an oblivious auction and names the secret variables
/// to delete: all that are committed, then all that are pending. A refused
/// reset changes nothing and deletes nothing.
pub fn reset_contract(
    state: &mut AuctionState,
    sender: &Identity,
    committed: &Vec<u32>,
    pending: &Vec<u32>,
) -> (result: Result<Vec<u32>, AuctionError>)
    ensures
        !old(state).is_holder(*sender) ==> result == Err::<Vec<u32>, AuctionError>(
            AuctionError::Authorization,
        ),
        old(state).is_holder(*sender) && old(state).market_clearing_price_index.is_none()
            ==> result == Err::<Vec<u32>, AuctionError>(AuctionError::Precondition),
        old(state).is_holder(*sender) && old(state).market_clearing_price_index.is_some()
            ==> result.is_ok(),
        result.is_err() ==> *final(state) == *old(state),
        result.is_ok() ==> final(state).is_fresh(*sender),
        result.is_ok() ==> result.unwrap()@ == committed@ + pending@,
{
    match state.reset_contract(sender) {
        Err(error) => Err(error),
        Ok(()) => {
            let mut doomed: Vec<u32> = Vec::new();
            let held: usize = committed.len();
            for k in 0usize..held
                invariant
                    held == committed@.len(),
                    doomed@ == committed@.take(k as int),
            {
                doomed.push(committed[k]);
                assert(committed@.take(k + 1) =~= committed@.take(k as int).push(committed@[k as int]));
            }
            assert(committed@.take(held as int) =~= committed@);
            let waiting: usize = pending.len();
            for k in 0usize..waiting
                invariant
                    waiting == pending@.len(),
                    doomed@ == committed@ + pending@.take(k as int),
            {
                doomed.push(pending[k]);
                assert(committed@ + pending@.take(k + 1) =~= (committed@ + pending@.take(k as int)).push(
                    pending@[k as int],
                ));
            }
            assert(pending@.take(waiting as int) =~= pending@);
            Ok(doomed)
        },
    }
}

/// The fills that a side's slots hold once they are opened.
pub open spec fn opened_fills(outputs: Seq<SecretOrderOutput>) -> Seq<Order> {
    Seq::new(outputs.len(), |slot: int| Order { id: outputs[slot].id, quantity: outputs[slot].quantity })
}

/// Turns the opened slots of one side into a list of fills, slot by slot.
pub fn open_outputs(outputs: &[SecretOrderOutput; 85]) -> (orders: Vec<Order>)
    ensures
        orders@ == opened_fills(outputs@),
{
    let mut orders: Vec<Order> = Vec::new();
    for slot in 0usize..85usize
        invariant
            orders@.len() == slot,
            forall|k: int| 0 <= k < slot ==> #[trigger] orders@[k] == opened_fills(outputs@)[k],
    {
        orders.push(Order { id: outputs[slot].id, quantity: outputs[slot].quantity });
    }
    assert(orders@ =~= opened_fills(outputs@));
    orders
}

/// Tells whether a round has handed over the three values that it owes:
/// the clearing tier and the slots of the two sides.
pub fn check_opened_count(count: usize) -> (result: Result<(), AuctionError>)
    ensures
        count == 3 ==> result.is_ok(),
        count != 3 ==> result == Err::<(), AuctionError>(AuctionError::Shape),
{
    if count == 3 {
        Ok(())
    } else {
        Err(AuctionError::Shape)
    }
}

/// Takes the opened results of an oblivious round into the ledger: the
/// clearing tier, and the trades that cross the opened fills. A count of
/// opened values other than three is refused and changes nothing.
pub fn save_opened_outputs(
    state: &mut AuctionState,
    opened_count: usize,
    market_clearing_price_index: i16,
    sell_orders: &Vec<Order>,
    buy_orders: &Vec<Order>,
) -> (result: Result<(), AuctionError>)
    requires
        none_negative(sell_orders@),
        none_negative(buy_orders@),
    ensures
        opened_count == 3 ==> result.is_ok(),
        opened_count != 3 ==> result == Err::<(), AuctionError>(AuctionError::Shape),
        result.is_err() ==> *final(state) == *old(state),
        result.is_ok() ==> final(state).market_clearing_price_index == Some(
            market_clearing_price_index,
        ),
        result.is_ok() ==> final(state).matched_orders@ == crossing(sell_orders@, buy_orders@),
        final(state).auction_holder == old(state).auction_holder,
        final(state).prices == old(state).prices,
        final(state).sell_orders == old(state).sell_orders,
        final(state).buy_orders == old(state).buy_orders,
        final(state).sell_order_inputs == old(state).sell_order_inputs,
        final(state).buy_order_inputs == old(state).buy_order_inputs,
{
    match check_opened_count(opened_count) {
        Err(error) => Err(error),
        Ok(()) => {
            state.market_clearing_price_index = Some(market_clearing_price_index);
            state.matched_orders = match_orders(sell_orders, buy_orders);
            Ok(())
        },
    }
}

/// The first `count` slots of a side hold, once the empty ones are left
/// out, the fills of the orders that the first `count` variables give to
/// that side.
pub proof fn lemma_slots_hold_the_fills(
    variables: Seq<SecretVariable>,
    role: u8,
    tier: int,
    outputs: Seq<SecretOrderOutput>,
    count: int,
)
    requires
        is_role_output(variables, role, tier, outputs),
        0 <= count <= 85,
    ensures
        without_empty(opened_fills(outputs).take(count)) == fills(
            orders_of(variables.take(if count <= variables.len() { count } else { variables.len() as int }), role),
            tier,
        ),
    decreases count,
{
    let all = opened_fills(outputs);
    if count == 0 {
        assert(all.take(0) =~= Seq::<Order>::empty());
        assert(variables.take(0) =~= Seq::<SecretVariable>::empty());
    } else {
        let slot = count - 1;
        lemma_slots_hold_the_fills(variables, role, tier, outputs, slot);
        assert(all.take(count) =~= all.take(slot).push(all[slot]));
        lemma_without_empty_push(all.take(slot), all[slot]);
        assert(outputs[slot] == slot_output(variables, role, tier, slot));
        if slot < variables.len() {
            let earlier = variables.take(slot);
            let now = variables.take(count);
            assert(now.drop_last() =~= earlier);
            assert(now.last() == variables[slot]);
            if variables[slot].order_type == role {
                let held = orders_of(now, role);
                assert(held.drop_last() =~= orders_of(earlier, role));
                assert(held.last() == variables[slot].order.opened());
            }
        }
    }
}

/// The two modes agree: crossing the opened slots of an oblivious round
/// gives the trades of crossing the fills that the same orders have in the
/// open.
pub proof fn lemma_modes_agree(
    variables: Seq<SecretVariable>,
    tier: int,
    sell_slots: Seq<SecretOrderOutput>,
    buy_slots: Seq<SecretOrderOutput>,
)
    requires
        variables.len() <= 85,
        is_role_output(variables, SELLING_ORDER, tier, sell_slots),
        is_role_output(variables, BUYING_ORDER, tier, buy_slots),
        none_negative(opened_fills(sell_slots)),
        none_negative(opened_fills(buy_slots)),
    ensures
        crossing(opened_fills(sell_slots), opened_fills(buy_slots)) == crossing(
            fills(orders_of(variables, SELLING_ORDER), tier),
            fills(orders_of(variables, BUYING_ORDER), tier),
        ),
{
    lemma_slots_hold_the_fills(variables, SELLING_ORDER, tier, sell_slots, 85);
    lemma_slots_hold_the_fills(variables, BUYING_ORDER, tier, buy_slots, 85);
    assert(opened_fills(sell_slots).take(85) =~= opened_fills(sell_slots));
    assert(opened_fills(buy_slots).take(85) =~= opened_fills(buy_slots));
    assert(variables.take(variables.len() as int) =~= variables);
    lemma_crossing_passes_over_empty(opened_fills(sell_slots), opened_fills(buy_slots));
}

} // verus!
