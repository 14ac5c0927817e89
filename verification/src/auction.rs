//! The auction's ledger and the operations that change it.
//!
//! Every operation takes the ledger and, where it is privileged, the
//! identity of the caller. An operation that is refused leaves the ledger as
//! it was.

use vstd::prelude::*;
use crate::types::{Order, OrderInput, Trade};
use crate::matching::{crossing, match_orders, none_negative};
use crate::pipeline::{
    check_side_fits, double_auction, round_tier, round_trades, side_fills, side_fits,
};

verus! {

/// Who calls an operation: the kind of the account and its identifier.
#[derive(Clone, Copy, Debug, PartialEq, Eq)]
pub struct Identity {
    pub bytes: [u8; 21],
}

impl Identity {
    /// Whether the two identities are the same account.
    pub fn same_as(&self, other: &Identity) -> (same: bool)
        ensures
            same == (self.bytes@ == other.bytes@),
    {
        let mut same: bool = true;
        for i in 0usize..21usize
            invariant
                same == (forall|j: int| 0 <= j < i ==> self.bytes@[j] == other.bytes@[j]),
        {
            if self.bytes[i] != other.bytes[i] {
                same = false;
            }
        }
        proof {
            if same {
                assert(self.bytes@ =~= other.bytes@);
            }
        }
        same
    }
}

/// Why an operation was refused.
#[derive(Clone, Copy, Debug, PartialEq, Eq, Structural)]
pub enum AuctionError {
    /// A privileged operation was called by someone other than the holder.
    Authorization,
    /// A reset was asked for before any round was cleared.
    Precondition,
    /// The number of opened values is not the three that a round yields.
    Shape,
    /// More orders were submitted than the fixed capacity holds.
    CapacityOverflow,
}

/// The six prices of a range: `min`, then five equal steps towards `max`.
/// The step is a fifth of the range, rounded towards zero.
pub open spec fn price_step(min: int, max: int) -> int {
    if max >= min {
        (max - min) / 5
    } else {
        -((min - max) / 5)
    }
}

/// The price of `tier` on the ladder from `min` to `max`.
pub open spec fn tier_price(min: int, max: int, tier: int) -> int {
    min + price_step(min, max) * tier
}

/// The ladder of six prices from `min` to `max`.
pub fn price_ladder(min: i16, max: i16) -> (prices: [i16; 6])
    ensures
        forall|tier: int| 0 <= tier < 6 ==> #[trigger] prices@[tier] == tier_price(min as int, max as int, tier),
{
    let wide_min: i32 = min as i32;
    let wide_max: i32 = max as i32;
    let step: i32 = if wide_max >= wide_min {
        (wide_max - wide_min) / 5
    } else {
        -((wide_min - wide_max) / 5)
    };
    assert(step == price_step(min as int, max as int));
    let mut prices: [i16; 6] = [0; 6];
    let mut offset: i32 = 0;
    for i in 0usize..6usize
        invariant
            step == price_step(min as int, max as int),
            wide_min == min,
            wide_max == max,
            offset == step * i,
            forall|tier: int| 0 <= tier < i ==>
                #[trigger] prices@[tier] == tier_price(min as int, max as int, tier),
    {
        assert(step * i + step == step * (i + 1)) by (nonlinear_arith);
        assert(wide_max >= wide_min ==> 0 <= step * 5 <= wide_max - wide_min);
        assert(wide_max < wide_min ==> wide_max - wide_min <= step * 5 <= 0);
        assert(step >= 0 ==> 0 <= step * i <= step * 5) by (nonlinear_arith)
            requires 0 <= i <= 5;
        assert(step <= 0 ==> step * 5 <= step * i <= 0) by (nonlinear_arith)
            requires 0 <= i <= 5;
        let price: i32 = wide_min + offset;
        prices[i] = price as i16;
        offset = offset + step;
    }
    prices
}

/// The auction's ledger.
#[derive(Clone, Debug, PartialEq, Eq)]
pub struct AuctionState {
    pub auction_holder: Identity,
    pub prices: [i16; 6],
    pub market_clearing_price_index: Option<i16>,
    pub matched_orders: Vec<Trade>,
    pub sell_orders: Vec<Order>,
    pub buy_orders: Vec<Order>,
    pub sell_order_inputs: Vec<OrderInput>,
    pub buy_order_inputs: Vec<OrderInput>,
}

impl AuctionState {
    /// The ledger holds nothing but its holder: no price, no clearing tier,
    /// no order, no fill and no trade.
    pub open spec fn is_fresh(&self, holder: Identity) -> bool {
        &&& self.auction_holder.bytes@ == holder.bytes@
        &&& forall|tier: int| 0 <= tier < 6 ==> #[trigger] self.prices@[tier] == 0
        &&& self.market_clearing_price_index.is_none()
        &&& self.matched_orders@.len() == 0
        &&& self.sell_orders@.len() == 0
        &&& self.buy_orders@.len() == 0
        &&& self.sell_order_inputs@.len() == 0
        &&& self.buy_order_inputs@.len() == 0
    }

    /// `caller` is the holder of this auction.
    pub open spec fn is_holder(&self, caller: Identity) -> bool {
        self.auction_holder.bytes@ == caller.bytes@
    }

    /// Both backlogs can be cleared within the quantity type.
    pub open spec fn backlogs_fit(&self) -> bool {
        &&& side_fits(self.sell_order_inputs@, true)
        &&& side_fits(self.buy_order_inputs@, false)
    }

    /// `after` is this ledger with its round cleared: the clearing tier, the
    /// fills and the trades are those of the backlogs, and nothing else
    /// has changed.
    pub open spec fn cleared_to(&self, after: AuctionState) -> bool {
        let tier = round_tier(self.sell_order_inputs@, self.buy_order_inputs@);
        &&& after.auction_holder == self.auction_holder
        &&& after.prices == self.prices
        &&& after.sell_order_inputs@ == self.sell_order_inputs@
        &&& after.buy_order_inputs@ == self.buy_order_inputs@
        &&& after.market_clearing_price_index == Some(tier as i16)
        &&& 0 <= tier < 6
        &&& after.sell_orders@ == side_fills(self.sell_order_inputs@, true, tier)
        &&& after.buy_orders@ == side_fills(self.buy_order_inputs@, false, tier)
        &&& after.matched_orders@ == round_trades(self.sell_order_inputs@, self.buy_order_inputs@)
    }

    /// Tells whether both backlogs can be cleared within the quantity type.
    pub fn can_clear(&self) -> (fits: bool)
        ensures
            fits == self.backlogs_fit(),
    {
        check_side_fits(&self.sell_order_inputs, true) && check_side_fits(
            &self.buy_order_inputs,
            false,
        )
    }

    /// A new auction, held by `sender`.
    pub fn initialize(sender: Identity) -> (state: AuctionState)
        ensures
            state.is_fresh(sender),
    {
        AuctionState {
            auction_holder: sender,
            prices: [0; 6],
            market_clearing_price_index: None,
            matched_orders: Vec::new(),
            sell_orders: Vec::new(),
            buy_orders: Vec::new(),
            sell_order_inputs: Vec::new(),
            buy_order_inputs: Vec::new(),
        }
    }

    /// Lets the holder pass and refuses everyone else.
    pub fn check_holder(&self, sender: &Identity) -> (result: Result<(), AuctionError>)
        ensures
            self.is_holder(*sender) ==> result.is_ok(),
            !self.is_holder(*sender) ==> result == Err::<(), AuctionError>(
                AuctionError::Authorization,
            ),
    {
        if self.auction_holder.same_as(sender) {
            Ok(())
        } else {
            Err(AuctionError::Authorization)
        }
    }

    /// Empties the ledger for the next round. Only the holder may reset, and
    /// only after a round was cleared.
    pub fn reset_contract(&mut self, sender: &Identity) -> (result: Result<(), AuctionError>)
        ensures
            !old(self).is_holder(*sender) ==> result == Err::<(), AuctionError>(
                AuctionError::Authorization,
            ),
            old(self).is_holder(*sender) && old(self).market_clearing_price_index.is_none()
                ==> result == Err::<(), AuctionError>(AuctionError::Precondition),
            old(self).is_holder(*sender) && old(self).market_clearing_price_index.is_some()
                ==> result.is_ok(),
            result.is_err() ==> *final(self) == *old(self),
            result.is_ok() ==> final(self).is_fresh(*sender),
    {
        if !self.auction_holder.same_as(sender) {
            return Err(AuctionError::Authorization);
        }
        if self.market_clearing_price_index.is_none() {
            return Err(AuctionError::Precondition);
        }
        *self = AuctionState::initialize(*sender);
        Ok(())
    }

    /// Sets the six prices to the ladder from `min` to `max`. Only the
    /// holder may do so. Orders and results are not touched.
    pub fn update_prices(&mut self, sender: &Identity, min: i16, max: i16) -> (result: Result<
        (),
        AuctionError,
    >)
        ensures
            !old(self).is_holder(*sender) ==> result == Err::<(), AuctionError>(
                AuctionError::Authorization,
            ),
            old(self).is_holder(*sender) ==> result.is_ok(),
            result.is_err() ==> *final(self) == *old(self),
            result.is_ok() ==> forall|tier: int| 0 <= tier < 6 ==>
                #[trigger] final(self).prices@[tier] == tier_price(min as int, max as int, tier),
            final(self).auction_holder == old(self).auction_holder,
            final(self).market_clearing_price_index == old(self).market_clearing_price_index,
            final(self).matched_orders == old(self).matched_orders,
            final(self).sell_orders == old(self).sell_orders,
            final(self).buy_orders == old(self).buy_orders,
            final(self).sell_order_inputs == old(self).sell_order_inputs,
            final(self).buy_order_inputs == old(self).buy_order_inputs,
    {
        if !self.auction_holder.same_as(sender) {
            return Err(AuctionError::Authorization);
        }
        self.prices = price_ladder(min, max);
        Ok(())
    }

    /// Appends a buy order to the backlog.
    pub fn input_buy_order(&mut self, buy_order: OrderInput)
        ensures
            final(self).buy_order_inputs@ == old(self).buy_order_inputs@.push(buy_order),
            final(self).sell_order_inputs == old(self).sell_order_inputs,
            final(self).auction_holder == old(self).auction_holder,
            final(self).prices == old(self).prices,
            final(self).market_clearing_price_index == old(self).market_clearing_price_index,
            final(self).matched_orders == old(self).matched_orders,
            final(self).sell_orders == old(self).sell_orders,
            final(self).buy_orders == old(self).buy_orders,
    {
        self.buy_order_inputs.push(buy_order);
    }

    /// Appends a sell order to the backlog.
    pub fn input_sell_order(&mut self, sell_order: OrderInput)
        ensures
            final(self).sell_order_inputs@ == old(self).sell_order_inputs@.push(sell_order),
            final(self).buy_order_inputs == old(self).buy_order_inputs,
            final(self).auction_holder == old(self).auction_holder,
            final(self).prices == old(self).prices,
            final(self).market_clearing_price_index == old(self).market_clearing_price_index,
            final(self).matched_orders == old(self).matched_orders,
            final(self).sell_orders == old(self).sell_orders,
            final(self).buy_orders == old(self).buy_orders,
    {
        self.sell_order_inputs.push(sell_order);
    }

    /// Clears the round. Only the holder may do so. The clearing tier, the
    /// fills and the trades of the ledger are replaced by those of the
    /// backlogs, which stay as they are.
    pub fn hold_double_auction(&mut self, sender: &Identity) -> (result: Result<(), AuctionError>)
        requires
            old(self).backlogs_fit(),
        ensures
            !old(self).is_holder(*sender) ==> result == Err::<(), AuctionError>(
                AuctionError::Authorization,
            ),
            old(self).is_holder(*sender) ==> result.is_ok(),
            result.is_err() ==> *final(self) == *old(self),
            result.is_ok() ==> old(self).cleared_to(*final(self)),
    {
        if !self.auction_holder.same_as(sender) {
            return Err(AuctionError::Authorization);
        }
        let outcome = double_auction(&self.sell_order_inputs, &self.buy_order_inputs);
        self.market_clearing_price_index = Some(outcome.market_clearing_price_index);
        self.sell_orders = outcome.sell_orders;
        self.buy_orders = outcome.buy_orders;
        self.matched_orders = outcome.matched_orders;
        Ok(())
    }

    /// Replaces the trades of the ledger by the crossing of its fills.
    pub fn save_opened_variable(&mut self)
        requires
            none_negative(old(self).sell_orders@),
            none_negative(old(self).buy_orders@),
        ensures
            final(self).matched_orders@ == crossing(old(self).sell_orders@, old(self).buy_orders@),
            final(self).sell_orders == old(self).sell_orders,
            final(self).buy_orders == old(self).buy_orders,
            final(self).sell_order_inputs == old(self).sell_order_inputs,
            final(self).buy_order_inputs == old(self).buy_order_inputs,
            final(self).auction_holder == old(self).auction_holder,
            final(self).prices == old(self).prices,
            final(self).market_clearing_price_index == old(self).market_clearing_price_index,
    {
        self.matched_orders = match_orders(&self.sell_orders, &self.buy_orders);
    }
}

/// Clearing again, with no order submitted in between, changes nothing:
/// the second run ends with the tier, the fills and the trades of the first.
pub proof fn lemma_clearing_twice(before: AuctionState, once: AuctionState, twice: AuctionState)
    requires
        before.cleared_to(once),
        once.cleared_to(twice),
    ensures
        twice.matched_orders@ == once.matched_orders@,
        twice.market_clearing_price_index == once.market_clearing_price_index,
        twice.sell_orders@ == once.sell_orders@,
        twice.buy_orders@ == once.buy_orders@,
{
}

} // verus!
