//! The records that the auction passes from stage to stage.

use vstd::prelude::*;

verus! {

/// The number of price tiers of one auction round.
pub const TIERS: usize = 6;

/// One settled exchange between a buyer and a seller.
#[derive(Clone, Copy, Debug, PartialEq, Eq, Structural)]
pub struct Trade {
    pub buyer_id: i16,
    pub seller_id: i16,
    pub quantity: i16,
}

impl Trade {
    /// A trade of `quantity` units from `seller_id` to `buyer_id`.
    pub fn new_trade(buyer_id: i16, seller_id: i16, quantity: i16) -> (trade: Self)
        ensures
            trade.buyer_id == buyer_id,
            trade.seller_id == seller_id,
            trade.quantity == quantity,
    {
        Self { buyer_id, seller_id, quantity }
    }
}

/// What a participant submits: an identifier and one quantity per tier.
/// After accumulation the same record holds the participant's curve.
#[derive(Clone, Copy, Debug, PartialEq, Eq)]
pub struct OrderInput {
    pub id: i16,
    pub quantity_per_price: [i16; 6],
}

/// A participant's quantity at the clearing tier.
#[derive(Clone, Copy, Debug, PartialEq, Eq, Structural)]
pub struct Order {
    pub id: i16,
    pub quantity: i16,
}

/// The quantity that `order` holds at `tier`, and zero outside the ladder.
pub open spec fn quantity_at(order: OrderInput, tier: int) -> int {
    if 0 <= tier < 6 {
        order.quantity_per_price@[tier] as int
    } else {
        0
    }
}

} // verus!
