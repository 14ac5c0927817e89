//! A sealed-bid, uniform-price double auction over six price tiers.
//!
//! Buyers and sellers state, tier by tier, how much they would trade. The
//! engine accumulates each statement into a curve, sums the curves of each
//! side, picks the tier where supply and demand are closest, reads every
//! order's fill at that tier and crosses the two sides into trades.
//!
//! The round exists twice: in the open, over growing lists, and under the
//! discipline of oblivious execution, over slots of a fixed number. Both
//! choose the same tier and end in the same trades.

pub mod types;
pub mod curve;
pub mod clearing;
pub mod fills;
pub mod matching;
pub mod pipeline;
pub mod auction;
pub mod oblivious;
