//! The choice of the clearing tier.
//!
//! The tiers are probed from the middle outward, in the fixed order
//! 3, 2, 4, 1, 5, 0. A tier replaces the best one so far only when its
//! imbalance is strictly smaller, so among tiers of equal imbalance the one
//! probed first wins. Every execution mode of the auction uses this rule.

use vstd::prelude::*;

verus! {

/// The distance between supply and demand at `tier`.
pub open spec fn imbalance(supply: Seq<i16>, demand: Seq<i16>, tier: int) -> int {
    let difference = supply[tier] - demand[tier];
    if difference < 0 {
        -difference
    } else {
        difference
    }
}

/// The tier that is probed at `step`, counting from zero.
pub open spec fn probe_at(step: int) -> int {
    if step == 0 {
        3
    } else if step == 1 {
        2
    } else if step == 2 {
        4
    } else if step == 3 {
        1
    } else if step == 4 {
        5
    } else {
        0
    }
}

/// The step at which `tier` is probed.
pub open spec fn probe_rank(tier: int) -> int {
    if tier == 3 {
        0
    } else if tier == 2 {
        1
    } else if tier == 4 {
        2
    } else if tier == 1 {
        3
    } else if tier == 5 {
        4
    } else {
        5
    }
}

/// The best tier once the steps `0..=step` have been probed.
pub open spec fn best_after(supply: Seq<i16>, demand: Seq<i16>, step: int) -> int
    decreases step,
{
    if step <= 0 {
        probe_at(0)
    } else {
        let held = best_after(supply, demand, step - 1);
        let probed = probe_at(step);
        if imbalance(supply, demand, probed) < imbalance(supply, demand, held) {
            probed
        } else {
            held
        }
    }
}

/// The clearing tier of a pair of total curves.
pub open spec fn clearing_tier(supply: Seq<i16>, demand: Seq<i16>) -> int {
    best_after(supply, demand, 5)
}

/// `tier` is on the ladder, no tier has a smaller imbalance, and no tier of
/// the same imbalance is probed before it.
pub open spec fn is_clearing_tier(supply: Seq<i16>, demand: Seq<i16>, tier: int) -> bool {
    &&& 0 <= tier < 6
    &&& forall|other: int| 0 <= other < 6 ==>
        imbalance(supply, demand, tier) <= #[trigger] imbalance(supply, demand, other)
    &&& forall|other: int| 0 <= other < 6
        && #[trigger] imbalance(supply, demand, other) == imbalance(supply, demand, tier) ==>
        probe_rank(tier) <= probe_rank(other)
}

/// What holds of the best tier after each step of the probe.
pub proof fn lemma_best_after(supply: Seq<i16>, demand: Seq<i16>, step: int)
    requires
        0 <= step < 6,
    ensures
        0 <= best_after(supply, demand, step) < 6,
        probe_rank(best_after(supply, demand, step)) <= step,
        forall|earlier: int| 0 <= earlier <= step ==>
            imbalance(supply, demand, best_after(supply, demand, step))
                <= imbalance(supply, demand, #[trigger] probe_at(earlier)),
        forall|earlier: int| 0 <= earlier <= step
            && imbalance(supply, demand, #[trigger] probe_at(earlier))
                == imbalance(supply, demand, best_after(supply, demand, step)) ==>
            probe_rank(best_after(supply, demand, step)) <= earlier,
    decreases step,
{
    if step > 0 {
        lemma_best_after(supply, demand, step - 1);
    }
}

/// The clearing tier minimises the imbalance and wins every tie by being
/// probed first.
pub proof fn lemma_clearing_tier_is_best(supply: Seq<i16>, demand: Seq<i16>)
    ensures
        is_clearing_tier(supply, demand, clearing_tier(supply, demand)),
{
    lemma_best_after(supply, demand, 5);
    let best = clearing_tier(supply, demand);
    assert forall|other: int| 0 <= other < 6 implies imbalance(supply, demand, best)
        <= #[trigger] imbalance(supply, demand, other) by {
        assert(probe_at(probe_rank(other)) == other);
    }
    assert forall|other: int| 0 <= other < 6
        && #[trigger] imbalance(supply, demand, other) == imbalance(supply, demand, best)
        implies probe_rank(best) <= probe_rank(other) by {
        assert(probe_at(probe_rank(other)) == other);
    }
}

/// The choice is determined by the two curves alone: whatever tier
/// minimises the imbalance and is probed first among its equals is the
/// clearing tier, so equal curves always clear at the same tier.
pub proof fn lemma_clearing_tier_unique(supply: Seq<i16>, demand: Seq<i16>, tier: int)
    requires
        is_clearing_tier(supply, demand, tier),
    ensures
        tier == clearing_tier(supply, demand),
{
    lemma_clearing_tier_is_best(supply, demand);
    let best = clearing_tier(supply, demand);
    assert(imbalance(supply, demand, tier) <= imbalance(supply, demand, best));
    assert(imbalance(supply, demand, best) <= imbalance(supply, demand, tier));
    assert(probe_rank(tier) <= probe_rank(best));
    assert(probe_rank(best) <= probe_rank(tier));
}

/// The tier at which the auction clears: the one where total supply and
/// total demand are closest, the first in probe order among equals.
pub fn calculate_market_clearing_price_index(
    total_supply: [i16; 6],
    total_demand: [i16; 6],
) -> (index: i16)
    ensures
        index == clearing_tier(total_supply@, total_demand@),
        is_clearing_tier(total_supply@, total_demand@, index as int),
{
    let probes: [usize; 6] = [3, 2, 4, 1, 5, 0];
    let mut best: usize = 3;
    let mut least: i32 = distance(total_supply[3], total_demand[3]);
    for step in 1usize..6usize
        invariant
            forall|k: int| 0 <= k < 6 ==> #[trigger] probes@[k] == probe_at(k),
            best == best_after(total_supply@, total_demand@, step - 1),
            0 <= best < 6,
            least == imbalance(total_supply@, total_demand@, best as int),
    {
        let probed: usize = probes[step];
        let found: i32 = distance(total_supply[probed], total_demand[probed]);
        if found < least {
            least = found;
            best = probed;
        }
    }
    proof {
        lemma_clearing_tier_is_best(total_supply@, total_demand@);
    }
    best as i16
}

/// The absolute difference of two quantities.
pub fn distance(supply: i16, demand: i16) -> (gap: i32)
    ensures
        gap >= 0,
        gap == supply - demand || gap == demand - supply,
{
    let difference: i32 = supply as i32 - demand as i32;
    if difference < 0 {
        -difference
    } else {
        difference
    }
}

} // verus!
