use vstd::prelude::*;

use crate::error::CrowdfundingError;
use crate::events;
use crate::pubkey::Pubkey;
use crate::state::{MultiplierInfo, MultiplierTier, Points, PointsView, Spender};

verus! {

/// The accounts of a tier purchase.
pub struct PurchaseMultiplier {
    pub points: Points,
    pub spender: Spender,
    pub payer: Pubkey,
}

/// What an accepted purchase asks of the runtime.
#[derive(Clone, Copy, Debug, PartialEq, Eq)]
pub struct PurchaseReceipt {
    /// Lamports transferred from the payer back to the payer (the amount paid
    /// above the price); nothing is transferred when this is zero.
    pub refund: u64,
    /// Lamports transferred from the payer to the fee wallet.
    pub price: u64,
    pub event: events::PurchaseMultiplier,
}

/// The price and multiplier listed first for `tier`, if any.
pub open spec fn tier_lookup(tiers: Seq<(MultiplierTier, MultiplierInfo)>, tier: MultiplierTier) -> Option<
    MultiplierInfo,
>
    decreases tiers.len(),
{
    if tiers.len() == 0 {
        None
    } else if tiers[0].0 == tier {
        Some(tiers[0].1)
    } else {
        tier_lookup(tiers.drop_first(), tier)
    }
}

/// The tier's listing if the purchase is accepted, or why it is refused.
pub open spec fn purchase_outcome(
    points: PointsView,
    spender: Spender,
    tier: MultiplierTier,
    amount: u64,
) -> Result<MultiplierInfo, CrowdfundingError> {
    if points.is_paused {
        Err(CrowdfundingError::PointsPaused)
    } else if spender.multiplier_tier == tier {
        Err(CrowdfundingError::MultiplierAlreadyOwned)
    } else if tier_lookup(points.multiplier_tiers, tier) is None {
        Err(CrowdfundingError::InvalidTier)
    } else if amount < tier_lookup(points.multiplier_tiers, tier)->0.price {
        Err(CrowdfundingError::InsufficientSolForTier)
    } else {
        Ok(tier_lookup(points.multiplier_tiers, tier)->0)
    }
}

/// The spender after buying `tier` for `amount`: the tier's multiplier, and
/// `amount` more points.
pub open spec fn tier_bought(spender: Spender, tier: MultiplierTier, info: MultiplierInfo, amount: u64) -> Spender {
    Spender {
        multiplier_tier: tier,
        multiplier: info.multiplier,
        points_earned: (spender.points_earned + amount) as u64,
        ..spender
    }
}

fn find_tier(tiers: &Vec<(MultiplierTier, MultiplierInfo)>, tier: MultiplierTier) -> (r: Option<
    MultiplierInfo,
>)
    ensures
        r == tier_lookup(tiers@, tier),
{
    let mut i: usize = 0;
    assert(tiers@.skip(0) =~= tiers@);
    while i < tiers.len()
        invariant
            i <= tiers@.len(),
            tier_lookup(tiers@, tier) == tier_lookup(tiers@.skip(i as int), tier),
        decreases tiers@.len() - i,
    {
        let entry = tiers[i];
        if entry.0 == tier {
            return Some(entry.1);
        }
        assert(tiers@.skip(i as int).drop_first() =~= tiers@.skip(i + 1));
        i = i + 1;
    }
    None
}

/// Purchase of a multiplier tier for `amount` lamports.
pub fn purchase_multiplier(ctx: &mut PurchaseMultiplier, tier: MultiplierTier, amount: u64) -> (r:
    Result<PurchaseReceipt, CrowdfundingError>)
    requires
        purchase_outcome(old(ctx).points@, old(ctx).spender, tier, amount) is Ok
            ==> old(ctx).spender.points_earned + amount <= u64::MAX,
    ensures
        match r {
            Err(e) => {
                &&& purchase_outcome(old(ctx).points@, old(ctx).spender, tier, amount) == Err::<
                    MultiplierInfo,
                    CrowdfundingError,
                >(e)
                &&& *final(ctx) == *old(ctx)
            },
            Ok(receipt) => {
                let info = purchase_outcome(old(ctx).points@, old(ctx).spender, tier, amount)->Ok_0;
                &&& purchase_outcome(old(ctx).points@, old(ctx).spender, tier, amount) is Ok
                &&& final(ctx).spender == tier_bought(old(ctx).spender, tier, info, amount)
                &&& final(ctx).points@ == old(ctx).points@
                &&& final(ctx).payer == old(ctx).payer
                &&& receipt == (PurchaseReceipt {
                    refund: (amount - info.price) as u64,
                    price: info.price,
                    event: events::PurchaseMultiplier {
                        spender: old(ctx).payer,
                        tier: tier,
                        price_paid: amount,
                        multiplier: info.multiplier,
                    },
                })
            },
        },
{
    if ctx.points.is_paused {
        return Err(CrowdfundingError::PointsPaused);
    }
    if ctx.spender.multiplier_tier == tier {
        return Err(CrowdfundingError::MultiplierAlreadyOwned);
    }
    let info = match find_tier(&ctx.points.multiplier_tiers, tier) {
        Some(info) => info,
        None => {
            return Err(CrowdfundingError::InvalidTier);
        },
    };
    let required_sol = info.price;
    if amount < required_sol {
        return Err(CrowdfundingError::InsufficientSolForTier);
    }
    let refund: u64 = amount - required_sol;
    ctx.spender.multiplier_tier = tier;
    ctx.spender.multiplier = info.multiplier;
    ctx.spender.points_earned = ctx.spender.points_earned + amount;
    Ok(
        PurchaseReceipt {
            refund: refund,
            price: required_sol,
            event: events::PurchaseMultiplier {
                spender: ctx.payer,
                tier: tier,
                price_paid: amount,
                multiplier: info.multiplier,
            },
        },
    )
}

} // verus!
