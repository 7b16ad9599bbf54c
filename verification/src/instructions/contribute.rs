use vstd::prelude::*;

use crate::error::CrowdfundingError;
use crate::events::Deposited;
use crate::pubkey::{zero_key, Pubkey};
use crate::state::{Campaign, CampaignView, Contribution, Factory, FactoryView, Funder, Spender};

verus! {

/// Percentage of `amount` kept as platform fee, rounded down and, as the
/// narrowing to 64 bits does, taken modulo 2^64.
pub open spec fn platform_fee_of(amount: u64, platform_fee: u8) -> u64 {
    ((amount * platform_fee / 100) % 0x1_0000_0000_0000_0000) as u64
}

/// Whether a contribution of `amount` at time `now` is accepted, and if not, why.
pub open spec fn contribution_admission(
    campaign: CampaignView,
    factory: FactoryView,
    now: i64,
    amount: u64,
) -> Result<(), CrowdfundingError> {
    if campaign.is_paused {
        Err(CrowdfundingError::CampaignPaused)
    } else if campaign.ended {
        Err(CrowdfundingError::FundingPeriodOver)
    } else if now < campaign.start_time {
        Err(CrowdfundingError::FundingNotStarted)
    } else if now >= campaign.end_time {
        Err(CrowdfundingError::FundingPeriodOver)
    } else if amount == 0 {
        Err(CrowdfundingError::InvalidAmount)
    } else if factory.is_paused {
        Err(CrowdfundingError::FactoryPaused)
    } else if factory.limits_enabled && !campaign.funding_approved {
        Err(CrowdfundingError::FundingNotApproved)
    } else if factory.limits_enabled && campaign.funding_disapproved {
        Err(CrowdfundingError::FundingDisapproved)
    } else {
        Ok(())
    }
}

/// The campaign after a funder is appended to it.
pub open spec fn funder_recorded(campaign: CampaignView, funder: Funder) -> CampaignView {
    CampaignView {
        funders_count: (campaign.funders_count + 1) as u64,
        funders: campaign.funders.push(funder),
        ..campaign
    }
}

/// The contributor's running totals after a contribution of `amount`.
pub open spec fn contribution_recorded(
    contribution: Contribution,
    contributor: Pubkey,
    campaign_key: Pubkey,
    amount: u64,
    is_token: bool,
) -> Contribution {
    Contribution {
        contributor: contributor,
        campaign: campaign_key,
        sol_amount: if is_token {
            contribution.sol_amount
        } else {
            (contribution.sol_amount + amount) as u64
        },
        token_amount: if is_token {
            (contribution.token_amount + amount) as u64
        } else {
            contribution.token_amount
        },
    }
}

/// The spender after earning `amount` points times its multiplier.
pub open spec fn points_awarded(spender: Spender, amount: u64) -> Spender {
    Spender { points_earned: (spender.points_earned + amount * spender.multiplier) as u64, ..spender }
}

/// Whether recording a contribution stays within the 64-bit counters.
pub open spec fn contribution_fits(
    campaign: CampaignView,
    contribution: Contribution,
    spender: Spender,
    amount: u64,
    is_token: bool,
) -> bool {
    &&& (if is_token {
        contribution.token_amount + amount
    } else {
        contribution.sol_amount + amount
    }) <= u64::MAX
    &&& campaign.funders_count + 1 <= u64::MAX
    &&& amount * spender.multiplier <= u64::MAX
    &&& spender.points_earned + amount * spender.multiplier <= u64::MAX
}

/// How the contributed value moves.
#[derive(Clone, Copy, Debug, PartialEq, Eq)]
pub enum Payment {
    /// `amount` lamports go from the contributor to the campaign, then `fee`
    /// lamports go from the campaign to the fee wallet.
    Sol { amount: u64, fee: u64 },
    /// `net_amount` tokens go from the contributor to the campaign's token
    /// account and `fee` tokens to the fee wallet's token account.
    Token { net_amount: u64, fee: u64 },
}

/// What an accepted contribution asks of the runtime.
#[derive(Clone, Copy, Debug, PartialEq, Eq)]
pub struct ContributionReceipt {
    pub payment: Payment,
    pub event: Deposited,
}

/// The accounts of a contribution in lamports or in tokens.
pub struct Contribute {
    pub campaign: Campaign,
    pub campaign_key: Pubkey,
    pub contribution: Contribution,
    pub contributor: Pubkey,
    pub factory: Factory,
    /// Mint of the campaign's token account.
    pub campaign_token_mint: Pubkey,
    pub spender: Spender,
}

/// Checks whether a contribution is accepted.
pub fn check_contribution(campaign: &Campaign, factory: &Factory, now: i64, amount: u64) -> (r: Result<
    (),
    CrowdfundingError,
>)
    ensures
        r == contribution_admission(campaign@, factory@, now, amount),
{
    if campaign.is_paused {
        return Err(CrowdfundingError::CampaignPaused);
    }
    if campaign.ended {
        return Err(CrowdfundingError::FundingPeriodOver);
    }
    if now < campaign.start_time {
        return Err(CrowdfundingError::FundingNotStarted);
    }
    if now >= campaign.end_time {
        return Err(CrowdfundingError::FundingPeriodOver);
    }
    if amount == 0 {
        return Err(CrowdfundingError::InvalidAmount);
    }
    if factory.is_paused {
        return Err(CrowdfundingError::FactoryPaused);
    }
    if factory.limits_enabled {
        if !campaign.funding_approved {
            return Err(CrowdfundingError::FundingNotApproved);
        }
        if campaign.funding_disapproved {
            return Err(CrowdfundingError::FundingDisapproved);
        }
    }
    Ok(())
}

/// The platform fee on `amount`: `amount * platform_fee / 100`, narrowed to 64 bits.
pub fn platform_fee(amount: u64, percent: u8) -> (fee: u64)
    ensures
        fee == platform_fee_of(amount, percent),
        percent <= 100 ==> fee <= amount,
{
    let a: u128 = amount as u128;
    let p: u128 = percent as u128;
    assert(a * p <= 0xffff_ffff_ffff_ffff * 255) by (nonlinear_arith)
        requires
            a <= 0xffff_ffff_ffff_ffff,
            p <= 255,
    ;
    let product: u128 = a * p;
    let quotient: u128 = product / 100;
    let fee: u64 = quotient as u64;
    assert(fee == quotient % 0x1_0000_0000_0000_0000) by (bit_vector)
        requires
            fee == quotient as u64,
    ;
    if percent <= 100 {
        assert(a * p <= a * 100) by (nonlinear_arith)
            requires
                p <= 100,
        ;
        assert(quotient <= a);
        assert(quotient % 0x1_0000_0000_0000_0000 == quotient);
    }
    fee
}

/// Appends the funder, updates the contributor's totals and awards points.
pub(crate) fn record_contribution(
    campaign: &mut Campaign,
    contribution: &mut Contribution,
    spender: &mut Spender,
    contributor: Pubkey,
    campaign_key: Pubkey,
    token_mint: Pubkey,
    amount: u64,
    is_token: bool,
)
    requires
        contribution_fits(old(campaign)@, *old(contribution), *old(spender), amount, is_token),
    ensures
        final(campaign)@ == funder_recorded(
            old(campaign)@,
            Funder { funder_address: contributor, token_mint: token_mint, amount: amount },
        ),
        *final(contribution) == contribution_recorded(
            *old(contribution),
            contributor,
            campaign_key,
            amount,
            is_token,
        ),
        *final(spender) == points_awarded(*old(spender), amount),
{
    contribution.contributor = contributor;
    contribution.campaign = campaign_key;
    if is_token {
        contribution.token_amount = contribution.token_amount + amount;
    } else {
        contribution.sol_amount = contribution.sol_amount + amount;
    }
    campaign.funders_count = campaign.funders_count + 1;
    campaign.funders.push(Funder { funder_address: contributor, token_mint: token_mint, amount: amount });
    let points: u64 = amount;
    let multiplier: u32 = spender.multiplier;
    spender.points_earned = spender.points_earned + points * (multiplier as u64);
}

/// A contribution of `amount` lamports (`is_token == false`) or tokens of the
/// campaign's mint (`is_token == true`), at time `now`.
pub fn process_contribute(ctx: &mut Contribute, now: i64, amount: u64, is_token: bool) -> (r: Result<
    ContributionReceipt,
    CrowdfundingError,
>)
    requires
        contribution_admission(old(ctx).campaign@, old(ctx).factory@, now, amount) is Ok ==> {
            &&& platform_fee_of(amount, old(ctx).factory.platform_fee) <= amount
            &&& contribution_fits(
                old(ctx).campaign@,
                old(ctx).contribution,
                old(ctx).spender,
                amount,
                is_token,
            )
        },
    ensures
        match r {
            Err(e) => {
                &&& contribution_admission(old(ctx).campaign@, old(ctx).factory@, now, amount)
                    == Err::<(), CrowdfundingError>(e)
                &&& *final(ctx) == *old(ctx)
            },
            Ok(receipt) => {
                let fee = platform_fee_of(amount, old(ctx).factory.platform_fee);
                let mint = if is_token {
                    old(ctx).campaign_token_mint
                } else {
                    zero_key()
                };
                &&& contribution_admission(old(ctx).campaign@, old(ctx).factory@, now, amount)
                    is Ok
                &&& final(ctx).campaign@ == funder_recorded(
                    old(ctx).campaign@,
                    Funder { funder_address: old(ctx).contributor, token_mint: mint, amount: amount },
                )
                &&& final(ctx).contribution == contribution_recorded(
                    old(ctx).contribution,
                    old(ctx).contributor,
                    old(ctx).campaign_key,
                    amount,
                    is_token,
                )
                &&& final(ctx).spender == points_awarded(old(ctx).spender, amount)
                &&& final(ctx).factory == old(ctx).factory
                &&& final(ctx).campaign_key == old(ctx).campaign_key
                &&& final(ctx).contributor == old(ctx).contributor
                &&& final(ctx).campaign_token_mint == old(ctx).campaign_token_mint
                &&& receipt.payment == (if is_token {
                    Payment::Token { net_amount: (amount - fee) as u64, fee: fee }
                } else {
                    Payment::Sol { amount: amount, fee: fee }
                })
                &&& receipt.event == (Deposited {
                    funder: old(ctx).contributor,
                    token: mint,
                    amount: amount,
                })
            },
        },
{
    check_contribution(&ctx.campaign, &ctx.factory, now, amount)?;
    let fee = platform_fee(amount, ctx.factory.platform_fee);
    let net_amount: u64 = amount - fee;
    let payment = if is_token {
        Payment::Token { net_amount: net_amount, fee: fee }
    } else {
        Payment::Sol { amount: amount, fee: fee }
    };
    let mint = if is_token {
        ctx.campaign_token_mint
    } else {
        Pubkey::default()
    };
    let contributor = ctx.contributor;
    let campaign_key = ctx.campaign_key;
    record_contribution(
        &mut ctx.campaign,
        &mut ctx.contribution,
        &mut ctx.spender,
        contributor,
        campaign_key,
        mint,
        amount,
        is_token,
    );
    Ok(
        ContributionReceipt {
            payment: payment,
            event: Deposited { funder: contributor, token: mint, amount: amount },
        },
    )
}

} // verus!
