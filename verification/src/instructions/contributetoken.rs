use vstd::prelude::*;

use crate::error::CrowdfundingError;
use crate::events::Deposited;
use crate::instructions::contribute::{
    check_contribution, contribution_admission, contribution_fits, contribution_recorded,
    funder_recorded, platform_fee, platform_fee_of, points_awarded, record_contribution,
    ContributionReceipt, Payment,
};
use crate::pubkey::Pubkey;
use crate::state::{Campaign, Contribution, Factory, Funder, Spender};

verus! {

/// The accounts of a contribution in tokens.
pub struct ContributeToken {
    pub campaign: Campaign,
    pub campaign_key: Pubkey,
    pub contribution: Contribution,
    pub contributor: Pubkey,
    pub factory: Factory,
    /// Mint of the campaign's token account.
    pub campaign_token_mint: Pubkey,
    pub spender: Spender,
}

/// A contribution of `amount` tokens of the campaign's mint at time `now`.
pub fn process_contribute_token(ctx: &mut ContributeToken, now: i64, amount: u64) -> (r: Result<
    ContributionReceipt,
    CrowdfundingError,
>)
    requires
        contribution_admission(old(ctx).campaign@, old(ctx).factory@, now, amount) is Ok ==> {
            &&& platform_fee_of(amount, old(ctx).factory.platform_fee) <= amount
            &&& contribution_fits(
                old(ctx).campaign@,
                old(ctx).contribution,
                old(ctx).spender,
                amount,
                true,
            )
        },
    ensures
        match r {
            Err(e) => {
                &&& contribution_admission(old(ctx).campaign@, old(ctx).factory@, now, amount)
                    == Err::<(), CrowdfundingError>(e)
                &&& *final(ctx) == *old(ctx)
            },
            Ok(receipt) => {
                let fee = platform_fee_of(amount, old(ctx).factory.platform_fee);
                &&& contribution_admission(old(ctx).campaign@, old(ctx).factory@, now, amount)
                    is Ok
                &&& final(ctx).campaign@ == funder_recorded(
                    old(ctx).campaign@,
                    Funder {
                        funder_address: old(ctx).contributor,
                        token_mint: old(ctx).campaign_token_mint,
                        amount: amount,
                    },
                )
                &&& final(ctx).contribution == contribution_recorded(
                    old(ctx).contribution,
                    old(ctx).contributor,
                    old(ctx).campaign_key,
                    amount,
                    true,
                )
                &&& final(ctx).spender == points_awarded(old(ctx).spender, amount)
                &&& final(ctx).factory == old(ctx).factory
                &&& final(ctx).campaign_key == old(ctx).campaign_key
                &&& final(ctx).contributor == old(ctx).contributor
                &&& final(ctx).campaign_token_mint == old(ctx).campaign_token_mint
                &&& receipt.payment == (Payment::Token {
                    net_amount: (amount - fee) as u64,
                    fee: fee,
                })
                &&& receipt.event == (Deposited {
                    funder: old(ctx).contributor,
                    token: old(ctx).campaign_token_mint,
                    amount: amount,
                })
            },
        },
{
    check_contribution(&ctx.campaign, &ctx.factory, now, amount)?;
    let fee = platform_fee(amount, ctx.factory.platform_fee);
    let net_amount: u64 = amount - fee;
    let mint = ctx.campaign_token_mint;
    let contributor = ctx.contributor;
    let campaign_key = ctx.campaign_key;
    record_contribution(
        &mut ctx.campaign,
        &mut ctx.contribution,
        &mut ctx.spender,
        contributor,
        campaign_key,
        mint,
        amount,
        true,
    );
    Ok(
        ContributionReceipt {
            payment: Payment::Token { net_amount: net_amount, fee: fee },
            event: Deposited { funder: contributor, token: mint, amount: amount },
        },
    )
}

} // verus!
