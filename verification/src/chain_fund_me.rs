//! The program's entry points, one per instruction that the program exposes.
use vstd::prelude::*;

use crate::error::{CrowdfundingError, InstructionError};
use crate::events::ChainFundMeCreated;
use crate::instructions::contribute::{
    contribution_admission, contribution_fits, contribution_recorded, funder_recorded,
    platform_fee_of, points_awarded, ContributionReceipt, Payment,
};
use crate::instructions::contributesol::{process_contribute_sol, ContributeSol};
use crate::instructions::contributetoken::{process_contribute_token, ContributeToken};
use crate::instructions::create_campaign::{
    campaign_created, create_campaign_admission, process_create_campaign, CampaignCreation,
    CreateCampaign,
};
use crate::instructions::end_campaign::{campaign_ended, EndCampaign};
use crate::instructions::initialize_factory::{
    factory_initialized, process_initialize_factory, InitializeFactory,
};
use crate::instructions::pause_campaign::{campaign_pause_set, process_pause_campaign, PauseCampaign};
use crate::instructions::update_campaign::{
    campaign_time_updated, process_update_campaign_time, UpdateCampaignTime,
};
use crate::instructions::withdraw::{
    account_datas, process_withdraw, transfer_pays_owner, withdraw_outcome, withdrawable_lamports, withdrawal_points,
    withdrawn_campaign, TokenTransfer, Withdraw, WithdrawPlan,
};
use crate::pubkey::{zero_key, Pubkey};
use crate::state::{AcceptedToken, Funder};

verus! {

pub fn initialize_factory(
    ctx: &mut InitializeFactory,
    factory_id: u64,
    platform_fee: u8,
    stablecoin_mint: Pubkey,
    fee_wallet: Pubkey,
    other_accepted_tokens: Vec<AcceptedToken>,
) -> (r: Result<(), CrowdfundingError>)
    ensures
        final(ctx).owner == old(ctx).owner,
        match factory_initialized(
            old(ctx).factory@,
            old(ctx).owner,
            factory_id,
            platform_fee,
            stablecoin_mint,
            fee_wallet,
            other_accepted_tokens@,
        ) {
            Ok(factory) => r is Ok && final(ctx).factory@ == factory,
            Err(e) => r == Err::<(), CrowdfundingError>(e) && *final(ctx) == *old(ctx),
        },
{
    process_initialize_factory(
        ctx,
        factory_id,
        platform_fee,
        stablecoin_mint,
        fee_wallet,
        other_accepted_tokens,
    )
}

pub fn create_campaign(
    ctx: &mut CreateCampaign,
    now: i64,
    start_time: i64,
    end_time: i64,
    metadata_uri: String,
    other_token_mints: Vec<Pubkey>,
) -> (r: Result<CampaignCreation, CrowdfundingError>)
    ensures
        match r {
            Err(e) => {
                &&& create_campaign_admission(
                    old(ctx).factory@,
                    now,
                    start_time,
                    end_time,
                    other_token_mints@.len(),
                ) == Err::<(), CrowdfundingError>(e)
                &&& *final(ctx) == *old(ctx)
            },
            Ok(creation) => {
                &&& create_campaign_admission(
                    old(ctx).factory@,
                    now,
                    start_time,
                    end_time,
                    other_token_mints@.len(),
                ) is Ok
                &&& final(ctx).campaign@ == campaign_created(
                    old(ctx).factory@,
                    old(ctx).factory_key,
                    old(ctx).creator,
                    old(ctx).campaign_bump,
                    start_time,
                    end_time,
                    metadata_uri@,
                    other_token_mints@,
                )
                &&& final(ctx).factory == old(ctx).factory
                &&& final(ctx).factory_key == old(ctx).factory_key
                &&& final(ctx).campaign_key == old(ctx).campaign_key
                &&& final(ctx).campaign_bump == old(ctx).campaign_bump
                &&& final(ctx).creator == old(ctx).creator
                &&& creation == (CampaignCreation {
                    event: ChainFundMeCreated { creator: old(ctx).creator, campaign: old(ctx).campaign_key },
                    campaign_id: old(ctx).factory.deployed_campaigns_count,
                })
            },
        },
{
    process_create_campaign(ctx, now, start_time, end_time, metadata_uri, other_token_mints)
}

pub fn contribute_sol(ctx: &mut ContributeSol, now: i64, amount: u64) -> (r: Result<
    ContributionReceipt,
    CrowdfundingError,
>)
    requires
        contribution_admission(old(ctx).campaign@, old(ctx).factory@, now, amount) is Ok
            ==> contribution_fits(
            old(ctx).campaign@,
            old(ctx).contribution,
            old(ctx).spender,
            amount,
            false,
        ),
    ensures
        match r {
            Err(e) => {
                &&& contribution_admission(old(ctx).campaign@, old(ctx).factory@, now, amount)
                    == Err::<(), CrowdfundingError>(e)
                &&& *final(ctx) == *old(ctx)
            },
            Ok(receipt) => {
                &&& contribution_admission(old(ctx).campaign@, old(ctx).factory@, now, amount)
                    is Ok
                &&& final(ctx).campaign@ == funder_recorded(
                    old(ctx).campaign@,
                    Funder {
                        funder_address: old(ctx).contributor,
                        token_mint: zero_key(),
                        amount: amount,
                    },
                )
                &&& final(ctx).contribution == contribution_recorded(
                    old(ctx).contribution,
                    old(ctx).contributor,
                    old(ctx).campaign_key,
                    amount,
                    false,
                )
                &&& final(ctx).spender == points_awarded(old(ctx).spender, amount)
                &&& final(ctx).factory == old(ctx).factory
                &&& final(ctx).campaign_key == old(ctx).campaign_key
                &&& final(ctx).contributor == old(ctx).contributor
                &&& receipt.payment == (Payment::Sol {
                    amount: amount,
                    fee: platform_fee_of(amount, old(ctx).factory.platform_fee),
                })
                &&& receipt.event.funder == old(ctx).contributor
                &&& receipt.event.token == zero_key()
                &&& receipt.event.amount == amount
            },
        },
{
    process_contribute_sol(ctx, now, amount)
}

pub fn contribute_token(ctx: &mut ContributeToken, now: i64, amount: u64) -> (r: Result<
    ContributionReceipt,
    CrowdfundingError,
>)
    requires
        contribution_admission(old(ctx).campaign@, old(ctx).factory@, now, amount) is Ok ==> {
            &&& platform_fee_of(amount, old(ctx).factory.platform_fee) <= amount
            &&& contribution_fits(
                old(ctx).campaign@,
                old(ctx).contribution,
                old(ctx).spender,
                amount,
                true,
            )
        },
    ensures
        match r {
            Err(e) => {
                &&& contribution_admission(old(ctx).campaign@, old(ctx).factory@, now, amount)
                    == Err::<(), CrowdfundingError>(e)
                &&& *final(ctx) == *old(ctx)
            },
            Ok(receipt) => {
                let fee = platform_fee_of(amount, old(ctx).factory.platform_fee);
                &&& contribution_admission(old(ctx).campaign@, old(ctx).factory@, now, amount)
                    is Ok
                &&& final(ctx).campaign@ == funder_recorded(
                    old(ctx).campaign@,
                    Funder {
                        funder_address: old(ctx).contributor,
                        token_mint: old(ctx).campaign_token_mint,
                        amount: amount,
                    },
                )
                &&& final(ctx).contribution == contribution_recorded(
                    old(ctx).contribution,
                    old(ctx).contributor,
                    old(ctx).campaign_key,
                    amount,
                    true,
                )
                &&& final(ctx).spender == points_awarded(old(ctx).spender, amount)
                &&& final(ctx).factory == old(ctx).factory
                &&& final(ctx).campaign_key == old(ctx).campaign_key
                &&& final(ctx).contributor == old(ctx).contributor
                &&& final(ctx).campaign_token_mint == old(ctx).campaign_token_mint
                &&& receipt.payment == (Payment::Token {
                    net_amount: (amount - fee) as u64,
                    fee: fee,
                })
                &&& receipt.event.funder == old(ctx).contributor
                &&& receipt.event.token == old(ctx).campaign_token_mint
                &&& receipt.event.amount == amount
            },
        },
{
    process_contribute_token(ctx, now, amount)
}

pub fn update_campaign_time(
    ctx: &mut UpdateCampaignTime,
    now: i64,
    start_time: Option<i64>,
    end_time: Option<i64>,
) -> (r: Result<(), CrowdfundingError>)
    ensures
        final(ctx).owner == old(ctx).owner,
        match campaign_time_updated(old(ctx).campaign@, old(ctx).owner, now, start_time, end_time) {
            Ok(campaign) => r is Ok && final(ctx).campaign@ == campaign,
            Err(e) => r == Err::<(), CrowdfundingError>(e) && *final(ctx) == *old(ctx),
        },
{
    process_update_campaign_time(ctx, now, start_time, end_time)
}

pub fn pause_campaign(ctx: &mut PauseCampaign, paused: bool, campaign_id: u64) -> (r: Result<
    (),
    CrowdfundingError,
>)
    ensures
        final(ctx).moderator == old(ctx).moderator,
        final(ctx).factory == old(ctx).factory,
        match campaign_pause_set(old(ctx).campaign@, old(ctx).factory@, old(ctx).moderator, paused) {
            Ok(campaign) => r is Ok && final(ctx).campaign@ == campaign,
            Err(e) => r == Err::<(), CrowdfundingError>(e) && *final(ctx) == *old(ctx),
        },
{
    process_pause_campaign(ctx, paused, campaign_id)
}

pub fn end_campaign(ctx: &mut EndCampaign, now: i64) -> (r: Result<(), CrowdfundingError>)
    ensures
        final(ctx).owner == old(ctx).owner,
        match campaign_ended(old(ctx).campaign@, old(ctx).owner, now) {
            Ok(campaign) => r is Ok && final(ctx).campaign@ == campaign,
            Err(e) => r == Err::<(), CrowdfundingError>(e) && *final(ctx) == *old(ctx),
        },
{
    crate::instructions::end_campaign::end_campaign(ctx, now)
}

pub fn withdraw(
    ctx: &mut Withdraw,
    balance: u64,
    rent_minimum: u64,
    remaining_accounts: &Vec<Vec<u8>>,
    base_points: u64,
) -> (r: Result<WithdrawPlan, InstructionError>)
    requires
        withdraw_outcome(
            old(ctx).campaign@,
            old(ctx).factory@,
            old(ctx).campaign_key,
            old(ctx).owner,
            account_datas(remaining_accounts@),
        ) is Ok && !old(ctx).campaign.is_withdrawal_points_minted ==> old(ctx).spender.points_earned
            + base_points <= u64::MAX,
    ensures
        match r {
            Err(e) => {
                &&& withdraw_outcome(
                    old(ctx).campaign@,
                    old(ctx).factory@,
                    old(ctx).campaign_key,
                    old(ctx).owner,
                    account_datas(remaining_accounts@),
                ) == Err::<Seq<TokenTransfer>, InstructionError>(e)
                &&& *final(ctx) == *old(ctx)
            },
            Ok(plan) => {
                &&& withdraw_outcome(
                    old(ctx).campaign@,
                    old(ctx).factory@,
                    old(ctx).campaign_key,
                    old(ctx).owner,
                    account_datas(remaining_accounts@),
                ) == Ok::<Seq<TokenTransfer>, InstructionError>(plan.token_transfers@)
                &&& old(ctx).campaign.owner == old(ctx).owner
                &&& forall|k: int|
                    0 <= k < plan.token_transfers@.len() ==> transfer_pays_owner(
                        account_datas(remaining_accounts@),
                        #[trigger] plan.token_transfers@[k],
                        old(ctx).campaign_key,
                        old(ctx).owner,
                    )
                &&& plan.lamports == withdrawable_lamports(balance, rent_minimum)
                &&& final(ctx).campaign@ == withdrawn_campaign(old(ctx).campaign@)
                &&& final(ctx).spender == withdrawal_points(
                    old(ctx).campaign@,
                    old(ctx).spender,
                    base_points,
                )
                &&& final(ctx).factory == old(ctx).factory
                &&& final(ctx).campaign_key == old(ctx).campaign_key
                &&& final(ctx).owner == old(ctx).owner
            },
        },
{
    process_withdraw(ctx, balance, rent_minimum, remaining_accounts, base_points)
}

} // verus!
