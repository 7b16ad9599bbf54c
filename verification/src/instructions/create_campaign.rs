use vstd::prelude::*;

use crate::error::CrowdfundingError;
use crate::events::ChainFundMeCreated;
use crate::pubkey::Pubkey;
use crate::state::{Campaign, CampaignView, Factory, FactoryView};

verus! {

/// The accounts of a campaign's creation. `campaign` is the freshly allocated
/// campaign account; creation overwrites all of it.
pub struct CreateCampaign {
    pub factory: Factory,
    pub factory_key: Pubkey,
    pub campaign: Campaign,
    pub campaign_key: Pubkey,
    pub campaign_bump: u8,
    pub creator: Pubkey,
}

/// At most this many other tokens may be accepted by a campaign.
pub const MAX_OTHER_TOKENS: usize = 5;

/// Whether a campaign with these dates and `token_count` other tokens may be
/// created at time `now`, and if not, why.
pub open spec fn create_campaign_admission(
    factory: FactoryView,
    now: i64,
    start_time: i64,
    end_time: i64,
    token_count: nat,
) -> Result<(), CrowdfundingError> {
    if factory.is_paused {
        Err(CrowdfundingError::FactoryPaused)
    } else if start_time >= end_time {
        Err(CrowdfundingError::InvalidDates)
    } else if start_time <= now {
        Err(CrowdfundingError::InvalidDates)
    } else if token_count > MAX_OTHER_TOKENS {
        Err(CrowdfundingError::TooManyTokens)
    } else {
        Ok(())
    }
}

/// The new campaign's contents: not paused, not ended, nothing approved and
/// no funders yet.
pub open spec fn campaign_created(
    factory: FactoryView,
    factory_key: Pubkey,
    creator: Pubkey,
    bump: u8,
    start_time: i64,
    end_time: i64,
    metadata_uri: Seq<char>,
    other_token_mints: Seq<Pubkey>,
) -> CampaignView {
    CampaignView {
        owner: creator,
        start_time: start_time,
        end_time: end_time,
        metadata_uri: metadata_uri,
        stablecoin_mint: factory.stablecoin_mint,
        other_acceptable_tokens: other_token_mints,
        factory: factory_key,
        is_paused: false,
        is_withdraw_approved: false,
        is_withdrawal_points_minted: false,
        withdrawal_approval_revoked: false,
        funding_approved: false,
        funding_disapproved: false,
        ended: false,
        funders_count: 0,
        funders: Seq::empty(),
        bump: bump,
    }
}

/// What an accepted creation reports: the event to announce, and the id
/// under which the campaign is registered, the factory's campaign count.
#[derive(Clone, Copy, Debug, PartialEq, Eq)]
pub struct CampaignCreation {
    pub event: ChainFundMeCreated,
    pub campaign_id: u64,
}

/// Creation of a campaign at time `now`.
pub fn process_create_campaign(
    ctx: &mut CreateCampaign,
    now: i64,
    start_time: i64,
    end_time: i64,
    metadata_uri: String,
    other_token_mints: Vec<Pubkey>,
) -> (r: Result<CampaignCreation, CrowdfundingError>)
    ensures
        match r {
            Err(e) => {
                &&& create_campaign_admission(
                    old(ctx).factory@,
                    now,
                    start_time,
                    end_time,
                    other_token_mints@.len(),
                ) == Err::<(), CrowdfundingError>(e)
                &&& *final(ctx) == *old(ctx)
            },
            Ok(creation) => {
                &&& create_campaign_admission(
                    old(ctx).factory@,
                    now,
                    start_time,
                    end_time,
                    other_token_mints@.len(),
                ) is Ok
                &&& final(ctx).campaign@ == campaign_created(
                    old(ctx).factory@,
                    old(ctx).factory_key,
                    old(ctx).creator,
                    old(ctx).campaign_bump,
                    start_time,
                    end_time,
                    metadata_uri@,
                    other_token_mints@,
                )
                &&& final(ctx).factory == old(ctx).factory
                &&& final(ctx).factory_key == old(ctx).factory_key
                &&& final(ctx).campaign_key == old(ctx).campaign_key
                &&& final(ctx).campaign_bump == old(ctx).campaign_bump
                &&& final(ctx).creator == old(ctx).creator
                &&& creation == (CampaignCreation {
                    event: ChainFundMeCreated { creator: old(ctx).creator, campaign: old(ctx).campaign_key },
                    campaign_id: old(ctx).factory.deployed_campaigns_count,
                })
            },
        },
{
    if ctx.factory.is_paused {
        return Err(CrowdfundingError::FactoryPaused);
    }
    if start_time >= end_time {
        return Err(CrowdfundingError::InvalidDates);
    }
    if start_time <= now {
        return Err(CrowdfundingError::InvalidDates);
    }
    if other_token_mints.len() > MAX_OTHER_TOKENS {
        return Err(CrowdfundingError::TooManyTokens);
    }
    ctx.campaign.owner = ctx.creator;
    ctx.campaign.start_time = start_time;
    ctx.campaign.end_time = end_time;
    ctx.campaign.metadata_uri = metadata_uri;
    ctx.campaign.stablecoin_mint = ctx.factory.stablecoin_mint;
    ctx.campaign.other_acceptable_tokens = other_token_mints;
    ctx.campaign.factory = ctx.factory_key;
    ctx.campaign.funders_count = 0;
    ctx.campaign.funders = Vec::new();
    ctx.campaign.is_paused = false;
    ctx.campaign.is_withdraw_approved = false;
    ctx.campaign.is_withdrawal_points_minted = false;
    ctx.campaign.withdrawal_approval_revoked = false;
    ctx.campaign.funding_approved = false;
    ctx.campaign.funding_disapproved = false;
    ctx.campaign.ended = false;
    ctx.campaign.bump = ctx.campaign_bump;
    let campaign_id = ctx.factory.deployed_campaigns_count;
    Ok(
        CampaignCreation {
            event: ChainFundMeCreated { creator: ctx.creator, campaign: ctx.campaign_key },
            campaign_id: campaign_id,
        },
    )
}

} // verus!
