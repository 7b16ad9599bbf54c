use vstd::prelude::*;

use crate::error::CrowdfundingError;
use crate::pubkey::Pubkey;
use crate::state::{Campaign, CampaignView};

verus! {

/// The accounts of changing a campaign's dates.
pub struct UpdateCampaignTime {
    pub campaign: Campaign,
    pub owner: Pubkey,
}

/// The campaign after its owner changes its start and/or end time at time
/// `now`, or why it is refused. The start may only move while the campaign is
/// not running, and neither date once it has ended.
pub open spec fn campaign_time_updated(
    campaign: CampaignView,
    owner: Pubkey,
    now: i64,
    start_time: Option<i64>,
    end_time: Option<i64>,
) -> Result<CampaignView, CrowdfundingError> {
    if campaign.owner != owner {
        Err(CrowdfundingError::NotCampaignOwner)
    } else if start_time is Some && !(now < campaign.start_time || now > campaign.end_time) {
        Err(CrowdfundingError::CampaignStillActive)
    } else if start_time is Some && campaign.ended {
        Err(CrowdfundingError::FundingPeriodOver)
    } else if end_time is Some && campaign.ended {
        Err(CrowdfundingError::FundingPeriodOver)
    } else {
        Ok(
            CampaignView {
                start_time: match start_time {
                    Some(s) => s,
                    None => campaign.start_time,
                },
                end_time: match end_time {
                    Some(e) => e,
                    None => campaign.end_time,
                },
                ..campaign
            },
        )
    }
}

pub fn process_update_campaign_time(
    ctx: &mut UpdateCampaignTime,
    now: i64,
    start_time: Option<i64>,
    end_time: Option<i64>,
) -> (r: Result<(), CrowdfundingError>)
    ensures
        final(ctx).owner == old(ctx).owner,
        match campaign_time_updated(old(ctx).campaign@, old(ctx).owner, now, start_time, end_time) {
            Ok(campaign) => r is Ok && final(ctx).campaign@ == campaign,
            Err(e) => r == Err::<(), CrowdfundingError>(e) && *final(ctx) == *old(ctx),
        },
{
    if !ctx.campaign.owner.key_eq(&ctx.owner) {
        return Err(CrowdfundingError::NotCampaignOwner);
    }
    if start_time.is_some() {
        if !(now < ctx.campaign.start_time || now > ctx.campaign.end_time) {
            return Err(CrowdfundingError::CampaignStillActive);
        }
        if ctx.campaign.ended {
            return Err(CrowdfundingError::FundingPeriodOver);
        }
    }
    if end_time.is_some() && ctx.campaign.ended {
        return Err(CrowdfundingError::FundingPeriodOver);
    }
    if let Some(new_start_time) = start_time {
        ctx.campaign.start_time = new_start_time;
    }
    if let Some(new_end_time) = end_time {
        ctx.campaign.end_time = new_end_time;
    }
    Ok(())
}

} // verus!
