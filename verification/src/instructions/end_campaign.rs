use vstd::prelude::*;

use crate::error::CrowdfundingError;
use crate::pubkey::Pubkey;
use crate::state::{Campaign, CampaignView};

verus! {

/// The accounts of ending a campaign early.
pub struct EndCampaign {
    pub campaign: Campaign,
    pub owner: Pubkey,
}

/// The campaign after its owner ends it at time `now`, or why it is refused.
pub open spec fn campaign_ended(campaign: CampaignView, owner: Pubkey, now: i64) -> Result<
    CampaignView,
    CrowdfundingError,
> {
    if campaign.owner != owner {
        Err(CrowdfundingError::NotCampaignOwner)
    } else if now < campaign.start_time {
        Err(CrowdfundingError::FundingNotStarted)
    } else if !(now <= campaign.end_time && !campaign.ended) {
        Err(CrowdfundingError::FundingPeriodOver)
    } else {
        Ok(CampaignView { ended: true, end_time: now, ..campaign })
    }
}

pub fn end_campaign(ctx: &mut EndCampaign, now: i64) -> (r: Result<(), CrowdfundingError>)
    ensures
        final(ctx).owner == old(ctx).owner,
        match campaign_ended(old(ctx).campaign@, old(ctx).owner, now) {
            Ok(campaign) => r is Ok && final(ctx).campaign@ == campaign,
            Err(e) => r == Err::<(), CrowdfundingError>(e) && *final(ctx) == *old(ctx),
        },
{
    if !ctx.campaign.owner.key_eq(&ctx.owner) {
        return Err(CrowdfundingError::NotCampaignOwner);
    }
    if now < ctx.campaign.start_time {
        return Err(CrowdfundingError::FundingNotStarted);
    }
    if !(now <= ctx.campaign.end_time && !ctx.campaign.ended) {
        return Err(CrowdfundingError::FundingPeriodOver);
    }
    ctx.campaign.ended = true;
    ctx.campaign.end_time = now;
    Ok(())
}

} // verus!
