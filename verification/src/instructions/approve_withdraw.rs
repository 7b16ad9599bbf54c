use vstd::prelude::*;

use crate::error::CrowdfundingError;
use crate::events::WithdrawApproved;
use crate::pubkey::Pubkey;
use crate::state::{is_allowed_moderator, lists_allowed_moderator, Campaign, CampaignView, Factory, FactoryView};

verus! {

/// The accounts of a moderator's approval of a withdrawal.
pub struct ApproveWithdraw {
    pub campaign: Campaign,
    pub moderator: Pubkey,
    pub factory: Factory,
}

/// The campaign after the approval at time `now` by `signer`, or why it is
/// refused. Approval also ends the campaign.
pub open spec fn withdraw_approved(
    campaign: CampaignView,
    factory: FactoryView,
    signer: Pubkey,
    now: i64,
) -> Result<CampaignView, CrowdfundingError> {
    if !lists_allowed_moderator(factory.moderators, signer) {
        Err(CrowdfundingError::NotModerator)
    } else if campaign.is_withdraw_approved {
        Err(CrowdfundingError::AlreadyApproved)
    } else if now < campaign.start_time {
        Err(CrowdfundingError::FundingNotStarted)
    } else if !(now >= campaign.end_time || campaign.ended) {
        Err(CrowdfundingError::CampaignStillActive)
    } else {
        Ok(CampaignView { is_withdraw_approved: true, ended: true, ..campaign })
    }
}

pub fn approve_withdraw(ctx: &mut ApproveWithdraw, now: i64) -> (r: Result<
    WithdrawApproved,
    CrowdfundingError,
>)
    ensures
        final(ctx).moderator == old(ctx).moderator,
        final(ctx).factory == old(ctx).factory,
        match withdraw_approved(old(ctx).campaign@, old(ctx).factory@, old(ctx).moderator, now) {
            Ok(campaign) => r is Ok && final(ctx).campaign@ == campaign,
            Err(e) => r == Err::<WithdrawApproved, CrowdfundingError>(e) && *final(ctx) == *old(ctx),
        },
{
    let signer = ctx.moderator;
    if !is_allowed_moderator(&ctx.factory.moderators, &signer) {
        return Err(CrowdfundingError::NotModerator);
    }
    if ctx.campaign.is_withdraw_approved {
        return Err(CrowdfundingError::AlreadyApproved);
    }
    if now < ctx.campaign.start_time {
        return Err(CrowdfundingError::FundingNotStarted);
    }
    if !(now >= ctx.campaign.end_time || ctx.campaign.ended) {
        return Err(CrowdfundingError::CampaignStillActive);
    }
    ctx.campaign.is_withdraw_approved = true;
    ctx.campaign.ended = true;
    Ok(WithdrawApproved {})
}

} // verus!
