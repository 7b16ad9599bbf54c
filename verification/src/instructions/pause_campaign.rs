use vstd::prelude::*;

use crate::error::CrowdfundingError;
use crate::pubkey::Pubkey;
use crate::state::{is_moderator, lists_moderator, Campaign, CampaignView, Factory, FactoryView};

verus! {

/// The accounts of pausing or resuming a campaign.
pub struct PauseCampaign {
    pub campaign: Campaign,
    pub factory: Factory,
    pub moderator: Pubkey,
}

/// The campaign after a listed moderator sets its pause flag, or why it is
/// refused.
pub open spec fn campaign_pause_set(
    campaign: CampaignView,
    factory: FactoryView,
    signer: Pubkey,
    paused: bool,
) -> Result<CampaignView, CrowdfundingError> {
    if !lists_moderator(factory.moderators, signer) {
        Err(CrowdfundingError::NotModerator)
    } else {
        Ok(CampaignView { is_paused: paused, ..campaign })
    }
}

/// Sets the campaign's pause flag. `campaign_id` is accepted and not used.
pub fn process_pause_campaign(ctx: &mut PauseCampaign, paused: bool, campaign_id: u64) -> (r: Result<
    (),
    CrowdfundingError,
>)
    ensures
        final(ctx).moderator == old(ctx).moderator,
        final(ctx).factory == old(ctx).factory,
        match campaign_pause_set(old(ctx).campaign@, old(ctx).factory@, old(ctx).moderator, paused) {
            Ok(campaign) => r is Ok && final(ctx).campaign@ == campaign,
            Err(e) => r == Err::<(), CrowdfundingError>(e) && *final(ctx) == *old(ctx),
        },
{
    if !is_moderator(&ctx.factory.moderators, &ctx.moderator) {
        return Err(CrowdfundingError::NotModerator);
    }
    ctx.campaign.is_paused = paused;
    Ok(())
}

} // verus!
