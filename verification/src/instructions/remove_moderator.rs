use vstd::prelude::*;

use crate::error::CrowdfundingError;
use crate::pubkey::Pubkey;
use crate::state::{retain_other_moderators, without_moderator, Factory, FactoryView};

verus! {

/// The accounts of removing a moderator.
pub struct RemoveModerator {
    pub factory: Factory,
    pub owner: Pubkey,
}

/// The factory after `owner` removes every listing of `moderator`, or why it
/// is refused.
pub open spec fn moderator_removed(factory: FactoryView, owner: Pubkey, moderator: Pubkey) -> Result<
    FactoryView,
    CrowdfundingError,
> {
    if factory.owner != owner {
        Err(CrowdfundingError::NotFactoryOwner)
    } else {
        Ok(FactoryView { moderators: without_moderator(factory.moderators, moderator), ..factory })
    }
}

pub fn remove_moderator(ctx: &mut RemoveModerator, moderator: Pubkey) -> (r: Result<
    (),
    CrowdfundingError,
>)
    ensures
        final(ctx).owner == old(ctx).owner,
        match moderator_removed(old(ctx).factory@, old(ctx).owner, moderator) {
            Ok(factory) => r is Ok && final(ctx).factory@ == factory,
            Err(e) => r == Err::<(), CrowdfundingError>(e) && *final(ctx) == *old(ctx),
        },
{
    if !ctx.factory.owner.key_eq(&ctx.owner) {
        return Err(CrowdfundingError::NotFactoryOwner);
    }
    let kept = retain_other_moderators(&ctx.factory.moderators, &moderator);
    ctx.factory.moderators = kept;
    Ok(())
}

} // verus!
