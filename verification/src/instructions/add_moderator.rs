use vstd::prelude::*;

use crate::error::CrowdfundingError;
use crate::pubkey::Pubkey;
use crate::state::{is_moderator, lists_moderator, Factory, FactoryView, Moderators};

verus! {

/// The accounts of adding a moderator.
pub struct AddModerator {
    pub factory: Factory,
    pub owner: Pubkey,
}

/// The factory after `owner` adds `moderator`, or why it is refused. A key
/// that is already listed is not listed twice.
pub open spec fn moderator_added(factory: FactoryView, owner: Pubkey, moderator: Pubkey) -> Result<
    FactoryView,
    CrowdfundingError,
> {
    if factory.owner != owner {
        Err(CrowdfundingError::NotFactoryOwner)
    } else if lists_moderator(factory.moderators, moderator) {
        Ok(factory)
    } else {
        Ok(
            FactoryView {
                moderators: factory.moderators.push(Moderators { moderator: moderator, allowed: true }),
                ..factory
            },
        )
    }
}

pub fn add_moderator(ctx: &mut AddModerator, moderator: Pubkey) -> (r: Result<(), CrowdfundingError>)
    ensures
        final(ctx).owner == old(ctx).owner,
        match moderator_added(old(ctx).factory@, old(ctx).owner, moderator) {
            Ok(factory) => r is Ok && final(ctx).factory@ == factory,
            Err(e) => r == Err::<(), CrowdfundingError>(e) && *final(ctx) == *old(ctx),
        },
{
    if !ctx.factory.owner.key_eq(&ctx.owner) {
        return Err(CrowdfundingError::NotFactoryOwner);
    }
    let exists = is_moderator(&ctx.factory.moderators, &moderator);
    if !exists {
        ctx.factory.moderators.push(Moderators { moderator: moderator, allowed: true });
    }
    Ok(())
}

} // verus!
