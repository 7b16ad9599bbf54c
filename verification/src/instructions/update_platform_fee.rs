use vstd::prelude::*;

use crate::error::CrowdfundingError;
use crate::pubkey::Pubkey;
use crate::state::{Factory, FactoryView};

verus! {

/// The accounts of changing the platform fee.
pub struct UpdatePlatformFee {
    pub factory: Factory,
    pub owner: Pubkey,
}

/// The factory after `owner` sets the fee to `new_fee` percent, or why it is
/// refused: the fee must lie between 1 and 20.
pub open spec fn platform_fee_updated(factory: FactoryView, owner: Pubkey, new_fee: u8) -> Result<
    FactoryView,
    CrowdfundingError,
> {
    if !(1 <= new_fee <= 20) {
        Err(CrowdfundingError::InvalidPlatformFee)
    } else if factory.owner != owner {
        Err(CrowdfundingError::NotFactoryOwner)
    } else {
        Ok(FactoryView { platform_fee: new_fee, ..factory })
    }
}

pub fn update_platform_fee(ctx: &mut UpdatePlatformFee, new_fee: u8) -> (r: Result<
    (),
    CrowdfundingError,
>)
    ensures
        final(ctx).owner == old(ctx).owner,
        match platform_fee_updated(old(ctx).factory@, old(ctx).owner, new_fee) {
            Ok(factory) => r is Ok && final(ctx).factory@ == factory,
            Err(e) => r == Err::<(), CrowdfundingError>(e) && *final(ctx) == *old(ctx),
        },
{
    if !(new_fee >= 1 && new_fee <= 20) {
        return Err(CrowdfundingError::InvalidPlatformFee);
    }
    if !ctx.factory.owner.key_eq(&ctx.owner) {
        return Err(CrowdfundingError::NotFactoryOwner);
    }
    ctx.factory.platform_fee = new_fee;
    Ok(())
}

} // verus!
