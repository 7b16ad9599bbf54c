use vstd::prelude::*;

use crate::error::CrowdfundingError;
use crate::pubkey::Pubkey;
use crate::state::PointsConfig;

verus! {

/// The accounts of setting up the points configuration.
pub struct InitializePoints {
    pub points_config: PointsConfig,
    pub factory_key: Pubkey,
    pub owner: Pubkey,
}

/// Sets up the points configuration; it always succeeds.
pub fn initialize_points(ctx: &mut InitializePoints, base_points: u64) -> (r: Result<
    (),
    CrowdfundingError,
>)
    ensures
        r is Ok,
        final(ctx).points_config == (PointsConfig {
            owner: old(ctx).owner,
            factory: old(ctx).factory_key,
            base_points: base_points,
            paused: false,
        }),
        final(ctx).factory_key == old(ctx).factory_key,
        final(ctx).owner == old(ctx).owner,
{
    ctx.points_config.owner = ctx.owner;
    ctx.points_config.factory = ctx.factory_key;
    ctx.points_config.base_points = base_points;
    ctx.points_config.paused = false;
    Ok(())
}

} // verus!
