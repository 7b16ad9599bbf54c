use vstd::prelude::*;

use crate::error::CrowdfundingError;
use crate::pubkey::Pubkey;
use crate::state::{AcceptedToken, Factory, FactoryView};

verus! {

/// The accounts of setting up a factory. The factory account may already
/// exist, in which case its moderators are kept.
pub struct InitializeFactory {
    pub factory: Factory,
    pub owner: Pubkey,
}

/// The factory after it is set up by `owner`, or why it is refused: the fee
/// must lie between 1 and 20 percent.
pub open spec fn factory_initialized(
    factory: FactoryView,
    owner: Pubkey,
    factory_id: u64,
    platform_fee: u8,
    stablecoin_mint: Pubkey,
    fee_wallet: Pubkey,
    other_accepted_tokens: Seq<AcceptedToken>,
) -> Result<FactoryView, CrowdfundingError> {
    if !(1 <= platform_fee <= 20) {
        Err(CrowdfundingError::InvalidPlatformFee)
    } else {
        Ok(factory_set_up(factory, owner, factory_id, platform_fee, stablecoin_mint, fee_wallet, other_accepted_tokens))
    }
}

/// The factory's contents once set up.
pub open spec fn factory_set_up(
    factory: FactoryView,
    owner: Pubkey,
    factory_id: u64,
    platform_fee: u8,
    stablecoin_mint: Pubkey,
    fee_wallet: Pubkey,
    other_accepted_tokens: Seq<AcceptedToken>,
) -> FactoryView {
    FactoryView {
        factory_id: factory_id,
        owner: owner,
        platform_fee: platform_fee,
        stablecoin_mint: stablecoin_mint,
        fee_wallet: fee_wallet,
        deployed_campaigns_count: 0,
        limits_enabled: false,
        is_paused: false,
        other_accepted_tokens: other_accepted_tokens,
        ..factory
    }
}

/// Sets up the factory.
pub fn process_initialize_factory(
    ctx: &mut InitializeFactory,
    factory_id: u64,
    platform_fee: u8,
    stablecoin_mint: Pubkey,
    fee_wallet: Pubkey,
    other_accepted_tokens: Vec<AcceptedToken>,
) -> (r: Result<(), CrowdfundingError>)
    ensures
        final(ctx).owner == old(ctx).owner,
        match factory_initialized(
            old(ctx).factory@,
            old(ctx).owner,
            factory_id,
            platform_fee,
            stablecoin_mint,
            fee_wallet,
            other_accepted_tokens@,
        ) {
            Ok(factory) => r is Ok && final(ctx).factory@ == factory,
            Err(e) => r == Err::<(), CrowdfundingError>(e) && *final(ctx) == *old(ctx),
        },
{
    if !(platform_fee >= 1 && platform_fee <= 20) {
        return Err(CrowdfundingError::InvalidPlatformFee);
    }
    ctx.factory.factory_id = factory_id;
    ctx.factory.owner = ctx.owner;
    ctx.factory.platform_fee = platform_fee;
    ctx.factory.stablecoin_mint = stablecoin_mint;
    ctx.factory.fee_wallet = fee_wallet;
    ctx.factory.deployed_campaigns_count = 0;
    ctx.factory.limits_enabled = false;
    ctx.factory.is_paused = false;
    let mut tokens: Vec<AcceptedToken> = Vec::new();
    let mut i: usize = 0;
    while i < other_accepted_tokens.len()
        invariant
            i <= other_accepted_tokens@.len(),
            tokens@ == other_accepted_tokens@.take(i as int),
        decreases other_accepted_tokens@.len() - i,
    {
        let t = other_accepted_tokens[i];
        tokens.push(AcceptedToken { mint: t.mint, allowed: t.allowed });
        assert(other_accepted_tokens@.take(i + 1) =~= other_accepted_tokens@.take(i as int).push(t));
        i = i + 1;
    }
    assert(other_accepted_tokens@.take(other_accepted_tokens@.len() as int) =~= other_accepted_tokens@);
    ctx.factory.other_accepted_tokens = tokens;
    Ok(())
}

} // verus!
