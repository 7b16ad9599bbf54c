use vstd::prelude::*;

use crate::error::CrowdfundingError;
use crate::pubkey::Pubkey;
use crate::state::{
    is_token_listed, lists_token, retain_other_tokens, without_token, AcceptedToken, Factory,
    FactoryView,
};

verus! {

/// The accounts of changing the accepted tokens.
pub struct SetAcceptableToken {
    pub factory: Factory,
    pub owner: Pubkey,
}

/// The factory after `owner` accepts (`accepted`) or stops accepting
/// `token_mint`, or why it is refused. An accepted mint is listed once.
pub open spec fn acceptable_token_set(
    factory: FactoryView,
    owner: Pubkey,
    token_mint: Pubkey,
    accepted: bool,
) -> Result<FactoryView, CrowdfundingError> {
    if factory.owner != owner {
        Err(CrowdfundingError::NotFactoryOwner)
    } else if accepted {
        if lists_token(factory.other_accepted_tokens, token_mint) {
            Ok(factory)
        } else {
            Ok(
                FactoryView {
                    other_accepted_tokens: factory.other_accepted_tokens.push(
                        AcceptedToken { mint: token_mint, allowed: true },
                    ),
                    ..factory
                },
            )
        }
    } else {
        Ok(
            FactoryView {
                other_accepted_tokens: without_token(factory.other_accepted_tokens, token_mint),
                ..factory
            },
        )
    }
}

pub fn set_acceptable_token(ctx: &mut SetAcceptableToken, token_mint: Pubkey, accepted: bool) -> (r:
    Result<(), CrowdfundingError>)
    ensures
        final(ctx).owner == old(ctx).owner,
        match acceptable_token_set(old(ctx).factory@, old(ctx).owner, token_mint, accepted) {
            Ok(factory) => r is Ok && final(ctx).factory@ == factory,
            Err(e) => r == Err::<(), CrowdfundingError>(e) && *final(ctx) == *old(ctx),
        },
{
    if !ctx.factory.owner.key_eq(&ctx.owner) {
        return Err(CrowdfundingError::NotFactoryOwner);
    }
    if accepted {
        if !is_token_listed(&ctx.factory.other_accepted_tokens, &token_mint) {
            ctx.factory.other_accepted_tokens.push(AcceptedToken { mint: token_mint, allowed: true });
        }
    } else {
        let kept = retain_other_tokens(&ctx.factory.other_accepted_tokens, &token_mint);
        ctx.factory.other_accepted_tokens = kept;
    }
    Ok(())
}

} // verus!
