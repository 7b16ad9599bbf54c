use vstd::prelude::*;

use crate::pubkey::Pubkey;
use crate::state::MultiplierTier;

verus! {

/// Announced when a campaign is created.
#[derive(Clone, Copy, Debug, PartialEq, Eq)]
pub struct ChainFundMeCreated {
    pub creator: Pubkey,
    pub campaign: Pubkey,
}

/// Announced for every contribution; `token` is the all-zero key for lamports.
#[derive(Clone, Copy, Debug, PartialEq, Eq)]
pub struct Deposited {
    pub funder: Pubkey,
    pub token: Pubkey,
    pub amount: u64,
}

/// Announced when a moderator approves a campaign's withdrawal.
#[derive(Clone, Copy, Debug, PartialEq, Eq)]
pub struct WithdrawApproved {}

/// Announced when a user buys a multiplier tier.
#[derive(Clone, Copy, Debug, PartialEq, Eq)]
pub struct PurchaseMultiplier {
    pub spender: Pubkey,
    pub tier: MultiplierTier,
    pub price_paid: u64,
    pub multiplier: u32,
}

} // verus!
