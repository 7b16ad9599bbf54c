use vstd::prelude::*;

use crate::pubkey::Pubkey;

verus! {

/// A crowdfunding campaign account.
#[derive(Clone, Debug, PartialEq, Eq)]
pub struct Campaign {
    pub owner: Pubkey,
    pub start_time: i64,
    pub end_time: i64,
    pub metadata_uri: String,
    pub stablecoin_mint: Pubkey,
    pub other_acceptable_tokens: Vec<Pubkey>,
    pub factory: Pubkey,
    pub is_paused: bool,
    pub is_withdraw_approved: bool,
    pub is_withdrawal_points_minted: bool,
    pub withdrawal_approval_revoked: bool,
    pub funding_approved: bool,
    pub funding_disapproved: bool,
    pub ended: bool,
    pub funders_count: u64,
    pub funders: Vec<Funder>,
    /// Bump seed of the campaign's program-derived address.
    pub bump: u8,
}

/// The mathematical contents of a [`Campaign`].
pub ghost struct CampaignView {
    pub owner: Pubkey,
    pub start_time: i64,
    pub end_time: i64,
    pub metadata_uri: Seq<char>,
    pub stablecoin_mint: Pubkey,
    pub other_acceptable_tokens: Seq<Pubkey>,
    pub factory: Pubkey,
    pub is_paused: bool,
    pub is_withdraw_approved: bool,
    pub is_withdrawal_points_minted: bool,
    pub withdrawal_approval_revoked: bool,
    pub funding_approved: bool,
    pub funding_disapproved: bool,
    pub ended: bool,
    pub funders_count: u64,
    pub funders: Seq<Funder>,
    pub bump: u8,
}

impl View for Campaign {
    type V = CampaignView;

    open spec fn view(&self) -> CampaignView {
        CampaignView {
            owner: self.owner,
            start_time: self.start_time,
            end_time: self.end_time,
            metadata_uri: self.metadata_uri@,
            stablecoin_mint: self.stablecoin_mint,
            other_acceptable_tokens: self.other_acceptable_tokens@,
            factory: self.factory,
            is_paused: self.is_paused,
            is_withdraw_approved: self.is_withdraw_approved,
            is_withdrawal_points_minted: self.is_withdrawal_points_minted,
            withdrawal_approval_revoked: self.withdrawal_approval_revoked,
            funding_approved: self.funding_approved,
            funding_disapproved: self.funding_disapproved,
            ended: self.ended,
            funders_count: self.funders_count,
            funders: self.funders@,
            bump: self.bump,
        }
    }
}

/// The factory account: platform settings, moderators and accepted tokens.
#[derive(Clone, Debug, PartialEq, Eq)]
pub struct Factory {
    pub factory_id: u64,
    pub owner: Pubkey,
    pub platform_fee: u8,
    pub stablecoin_mint: Pubkey,
    pub fee_wallet: Pubkey,
    pub deployed_campaigns_count: u64,
    pub limits_enabled: bool,
    pub is_paused: bool,
    pub moderators: Vec<Moderators>,
    pub other_accepted_tokens: Vec<AcceptedToken>,
}

/// The mathematical contents of a [`Factory`].
pub ghost struct FactoryView {
    pub factory_id: u64,
    pub owner: Pubkey,
    pub platform_fee: u8,
    pub stablecoin_mint: Pubkey,
    pub fee_wallet: Pubkey,
    pub deployed_campaigns_count: u64,
    pub limits_enabled: bool,
    pub is_paused: bool,
    pub moderators: Seq<Moderators>,
    pub other_accepted_tokens: Seq<AcceptedToken>,
}

impl View for Factory {
    type V = FactoryView;

    open spec fn view(&self) -> FactoryView {
        FactoryView {
            factory_id: self.factory_id,
            owner: self.owner,
            platform_fee: self.platform_fee,
            stablecoin_mint: self.stablecoin_mint,
            fee_wallet: self.fee_wallet,
            deployed_campaigns_count: self.deployed_campaigns_count,
            limits_enabled: self.limits_enabled,
            is_paused: self.is_paused,
            moderators: self.moderators@,
            other_accepted_tokens: self.other_accepted_tokens@,
        }
    }
}

/// Most moderators, and most accepted tokens, a factory account has room for.
pub const MAX_FACTORY_LIST: usize = 5;

/// Length in bytes of a factory account holding `factory`: the 8-byte
/// discriminator, the fixed fields, and each list as a 4-byte length followed
/// by its 33-byte entries.
pub open spec fn factory_serialized_len(factory: FactoryView) -> int {
    8int + 8 + 32 + 1 + 32 + 32 + 8 + 1 + 1 + (4 + 33 * factory.moderators.len()) + (4 + 33
        * factory.other_accepted_tokens.len())
}

/// Account size, in bytes, reserved for a factory: room for five moderators
/// and five accepted tokens.
pub open spec fn factory_space() -> int {
    8int + 8 + 32 + 1 + 32 + 32 + 8 + 1 + 1 + 4 + (5 * (32 + 1)) + 4 + (5 * (32 + 1))
}

impl Factory {
    pub fn space() -> (n: usize)
        ensures
            n == factory_space(),
    {
        8 + // discriminator
        8 + // factory_id
        32 + // owner
        1 + // platform_fee
        32 + // stablecoin_mint
        32 + // fee_wallet
        8 + // deployed_campaigns_count
        1 + // limits_enabled
        1 + // is_paused
        4 + (5 * (32 + 1)) + // moderators
        4 + (5 * (32 + 1))  // other_accepted_tokens
    }
}

/// Running totals of one contributor to one campaign.
#[derive(Clone, Copy, Debug, PartialEq, Eq)]
pub struct Contribution {
    pub contributor: Pubkey,
    pub campaign: Pubkey,
    pub sol_amount: u64,
    pub token_amount: u64,
}

#[derive(Clone, Copy, Debug, PartialEq, Eq)]
pub struct AcceptedToken {
    pub mint: Pubkey,
    pub allowed: bool,
}

#[derive(Clone, Copy, Debug, PartialEq, Eq)]
pub struct Moderators {
    pub moderator: Pubkey,
    pub allowed: bool,
}

/// The points system: its owner, whether it is paused, and the price and
/// multiplier of each tier on sale.
#[derive(Clone, Debug, PartialEq, Eq)]
pub struct Points {
    pub owner: Pubkey,
    pub is_paused: bool,
    pub multiplier_tiers: Vec<(MultiplierTier, MultiplierInfo)>,
}

pub ghost struct PointsView {
    pub owner: Pubkey,
    pub is_paused: bool,
    pub multiplier_tiers: Seq<(MultiplierTier, MultiplierInfo)>,
}

impl View for Points {
    type V = PointsView;

    open spec fn view(&self) -> PointsView {
        PointsView {
            owner: self.owner,
            is_paused: self.is_paused,
            multiplier_tiers: self.multiplier_tiers@,
        }
    }
}

/// Points balance and multiplier of one user.
#[derive(Clone, Copy, Debug, PartialEq, Eq)]
pub struct Spender {
    pub owner: Pubkey,
    pub multiplier_tier: MultiplierTier,
    pub multiplier: u32,
    pub points_earned: u64,
}

/// One contribution as recorded in a campaign's list of funders.
#[derive(Clone, Copy, Debug, PartialEq, Eq)]
pub struct Funder {
    pub funder_address: Pubkey,
    pub token_mint: Pubkey,
    pub amount: u64,
}

#[derive(Clone, Copy, Debug, PartialEq, Eq, Structural, PartialOrd, Ord, Hash)]
pub enum MultiplierTier {
    Base,
    Bronze,
    Silver,
    Gold,
    Platinum,
    Diamond,
}

#[derive(Clone, Copy, Debug, PartialEq, Eq)]
pub struct MultiplierInfo {
    /// Price in lamports.
    pub price: u64,
    pub multiplier: u32,
}

#[derive(Clone, Copy, Debug, PartialEq, Eq)]
pub struct PointsConfig {
    pub owner: Pubkey,
    pub factory: Pubkey,
    pub base_points: u64,
    pub paused: bool,
}

/// Whether `key` is listed among the moderators.
pub open spec fn lists_moderator(moderators: Seq<Moderators>, key: Pubkey) -> bool {
    exists|i: int| 0 <= i < moderators.len() && #[trigger] moderators[i].moderator == key
}

/// Whether `key` is listed among the moderators with `allowed` set.
pub open spec fn lists_allowed_moderator(moderators: Seq<Moderators>, key: Pubkey) -> bool {
    exists|i: int|
        0 <= i < moderators.len() && #[trigger] moderators[i].moderator == key
            && moderators[i].allowed
}

/// The moderators other than `key`, in order.
pub open spec fn without_moderator(moderators: Seq<Moderators>, key: Pubkey) -> Seq<Moderators> {
    moderators.filter(|m: Moderators| m.moderator != key)
}

/// Whether `mint` is listed among the accepted tokens.
pub open spec fn lists_token(tokens: Seq<AcceptedToken>, mint: Pubkey) -> bool {
    exists|i: int| 0 <= i < tokens.len() && #[trigger] tokens[i].mint == mint
}

/// The accepted tokens other than `mint`, in order.
pub open spec fn without_token(tokens: Seq<AcceptedToken>, mint: Pubkey) -> Seq<AcceptedToken> {
    tokens.filter(|t: AcceptedToken| t.mint != mint)
}

pub fn is_moderator(moderators: &Vec<Moderators>, key: &Pubkey) -> (r: bool)
    ensures
        r == lists_moderator(moderators@, *key),
{
    let mut i: usize = 0;
    while i < moderators.len()
        invariant
            i <= moderators@.len(),
            forall|j: int| 0 <= j < i ==> #[trigger] moderators@[j].moderator != *key,
        decreases moderators@.len() - i,
    {
        if moderators[i].moderator.key_eq(key) {
            return true;
        }
        i = i + 1;
    }
    false
}

pub fn is_allowed_moderator(moderators: &Vec<Moderators>, key: &Pubkey) -> (r: bool)
    ensures
        r == lists_allowed_moderator(moderators@, *key),
{
    let mut i: usize = 0;
    while i < moderators.len()
        invariant
            i <= moderators@.len(),
            forall|j: int|
                0 <= j < i ==> !(#[trigger] moderators@[j].moderator == *key && moderators@[j].allowed),
        decreases moderators@.len() - i,
    {
        if moderators[i].moderator.key_eq(key) && moderators[i].allowed {
            return true;
        }
        i = i + 1;
    }
    false
}

pub fn is_token_listed(tokens: &Vec<AcceptedToken>, mint: &Pubkey) -> (r: bool)
    ensures
        r == lists_token(tokens@, *mint),
{
    let mut i: usize = 0;
    while i < tokens.len()
        invariant
            i <= tokens@.len(),
            forall|j: int| 0 <= j < i ==> #[trigger] tokens@[j].mint != *mint,
        decreases tokens@.len() - i,
    {
        if tokens[i].mint.key_eq(mint) {
            return true;
        }
        i = i + 1;
    }
    false
}

/// The moderators other than `key`.
pub fn retain_other_moderators(moderators: &Vec<Moderators>, key: &Pubkey) -> (kept: Vec<Moderators>)
    ensures
        kept@ == without_moderator(moderators@, *key),
{
    let mut kept: Vec<Moderators> = Vec::new();
    let mut i: usize = 0;
    assert(moderators@.take(0) =~= Seq::<Moderators>::empty());
    proof {
        reveal_with_fuel(Seq::filter, 1);
    }
    while i < moderators.len()
        invariant
            i <= moderators@.len(),
            kept@ == without_moderator(moderators@.take(i as int), *key),
        decreases moderators@.len() - i,
    {
        let m = moderators[i];
        proof {
            assert(moderators@.take(i + 1).drop_last() =~= moderators@.take(i as int));
            reveal_with_fuel(Seq::filter, 1);
        }
        if !m.moderator.key_eq(key) {
            kept.push(m);
        }
        i = i + 1;
    }
    assert(moderators@.take(moderators@.len() as int) =~= moderators@);
    kept
}

/// The accepted tokens other than `mint`.
pub fn retain_other_tokens(tokens: &Vec<AcceptedToken>, mint: &Pubkey) -> (kept: Vec<AcceptedToken>)
    ensures
        kept@ == without_token(tokens@, *mint),
{
    let mut kept: Vec<AcceptedToken> = Vec::new();
    let mut i: usize = 0;
    assert(tokens@.take(0) =~= Seq::<AcceptedToken>::empty());
    proof {
        reveal_with_fuel(Seq::filter, 1);
    }
    while i < tokens.len()
        invariant
            i <= tokens@.len(),
            kept@ == without_token(tokens@.take(i as int), *mint),
        decreases tokens@.len() - i,
    {
        let t = tokens[i];
        proof {
            assert(tokens@.take(i + 1).drop_last() =~= tokens@.take(i as int));
            reveal_with_fuel(Seq::filter, 1);
        }
        if !t.mint.key_eq(mint) {
            kept.push(t);
        }
        i = i + 1;
    }
    assert(tokens@.take(tokens@.len() as int) =~= tokens@);
    kept
}

} // verus!
