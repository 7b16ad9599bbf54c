//! What each instruction changes, stated field by field over its inputs: every
//! accepted instruction changes exactly the fields it is for, sets them to the
//! values it is given, and keeps every other field.
use vstd::prelude::*;

use crate::error::CrowdfundingError;
use crate::instructions::add_moderator::moderator_added;
use crate::instructions::approve_withdraw::withdraw_approved;
use crate::instructions::contribute::{
    contribution_admission, contribution_recorded, funder_recorded, points_awarded,
};
use crate::instructions::create_campaign::{campaign_created, create_campaign_admission};
use crate::instructions::end_campaign::campaign_ended;
use crate::instructions::initialize_factory::factory_initialized;
use crate::instructions::pause_campaign::campaign_pause_set;
use crate::instructions::purchase_multiplier_tier::{purchase_outcome, tier_bought};
use crate::instructions::remove_moderator::moderator_removed;
use crate::instructions::set_acceptable_tokens::acceptable_token_set;
use crate::instructions::update_campaign::campaign_time_updated;
use crate::instructions::update_platform_fee::platform_fee_updated;
use crate::instructions::withdraw::{
    lemma_pair_transfers_pay_owner, pair_transfers, pairs_refusal, withdraw_admission,
    withdrawal_points, withdrawn_campaign,
};
use crate::token_account::token_account_amount;
use crate::pubkey::Pubkey;
use crate::state::{
    without_token, AcceptedToken, CampaignView, Contribution, FactoryView, Funder, Moderators, MultiplierInfo,
    MultiplierTier, PointsView, Spender,
};

verus! {

/// Changing a campaign's dates sets exactly the dates that are given: a given
/// start becomes the start, a given end becomes the end, a date that is not
/// given stays as it was, and nothing else about the campaign changes. The
/// owner may move the start only while the campaign is not running, and either
/// date only until the campaign has ended; under those conditions the change
/// is accepted.
pub proof fn law_update_time_sets_only_given_dates(
    campaign: CampaignView,
    owner: Pubkey,
    now: i64,
    start_time: Option<i64>,
    end_time: Option<i64>,
)
    ensures
        campaign_time_updated(campaign, owner, now, start_time, end_time) is Ok ==> {
            let after = campaign_time_updated(campaign, owner, now, start_time, end_time)->Ok_0;
            &&& campaign.owner == owner
            &&& !campaign.ended || (start_time is None && end_time is None)
            &&& start_time is Some ==> (now < campaign.start_time || now > campaign.end_time)
            &&& after.start_time == (if start_time is Some {
                start_time->0
            } else {
                campaign.start_time
            })
            &&& after.end_time == (if end_time is Some {
                end_time->0
            } else {
                campaign.end_time
            })
            &&& start_time is None ==> after.start_time == campaign.start_time
            &&& end_time is None ==> after.end_time == campaign.end_time
            &&& (CampaignView {
                start_time: campaign.start_time,
                end_time: campaign.end_time,
                ..after
            }) == campaign
        },
        campaign.owner == owner && !campaign.ended && (start_time is None || now
            < campaign.start_time || now > campaign.end_time) ==> campaign_time_updated(
            campaign,
            owner,
            now,
            start_time,
            end_time,
        ) is Ok,
{
}

/// A withdrawal marks the campaign's points as awarded and changes nothing
/// else about the campaign: it stays running, paused or ended exactly as it
/// was, keeps its dates and approval flags, and so takes exactly the same
/// contributions afterwards as before.
pub proof fn law_withdraw_changes_only_points_flag(
    campaign: CampaignView,
    factory: FactoryView,
    now: i64,
    amount: u64,
)
    ensures
        withdrawn_campaign(campaign).is_withdrawal_points_minted,
        (CampaignView {
            is_withdrawal_points_minted: campaign.is_withdrawal_points_minted,
            ..withdrawn_campaign(campaign)
        }) == campaign,
        withdrawn_campaign(campaign).ended == campaign.ended,
        withdrawn_campaign(campaign).is_paused == campaign.is_paused,
        withdrawn_campaign(campaign).end_time == campaign.end_time,
        contribution_admission(withdrawn_campaign(campaign), factory, now, amount)
            == contribution_admission(campaign, factory, now, amount),
        withdraw_admission(withdrawn_campaign(campaign), factory, campaign.owner) == withdraw_admission(
            campaign,
            factory,
            campaign.owner,
        ),
{
}

/// A withdrawal changes only the owner's points, and by exactly the base
/// points the first time and by nothing afterwards.
pub proof fn law_withdraw_points_change(campaign: CampaignView, spender: Spender, base_points: u64)
    requires
        spender.points_earned + base_points <= u64::MAX,
    ensures
        (Spender {
            points_earned: spender.points_earned,
            ..withdrawal_points(campaign, spender, base_points)
        }) == spender,
        campaign.is_withdrawal_points_minted ==> withdrawal_points(campaign, spender, base_points)
            == spender,
        !campaign.is_withdrawal_points_minted ==> withdrawal_points(
            campaign,
            spender,
            base_points,
        ).points_earned == spender.points_earned + base_points,
{
}

/// A created campaign holds exactly what it was created with: the creator as
/// owner, the given dates, metadata URI and other token mints (every one of
/// them, in order), the factory's stablecoin and address and the given bump;
/// it starts unpaused, not ended, with nothing approved and no funders. Every
/// date pair with a future start before the end and every list of at most five
/// mints is accepted by a factory that is not paused.
pub proof fn law_created_campaign_holds_its_arguments(
    factory: FactoryView,
    factory_key: Pubkey,
    creator: Pubkey,
    bump: u8,
    now: i64,
    start_time: i64,
    end_time: i64,
    metadata_uri: Seq<char>,
    other_token_mints: Seq<Pubkey>,
)
    ensures
        ({
            let c = campaign_created(
                factory,
                factory_key,
                creator,
                bump,
                start_time,
                end_time,
                metadata_uri,
                other_token_mints,
            );
            &&& c.owner == creator
            &&& c.start_time == start_time
            &&& c.end_time == end_time
            &&& c.metadata_uri == metadata_uri
            &&& c.other_acceptable_tokens == other_token_mints
            &&& c.other_acceptable_tokens.len() == other_token_mints.len()
            &&& forall|i: int|
                0 <= i < other_token_mints.len() ==> c.other_acceptable_tokens[i]
                    == other_token_mints[i]
            &&& c.stablecoin_mint == factory.stablecoin_mint
            &&& c.factory == factory_key
            &&& c.bump == bump
            &&& !c.is_paused && !c.ended
            &&& !c.is_withdraw_approved && !c.is_withdrawal_points_minted
            &&& !c.withdrawal_approval_revoked
            &&& !c.funding_approved && !c.funding_disapproved
            &&& c.funders_count == 0
            &&& c.funders.len() == 0
        }),
        !factory.is_paused && now < start_time && start_time < end_time && other_token_mints.len()
            <= 5 ==> create_campaign_admission(
            factory,
            now,
            start_time,
            end_time,
            other_token_mints.len(),
        ) is Ok,
{
}

/// An approved withdrawal sets the approval and ends the campaign, and
/// changes nothing else about it.
pub proof fn law_approve_withdraw_sets_only_approval(
    campaign: CampaignView,
    factory: FactoryView,
    signer: Pubkey,
    now: i64,
)
    ensures
        withdraw_approved(campaign, factory, signer, now) is Ok ==> {
            let after = withdraw_approved(campaign, factory, signer, now)->Ok_0;
            &&& after.is_withdraw_approved && after.ended
            &&& (CampaignView {
                is_withdraw_approved: campaign.is_withdraw_approved,
                ended: campaign.ended,
                ..after
            }) == campaign
            &&& exists|i: int|
                0 <= i < factory.moderators.len() && factory.moderators[i].moderator == signer
                    && factory.moderators[i].allowed
            &&& campaign.start_time <= now
            &&& now >= campaign.end_time || campaign.ended
        },
{
}

/// Ending a campaign marks it ended with its end moved to the moment it was
/// ended, and changes nothing else.
pub proof fn law_end_campaign_sets_only_end(campaign: CampaignView, owner: Pubkey, now: i64)
    ensures
        campaign_ended(campaign, owner, now) is Ok ==> {
            let after = campaign_ended(campaign, owner, now)->Ok_0;
            &&& after.ended && after.end_time == now
            &&& (CampaignView { ended: campaign.ended, end_time: campaign.end_time, ..after })
                == campaign
            &&& campaign.owner == owner
            &&& campaign.start_time <= now <= campaign.end_time
            &&& !campaign.ended
        },
        campaign.owner == owner && campaign.start_time <= now <= campaign.end_time && !campaign.ended
            ==> campaign_ended(campaign, owner, now) is Ok,
{
}

/// Pausing sets the campaign's pause flag to the given value and changes
/// nothing else; any listed moderator may do it.
pub proof fn law_pause_sets_only_flag(
    campaign: CampaignView,
    factory: FactoryView,
    signer: Pubkey,
    paused: bool,
    i: int,
)
    requires
        0 <= i < factory.moderators.len(),
        factory.moderators[i].moderator == signer,
    ensures
        campaign_pause_set(campaign, factory, signer, paused) is Ok,
        campaign_pause_set(campaign, factory, signer, paused)->Ok_0.is_paused == paused,
        (CampaignView {
            is_paused: campaign.is_paused,
            ..campaign_pause_set(campaign, factory, signer, paused)->Ok_0
        }) == campaign,
{
}

/// A fee update by the owner sets the fee to the given value and changes
/// nothing else; every fee from 1 to 20 is accepted from the owner.
pub proof fn law_fee_update_sets_only_fee(factory: FactoryView, owner: Pubkey, new_fee: u8)
    ensures
        platform_fee_updated(factory, owner, new_fee) is Ok ==> {
            let after = platform_fee_updated(factory, owner, new_fee)->Ok_0;
            &&& after.platform_fee == new_fee
            &&& (FactoryView { platform_fee: factory.platform_fee, ..after }) == factory
        },
        factory.owner == owner && 1 <= new_fee <= 20 ==> platform_fee_updated(
            factory,
            owner,
            new_fee,
        ) is Ok,
{
}

/// Adding a moderator changes only the moderators: the list stays as it was
/// when the key is already listed, and otherwise gains the key, allowed, at
/// its end.
pub proof fn law_add_moderator_changes_only_list(factory: FactoryView, key: Pubkey)
    ensures
        moderator_added(factory, factory.owner, key) is Ok,
        ({
            let after = moderator_added(factory, factory.owner, key)->Ok_0;
            &&& (FactoryView { moderators: factory.moderators, ..after }) == factory
            &&& (exists|i: int| 0 <= i < factory.moderators.len() && factory.moderators[i].moderator == key)
                ==> after.moderators == factory.moderators
            &&& !(exists|i: int|
                0 <= i < factory.moderators.len() && factory.moderators[i].moderator == key)
                ==> after.moderators == factory.moderators.push(
                Moderators { moderator: key, allowed: true },
            )
        }),
{
}

/// Removing a moderator changes only the moderators, which then hold no entry
/// for that key.
pub proof fn law_remove_moderator_changes_only_list(factory: FactoryView, key: Pubkey)
    ensures
        moderator_removed(factory, factory.owner, key) is Ok,
        ({
            let after = moderator_removed(factory, factory.owner, key)->Ok_0;
            &&& (FactoryView { moderators: factory.moderators, ..after }) == factory
            &&& after.moderators.len() <= factory.moderators.len()
        }),
{
    let after = moderator_removed(factory, factory.owner, key)->Ok_0;
    factory.moderators.lemma_filter_len(|m: Moderators| m.moderator != key);
}

/// Changing the accepted tokens changes only that list: accepting a listed
/// mint keeps it as it was, accepting a new one appends it, allowed.
pub proof fn law_acceptable_token_changes_only_list(factory: FactoryView, mint: Pubkey, accepted: bool)
    ensures
        acceptable_token_set(factory, factory.owner, mint, accepted) is Ok,
        ({
            let after = acceptable_token_set(factory, factory.owner, mint, accepted)->Ok_0;
            &&& (FactoryView { other_accepted_tokens: factory.other_accepted_tokens, ..after })
                == factory
            &&& accepted && (exists|i: int|
                0 <= i < factory.other_accepted_tokens.len()
                    && factory.other_accepted_tokens[i].mint == mint)
                ==> after.other_accepted_tokens == factory.other_accepted_tokens
            &&& accepted && !(exists|i: int|
                0 <= i < factory.other_accepted_tokens.len()
                    && factory.other_accepted_tokens[i].mint == mint)
                ==> after.other_accepted_tokens == factory.other_accepted_tokens.push(
                AcceptedToken { mint: mint, allowed: true },
            )
        }),
{
}

/// Setting up a factory stores exactly the given settings and tokens, resets
/// the counters and switches, and keeps its moderators.
pub proof fn law_factory_setup_stores_arguments(
    factory: FactoryView,
    owner: Pubkey,
    factory_id: u64,
    platform_fee: u8,
    stablecoin_mint: Pubkey,
    fee_wallet: Pubkey,
    tokens: Seq<AcceptedToken>,
)
    requires
        1 <= platform_fee <= 20,
    ensures
        factory_initialized(factory, owner, factory_id, platform_fee, stablecoin_mint, fee_wallet, tokens)
            is Ok,
        ({
            let f = factory_initialized(
                factory,
                owner,
                factory_id,
                platform_fee,
                stablecoin_mint,
                fee_wallet,
                tokens,
            )->Ok_0;
            &&& f.factory_id == factory_id && f.owner == owner && f.platform_fee == platform_fee
            &&& f.stablecoin_mint == stablecoin_mint && f.fee_wallet == fee_wallet
            &&& f.other_accepted_tokens == tokens
            &&& f.deployed_campaigns_count == 0 && !f.limits_enabled && !f.is_paused
            &&& f.moderators == factory.moderators
        }),
{
}

/// Recording a contribution changes only the funder count, by one, and the
/// funders, which gain exactly that funder at their end; the contributor's
/// total in the contributed currency rises by the amount and the other total
/// stays; the spender's points rise by the amount times its multiplier and
/// nothing else about it changes.
pub proof fn law_contribution_changes(
    campaign: CampaignView,
    funder: Funder,
    contribution: Contribution,
    contributor: Pubkey,
    campaign_key: Pubkey,
    amount: u64,
    is_token: bool,
    spender: Spender,
)
    requires
        campaign.funders_count + 1 <= u64::MAX,
        contribution.sol_amount + amount <= u64::MAX,
        contribution.token_amount + amount <= u64::MAX,
        spender.points_earned + amount * spender.multiplier <= u64::MAX,
    ensures
        (CampaignView {
            funders_count: campaign.funders_count,
            funders: campaign.funders,
            ..funder_recorded(campaign, funder)
        }) == campaign,
        funder_recorded(campaign, funder).funders_count == campaign.funders_count + 1,
        funder_recorded(campaign, funder).funders == campaign.funders.push(funder),
        ({
            let c = contribution_recorded(contribution, contributor, campaign_key, amount, is_token);
            &&& c.contributor == contributor && c.campaign == campaign_key
            &&& is_token ==> c.token_amount == contribution.token_amount + amount
                && c.sol_amount == contribution.sol_amount
            &&& !is_token ==> c.sol_amount == contribution.sol_amount + amount
                && c.token_amount == contribution.token_amount
        }),
        (Spender { points_earned: spender.points_earned, ..points_awarded(spender, amount) })
            == spender,
        points_awarded(spender, amount).points_earned == spender.points_earned + amount
            * spender.multiplier,
{
}

/// An accepted tier purchase uses the first listing of that tier, whose
/// price the amount covers; the spender then holds that tier and its
/// multiplier, has the amount paid added to its points, and keeps its owner.
pub proof fn law_purchase_uses_first_listing(
    points: PointsView,
    spender: Spender,
    tier: MultiplierTier,
    amount: u64,
)
    requires
        spender.points_earned + amount <= u64::MAX,
    ensures
        purchase_outcome(points, spender, tier, amount) is Ok ==> {
            let info = purchase_outcome(points, spender, tier, amount)->Ok_0;
            let after = tier_bought(spender, tier, info, amount);
            &&& !points.is_paused
            &&& spender.multiplier_tier != tier
            &&& info.price <= amount
            &&& exists|i: int|
                0 <= i < points.multiplier_tiers.len() && points.multiplier_tiers[i] == (tier, info)
                    && forall|j: int| 0 <= j < i ==> points.multiplier_tiers[j].0 != tier
            &&& after.owner == spender.owner
            &&& after.multiplier_tier == tier
            &&& after.multiplier == info.multiplier
            &&& after.points_earned == spender.points_earned + amount
        },
{
    if purchase_outcome(points, spender, tier, amount) is Ok {
        lemma_first_listing(points.multiplier_tiers, tier);
    }
}

proof fn lemma_first_listing(tiers: Seq<(MultiplierTier, MultiplierInfo)>, tier: MultiplierTier)
    requires
        crate::instructions::purchase_multiplier_tier::tier_lookup(tiers, tier) is Some,
    ensures
        exists|i: int|
            0 <= i < tiers.len() && tiers[i] == (
                tier,
                crate::instructions::purchase_multiplier_tier::tier_lookup(tiers, tier)->0,
            ) && forall|j: int| 0 <= j < i ==> tiers[j].0 != tier,
    decreases tiers.len(),
{
    if tiers[0].0 != tier {
        let rest = tiers.drop_first();
        lemma_first_listing(rest, tier);
        let i = choose|i: int|
            0 <= i < rest.len() && rest[i] == (
                tier,
                crate::instructions::purchase_multiplier_tier::tier_lookup(rest, tier)->0,
            ) && forall|j: int| 0 <= j < i ==> rest[j].0 != tier;
        assert(tiers[i + 1] == rest[i]);
        assert forall|j: int| 0 <= j < i + 1 implies tiers[j].0 != tier by {
            if j > 0 {
                assert(tiers[j] == rest[j - 1]);
            }
        }
    }
}

/// A contribution is accepted exactly when the campaign is neither paused nor
/// ended, the time lies in `[start, end)`, the amount is positive, the factory
/// is not paused, and, when the factory enforces limits, the campaign's
/// funding is approved and not disapproved.
pub proof fn law_contribution_accepted_exactly(
    campaign: CampaignView,
    factory: FactoryView,
    now: i64,
    amount: u64,
)
    ensures
        contribution_admission(campaign, factory, now, amount) is Ok <==> {
            &&& !campaign.is_paused
            &&& !campaign.ended
            &&& campaign.start_time <= now < campaign.end_time
            &&& amount > 0
            &&& !factory.is_paused
            &&& factory.limits_enabled ==> campaign.funding_approved && !campaign.funding_disapproved
        },
{
}

/// A withdrawal is admitted exactly for the campaign's owner, while it is not
/// paused and, when the factory enforces limits, while its withdrawal is
/// approved and not revoked.
pub proof fn law_withdraw_admitted_exactly(campaign: CampaignView, factory: FactoryView, signer: Pubkey)
    ensures
        withdraw_admission(campaign, factory, signer) is Ok <==> {
            &&& campaign.owner == signer
            &&& !campaign.is_paused
            &&& factory.limits_enabled ==> campaign.is_withdraw_approved
                && !campaign.withdrawal_approval_revoked
        },
{
}

/// The token transfers of an accepted withdrawal over `n` pairs empty every
/// pair whose campaign account holds a positive amount, once each, in the
/// order of the pairs: each such pair has a transfer, and no pair has two.
pub proof fn law_withdraw_empties_every_token_account(
    datas: Seq<Seq<u8>>,
    n: nat,
    campaign_key: Pubkey,
    owner: Pubkey,
)
    requires
        pairs_refusal(datas, n, campaign_key, owner) is None,
        2 * n <= datas.len(),
        datas.len() <= usize::MAX,
    ensures
        forall|i: int|
            0 <= i < n && token_account_amount(#[trigger] datas[2 * i]) > 0 ==> exists|k: int|
                0 <= k < pair_transfers(datas, n).len() && pair_transfers(datas, n)[k].pair == i,
        forall|k: int, l: int|
            0 <= k < l < pair_transfers(datas, n).len() ==> pair_transfers(datas, n)[k].pair
                < pair_transfers(datas, n)[l].pair,
    decreases n,
{
    lemma_pair_transfers_pay_owner(datas, n, campaign_key, owner);
    if n > 0 {
        let m = (n - 1) as nat;
        lemma_pair_transfers_pay_owner(datas, m, campaign_key, owner);
        law_withdraw_empties_every_token_account(datas, m, campaign_key, owner);
        let earlier = pair_transfers(datas, m);
        let all = pair_transfers(datas, n);
        assert forall|i: int|
            0 <= i < n && token_account_amount(#[trigger] datas[2 * i]) > 0 implies exists|k: int|
                0 <= k < all.len() && all[k].pair == i by {
            if i < m {
                let k = choose|k: int| 0 <= k < earlier.len() && earlier[k].pair == i;
                assert(all[k] == earlier[k]);
            } else {
                assert(all[all.len() - 1].pair == i);
            }
        }
        assert forall|k: int, l: int| 0 <= k < l < all.len() implies all[k].pair < all[l].pair by {
            assert(all[k] == earlier[k]);
            if l < earlier.len() {
                assert(all[l] == earlier[l]);
            } else {
                assert(earlier[k].pair < m);
            }
        }
    }
}

/// Withdrawing acceptance of a mint drops it and keeps every other accepted
/// token; only listed tokens remain.
pub proof fn law_unaccepting_token_keeps_others(tokens: Seq<AcceptedToken>, mint: Pubkey, t: AcceptedToken)
    ensures
        t.mint != mint && tokens.contains(t) ==> without_token(tokens, mint).contains(t),
        without_token(tokens, mint).contains(t) ==> tokens.contains(t) && t.mint != mint,
{
    let pred = |x: AcceptedToken| x.mint != mint;
    assert(without_token(tokens, mint) == tokens.filter(pred));
    if t.mint != mint && tokens.contains(t) {
        let i = choose|i: int| 0 <= i < tokens.len() && tokens[i] == t;
        tokens.lemma_filter_contains(pred, i);
    }
    if without_token(tokens, mint).contains(t) {
        tokens.lemma_filter_contains_rev(pred, t);
        let k = choose|k: int| 0 <= k < tokens.filter(pred).len() && tokens.filter(pred)[k] == t;
        tokens.lemma_filter_pred(pred, k);
    }
}

/// A purchase is accepted whenever the points system is not paused, the
/// spender does not already hold the tier, and the tier's first listing
/// costs at most the amount offered.
pub proof fn law_purchase_accepted(
    points: PointsView,
    spender: Spender,
    tier: MultiplierTier,
    amount: u64,
    i: int,
)
    requires
        !points.is_paused,
        spender.multiplier_tier != tier,
        0 <= i < points.multiplier_tiers.len(),
        points.multiplier_tiers[i].0 == tier,
        forall|j: int| 0 <= j < i ==> points.multiplier_tiers[j].0 != tier,
        points.multiplier_tiers[i].1.price <= amount,
    ensures
        purchase_outcome(points, spender, tier, amount) == Ok::<MultiplierInfo, CrowdfundingError>(
            points.multiplier_tiers[i].1,
        ),
{
    lemma_lookup_finds(points.multiplier_tiers, tier, i);
}

proof fn lemma_lookup_finds(tiers: Seq<(MultiplierTier, MultiplierInfo)>, tier: MultiplierTier, i: int)
    requires
        0 <= i < tiers.len(),
        tiers[i].0 == tier,
        forall|j: int| 0 <= j < i ==> tiers[j].0 != tier,
    ensures
        crate::instructions::purchase_multiplier_tier::tier_lookup(tiers, tier) == Some(tiers[i].1),
    decreases i,
{
    if i > 0 {
        let rest = tiers.drop_first();
        assert forall|j: int| 0 <= j < i - 1 implies rest[j].0 != tier by {
            assert(rest[j] == tiers[j + 1]);
        }
        lemma_lookup_finds(rest, tier, i - 1);
    }
}

} // verus!
