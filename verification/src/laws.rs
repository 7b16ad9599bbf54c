use vstd::prelude::*;

use crate::error::{CrowdfundingError, InstructionError};
use crate::instructions::add_moderator::moderator_added;
use crate::instructions::approve_withdraw::withdraw_approved;
use crate::instructions::contribute::{
    contribution_admission, contribution_recorded, funder_recorded, platform_fee_of,
};
use crate::instructions::create_campaign::{campaign_created, create_campaign_admission};
use crate::instructions::end_campaign::campaign_ended;
use crate::instructions::pause_campaign::campaign_pause_set;
use crate::instructions::purchase_multiplier_tier::{purchase_outcome, tier_bought};
use crate::instructions::remove_moderator::moderator_removed;
use crate::instructions::set_acceptable_tokens::acceptable_token_set;
use crate::instructions::update_campaign::campaign_time_updated;
use crate::instructions::update_platform_fee::platform_fee_updated;
use crate::instructions::withdraw::{
    lemma_pair_transfers_pay_owner, transfer_pays_owner, withdraw_outcome, TokenTransfer,
    withdraw_admission, withdrawable_lamports, withdrawal_points, withdrawn_campaign,
};
use crate::pubkey::Pubkey;
use crate::instructions::initialize_factory::factory_initialized;
use crate::state::{
    factory_serialized_len, factory_space, MAX_FACTORY_LIST,
    lists_moderator, lists_token, without_moderator, without_token, AcceptedToken, CampaignView,
    FactoryView, Funder, Moderators, MultiplierTier, PointsView, Spender, Contribution,
};

verus! {

/// The platform fee is the percentage of the amount rounded down: for a fee of
/// at most 100 percent, `fee * 100 <= amount * percent < (fee + 1) * 100`, so
/// the fee never exceeds the amount and fee plus net amount is the amount.
pub proof fn law_fee_is_rounded_down_percentage(amount: u64, percent: u8)
    requires
        percent <= 100,
    ensures
        platform_fee_of(amount, percent) * 100 <= amount * percent,
        amount * percent < (platform_fee_of(amount, percent) + 1) * 100,
        platform_fee_of(amount, percent) <= amount,
        (amount - platform_fee_of(amount, percent)) + platform_fee_of(amount, percent) == amount,
{
    let q = amount * percent / 100;
    assert(amount * percent <= amount * 100) by (nonlinear_arith)
        requires
            percent <= 100,
    ;
    assert(q <= amount);
    assert(q % 0x1_0000_0000_0000_0000 == q);
}

/// A fee accepted by the fee update lies between 1 and 20 percent, so every
/// later contribution pays at most a fifth of its amount as fee.
pub proof fn law_updated_fee_is_bounded(factory: FactoryView, owner: Pubkey, new_fee: u8, amount: u64)
    requires
        platform_fee_updated(factory, owner, new_fee) is Ok,
    ensures
        1 <= platform_fee_updated(factory, owner, new_fee)->Ok_0.platform_fee <= 20,
        platform_fee_of(amount, platform_fee_updated(factory, owner, new_fee)->Ok_0.platform_fee)
            * 5 <= amount,
{
    law_fee_is_rounded_down_percentage(amount, new_fee);
    assert(amount * new_fee <= amount * 20) by (nonlinear_arith)
        requires
            new_fee <= 20,
    ;
}

/// Only the factory's owner may change its moderators, its accepted tokens or
/// its fee; anyone else is refused with `NotFactoryOwner` (an out-of-range
/// fee is refused first).
pub proof fn law_factory_changes_need_owner(
    factory: FactoryView,
    signer: Pubkey,
    key: Pubkey,
    accepted: bool,
    new_fee: u8,
)
    requires
        factory.owner != signer,
    ensures
        moderator_added(factory, signer, key) == Err::<FactoryView, CrowdfundingError>(
            CrowdfundingError::NotFactoryOwner,
        ),
        moderator_removed(factory, signer, key) == Err::<FactoryView, CrowdfundingError>(
            CrowdfundingError::NotFactoryOwner,
        ),
        acceptable_token_set(factory, signer, key, accepted) == Err::<
            FactoryView,
            CrowdfundingError,
        >(CrowdfundingError::NotFactoryOwner),
        1 <= new_fee <= 20 ==> platform_fee_updated(factory, signer, new_fee) == Err::<
            FactoryView,
            CrowdfundingError,
        >(CrowdfundingError::NotFactoryOwner),
{
}

/// A factory account of `Factory::space()` bytes holds every factory with at
/// most five moderators and five accepted tokens, exactly filling it when
/// both lists are full.
pub proof fn law_factory_space_holds_factory(factory: FactoryView)
    requires
        factory.moderators.len() <= MAX_FACTORY_LIST,
        factory.other_accepted_tokens.len() <= MAX_FACTORY_LIST,
    ensures
        factory_serialized_len(factory) <= factory_space(),
        factory.moderators.len() == MAX_FACTORY_LIST && factory.other_accepted_tokens.len()
            == MAX_FACTORY_LIST ==> factory_serialized_len(factory) == factory_space(),
{
}

/// A factory as set up or as re-priced charges a fee between 1 and 20
/// percent, so no contribution to its campaigns pays more fee than its amount.
pub proof fn law_set_up_fee_is_bounded(
    factory: FactoryView,
    owner: Pubkey,
    factory_id: u64,
    platform_fee: u8,
    stablecoin_mint: Pubkey,
    fee_wallet: Pubkey,
    tokens: Seq<AcceptedToken>,
    amount: u64,
)
    requires
        factory_initialized(factory, owner, factory_id, platform_fee, stablecoin_mint, fee_wallet, tokens) is Ok,
    ensures
        1 <= platform_fee <= 20,
        factory_initialized(factory, owner, factory_id, platform_fee, stablecoin_mint, fee_wallet, tokens)->Ok_0.platform_fee
            == platform_fee,
        platform_fee_of(amount, platform_fee) <= amount,
{
    law_fee_is_rounded_down_percentage(amount, platform_fee);
}

/// After a moderator is added, it is listed, and adding it again changes nothing.
pub proof fn law_add_moderator_idempotent(factory: FactoryView, owner: Pubkey, key: Pubkey)
    requires
        moderator_added(factory, owner, key) is Ok,
    ensures
        lists_moderator(moderator_added(factory, owner, key)->Ok_0.moderators, key),
        moderator_added(moderator_added(factory, owner, key)->Ok_0, owner, key) == moderator_added(
            factory,
            owner,
            key,
        ),
{
    let after = moderator_added(factory, owner, key)->Ok_0;
    if !lists_moderator(factory.moderators, key) {
        let i = factory.moderators.len() as int;
        assert(after.moderators[i].moderator == key);
    }
}

/// No key is listed twice among the moderators.
pub open spec fn moderators_unique(moderators: Seq<Moderators>) -> bool {
    forall|i: int, j: int|
        0 <= i < moderators.len() && 0 <= j < moderators.len() && i != j
            ==> #[trigger] moderators[i].moderator != #[trigger] moderators[j].moderator
}

/// Adding a moderator keeps the moderators free of duplicate keys.
pub proof fn law_add_moderator_keeps_keys_unique(factory: FactoryView, owner: Pubkey, key: Pubkey)
    requires
        moderators_unique(factory.moderators),
        moderator_added(factory, owner, key) is Ok,
    ensures
        moderators_unique(moderator_added(factory, owner, key)->Ok_0.moderators),
{
}

/// Removing a moderator drops every listing of that key and keeps every
/// other moderator, and only listed moderators remain.
pub proof fn law_remove_moderator(factory: FactoryView, owner: Pubkey, key: Pubkey, m: Moderators)
    requires
        moderator_removed(factory, owner, key) is Ok,
    ensures
        !lists_moderator(moderator_removed(factory, owner, key)->Ok_0.moderators, key),
        factory.moderators.contains(m) && m.moderator != key ==> moderator_removed(
            factory,
            owner,
            key,
        )->Ok_0.moderators.contains(m),
        moderator_removed(factory, owner, key)->Ok_0.moderators.contains(m)
            ==> factory.moderators.contains(m),
{
    let ms = factory.moderators;
    let pred = |x: Moderators| x.moderator != key;
    let kept = without_moderator(ms, key);
    assert(kept == ms.filter(pred));
    ms.lemma_filter_len(pred);
    assert forall|i: int| 0 <= i < kept.len() implies kept[i].moderator != key by {
        ms.lemma_filter_pred(pred, i);
    }
    if ms.contains(m) && m.moderator != key {
        let i = choose|i: int| 0 <= i < ms.len() && ms[i] == m;
        ms.lemma_filter_contains(pred, i);
    }
    if kept.contains(m) {
        ms.lemma_filter_contains_rev(pred, m);
    }
}

proof fn lemma_without_moderator_unique(moderators: Seq<Moderators>, key: Pubkey)
    requires
        moderators_unique(moderators),
    ensures
        moderators_unique(without_moderator(moderators, key)),
    decreases moderators.len(),
{
    reveal_with_fuel(Seq::filter, 1);
    if moderators.len() > 0 {
        let pred = |m: Moderators| m.moderator != key;
        let prefix = moderators.drop_last();
        let last = moderators.last();
        assert(moderators_unique(prefix)) by {
            assert forall|i: int, j: int|
                0 <= i < prefix.len() && 0 <= j < prefix.len() && i != j implies #[trigger] prefix[i].moderator
                != #[trigger] prefix[j].moderator by {
                assert(prefix[i] == moderators[i] && prefix[j] == moderators[j]);
            }
        }
        lemma_without_moderator_unique(prefix, key);
        let kept = without_moderator(prefix, key);
        assert(kept == prefix.filter(pred));
        if pred(last) {
            assert forall|i: int| 0 <= i < kept.len() implies #[trigger] kept[i].moderator != last.moderator by {
                prefix.lemma_filter_contains_rev(pred, kept[i]);
                let j = choose|j: int| 0 <= j < prefix.len() && prefix[j] == kept[i];
                assert(moderators[j] == prefix[j]);
                assert(moderators[moderators.len() - 1] == last);
            }
            let out = kept.push(last);
            assert(without_moderator(moderators, key) == out);
            assert forall|i: int, j: int|
                0 <= i < out.len() && 0 <= j < out.len() && i != j implies #[trigger] out[i].moderator
                != #[trigger] out[j].moderator by {
                if i < kept.len() && j < kept.len() {
                    assert(out[i] == kept[i] && out[j] == kept[j]);
                } else if i < kept.len() {
                    assert(out[i] == kept[i]);
                } else if j < kept.len() {
                    assert(out[j] == kept[j]);
                }
            }
        } else {
            assert(without_moderator(moderators, key) == kept);
        }
    }
}

/// Removing a moderator keeps the moderators free of duplicate keys.
pub proof fn law_remove_moderator_keeps_keys_unique(factory: FactoryView, owner: Pubkey, key: Pubkey)
    requires
        moderators_unique(factory.moderators),
        moderator_removed(factory, owner, key) is Ok,
    ensures
        moderators_unique(moderator_removed(factory, owner, key)->Ok_0.moderators),
{
    lemma_without_moderator_unique(factory.moderators, key);
}

/// No mint is listed twice among the accepted tokens.
pub open spec fn tokens_unique(tokens: Seq<AcceptedToken>) -> bool {
    forall|i: int, j: int|
        0 <= i < tokens.len() && 0 <= j < tokens.len() && i != j ==> #[trigger] tokens[i].mint
            != #[trigger] tokens[j].mint
}

/// Accepting a token keeps the accepted tokens free of duplicate mints.
pub proof fn law_accept_token_keeps_mints_unique(factory: FactoryView, owner: Pubkey, mint: Pubkey)
    requires
        tokens_unique(factory.other_accepted_tokens),
        acceptable_token_set(factory, owner, mint, true) is Ok,
    ensures
        tokens_unique(acceptable_token_set(factory, owner, mint, true)->Ok_0.other_accepted_tokens),
{
}

/// Accepting a token lists it, and accepting it again changes nothing;
/// withdrawing acceptance leaves it unlisted.
pub proof fn law_acceptable_token(factory: FactoryView, owner: Pubkey, mint: Pubkey)
    requires
        factory.owner == owner,
    ensures
        lists_token(acceptable_token_set(factory, owner, mint, true)->Ok_0.other_accepted_tokens, mint),
        acceptable_token_set(acceptable_token_set(factory, owner, mint, true)->Ok_0, owner, mint, true)
            == acceptable_token_set(factory, owner, mint, true),
        !lists_token(
            acceptable_token_set(factory, owner, mint, false)->Ok_0.other_accepted_tokens,
            mint,
        ),
{
    let ts = factory.other_accepted_tokens;
    if !lists_token(ts, mint) {
        let after = acceptable_token_set(factory, owner, mint, true)->Ok_0;
        assert(after.other_accepted_tokens[ts.len() as int].mint == mint);
    }
    let pred = |t: AcceptedToken| t.mint != mint;
    let kept = without_token(ts, mint);
    assert(kept == ts.filter(pred));
    assert forall|i: int| 0 <= i < kept.len() implies kept[i].mint != mint by {
        ts.lemma_filter_pred(pred, i);
    }
}

/// A campaign that has ended, is paused, or has not yet started takes no
/// contribution.
pub proof fn law_closed_campaign_takes_no_contribution(
    campaign: CampaignView,
    factory: FactoryView,
    now: i64,
    amount: u64,
)
    requires
        campaign.ended || campaign.is_paused || now < campaign.start_time || now >= campaign.end_time,
    ensures
        contribution_admission(campaign, factory, now, amount) is Err,
{
}

/// Ending a campaign closes it: a second end is refused with
/// `FundingPeriodOver`, and so is every contribution, at any time.
pub proof fn law_end_campaign_closes(
    campaign: CampaignView,
    owner: Pubkey,
    now: i64,
    later: i64,
    factory: FactoryView,
    amount: u64,
)
    requires
        campaign_ended(campaign, owner, now) is Ok,
        later >= now,
    ensures
        campaign_ended(campaign_ended(campaign, owner, now)->Ok_0, owner, later) == Err::<
            CampaignView,
            CrowdfundingError,
        >(CrowdfundingError::FundingPeriodOver),
        contribution_admission(campaign_ended(campaign, owner, now)->Ok_0, factory, later, amount)
            is Err,
{
}

/// An approved withdrawal cannot be approved again (`AlreadyApproved`), and
/// the campaign it ends takes no more contributions.
pub proof fn law_approve_withdraw_once(
    campaign: CampaignView,
    factory: FactoryView,
    signer: Pubkey,
    now: i64,
    later: i64,
    amount: u64,
)
    requires
        withdraw_approved(campaign, factory, signer, now) is Ok,
    ensures
        withdraw_approved(withdraw_approved(campaign, factory, signer, now)->Ok_0, factory, signer, later)
            == Err::<CampaignView, CrowdfundingError>(CrowdfundingError::AlreadyApproved),
        contribution_admission(withdraw_approved(campaign, factory, signer, now)->Ok_0, factory, later, amount)
            is Err,
{
}

/// While a campaign is paused, contributions and its owner's withdrawals are
/// refused with `CampaignPaused`; un-pausing restores the campaign exactly as it was
/// before it was paused.
pub proof fn law_pause_blocks_campaign(
    campaign: CampaignView,
    factory: FactoryView,
    moderator: Pubkey,
    now: i64,
    amount: u64,
)
    requires
        campaign_pause_set(campaign, factory, moderator, true) is Ok,
    ensures
        contribution_admission(campaign_pause_set(campaign, factory, moderator, true)->Ok_0, factory, now, amount)
            == Err::<(), CrowdfundingError>(CrowdfundingError::CampaignPaused),
        withdraw_admission(
            campaign_pause_set(campaign, factory, moderator, true)->Ok_0,
            factory,
            campaign.owner,
        ) == Err::<(), InstructionError>(InstructionError::Program(CrowdfundingError::CampaignPaused)),
        !campaign.is_paused ==> campaign_pause_set(
            campaign_pause_set(campaign, factory, moderator, true)->Ok_0,
            factory,
            moderator,
            false,
        ) == Ok::<CampaignView, CrowdfundingError>(campaign),
{
}

/// Right after its creation a campaign takes no contribution at the time of
/// creation: its start lies in the future.
pub proof fn law_new_campaign_not_started(
    factory: FactoryView,
    factory_key: Pubkey,
    creator: Pubkey,
    bump: u8,
    now: i64,
    start_time: i64,
    end_time: i64,
    metadata_uri: Seq<char>,
    other_token_mints: Seq<Pubkey>,
    amount: u64,
)
    requires
        create_campaign_admission(factory, now, start_time, end_time, other_token_mints.len()) is Ok,
    ensures
        contribution_admission(
            campaign_created(
                factory,
                factory_key,
                creator,
                bump,
                start_time,
                end_time,
                metadata_uri,
                other_token_mints,
            ),
            factory,
            now,
            amount,
        ) == Err::<(), CrowdfundingError>(CrowdfundingError::FundingNotStarted),
        start_time < end_time,
        other_token_mints.len() <= 5,
{
}

/// Each accepted contribution appends exactly one funder, with the
/// contributor, mint and amount, and raises the funder count by one; the
/// contributor's total in that currency rises by the amount.
pub proof fn law_contribution_is_recorded(
    campaign: CampaignView,
    contribution: Contribution,
    funder: Funder,
    contributor: Pubkey,
    campaign_key: Pubkey,
    amount: u64,
    is_token: bool,
)
    requires
        campaign.funders_count + 1 <= u64::MAX,
        contribution.sol_amount + amount <= u64::MAX,
        contribution.token_amount + amount <= u64::MAX,
    ensures
        funder_recorded(campaign, funder).funders_count - funder_recorded(campaign, funder).funders.len()
            == campaign.funders_count - campaign.funders.len(),
        funder_recorded(campaign, funder).funders.last() == funder,
        funder_recorded(campaign, funder).funders.drop_last() == campaign.funders,
        contribution_recorded(contribution, contributor, campaign_key, amount, is_token).sol_amount
            + contribution_recorded(contribution, contributor, campaign_key, amount, is_token).token_amount
            == contribution.sol_amount + contribution.token_amount + amount,
{
    assert(campaign.funders.push(funder).drop_last() =~= campaign.funders);
}

/// A campaign whose funder count equals its number of recorded funders keeps
/// them equal through every contribution.
pub proof fn law_contribution_keeps_count_in_step(campaign: CampaignView, funder: Funder)
    requires
        campaign.funders_count == campaign.funders.len(),
        campaign.funders_count + 1 <= u64::MAX,
    ensures
        funder_recorded(campaign, funder).funders_count == funder_recorded(campaign, funder).funders.len(),
        funder_recorded(campaign, funder).funders == campaign.funders.push(funder),
        funder_recorded(campaign, funder).funders_count == campaign.funders_count + 1,
{
}

/// The funding approval flags matter only when the factory enforces limits:
/// then an unapproved campaign is refused with `FundingNotApproved` and an
/// approved but disapproved one with `FundingDisapproved`.
pub proof fn law_limits_gate_funding_approval(
    campaign: CampaignView,
    factory: FactoryView,
    now: i64,
    amount: u64,
    approved: bool,
    disapproved: bool,
)
    requires
        !campaign.is_paused,
        !campaign.ended,
        campaign.start_time <= now < campaign.end_time,
        amount > 0,
        !factory.is_paused,
    ensures
        !factory.limits_enabled ==> contribution_admission(
            CampaignView { funding_approved: approved, funding_disapproved: disapproved, ..campaign },
            factory,
            now,
            amount,
        ) == Ok::<(), CrowdfundingError>(()),
        factory.limits_enabled && !campaign.funding_approved ==> contribution_admission(
            campaign,
            factory,
            now,
            amount,
        ) == Err::<(), CrowdfundingError>(CrowdfundingError::FundingNotApproved),
        factory.limits_enabled && campaign.funding_approved && campaign.funding_disapproved
            ==> contribution_admission(campaign, factory, now, amount) == Err::<
            (),
            CrowdfundingError,
        >(CrowdfundingError::FundingDisapproved),
{
}

/// A withdrawal leaves the rent-exempt minimum in the campaign (or all of a
/// smaller balance), and awards the owner's points only the first time.
pub proof fn law_withdraw_keeps_rent_and_awards_once(
    balance: u64,
    rent_minimum: u64,
    campaign: CampaignView,
    spender: Spender,
    base_points: u64,
)
    ensures
        balance - withdrawable_lamports(balance, rent_minimum) == if balance < rent_minimum {
            balance
        } else {
            rent_minimum
        },
        withdrawal_points(withdrawn_campaign(campaign), spender, base_points) == spender,
        withdrawn_campaign(withdrawn_campaign(campaign)) == withdrawn_campaign(campaign),
        withdrawn_campaign(campaign).is_withdrawal_points_minted,
        spender.points_earned + base_points <= u64::MAX ==> withdrawal_points(
            campaign,
            spender,
            base_points,
        ).points_earned == spender.points_earned + if campaign.is_withdrawal_points_minted {
            0
        } else {
            base_points as int
        },
{
}

/// Only the campaign's recorded owner can withdraw; an accepted withdrawal
/// moves tokens only out of token accounts that the campaign owns, each its
/// full positive balance, into the token account beside it that the owner owns.
pub proof fn law_withdraw_pays_only_owner(
    campaign: CampaignView,
    factory: FactoryView,
    campaign_key: Pubkey,
    owner: Pubkey,
    datas: Seq<Seq<u8>>,
)
    requires
        datas.len() <= usize::MAX,
    ensures
        campaign.owner != owner ==> withdraw_outcome(campaign, factory, campaign_key, owner, datas)
            == Err::<Seq<TokenTransfer>, InstructionError>(InstructionError::ConstraintHasOne),
        withdraw_outcome(campaign, factory, campaign_key, owner, datas) is Ok ==> {
            let transfers = withdraw_outcome(campaign, factory, campaign_key, owner, datas)->Ok_0;
            &&& campaign.owner == owner
            &&& forall|k: int|
                0 <= k < transfers.len() ==> transfer_pays_owner(
                    datas,
                    #[trigger] transfers[k],
                    campaign_key,
                    owner,
                )
        },
{
    if withdraw_outcome(campaign, factory, campaign_key, owner, datas) is Ok {
        lemma_pair_transfers_pay_owner(datas, datas.len() / 2, campaign_key, owner);
    }
}

/// A tier just bought cannot be bought again (`MultiplierAlreadyOwned`).
pub proof fn law_tier_bought_once(points: PointsView, spender: Spender, tier: MultiplierTier, amount: u64, again: u64)
    requires
        purchase_outcome(points, spender, tier, amount) is Ok,
    ensures
        purchase_outcome(
            points,
            tier_bought(spender, tier, purchase_outcome(points, spender, tier, amount)->Ok_0, amount),
            tier,
            again,
        ) == Err::<crate::state::MultiplierInfo, CrowdfundingError>(
            CrowdfundingError::MultiplierAlreadyOwned,
        ),
{
}

/// Once a campaign has ended its dates can no longer be changed.
pub proof fn law_ended_campaign_dates_fixed(
    campaign: CampaignView,
    owner: Pubkey,
    now: i64,
    start_time: Option<i64>,
    end_time: Option<i64>,
)
    requires
        campaign.ended,
        start_time is Some || end_time is Some,
    ensures
        campaign_time_updated(campaign, owner, now, start_time, end_time) is Err,
{
}

} // verus!
