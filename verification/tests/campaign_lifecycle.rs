use chain_fund_me::error::CrowdfundingError;
use chain_fund_me::events::{ChainFundMeCreated, Deposited, WithdrawApproved};
use chain_fund_me::instructions::approve_withdraw::{approve_withdraw, ApproveWithdraw};
use chain_fund_me::instructions::contribute::{
    check_contribution, platform_fee, process_contribute, Contribute, ContributionReceipt, Payment,
};
use chain_fund_me::instructions::contributesol::{process_contribute_sol, ContributeSol};
use chain_fund_me::instructions::contributetoken::{process_contribute_token, ContributeToken};
use chain_fund_me::instructions::create_campaign::{process_create_campaign, CampaignCreation, CreateCampaign};
use chain_fund_me::instructions::end_campaign::{end_campaign, EndCampaign};
use chain_fund_me::instructions::pause_campaign::{process_pause_campaign, PauseCampaign};
use chain_fund_me::instructions::update_campaign::{process_update_campaign_time, UpdateCampaignTime};
use chain_fund_me::pubkey::Pubkey;
use chain_fund_me::state::{
    Campaign, Contribution, Factory, Funder, Moderators, MultiplierTier, Spender,
};

fn key(n: u8) -> Pubkey {
    Pubkey::new_from_array([n; 32])
}

fn factory() -> Factory {
    Factory {
        factory_id: 1,
        owner: key(1),
        platform_fee: 5,
        stablecoin_mint: key(90),
        fee_wallet: key(91),
        deployed_campaigns_count: 0,
        limits_enabled: false,
        is_paused: false,
        moderators: vec![
            Moderators { moderator: key(20), allowed: true },
            Moderators { moderator: key(21), allowed: false },
        ],
        other_accepted_tokens: Vec::new(),
    }
}

fn fresh_campaign() -> Campaign {
    Campaign {
        owner: Pubkey::default(),
        start_time: 0,
        end_time: 0,
        metadata_uri: String::new(),
        stablecoin_mint: Pubkey::default(),
        other_acceptable_tokens: Vec::new(),
        factory: Pubkey::default(),
        is_paused: false,
        is_withdraw_approved: false,
        is_withdrawal_points_minted: false,
        withdrawal_approval_revoked: false,
        funding_approved: false,
        funding_disapproved: false,
        ended: false,
        funders_count: 0,
        funders: Vec::new(),
        bump: 0,
    }
}

fn running_campaign() -> Campaign {
    let mut c = fresh_campaign();
    c.owner = key(10);
    c.start_time = 100;
    c.end_time = 200;
    c.factory = key(2);
    c
}

fn spender(multiplier: u32) -> Spender {
    Spender { owner: key(11), multiplier_tier: MultiplierTier::Base, multiplier, points_earned: 0 }
}

fn contribution() -> Contribution {
    Contribution { contributor: Pubkey::default(), campaign: Pubkey::default(), sol_amount: 0, token_amount: 0 }
}

#[test]
fn create_campaign_fills_campaign_and_registers_it() {
    let mut ctx = CreateCampaign {
        factory: factory(),
        factory_key: key(2),
        campaign: fresh_campaign(),
        campaign_key: key(3),
        campaign_bump: 254,
        creator: key(10),
    };
    let r = process_create_campaign(&mut ctx, 50, 100, 200, "ipfs://x".to_string(), vec![key(30), key(31)]);
    assert_eq!(
        r,
        Ok(CampaignCreation { event: ChainFundMeCreated { creator: key(10), campaign: key(3) }, campaign_id: 0 })
    );
    assert_eq!(ctx.campaign.owner, key(10));
    assert_eq!(ctx.campaign.start_time, 100);
    assert_eq!(ctx.campaign.end_time, 200);
    assert_eq!(ctx.campaign.metadata_uri, "ipfs://x");
    assert_eq!(ctx.campaign.stablecoin_mint, key(90));
    assert_eq!(ctx.campaign.other_acceptable_tokens, vec![key(30), key(31)]);
    assert_eq!(ctx.campaign.factory, key(2));
    assert_eq!(ctx.campaign.bump, 254);
    assert_eq!(ctx.factory, factory());
    let mut counted = CreateCampaign {
        factory: factory(),
        factory_key: key(2),
        campaign: fresh_campaign(),
        campaign_key: key(4),
        campaign_bump: 1,
        creator: key(10),
    };
    counted.factory.deployed_campaigns_count = 6;
    assert_eq!(process_create_campaign(&mut counted, 50, 100, 200, String::new(), vec![]).unwrap().campaign_id, 6);
}

#[test]
fn create_campaign_overwrites_the_whole_account() {
    let mut dirty = running_campaign();
    dirty.is_withdraw_approved = true;
    dirty.is_withdrawal_points_minted = true;
    dirty.withdrawal_approval_revoked = true;
    dirty.funding_approved = true;
    dirty.funding_disapproved = true;
    dirty.is_paused = true;
    dirty.ended = true;
    dirty.funders_count = 3;
    dirty.funders.push(Funder { funder_address: key(1), token_mint: key(2), amount: 3 });
    let mut ctx = CreateCampaign {
        factory: factory(),
        factory_key: key(2),
        campaign: dirty,
        campaign_key: key(3),
        campaign_bump: 7,
        creator: key(10),
    };
    process_create_campaign(&mut ctx, 50, 100, 200, "u".to_string(), vec![]).unwrap();
    let mut expected = fresh_campaign();
    expected.owner = key(10);
    expected.start_time = 100;
    expected.end_time = 200;
    expected.metadata_uri = "u".to_string();
    expected.stablecoin_mint = key(90);
    expected.factory = key(2);
    expected.bump = 7;
    assert_eq!(ctx.campaign, expected);
}

#[test]
fn create_campaign_refusals() {
    let mk = || CreateCampaign {
        factory: factory(),
        factory_key: key(2),
        campaign: fresh_campaign(),
        campaign_key: key(3),
        campaign_bump: 1,
        creator: key(10),
    };
    let mut ctx = mk();
    assert_eq!(process_create_campaign(&mut ctx, 50, 200, 200, String::new(), vec![]), Err(CrowdfundingError::InvalidDates));
    assert_eq!(process_create_campaign(&mut ctx, 100, 100, 200, String::new(), vec![]), Err(CrowdfundingError::InvalidDates));
    let six = vec![key(1), key(2), key(3), key(4), key(5), key(6)];
    assert_eq!(process_create_campaign(&mut ctx, 50, 100, 200, String::new(), six), Err(CrowdfundingError::TooManyTokens));
    assert_eq!(ctx.factory, factory());
    assert_eq!(ctx.campaign, fresh_campaign());
    let mut paused = mk();
    paused.factory.is_paused = true;
    assert_eq!(process_create_campaign(&mut paused, 50, 100, 200, String::new(), vec![]), Err(CrowdfundingError::FactoryPaused));
    let five = vec![key(1), key(2), key(3), key(4), key(5)];
    let mut ok = mk();
    assert!(process_create_campaign(&mut ok, 50, 100, 200, String::new(), five).is_ok());
}

#[test]
fn new_campaign_refuses_contribution_at_creation_time() {
    let mut ctx = CreateCampaign {
        factory: factory(),
        factory_key: key(2),
        campaign: fresh_campaign(),
        campaign_key: key(3),
        campaign_bump: 1,
        creator: key(10),
    };
    process_create_campaign(&mut ctx, 50, 100, 200, String::new(), vec![]).unwrap();
    assert_eq!(check_contribution(&ctx.campaign, &ctx.factory, 50, 10), Err(CrowdfundingError::FundingNotStarted));
}

#[test]
fn platform_fee_values() {
    assert_eq!(platform_fee(1000, 5), 50);
    assert_eq!(platform_fee(999, 5), 49);
    assert_eq!(platform_fee(10, 0), 0);
    assert_eq!(platform_fee(7, 100), 7);
    assert_eq!(platform_fee(u64::MAX, 20), u64::MAX / 5);
    // 255 percent of the largest amount is narrowed to 64 bits
    let wide = (u64::MAX as u128) * 255 / 100;
    assert_eq!(platform_fee(u64::MAX, 255), wide as u64);
}

#[test]
fn contribute_sol_records_funder_fee_and_points() {
    let mut ctx = ContributeSol {
        campaign: running_campaign(),
        campaign_key: key(3),
        contribution: contribution(),
        contributor: key(11),
        factory: factory(),
        spender: spender(2),
    };
    let r = process_contribute_sol(&mut ctx, 150, 1000).unwrap();
    assert_eq!(
        r,
        ContributionReceipt {
            payment: Payment::Sol { amount: 1000, fee: 50 },
            event: Deposited { funder: key(11), token: Pubkey::default(), amount: 1000 },
        }
    );
    assert_eq!(ctx.campaign.funders_count, 1);
    assert_eq!(ctx.campaign.funders, vec![Funder { funder_address: key(11), token_mint: Pubkey::default(), amount: 1000 }]);
    assert_eq!(ctx.contribution, Contribution { contributor: key(11), campaign: key(3), sol_amount: 1000, token_amount: 0 });
    assert_eq!(ctx.spender.points_earned, 2000);
    process_contribute_sol(&mut ctx, 199, 500).unwrap();
    assert_eq!(ctx.campaign.funders_count, 2);
    assert_eq!(ctx.contribution.sol_amount, 1500);
    assert_eq!(ctx.spender.points_earned, 3000);
}

#[test]
fn contribute_token_pays_net_and_fee() {
    let mut ctx = ContributeToken {
        campaign: running_campaign(),
        campaign_key: key(3),
        contribution: contribution(),
        contributor: key(11),
        factory: factory(),
        campaign_token_mint: key(30),
        spender: spender(1),
    };
    let r = process_contribute_token(&mut ctx, 100, 200).unwrap();
    assert_eq!(r.payment, Payment::Token { net_amount: 190, fee: 10 });
    assert_eq!(r.event, Deposited { funder: key(11), token: key(30), amount: 200 });
    assert_eq!(ctx.contribution.token_amount, 200);
    assert_eq!(ctx.contribution.sol_amount, 0);
    assert_eq!(ctx.campaign.funders[0].token_mint, key(30));
    assert_eq!(ctx.spender.points_earned, 200);
}

#[test]
fn contribute_in_either_currency() {
    let mk = || Contribute {
        campaign: running_campaign(),
        campaign_key: key(3),
        contribution: contribution(),
        contributor: key(11),
        factory: factory(),
        campaign_token_mint: key(30),
        spender: spender(3),
    };
    let mut sol = mk();
    let r = process_contribute(&mut sol, 120, 100, false).unwrap();
    assert_eq!(r.payment, Payment::Sol { amount: 100, fee: 5 });
    assert_eq!(r.event.token, Pubkey::default());
    assert_eq!(sol.contribution.sol_amount, 100);
    assert_eq!(sol.spender.points_earned, 300);
    let mut token = mk();
    let r = process_contribute(&mut token, 120, 100, true).unwrap();
    assert_eq!(r.payment, Payment::Token { net_amount: 95, fee: 5 });
    assert_eq!(r.event.token, key(30));
    assert_eq!(token.contribution.token_amount, 100);
}

#[test]
fn contribution_refusals_leave_accounts_unchanged() {
    let mk = |c: Campaign, f: Factory| ContributeSol {
        campaign: c,
        campaign_key: key(3),
        contribution: contribution(),
        contributor: key(11),
        factory: f,
        spender: spender(1),
    };
    let mut paused = running_campaign();
    paused.is_paused = true;
    let mut ctx = mk(paused, factory());
    assert_eq!(process_contribute_sol(&mut ctx, 150, 10), Err(CrowdfundingError::CampaignPaused));
    assert!(ctx.campaign.funders.is_empty());
    let mut ended = running_campaign();
    ended.ended = true;
    assert_eq!(process_contribute_sol(&mut mk(ended, factory()), 150, 10), Err(CrowdfundingError::FundingPeriodOver));
    assert_eq!(process_contribute_sol(&mut mk(running_campaign(), factory()), 99, 10), Err(CrowdfundingError::FundingNotStarted));
    assert_eq!(process_contribute_sol(&mut mk(running_campaign(), factory()), 200, 10), Err(CrowdfundingError::FundingPeriodOver));
    assert_eq!(process_contribute_sol(&mut mk(running_campaign(), factory()), 150, 0), Err(CrowdfundingError::InvalidAmount));
    let mut pf = factory();
    pf.is_paused = true;
    assert_eq!(process_contribute_sol(&mut mk(running_campaign(), pf), 150, 10), Err(CrowdfundingError::FactoryPaused));
    let mut limited = factory();
    limited.limits_enabled = true;
    assert_eq!(process_contribute_sol(&mut mk(running_campaign(), limited.clone()), 150, 10), Err(CrowdfundingError::FundingNotApproved));
    let mut approved_and_disapproved = running_campaign();
    approved_and_disapproved.funding_approved = true;
    approved_and_disapproved.funding_disapproved = true;
    assert_eq!(process_contribute_sol(&mut mk(approved_and_disapproved, limited.clone()), 150, 10), Err(CrowdfundingError::FundingDisapproved));
    let mut approved = running_campaign();
    approved.funding_approved = true;
    assert!(process_contribute_sol(&mut mk(approved, limited), 150, 10).is_ok());
}

#[test]
fn approve_withdraw_once_by_allowed_moderator() {
    let mut ctx = ApproveWithdraw { campaign: running_campaign(), moderator: key(20), factory: factory() };
    assert_eq!(approve_withdraw(&mut ctx, 150), Err(CrowdfundingError::CampaignStillActive));
    assert_eq!(approve_withdraw(&mut ctx, 50), Err(CrowdfundingError::FundingNotStarted));
    assert_eq!(approve_withdraw(&mut ctx, 200), Ok(WithdrawApproved {}));
    assert!(ctx.campaign.is_withdraw_approved);
    assert!(ctx.campaign.ended);
    assert_eq!(approve_withdraw(&mut ctx, 300), Err(CrowdfundingError::AlreadyApproved));
    assert_eq!(check_contribution(&ctx.campaign, &ctx.factory, 150, 10), Err(CrowdfundingError::FundingPeriodOver));
}

#[test]
fn approve_withdraw_needs_allowed_moderator() {
    let mut ctx = ApproveWithdraw { campaign: running_campaign(), moderator: key(21), factory: factory() };
    assert_eq!(approve_withdraw(&mut ctx, 300), Err(CrowdfundingError::NotModerator));
    ctx.moderator = key(99);
    assert_eq!(approve_withdraw(&mut ctx, 300), Err(CrowdfundingError::NotModerator));
    assert!(!ctx.campaign.is_withdraw_approved);
}

#[test]
fn approve_withdraw_of_ended_campaign_before_end_time() {
    let mut c = running_campaign();
    c.ended = true;
    let mut ctx = ApproveWithdraw { campaign: c, moderator: key(20), factory: factory() };
    assert_eq!(approve_withdraw(&mut ctx, 150), Ok(WithdrawApproved {}));
}

#[test]
fn pause_campaign_by_any_listed_moderator() {
    let mut ctx = PauseCampaign { campaign: running_campaign(), factory: factory(), moderator: key(21) };
    assert_eq!(process_pause_campaign(&mut ctx, true, 0), Ok(()));
    assert!(ctx.campaign.is_paused);
    assert_eq!(check_contribution(&ctx.campaign, &ctx.factory, 150, 10), Err(CrowdfundingError::CampaignPaused));
    assert_eq!(chain_fund_me::chain_fund_me::pause_campaign(&mut ctx, false, 7), Ok(()));
    assert_eq!(ctx.campaign, running_campaign());
    ctx.moderator = key(99);
    assert_eq!(process_pause_campaign(&mut ctx, true, 0), Err(CrowdfundingError::NotModerator));
    assert!(!ctx.campaign.is_paused);
}

#[test]
fn end_campaign_by_owner_once() {
    let mut ctx = EndCampaign { campaign: running_campaign(), owner: key(99) };
    assert_eq!(end_campaign(&mut ctx, 150), Err(CrowdfundingError::NotCampaignOwner));
    ctx.owner = key(10);
    assert_eq!(end_campaign(&mut ctx, 99), Err(CrowdfundingError::FundingNotStarted));
    assert_eq!(end_campaign(&mut ctx, 201), Err(CrowdfundingError::FundingPeriodOver));
    assert_eq!(end_campaign(&mut ctx, 150), Ok(()));
    assert!(ctx.campaign.ended);
    assert_eq!(ctx.campaign.end_time, 150);
    assert_eq!(end_campaign(&mut ctx, 150), Err(CrowdfundingError::FundingPeriodOver));
}

#[test]
fn update_campaign_time_rules() {
    let mut ctx = UpdateCampaignTime { campaign: running_campaign(), owner: key(99) };
    assert_eq!(process_update_campaign_time(&mut ctx, 50, Some(60), None), Err(CrowdfundingError::NotCampaignOwner));
    ctx.owner = key(10);
    assert_eq!(process_update_campaign_time(&mut ctx, 150, Some(160), Some(300)), Err(CrowdfundingError::CampaignStillActive));
    assert_eq!(ctx.campaign.end_time, 200);
    assert_eq!(process_update_campaign_time(&mut ctx, 150, None, Some(300)), Ok(()));
    assert_eq!(ctx.campaign.end_time, 300);
    assert_eq!(process_update_campaign_time(&mut ctx, 50, Some(60), Some(70)), Ok(()));
    assert_eq!(ctx.campaign.start_time, 60);
    assert_eq!(ctx.campaign.end_time, 70);
    assert_eq!(chain_fund_me::chain_fund_me::update_campaign_time(&mut ctx, 50, None, None), Ok(()));
    ctx.campaign.ended = true;
    assert_eq!(process_update_campaign_time(&mut ctx, 80, Some(90), None), Err(CrowdfundingError::FundingPeriodOver));
    assert_eq!(process_update_campaign_time(&mut ctx, 80, None, Some(90)), Err(CrowdfundingError::FundingPeriodOver));
    assert_eq!(process_update_campaign_time(&mut ctx, 80, None, None), Ok(()));
    assert_eq!(ctx.campaign.start_time, 60);
}
