use chain_fund_me::error::CrowdfundingError;
use chain_fund_me::instructions::add_moderator::{add_moderator, AddModerator};
use chain_fund_me::instructions::initialize_factory::{process_initialize_factory, InitializeFactory};
use chain_fund_me::instructions::initialize_points::{initialize_points, InitializePoints};
use chain_fund_me::instructions::remove_moderator::{remove_moderator, RemoveModerator};
use chain_fund_me::instructions::set_acceptable_tokens::{set_acceptable_token, SetAcceptableToken};
use chain_fund_me::instructions::update_platform_fee::{update_platform_fee, UpdatePlatformFee};
use chain_fund_me::pubkey::Pubkey;
use chain_fund_me::state::{AcceptedToken, Factory, Moderators, PointsConfig};

fn key(n: u8) -> Pubkey {
    Pubkey::new_from_array([n; 32])
}

fn factory(owner: Pubkey) -> Factory {
    Factory {
        factory_id: 1,
        owner,
        platform_fee: 5,
        stablecoin_mint: key(90),
        fee_wallet: key(91),
        deployed_campaigns_count: 0,
        limits_enabled: false,
        is_paused: false,
        moderators: Vec::new(),
        other_accepted_tokens: Vec::new(),
    }
}

#[test]
fn factory_space_is_fixed() {
    assert_eq!(Factory::space(), 461);
}

#[test]
fn default_key_is_all_zero() {
    assert_eq!(Pubkey::default().to_bytes(), [0u8; 32]);
    assert!(key(3).key_eq(&key(3)));
    assert!(!key(3).key_eq(&key(4)));
}

#[test]
fn initialize_factory_sets_fields_and_keeps_moderators() {
    let mut f = factory(key(9));
    f.moderators.push(Moderators { moderator: key(5), allowed: true });
    f.deployed_campaigns_count = 3;
    f.limits_enabled = true;
    f.is_paused = true;
    let mut ctx = InitializeFactory { factory: f, owner: key(1) };
    let tokens = vec![AcceptedToken { mint: key(40), allowed: false }];
    assert_eq!(process_initialize_factory(&mut ctx, 7, 12, key(41), key(42), tokens), Ok(()));
    assert_eq!(ctx.factory.factory_id, 7);
    assert_eq!(ctx.factory.owner, key(1));
    assert_eq!(ctx.factory.platform_fee, 12);
    assert_eq!(ctx.factory.stablecoin_mint, key(41));
    assert_eq!(ctx.factory.fee_wallet, key(42));
    assert_eq!(ctx.factory.deployed_campaigns_count, 0);
    assert!(!ctx.factory.limits_enabled);
    assert!(!ctx.factory.is_paused);
    assert_eq!(ctx.factory.other_accepted_tokens, vec![AcceptedToken { mint: key(40), allowed: false }]);
    assert_eq!(ctx.factory.moderators, vec![Moderators { moderator: key(5), allowed: true }]);
}

#[test]
fn initialize_factory_refuses_fee_out_of_range() {
    for fee in [0u8, 21, 100, 255] {
        let mut ctx = InitializeFactory { factory: factory(key(9)), owner: key(1) };
        assert_eq!(
            process_initialize_factory(&mut ctx, 7, fee, key(41), key(42), vec![]),
            Err(CrowdfundingError::InvalidPlatformFee)
        );
        assert_eq!(ctx.factory, factory(key(9)));
    }
    for fee in [1u8, 20] {
        let mut ctx = InitializeFactory { factory: factory(key(9)), owner: key(1) };
        assert_eq!(process_initialize_factory(&mut ctx, 7, fee, key(41), key(42), vec![]), Ok(()));
        assert_eq!(ctx.factory.platform_fee, fee);
    }
}

#[test]
fn add_moderator_by_owner_is_idempotent() {
    let mut ctx = AddModerator { factory: factory(key(1)), owner: key(1) };
    assert_eq!(add_moderator(&mut ctx, key(5)), Ok(()));
    assert_eq!(add_moderator(&mut ctx, key(5)), Ok(()));
    assert_eq!(ctx.factory.moderators, vec![Moderators { moderator: key(5), allowed: true }]);
    assert_eq!(add_moderator(&mut ctx, key(6)), Ok(()));
    assert_eq!(ctx.factory.moderators.len(), 2);
}

#[test]
fn add_moderator_by_stranger_is_refused() {
    let mut ctx = AddModerator { factory: factory(key(1)), owner: key(2) };
    assert_eq!(add_moderator(&mut ctx, key(5)), Err(CrowdfundingError::NotFactoryOwner));
    assert!(ctx.factory.moderators.is_empty());
}

#[test]
fn remove_moderator_drops_every_listing() {
    let mut f = factory(key(1));
    f.moderators.push(Moderators { moderator: key(5), allowed: true });
    f.moderators.push(Moderators { moderator: key(6), allowed: false });
    f.moderators.push(Moderators { moderator: key(5), allowed: false });
    let mut ctx = RemoveModerator { factory: f, owner: key(1) };
    assert_eq!(remove_moderator(&mut ctx, key(5)), Ok(()));
    assert_eq!(ctx.factory.moderators, vec![Moderators { moderator: key(6), allowed: false }]);
    assert_eq!(remove_moderator(&mut ctx, key(7)), Ok(()));
    assert_eq!(ctx.factory.moderators.len(), 1);
}

#[test]
fn remove_moderator_by_stranger_is_refused() {
    let mut f = factory(key(1));
    f.moderators.push(Moderators { moderator: key(5), allowed: true });
    let mut ctx = RemoveModerator { factory: f, owner: key(3) };
    assert_eq!(remove_moderator(&mut ctx, key(5)), Err(CrowdfundingError::NotFactoryOwner));
    assert_eq!(ctx.factory.moderators.len(), 1);
}

#[test]
fn set_acceptable_token_adds_once_and_removes() {
    let mut ctx = SetAcceptableToken { factory: factory(key(1)), owner: key(1) };
    assert_eq!(set_acceptable_token(&mut ctx, key(30), true), Ok(()));
    assert_eq!(set_acceptable_token(&mut ctx, key(30), true), Ok(()));
    assert_eq!(set_acceptable_token(&mut ctx, key(31), true), Ok(()));
    assert_eq!(
        ctx.factory.other_accepted_tokens,
        vec![AcceptedToken { mint: key(30), allowed: true }, AcceptedToken { mint: key(31), allowed: true }]
    );
    assert_eq!(set_acceptable_token(&mut ctx, key(30), false), Ok(()));
    assert_eq!(ctx.factory.other_accepted_tokens, vec![AcceptedToken { mint: key(31), allowed: true }]);
}

#[test]
fn set_acceptable_token_by_stranger_is_refused() {
    let mut ctx = SetAcceptableToken { factory: factory(key(1)), owner: key(2) };
    assert_eq!(set_acceptable_token(&mut ctx, key(30), true), Err(CrowdfundingError::NotFactoryOwner));
    assert!(ctx.factory.other_accepted_tokens.is_empty());
}

#[test]
fn update_platform_fee_bounds() {
    let mut ctx = UpdatePlatformFee { factory: factory(key(1)), owner: key(1) };
    assert_eq!(update_platform_fee(&mut ctx, 0), Err(CrowdfundingError::InvalidPlatformFee));
    assert_eq!(update_platform_fee(&mut ctx, 21), Err(CrowdfundingError::InvalidPlatformFee));
    assert_eq!(ctx.factory.platform_fee, 5);
    assert_eq!(update_platform_fee(&mut ctx, 1), Ok(()));
    assert_eq!(ctx.factory.platform_fee, 1);
    assert_eq!(update_platform_fee(&mut ctx, 20), Ok(()));
    assert_eq!(ctx.factory.platform_fee, 20);
}

#[test]
fn update_platform_fee_checks_fee_before_owner() {
    let mut ctx = UpdatePlatformFee { factory: factory(key(1)), owner: key(2) };
    assert_eq!(update_platform_fee(&mut ctx, 50), Err(CrowdfundingError::InvalidPlatformFee));
    assert_eq!(update_platform_fee(&mut ctx, 10), Err(CrowdfundingError::NotFactoryOwner));
    assert_eq!(ctx.factory.platform_fee, 5);
}

#[test]
fn initialize_points_sets_config() {
    let mut ctx = InitializePoints {
        points_config: PointsConfig { owner: key(0), factory: key(0), base_points: 0, paused: true },
        factory_key: key(8),
        owner: key(1),
    };
    assert_eq!(initialize_points(&mut ctx, 250), Ok(()));
    assert_eq!(
        ctx.points_config,
        PointsConfig { owner: key(1), factory: key(8), base_points: 250, paused: false }
    );
}
