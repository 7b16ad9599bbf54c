use chain_fund_me::error::{CrowdfundingError, InstructionError};
use chain_fund_me::events;
use chain_fund_me::instructions::purchase_multiplier_tier::{purchase_multiplier, PurchaseMultiplier, PurchaseReceipt};
use chain_fund_me::instructions::withdraw::{process_withdraw, TokenTransfer, Withdraw, WithdrawPlan};
use chain_fund_me::pubkey::Pubkey;
use chain_fund_me::state::{Campaign, Factory, MultiplierInfo, MultiplierTier, Points, Spender};

fn key(n: u8) -> Pubkey {
    Pubkey::new_from_array([n; 32])
}

fn points() -> Points {
    Points {
        owner: key(1),
        is_paused: false,
        multiplier_tiers: vec![
            (MultiplierTier::Bronze, MultiplierInfo { price: 1000, multiplier: 2 }),
            (MultiplierTier::Silver, MultiplierInfo { price: 5000, multiplier: 3 }),
            (MultiplierTier::Bronze, MultiplierInfo { price: 1, multiplier: 9 }),
        ],
    }
}

fn spender() -> Spender {
    Spender { owner: key(11), multiplier_tier: MultiplierTier::Base, multiplier: 1, points_earned: 10 }
}

#[test]
fn purchase_multiplier_uses_first_listing_and_refunds_excess() {
    let mut ctx = PurchaseMultiplier { points: points(), spender: spender(), payer: key(11) };
    let r = purchase_multiplier(&mut ctx, MultiplierTier::Bronze, 1500);
    assert_eq!(
        r,
        Ok(PurchaseReceipt {
            refund: 500,
            price: 1000,
            event: events::PurchaseMultiplier {
                spender: key(11),
                tier: MultiplierTier::Bronze,
                price_paid: 1500,
                multiplier: 2,
            },
        })
    );
    assert_eq!(
        ctx.spender,
        Spender { owner: key(11), multiplier_tier: MultiplierTier::Bronze, multiplier: 2, points_earned: 1510 }
    );
    assert_eq!(
        purchase_multiplier(&mut ctx, MultiplierTier::Bronze, 1500),
        Err(CrowdfundingError::MultiplierAlreadyOwned)
    );
}

#[test]
fn purchase_multiplier_exact_price_has_no_refund() {
    let mut ctx = PurchaseMultiplier { points: points(), spender: spender(), payer: key(11) };
    let r = purchase_multiplier(&mut ctx, MultiplierTier::Silver, 5000).unwrap();
    assert_eq!(r.refund, 0);
    assert_eq!(r.price, 5000);
    assert_eq!(ctx.spender.multiplier, 3);
}

#[test]
fn purchase_multiplier_refusals() {
    let mut ctx = PurchaseMultiplier { points: points(), spender: spender(), payer: key(11) };
    assert_eq!(purchase_multiplier(&mut ctx, MultiplierTier::Gold, 10_000), Err(CrowdfundingError::InvalidTier));
    assert_eq!(purchase_multiplier(&mut ctx, MultiplierTier::Silver, 4999), Err(CrowdfundingError::InsufficientSolForTier));
    assert_eq!(purchase_multiplier(&mut ctx, MultiplierTier::Base, 10_000), Err(CrowdfundingError::MultiplierAlreadyOwned));
    assert_eq!(ctx.spender, spender());
    ctx.points.is_paused = true;
    assert_eq!(purchase_multiplier(&mut ctx, MultiplierTier::Silver, 5000), Err(CrowdfundingError::PointsPaused));
}

/// An initialized SPL token account: owner and amount at their offsets.
fn token_account(owner: Pubkey, amount: u64) -> Vec<u8> {
    let mut data = vec![0u8; 165];
    data[0..32].copy_from_slice(&[77u8; 32]);
    data[32..64].copy_from_slice(&owner.to_bytes());
    data[64..72].copy_from_slice(&amount.to_le_bytes());
    data[108] = 1;
    data
}

fn campaign() -> Campaign {
    Campaign {
        owner: key(10),
        start_time: 100,
        end_time: 200,
        metadata_uri: String::new(),
        stablecoin_mint: Pubkey::default(),
        other_acceptable_tokens: Vec::new(),
        factory: key(2),
        is_paused: false,
        is_withdraw_approved: false,
        is_withdrawal_points_minted: false,
        withdrawal_approval_revoked: false,
        funding_approved: false,
        funding_disapproved: false,
        ended: false,
        funders_count: 0,
        funders: Vec::new(),
        bump: 0,
    }
}

fn factory() -> Factory {
    Factory {
        factory_id: 1,
        owner: key(1),
        platform_fee: 5,
        stablecoin_mint: key(90),
        fee_wallet: key(91),
        deployed_campaigns_count: 0,
        limits_enabled: false,
        is_paused: false,
        moderators: Vec::new(),
        other_accepted_tokens: Vec::new(),
    }
}

fn withdraw_ctx() -> Withdraw {
    Withdraw { campaign: campaign(), campaign_key: key(3), factory: factory(), owner: key(10), spender: spender() }
}

#[test]
fn withdraw_lamports_above_rent_and_points_once() {
    let mut ctx = withdraw_ctx();
    let plan = process_withdraw(&mut ctx, 5000, 1200, &vec![], 100).unwrap();
    assert_eq!(plan, WithdrawPlan { lamports: 3800, token_transfers: vec![] });
    assert!(ctx.campaign.is_withdrawal_points_minted);
    assert_eq!(ctx.spender.points_earned, 110);
    let again = process_withdraw(&mut ctx, 1000, 1200, &vec![], 100).unwrap();
    assert_eq!(again.lamports, 0);
    assert_eq!(ctx.spender.points_earned, 110);
}

#[test]
fn withdraw_reads_token_accounts() {
    let mut ctx = withdraw_ctx();
    let accounts = vec![
        token_account(key(3), 500),
        token_account(key(10), 7),
        token_account(key(3), 0),
        token_account(key(10), 0),
        token_account(key(3), u64::MAX),
        token_account(key(10), 1),
    ];
    let plan = chain_fund_me::chain_fund_me::withdraw(&mut ctx, 1200, 1200, &accounts, 5).unwrap();
    assert_eq!(
        plan,
        WithdrawPlan {
            lamports: 0,
            token_transfers: vec![
                TokenTransfer { pair: 0, amount: 500 },
                TokenTransfer { pair: 2, amount: u64::MAX },
            ],
        }
    );
    assert_eq!(ctx.spender.points_earned, 15);
}

#[test]
fn withdraw_frozen_token_account_is_read() {
    let mut ctx = withdraw_ctx();
    let mut frozen = token_account(key(3), 42);
    frozen[108] = 2;
    let plan = process_withdraw(&mut ctx, 0, 0, &vec![frozen, token_account(key(10), 0)], 0).unwrap();
    assert_eq!(plan.token_transfers, vec![TokenTransfer { pair: 0, amount: 42 }]);
}

#[test]
fn withdraw_by_someone_else_is_refused() {
    let mut ctx = withdraw_ctx();
    ctx.owner = key(12);
    assert_eq!(process_withdraw(&mut ctx, 5000, 0, &vec![], 1), Err(InstructionError::ConstraintHasOne));
    assert!(!ctx.campaign.is_withdrawal_points_minted);
    assert_eq!(ctx.spender, spender());
    ctx.campaign.is_paused = true;
    assert_eq!(process_withdraw(&mut ctx, 5000, 0, &vec![], 1), Err(InstructionError::ConstraintHasOne));
}

#[test]
fn withdraw_refusals_leave_accounts_unchanged() {
    let mut ctx = withdraw_ctx();
    ctx.campaign.is_paused = true;
    assert_eq!(
        process_withdraw(&mut ctx, 5000, 0, &vec![], 1),
        Err(InstructionError::Program(CrowdfundingError::CampaignPaused))
    );
    let mut ctx = withdraw_ctx();
    ctx.factory.limits_enabled = true;
    assert_eq!(
        process_withdraw(&mut ctx, 5000, 0, &vec![], 1),
        Err(InstructionError::Program(CrowdfundingError::WithdrawalNotApproved))
    );
    ctx.campaign.is_withdraw_approved = true;
    ctx.campaign.withdrawal_approval_revoked = true;
    assert_eq!(
        process_withdraw(&mut ctx, 5000, 0, &vec![], 1),
        Err(InstructionError::Program(CrowdfundingError::WithdrawalNotApproved))
    );
    ctx.campaign.withdrawal_approval_revoked = false;
    assert!(process_withdraw(&mut ctx, 5000, 0, &vec![], 1).is_ok());

    let mut ctx = withdraw_ctx();
    assert_eq!(
        process_withdraw(&mut ctx, 5000, 0, &vec![token_account(key(3), 1)], 1),
        Err(InstructionError::Program(CrowdfundingError::InvalidAccounts))
    );
    assert_eq!(
        process_withdraw(&mut ctx, 5000, 0, &vec![token_account(key(4), 1), token_account(key(10), 1)], 1),
        Err(InstructionError::Program(CrowdfundingError::InvalidAccounts))
    );
    assert_eq!(
        process_withdraw(&mut ctx, 5000, 0, &vec![token_account(key(3), 1), token_account(key(11), 1)], 1),
        Err(InstructionError::Program(CrowdfundingError::InvalidAccounts))
    );
    assert!(!ctx.campaign.is_withdrawal_points_minted);
    assert_eq!(ctx.spender, spender());
}

#[test]
fn withdraw_rejects_malformed_token_accounts() {
    let mut ctx = withdraw_ctx();
    let good_owner = token_account(key(10), 0);
    let mut short = token_account(key(3), 5);
    short.pop();
    assert_eq!(
        process_withdraw(&mut ctx, 0, 0, &vec![short, good_owner.clone()], 1),
        Err(InstructionError::InvalidTokenAccountData)
    );
    let mut uninitialized = token_account(key(3), 5);
    uninitialized[108] = 0;
    assert_eq!(
        process_withdraw(&mut ctx, 0, 0, &vec![uninitialized.clone(), good_owner.clone()], 1),
        Err(InstructionError::UninitializedTokenAccount)
    );
    assert_eq!(
        process_withdraw(&mut ctx, 0, 0, &vec![token_account(key(3), 5), uninitialized.clone()], 1),
        Err(InstructionError::UninitializedTokenAccount)
    );
    let mut uninitialized_bad_tag = uninitialized.clone();
    uninitialized_bad_tag[109] = 7;
    assert_eq!(
        process_withdraw(&mut ctx, 0, 0, &vec![uninitialized_bad_tag, good_owner.clone()], 1),
        Err(InstructionError::InvalidTokenAccountData)
    );
    let mut bad_state = token_account(key(3), 5);
    bad_state[108] = 3;
    assert_eq!(
        process_withdraw(&mut ctx, 0, 0, &vec![bad_state, good_owner.clone()], 1),
        Err(InstructionError::InvalidTokenAccountData)
    );
    let mut bad_tag = token_account(key(3), 5);
    bad_tag[72] = 2;
    assert_eq!(
        process_withdraw(&mut ctx, 0, 0, &vec![bad_tag, good_owner.clone()], 1),
        Err(InstructionError::InvalidTokenAccountData)
    );
    let mut delegated = token_account(key(3), 5);
    delegated[72] = 1;
    assert!(process_withdraw(&mut ctx, 0, 0, &vec![delegated, good_owner.clone()], 1).is_ok());
    // a malformed pair after a refused one: the first refusal is reported
    let mut ctx = withdraw_ctx();
    let mut bad_owner_side = token_account(key(10), 0);
    bad_owner_side[129] = 5;
    assert_eq!(
        process_withdraw(
            &mut ctx,
            0,
            0,
            &vec![token_account(key(4), 1), token_account(key(10), 1), token_account(key(3), 1), bad_owner_side],
            1
        ),
        Err(InstructionError::Program(CrowdfundingError::InvalidAccounts))
    );
}
