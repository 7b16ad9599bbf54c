use vstd::prelude::*;

use crate::error::{CrowdfundingError, InstructionError};
use crate::pubkey::{lemma_key_bytes_eq, Pubkey};
use crate::state::{Campaign, CampaignView, Factory, FactoryView, Spender};
use crate::token_account::{
    spl_token_account_layout, token_account_amount, token_account_owner, token_data_error,
    token_data_refusal, unpack_token_account,
};

verus! {

/// The accounts of a withdrawal by the campaign's owner. That `campaign_key`
/// is the program-derived address of the campaign's owner and start time is
/// checked by the runtime's account validation, not here.
pub struct Withdraw {
    pub campaign: Campaign,
    pub campaign_key: Pubkey,
    pub factory: Factory,
    pub owner: Pubkey,
    pub spender: Spender,
}

/// Tokens to move from the campaign's token account at position `2 * pair` of
/// the extra accounts to the owner's token account at position `2 * pair + 1`.
#[derive(Clone, Copy, Debug, PartialEq, Eq)]
pub struct TokenTransfer {
    pub pair: usize,
    pub amount: u64,
}

/// What an accepted withdrawal asks of the runtime.
#[derive(Clone, Debug, PartialEq, Eq)]
pub struct WithdrawPlan {
    /// Lamports to move from the campaign to its owner.
    pub lamports: u64,
    pub token_transfers: Vec<TokenTransfer>,
}

/// Whether `owner` may withdraw from the campaign, and if not, why: only the
/// campaign's recorded owner may, while it is not paused and, when the factory
/// enforces limits, while the withdrawal is approved and not revoked.
pub open spec fn withdraw_admission(campaign: CampaignView, factory: FactoryView, owner: Pubkey) -> Result<
    (),
    InstructionError,
> {
    if campaign.owner != owner {
        Err(InstructionError::ConstraintHasOne)
    } else if campaign.is_paused {
        Err(InstructionError::Program(CrowdfundingError::CampaignPaused))
    } else if factory.limits_enabled && !campaign.is_withdraw_approved {
        Err(InstructionError::Program(CrowdfundingError::WithdrawalNotApproved))
    } else if factory.limits_enabled && campaign.withdrawal_approval_revoked {
        Err(InstructionError::Program(CrowdfundingError::WithdrawalNotApproved))
    } else {
        Ok(())
    }
}

/// The lamports above the rent-exempt minimum.
pub open spec fn withdrawable_lamports(balance: u64, rent_minimum: u64) -> u64 {
    if balance > rent_minimum {
        (balance - rent_minimum) as u64
    } else {
        0
    }
}

/// The data of each extra account.
pub open spec fn account_datas(accounts: Seq<Vec<u8>>) -> Seq<Seq<u8>> {
    accounts.map_values(|a: Vec<u8>| a@)
}

/// Why the token-account pair at position `i` is refused, if it is.
pub open spec fn pair_refusal(
    datas: Seq<Seq<u8>>,
    i: int,
    campaign_key: Pubkey,
    owner: Pubkey,
) -> Option<InstructionError> {
    let campaign_token = datas[2 * i];
    let owner_token = datas[2 * i + 1];
    if token_data_refusal(campaign_token) is Some {
        token_data_refusal(campaign_token)
    } else if token_data_refusal(owner_token) is Some {
        token_data_refusal(owner_token)
    } else if token_account_owner(campaign_token) != campaign_key.bytes@ {
        Some(InstructionError::Program(CrowdfundingError::InvalidAccounts))
    } else if token_account_owner(owner_token) != owner.bytes@ {
        Some(InstructionError::Program(CrowdfundingError::InvalidAccounts))
    } else {
        None
    }
}

/// The refusal of the first refused pair among the first `n`, if any.
pub open spec fn pairs_refusal(
    datas: Seq<Seq<u8>>,
    n: nat,
    campaign_key: Pubkey,
    owner: Pubkey,
) -> Option<InstructionError>
    decreases n,
{
    if n == 0 {
        None
    } else {
        match pairs_refusal(datas, (n - 1) as nat, campaign_key, owner) {
            Some(e) => Some(e),
            None => pair_refusal(datas, n - 1, campaign_key, owner),
        }
    }
}

/// The token transfers of the first `n` pairs: one for each pair whose
/// campaign account holds a positive amount, in order.
pub open spec fn pair_transfers(datas: Seq<Seq<u8>>, n: nat) -> Seq<TokenTransfer>
    decreases n,
{
    if n == 0 {
        Seq::empty()
    } else {
        let earlier = pair_transfers(datas, (n - 1) as nat);
        let amount = token_account_amount(datas[2 * (n - 1)]);
        if amount > 0 {
            earlier.push(TokenTransfer { pair: (n - 1) as usize, amount: amount as u64 })
        } else {
            earlier
        }
    }
}

/// The token transfers of a withdrawal over the extra accounts `datas`, or why
/// it is refused.
pub open spec fn withdraw_outcome(
    campaign: CampaignView,
    factory: FactoryView,
    campaign_key: Pubkey,
    owner: Pubkey,
    datas: Seq<Seq<u8>>,
) -> Result<Seq<TokenTransfer>, InstructionError> {
    if withdraw_admission(campaign, factory, owner) is Err {
        Err(withdraw_admission(campaign, factory, owner)->Err_0)
    } else if datas.len() % 2 != 0 {
        Err(InstructionError::Program(CrowdfundingError::InvalidAccounts))
    } else if pairs_refusal(datas, datas.len() / 2, campaign_key, owner) is Some {
        Err(pairs_refusal(datas, datas.len() / 2, campaign_key, owner)->0)
    } else {
        Ok(pair_transfers(datas, datas.len() / 2))
    }
}

/// The campaign after a withdrawal: points are marked as awarded.
pub open spec fn withdrawn_campaign(campaign: CampaignView) -> CampaignView {
    CampaignView { is_withdrawal_points_minted: true, ..campaign }
}

/// The owner's spender after a withdrawal: `base_points` more, the first time only.
pub open spec fn withdrawal_points(campaign: CampaignView, spender: Spender, base_points: u64) -> Spender {
    if campaign.is_withdrawal_points_minted {
        spender
    } else {
        Spender { points_earned: (spender.points_earned + base_points) as u64, ..spender }
    }
}

/// Whether the transfer moves the full positive balance of a campaign-owned
/// token account among `datas` into the owner-owned account beside it.
pub open spec fn transfer_pays_owner(
    datas: Seq<Seq<u8>>,
    t: TokenTransfer,
    campaign_key: Pubkey,
    owner: Pubkey,
) -> bool {
    &&& 2 * t.pair + 1 < datas.len()
    &&& token_account_owner(datas[2 * t.pair]) == campaign_key.bytes@
    &&& token_account_owner(datas[2 * t.pair + 1]) == owner.bytes@
    &&& t.amount == token_account_amount(datas[2 * t.pair])
    &&& t.amount > 0
}

/// When no pair among the first `n` is refused, each of their transfers pays
/// the owner.
pub proof fn lemma_pair_transfers_pay_owner(
    datas: Seq<Seq<u8>>,
    n: nat,
    campaign_key: Pubkey,
    owner: Pubkey,
)
    requires
        pairs_refusal(datas, n, campaign_key, owner) is None,
        2 * n <= datas.len(),
        datas.len() <= usize::MAX,
    ensures
        forall|k: int|
            0 <= k < pair_transfers(datas, n).len() ==> (#[trigger] pair_transfers(datas, n)[k]).pair < n
                && transfer_pays_owner(datas, pair_transfers(datas, n)[k], campaign_key, owner),
    decreases n,
{
    if n > 0 {
        let m = (n - 1) as nat;
        lemma_pair_transfers_pay_owner(datas, m, campaign_key, owner);
        let d = datas[2 * (m as int)].subrange(64, 72);
        assert(token_account_amount(datas[2 * (m as int)]) <= u64::MAX) by {
            assert(d[0] <= 255 && d[1] <= 255 && d[2] <= 255 && d[3] <= 255);
            assert(d[4] <= 255 && d[5] <= 255 && d[6] <= 255 && d[7] <= 255);
        }
        assert(pair_refusal(datas, m as int, campaign_key, owner) is None);
        let earlier = pair_transfers(datas, m);
        let all = pair_transfers(datas, n);
        assert forall|k: int| 0 <= k < all.len() implies (#[trigger] all[k]).pair < n
            && transfer_pays_owner(datas, all[k], campaign_key, owner) by {
            if k < earlier.len() {
                assert(all[k] == earlier[k]);
            } else {
                assert(all[k] == TokenTransfer {
                    pair: m as usize,
                    amount: token_account_amount(datas[2 * (m as int)]) as u64,
                });
            }
        }
    }
}

proof fn lemma_first_refusal_stays(
    datas: Seq<Seq<u8>>,
    m: nat,
    n: nat,
    campaign_key: Pubkey,
    owner: Pubkey,
)
    requires
        m <= n,
        pairs_refusal(datas, m, campaign_key, owner) is Some,
    ensures
        pairs_refusal(datas, n, campaign_key, owner) == pairs_refusal(datas, m, campaign_key, owner),
    decreases n - m,
{
    if m < n {
        lemma_first_refusal_stays(datas, m, (n - 1) as nat, campaign_key, owner);
    }
}

/// Withdrawal of a campaign's funds by its owner. `balance` is the campaign's
/// lamport balance, `rent_minimum` the balance it must keep, and
/// `remaining_accounts` the data of the extra accounts, taken in pairs of the
/// campaign's token account and the owner's token account. The first
/// withdrawal awards `base_points` to the owner's spender.
pub fn process_withdraw(
    ctx: &mut Withdraw,
    balance: u64,
    rent_minimum: u64,
    remaining_accounts: &Vec<Vec<u8>>,
    base_points: u64,
) -> (r: Result<WithdrawPlan, InstructionError>)
    requires
        withdraw_outcome(
            old(ctx).campaign@,
            old(ctx).factory@,
            old(ctx).campaign_key,
            old(ctx).owner,
            account_datas(remaining_accounts@),
        ) is Ok && !old(ctx).campaign.is_withdrawal_points_minted ==> old(ctx).spender.points_earned
            + base_points <= u64::MAX,
    ensures
        match r {
            Err(e) => {
                &&& withdraw_outcome(
                    old(ctx).campaign@,
                    old(ctx).factory@,
                    old(ctx).campaign_key,
                    old(ctx).owner,
                    account_datas(remaining_accounts@),
                ) == Err::<Seq<TokenTransfer>, InstructionError>(e)
                &&& *final(ctx) == *old(ctx)
            },
            Ok(plan) => {
                &&& withdraw_outcome(
                    old(ctx).campaign@,
                    old(ctx).factory@,
                    old(ctx).campaign_key,
                    old(ctx).owner,
                    account_datas(remaining_accounts@),
                ) == Ok::<Seq<TokenTransfer>, InstructionError>(plan.token_transfers@)
                &&& old(ctx).campaign.owner == old(ctx).owner
                &&& forall|k: int|
                    0 <= k < plan.token_transfers@.len() ==> transfer_pays_owner(
                        account_datas(remaining_accounts@),
                        #[trigger] plan.token_transfers@[k],
                        old(ctx).campaign_key,
                        old(ctx).owner,
                    )
                &&& plan.lamports == withdrawable_lamports(balance, rent_minimum)
                &&& final(ctx).campaign@ == withdrawn_campaign(old(ctx).campaign@)
                &&& final(ctx).spender == withdrawal_points(
                    old(ctx).campaign@,
                    old(ctx).spender,
                    base_points,
                )
                &&& final(ctx).factory == old(ctx).factory
                &&& final(ctx).campaign_key == old(ctx).campaign_key
                &&& final(ctx).owner == old(ctx).owner
            },
        },
{
    let ghost datas = account_datas(remaining_accounts@);
    proof {
        lemma_key_bytes_eq(ctx.campaign.owner, ctx.owner);
    }
    if !ctx.campaign.owner.key_eq(&ctx.owner) {
        return Err(InstructionError::ConstraintHasOne);
    }
    if ctx.campaign.is_paused {
        return Err(InstructionError::Program(CrowdfundingError::CampaignPaused));
    }
    if ctx.factory.limits_enabled {
        if !ctx.campaign.is_withdraw_approved {
            return Err(InstructionError::Program(CrowdfundingError::WithdrawalNotApproved));
        }
        if ctx.campaign.withdrawal_approval_revoked {
            return Err(InstructionError::Program(CrowdfundingError::WithdrawalNotApproved));
        }
    }
    let lamports: u64 = if balance > rent_minimum {
        balance - rent_minimum
    } else {
        0
    };
    let n = remaining_accounts.len();
    if n % 2 != 0 {
        return Err(InstructionError::Program(CrowdfundingError::InvalidAccounts));
    }
    let pairs = n / 2;
    let mut token_transfers: Vec<TokenTransfer> = Vec::new();
    let mut i: usize = 0;
    while i < pairs
        invariant
            n == remaining_accounts@.len(),
            datas == account_datas(remaining_accounts@),
            datas.len() == n,
            pairs == n / 2,
            n % 2 == 0,
            withdraw_admission(ctx.campaign@, ctx.factory@, ctx.owner) is Ok,
            i <= pairs,
            pairs_refusal(datas, i as nat, ctx.campaign_key, ctx.owner) is None,
            token_transfers@ == pair_transfers(datas, i as nat),
        decreases pairs - i,
    {
        let campaign_data = remaining_accounts[2 * i].as_slice();
        let owner_data = remaining_accounts[2 * i + 1].as_slice();
        assert(datas[2 * i as int] == campaign_data@);
        assert(datas[2 * i + 1] == owner_data@);
        let campaign_token = match unpack_token_account(campaign_data) {
            Ok(holding) => holding,
            Err(_) => {
                proof {
                    lemma_first_refusal_stays(datas, (i + 1) as nat, pairs as nat, ctx.campaign_key, ctx.owner);
                }
                return Err(token_data_error(campaign_data));
            },
        };
        let owner_token = match unpack_token_account(owner_data) {
            Ok(holding) => holding,
            Err(_) => {
                proof {
                    lemma_first_refusal_stays(datas, (i + 1) as nat, pairs as nat, ctx.campaign_key, ctx.owner);
                }
                return Err(token_data_error(owner_data));
            },
        };
        proof {
            lemma_key_bytes_eq(campaign_token.0, ctx.campaign_key);
            lemma_key_bytes_eq(owner_token.0, ctx.owner);
        }
        if !campaign_token.0.key_eq(&ctx.campaign_key) {
            proof {
                lemma_first_refusal_stays(datas, (i + 1) as nat, pairs as nat, ctx.campaign_key, ctx.owner);
            }
            return Err(InstructionError::Program(CrowdfundingError::InvalidAccounts));
        }
        if !owner_token.0.key_eq(&ctx.owner) {
            proof {
                lemma_first_refusal_stays(datas, (i + 1) as nat, pairs as nat, ctx.campaign_key, ctx.owner);
            }
            return Err(InstructionError::Program(CrowdfundingError::InvalidAccounts));
        }
        let amount = campaign_token.1;
        if amount > 0 {
            token_transfers.push(TokenTransfer { pair: i, amount: amount });
        }
        i = i + 1;
    }
    proof {
        lemma_pair_transfers_pay_owner(datas, pairs as nat, ctx.campaign_key, ctx.owner);
    }
    if !ctx.campaign.is_withdrawal_points_minted {
        ctx.spender.points_earned = ctx.spender.points_earned + base_points;
        ctx.campaign.is_withdrawal_points_minted = true;
    }
    Ok(WithdrawPlan { lamports: lamports, token_transfers: token_transfers })
}

} // verus!
