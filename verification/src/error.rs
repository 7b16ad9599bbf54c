use vstd::prelude::*;

verus! {

/// Why an instruction refused to run.
#[derive(Clone, Copy, Debug, PartialEq, Eq, Structural)]
pub enum CrowdfundingError {
    NotFactoryOwner,
    NotModerator,
    NotCampaignOwner,
    FundingNotStarted,
    FundingPeriodOver,
    CampaignStillActive,
    FactoryPaused,
    CampaignPaused,
    PointsPaused,
    TokenNotAccepted,
    InvalidAmount,
    InvalidTier,
    FundingNotApproved,
    FundingDisapproved,
    WithdrawalNotApproved,
    WithdrawalRevoked,
    MultiplierAlreadyOwned,
    InsufficientSolForTier,
    InvalidPlatformFee,
    TooManyTokens,
    InvalidDates,
    AlreadyApproved,
    InvalidAccounts,
    Overflow,
    InsufficientFunds,
}

/// Failure of a withdrawal: one of the program's own errors, a signer that
/// does not own the campaign, or extra account data that is not an
/// initialized SPL token account.
#[derive(Clone, Copy, Debug, PartialEq, Eq, Structural)]
pub enum InstructionError {
    Program(CrowdfundingError),
    /// The campaign's recorded owner is not the signer.
    ConstraintHasOne,
    /// The data is not laid out as an SPL token account.
    InvalidTokenAccountData,
    /// The data is laid out as an SPL token account whose state is uninitialized.
    UninitializedTokenAccount,
}

} // verus!
