use vstd::prelude::*;

verus! {

/// Every way an instruction of the fund can be refused.
#[derive(Clone, Copy, PartialEq, Eq, Structural, Debug)]
pub enum PensionError {
    // Fund config
    FundPaused,
    RegistrationsClosed,
    Unauthorized,
    InvalidAllocation,
    InvalidContributionPeriod,
    InvalidMinContribution,
    InvalidRetirementAge,
    InvalidRiskProfile,
    // Affiliate / KYC
    AlreadyRegistered,
    InvalidBeneficiaryShares,
    TooManyBeneficiaries,
    AccountDeceased,
    // Contributions
    BelowMinimumContribution,
    PeriodNotElapsed,
    ContributionOverflow,
    // Withdrawals
    NotRetirementAge,
    InsufficientContributionYears,
    AnnualCapExceeded,
    InsufficientFunds,
    RequestNotPending,
    RequestNotApproved,
    WithdrawalModeNotSet,
    AlreadyEligibleForRetirement,
    // Oracle / attestations
    MissingAttestation,
    InvalidOracleSigner,
    // Investment pool
    PoolMismatch,
    HarvestTooEarly,
    // Inheritance
    NoBeneficiaries,
    BeneficiaryNotFound,
    NotDeceased,
    BeneficiaryAlreadyPaid,
}

} // verus!
