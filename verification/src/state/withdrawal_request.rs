use vstd::prelude::*;

use crate::key::{is_zero_hash, zero_bytes32, AccountKey};

verus! {

/// The reason a withdrawal was requested.
#[derive(Clone, Copy, PartialEq, Eq, Structural, Debug)]
pub enum WithdrawalReason {
    Retirement,
    MedicalEmergency,
    NaturalDisaster,
    EarlyVoluntary,
    Inheritance,
}

impl Default for WithdrawalReason {
    fn default() -> (r: WithdrawalReason)
        ensures
            r == WithdrawalReason::Retirement,
    {
        WithdrawalReason::Retirement
    }
}

/// Status of the withdrawal request lifecycle.
#[derive(Clone, Copy, PartialEq, Eq, Structural, Debug)]
pub enum WithdrawalStatus {
    Pending,
    Approved,
    Executed,
    Rejected,
}

impl Default for WithdrawalStatus {
    fn default() -> (s: WithdrawalStatus)
        ensures
            s == WithdrawalStatus::Pending,
    {
        WithdrawalStatus::Pending
    }
}

/// A withdrawal request: one per withdrawal event.
#[derive(Clone, Copy, Debug)]
pub struct WithdrawalRequest {
    /// The affiliate requesting the withdrawal.
    pub affiliate: AccountKey,
    /// Sequential nonce for this affiliate's withdrawals.
    pub request_nonce: u32,
    /// Why the withdrawal is being requested.
    pub reason: WithdrawalReason,
    /// Current lifecycle status.
    pub status: WithdrawalStatus,
    /// Amount requested in token base units.
    pub amount_requested: u64,
    /// Amount actually released.
    pub amount_released: u64,
    /// Penalty applied in token base units.
    pub penalty_amount: u64,
    /// Unix timestamp when the request was created.
    pub requested_at: i64,
    /// Unix timestamp when the request was resolved.
    pub resolved_at: i64,
    /// For oracle-dependent withdrawals: hash of the oracle attestation document.
    pub oracle_attestation_hash: [u8; 32],
    /// For inheritance: the beneficiary wallet receiving this payout.
    pub beneficiary_wallet: Option<AccountKey>,
    /// Address bump seed.
    pub bump: u8,
}

impl WithdrawalRequest {
    /// Serialized size of the request, discriminator included.
    pub const LEN: usize = 8 + 32 + 4 + 1 + 1 + 8 + 8 + 8 + 8 + 8 + 32 + 1 + 32 + 1;
}

impl Default for WithdrawalRequest {
    fn default() -> (r: WithdrawalRequest)
        ensures
            is_zero_hash(r.affiliate@),
            r.affiliate@.len() == 32,
            r.request_nonce == 0,
            r.reason == WithdrawalReason::Retirement,
            r.status == WithdrawalStatus::Pending,
            r.amount_requested == 0,
            r.amount_released == 0,
            r.penalty_amount == 0,
            r.requested_at == 0,
            r.resolved_at == 0,
            is_zero_hash(r.oracle_attestation_hash@),
            r.beneficiary_wallet is None,
            r.bump == 0,
    {
        WithdrawalRequest {
            affiliate: AccountKey::zeroed(),
            request_nonce: 0,
            reason: WithdrawalReason::Retirement,
            status: WithdrawalStatus::Pending,
            amount_requested: 0,
            amount_released: 0,
            penalty_amount: 0,
            requested_at: 0,
            resolved_at: 0,
            oracle_attestation_hash: zero_bytes32(),
            beneficiary_wallet: None,
            bump: 0,
        }
    }
}

} // verus!
