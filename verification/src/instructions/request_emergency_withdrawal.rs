use vstd::prelude::*;

use crate::errors::PensionError;
use crate::key::{hash_is_zero, is_zero_hash, AccountKey};
use crate::math::{bps_share, checked_bps_share, fits_u64};
use crate::state::{
    AffiliateAccount, FundConfig, WithdrawalReason, WithdrawalRequest, WithdrawalStatus,
};

verus! {

/// The accounts an emergency withdrawal request reads and writes.
#[derive(Clone, Debug)]
pub struct RequestEmergencyWithdrawal {
    pub fund_config: FundConfig,
    pub affiliate_account: AffiliateAccount,
    /// The new request.
    pub withdrawal_request: WithdrawalRequest,
    /// The signing affiliate wallet.
    pub affiliate: AccountKey,
    /// Bump seed of the new request's address.
    pub withdrawal_request_bump: u8,
}

/// The account constraints, in the order they are checked.
pub open spec fn account_check(c: RequestEmergencyWithdrawal) -> Option<PensionError> {
    if c.fund_config.paused {
        Some(PensionError::FundPaused)
    } else if c.affiliate_account.deceased {
        Some(PensionError::AccountDeceased)
    } else if c.affiliate_account.owner@ != c.affiliate@ {
        Some(PensionError::Unauthorized)
    } else {
        None
    }
}

/// Share of the balance released for an emergency of kind `reason`.
pub open spec fn release_bps(cfg: FundConfig, reason: WithdrawalReason) -> int {
    if reason == WithdrawalReason::MedicalEmergency {
        cfg.emergency_release_bps as int
    } else {
        cfg.disaster_release_bps as int
    }
}

/// Amount released: the configured share of principal plus yield.
pub open spec fn emergency_amount(c: RequestEmergencyWithdrawal, reason: WithdrawalReason) -> int {
    bps_share(c.affiliate_account.balance(), release_bps(c.fund_config, reason))
}

/// Why the request is refused, checked in order; `None` when it is accepted.
pub open spec fn emergency_error(
    c: RequestEmergencyWithdrawal,
    reason: WithdrawalReason,
    oracle_attestation_hash: [u8; 32],
) -> Option<PensionError> {
    if account_check(c) is Some {
        account_check(c)
    } else if reason != WithdrawalReason::MedicalEmergency && reason
        != WithdrawalReason::NaturalDisaster {
        Some(PensionError::WithdrawalModeNotSet)
    } else if is_zero_hash(oracle_attestation_hash@) {
        Some(PensionError::MissingAttestation)
    } else if !fits_u64(c.affiliate_account.balance()) {
        Some(PensionError::ContributionOverflow)
    } else if !fits_u64(c.affiliate_account.balance() * release_bps(c.fund_config, reason)) {
        Some(PensionError::ContributionOverflow)
    } else {
        None
    }
}

/// The accounts after an accepted request.
pub open spec fn emergency_applied(
    c: RequestEmergencyWithdrawal,
    request_nonce: u32,
    reason: WithdrawalReason,
    oracle_attestation_hash: [u8; 32],
    now: i64,
) -> RequestEmergencyWithdrawal {
    RequestEmergencyWithdrawal {
        withdrawal_request: WithdrawalRequest {
            affiliate: c.affiliate,
            request_nonce: request_nonce,
            reason: reason,
            status: WithdrawalStatus::Pending,
            amount_requested: emergency_amount(c, reason) as u64,
            amount_released: 0,
            penalty_amount: 0,
            requested_at: now,
            resolved_at: 0,
            oracle_attestation_hash: oracle_attestation_hash,
            beneficiary_wallet: None,
            bump: c.withdrawal_request_bump,
        },
        ..c
    }
}

/// Requests an emergency (medical or disaster) withdrawal at `now`, backed by an oracle
/// attestation. The request asks for the configured share of the whole balance and is
/// left pending for the keeper. A refused request changes nothing.
pub fn handler(
    ctx: &mut RequestEmergencyWithdrawal,
    request_nonce: u32,
    reason: WithdrawalReason,
    oracle_attestation_hash: [u8; 32],
    now: i64,
) -> (r: Result<(), PensionError>)
    ensures
        match r {
            Ok(()) => {
                &&& emergency_error(*old(ctx), reason, oracle_attestation_hash) is None
                &&& *final(ctx) == emergency_applied(
                    *old(ctx),
                    request_nonce,
                    reason,
                    oracle_attestation_hash,
                    now,
                )
            },
            Err(e) => {
                &&& emergency_error(*old(ctx), reason, oracle_attestation_hash) == Some(e)
                &&& *final(ctx) == *old(ctx)
            },
        },
{
    let cfg: FundConfig = ctx.fund_config;
    if cfg.paused {
        return Err(PensionError::FundPaused);
    }
    if ctx.affiliate_account.deceased {
        return Err(PensionError::AccountDeceased);
    }
    if !(ctx.affiliate_account.owner == ctx.affiliate) {
        return Err(PensionError::Unauthorized);
    }
    if !(reason == WithdrawalReason::MedicalEmergency || reason
        == WithdrawalReason::NaturalDisaster) {
        return Err(PensionError::WithdrawalModeNotSet);
    }
    if hash_is_zero(&oracle_attestation_hash) {
        return Err(PensionError::MissingAttestation);
    }
    let total_balance = match ctx.affiliate_account.total_contributed.checked_add(
        ctx.affiliate_account.accrued_yield,
    ) {
        Some(t) => t,
        None => {
            return Err(PensionError::ContributionOverflow);
        },
    };
    let bps: u16 = if reason == WithdrawalReason::MedicalEmergency {
        cfg.emergency_release_bps
    } else {
        cfg.disaster_release_bps
    };
    let amount_requested = match checked_bps_share(total_balance, bps as u64) {
        Some(a) => a,
        None => {
            return Err(PensionError::ContributionOverflow);
        },
    };
    ctx.withdrawal_request = WithdrawalRequest {
        affiliate: ctx.affiliate,
        request_nonce: request_nonce,
        reason: reason,
        status: WithdrawalStatus::Pending,
        amount_requested: amount_requested,
        amount_released: 0,
        penalty_amount: 0,
        requested_at: now,
        resolved_at: 0,
        oracle_attestation_hash: oracle_attestation_hash,
        beneficiary_wallet: None,
        bump: ctx.withdrawal_request_bump,
    };
    Ok(())
}

} // verus!
