use vstd::prelude::*;

use crate::errors::PensionError;
use crate::key::AccountKey;
use crate::math::{bps_share, checked_bps_share, fits_i64, fits_u64, sat_sub};
use crate::state::affiliate::age_years;
use crate::state::{
    AffiliateAccount, FundConfig, WithdrawalReason, WithdrawalRequest, WithdrawalStatus,
};

verus! {

/// Largest share of the balance that may be withdrawn early (10%), in bps.
pub const EARLY_WITHDRAWAL_CAP_BPS: u64 = 1_000;

/// The accounts an early voluntary withdrawal request reads and writes.
#[derive(Clone, Debug)]
pub struct RequestEarlyVoluntaryWithdrawal {
    pub fund_config: FundConfig,
    pub affiliate_account: AffiliateAccount,
    /// The new request.
    pub withdrawal_request: WithdrawalRequest,
    /// The signing affiliate wallet.
    pub affiliate: AccountKey,
    /// Bump seed of the new request's address.
    pub withdrawal_request_bump: u8,
}

/// The account constraints, in the order they are checked.
pub open spec fn account_check(c: RequestEarlyVoluntaryWithdrawal) -> Option<PensionError> {
    if c.fund_config.paused {
        Some(PensionError::FundPaused)
    } else if c.affiliate_account.deceased {
        Some(PensionError::AccountDeceased)
    } else if c.affiliate_account.owner@ != c.affiliate@ {
        Some(PensionError::Unauthorized)
    } else {
        None
    }
}

/// Inputs on which computing the affiliate's age leaves `i64`: the instruction aborts there.
pub open spec fn aborts(c: RequestEarlyVoluntaryWithdrawal, now: i64) -> bool {
    account_check(c) is None && !fits_i64(now - c.affiliate_account.date_of_birth)
}

/// The affiliate already meets both retirement conditions at `now`.
pub open spec fn eligible_for_retirement(c: RequestEarlyVoluntaryWithdrawal, now: i64) -> bool {
    &&& age_years(c.affiliate_account.date_of_birth as int, now as int)
        >= c.fund_config.min_retirement_age
    &&& c.affiliate_account.periods_completed / 12 >= c.fund_config.min_contribution_years
}

/// Amount requested: 10% of principal plus yield.
pub open spec fn early_amount(c: RequestEarlyVoluntaryWithdrawal) -> int {
    bps_share(c.affiliate_account.balance(), EARLY_WITHDRAWAL_CAP_BPS as int)
}

/// Penalty charged on the accrued yield.
pub open spec fn early_penalty(c: RequestEarlyVoluntaryWithdrawal) -> int {
    bps_share(
        c.affiliate_account.accrued_yield as int,
        c.fund_config.early_withdrawal_penalty_bps as int,
    )
}

/// Why the request is refused, checked in order; `None` when it is accepted.
pub open spec fn early_error(c: RequestEarlyVoluntaryWithdrawal, now: i64) -> Option<PensionError> {
    let acc = c.affiliate_account;
    if account_check(c) is Some {
        account_check(c)
    } else if eligible_for_retirement(c, now) {
        Some(PensionError::AlreadyEligibleForRetirement)
    } else if !fits_u64(acc.balance()) {
        Some(PensionError::ContributionOverflow)
    } else if !fits_u64(acc.balance() * EARLY_WITHDRAWAL_CAP_BPS) {
        Some(PensionError::ContributionOverflow)
    } else if !fits_u64(acc.accrued_yield * c.fund_config.early_withdrawal_penalty_bps) {
        Some(PensionError::ContributionOverflow)
    } else {
        None
    }
}

/// The accounts after an accepted request.
pub open spec fn early_applied(c: RequestEarlyVoluntaryWithdrawal, request_nonce: u32, now: i64) -> RequestEarlyVoluntaryWithdrawal {
    RequestEarlyVoluntaryWithdrawal {
        affiliate_account: AffiliateAccount {
            accrued_yield: sat_sub(c.affiliate_account.accrued_yield as int, early_penalty(c)) as u64,
            ..c.affiliate_account
        },
        withdrawal_request: WithdrawalRequest {
            affiliate: c.affiliate,
            request_nonce: request_nonce,
            reason: WithdrawalReason::EarlyVoluntary,
            status: WithdrawalStatus::Pending,
            amount_requested: early_amount(c) as u64,
            amount_released: 0,
            penalty_amount: early_penalty(c) as u64,
            requested_at: now,
            resolved_at: 0,
            oracle_attestation_hash: [0u8; 32usize],
            beneficiary_wallet: None,
            bump: c.withdrawal_request_bump,
        },
        ..c
    }
}

/// Whether the request would abort on these inputs (see `aborts`).
pub fn would_abort(ctx: &RequestEarlyVoluntaryWithdrawal, now: i64) -> (r: bool)
    ensures
        r == aborts(*ctx, now),
{
    let age_seconds: i128 = now as i128 - ctx.affiliate_account.date_of_birth as i128;
    !ctx.fund_config.paused && !ctx.affiliate_account.deceased && ctx.affiliate_account.owner
        == ctx.affiliate && (age_seconds < i64::MIN as i128 || age_seconds > i64::MAX as i128)
}

/// Requests an early voluntary withdrawal at `now`, for an affiliate who is not yet
/// eligible for retirement. The request asks for 10% of the balance; the early-withdrawal
/// penalty is taken from the accrued yield at once. A refused request changes nothing.
pub fn handler(ctx: &mut RequestEarlyVoluntaryWithdrawal, request_nonce: u32, now: i64) -> (r: Result<(), PensionError>)
    requires
        !aborts(*old(ctx), now),
    ensures
        match r {
            Ok(()) => {
                &&& early_error(*old(ctx), now) is None
                &&& *final(ctx) == early_applied(*old(ctx), request_nonce, now)
            },
            Err(e) => {
                &&& early_error(*old(ctx), now) == Some(e)
                &&& *final(ctx) == *old(ctx)
            },
        },
{
    let cfg: FundConfig = ctx.fund_config;
    if cfg.paused {
        return Err(PensionError::FundPaused);
    }
    if ctx.affiliate_account.deceased {
        return Err(PensionError::AccountDeceased);
    }
    if !(ctx.affiliate_account.owner == ctx.affiliate) {
        return Err(PensionError::Unauthorized);
    }
    let current_age = ctx.affiliate_account.age_at(now);
    if !(current_age < cfg.min_retirement_age || ctx.affiliate_account.contribution_years()
        < cfg.min_contribution_years as u32) {
        return Err(PensionError::AlreadyEligibleForRetirement);
    }
    let total_balance = match ctx.affiliate_account.total_contributed.checked_add(
        ctx.affiliate_account.accrued_yield,
    ) {
        Some(t) => t,
        None => {
            return Err(PensionError::ContributionOverflow);
        },
    };
    let amount_requested = match checked_bps_share(total_balance, EARLY_WITHDRAWAL_CAP_BPS) {
        Some(a) => a,
        None => {
            return Err(PensionError::ContributionOverflow);
        },
    };
    let penalty = match checked_bps_share(
        ctx.affiliate_account.accrued_yield,
        cfg.early_withdrawal_penalty_bps as u64,
    ) {
        Some(p) => p,
        None => {
            return Err(PensionError::ContributionOverflow);
        },
    };
    ctx.affiliate_account.accrued_yield = ctx.affiliate_account.accrued_yield.saturating_sub(penalty);
    ctx.withdrawal_request = WithdrawalRequest {
        affiliate: ctx.affiliate,
        request_nonce: request_nonce,
        reason: WithdrawalReason::EarlyVoluntary,
        status: WithdrawalStatus::Pending,
        amount_requested: amount_requested,
        amount_released: 0,
        penalty_amount: penalty,
        requested_at: now,
        resolved_at: 0,
        oracle_attestation_hash: [0u8; 32],
        beneficiary_wallet: None,
        bump: ctx.withdrawal_request_bump,
    };
    Ok(())
}

} // verus!
