use vstd::prelude::*;

use crate::errors::PensionError;
use crate::key::AccountKey;
use crate::math::{bps_share, checked_bps_share, fits_i64, fits_u64, year_index, year_of};
use crate::state::affiliate::age_years;
use crate::state::{
    AffiliateAccount, FundConfig, InvestmentPool, WithdrawalMode, WithdrawalReason,
    WithdrawalRequest, WithdrawalStatus,
};

verus! {

/// The accounts a retirement withdrawal request reads and writes.
#[derive(Clone, Debug)]
pub struct RequestRetirementWithdrawal {
    pub fund_config: FundConfig,
    pub affiliate_account: AffiliateAccount,
    pub pool: InvestmentPool,
    /// The new request.
    pub withdrawal_request: WithdrawalRequest,
    /// The signing affiliate wallet.
    pub affiliate: AccountKey,
    /// Bump seed of the new request's address.
    pub withdrawal_request_bump: u8,
}

/// The account constraints, in the order they are checked.
pub open spec fn account_check(c: RequestRetirementWithdrawal) -> Option<PensionError> {
    if c.fund_config.paused {
        Some(PensionError::FundPaused)
    } else if c.affiliate_account.deceased {
        Some(PensionError::AccountDeceased)
    } else if c.affiliate_account.owner@ != c.affiliate@ {
        Some(PensionError::Unauthorized)
    } else {
        None
    }
}

/// Inputs on which computing the affiliate's age leaves `i64`: the instruction aborts there.
pub open spec fn aborts(c: RequestRetirementWithdrawal, withdrawal_mode: WithdrawalMode, now: i64) -> bool {
    &&& account_check(c) is None
    &&& withdrawal_mode != WithdrawalMode::NotSet
    &&& !fits_i64(now - c.affiliate_account.date_of_birth)
}

/// Most that may be withdrawn in one year: the annual cap share of the balance.
pub open spec fn annual_cap(c: RequestRetirementWithdrawal) -> int {
    bps_share(c.affiliate_account.balance(), c.fund_config.max_annual_withdrawal_bps as int)
}

/// What has been withdrawn in the year of `now`: the counter when it belongs to that
/// year, nothing otherwise.
pub open spec fn withdrawn_in_year(acc: AffiliateAccount, now: i64) -> int {
    if acc.withdrawal_year == year_of(now as int) {
        acc.withdrawn_this_year as int
    } else {
        0
    }
}

/// This year's withdrawals plus `amount`, saturating at `u64::MAX`.
pub open spec fn year_total_with(acc: AffiliateAccount, amount: u64, now: i64) -> int {
    if withdrawn_in_year(acc, now) + amount > u64::MAX {
        u64::MAX as int
    } else {
        withdrawn_in_year(acc, now) + amount
    }
}

/// Why the request is refused, checked in order; `None` when it is accepted.
pub open spec fn retirement_error(
    c: RequestRetirementWithdrawal,
    amount_requested: u64,
    withdrawal_mode: WithdrawalMode,
    now: i64,
) -> Option<PensionError> {
    let cfg = c.fund_config;
    let acc = c.affiliate_account;
    if account_check(c) is Some {
        account_check(c)
    } else if withdrawal_mode == WithdrawalMode::NotSet {
        Some(PensionError::WithdrawalModeNotSet)
    } else if age_years(acc.date_of_birth as int, now as int) < cfg.min_retirement_age {
        Some(PensionError::NotRetirementAge)
    } else if acc.periods_completed / 12 < cfg.min_contribution_years {
        Some(PensionError::InsufficientContributionYears)
    } else if !fits_u64(acc.balance()) {
        Some(PensionError::ContributionOverflow)
    } else if amount_requested > acc.balance() {
        Some(PensionError::InsufficientFunds)
    } else if !fits_u64(acc.balance() * cfg.max_annual_withdrawal_bps) {
        Some(PensionError::ContributionOverflow)
    } else if year_total_with(acc, amount_requested, now) > annual_cap(c) {
        Some(PensionError::AnnualCapExceeded)
    } else {
        None
    }
}

/// The accounts after an accepted request.
pub open spec fn retirement_applied(
    c: RequestRetirementWithdrawal,
    request_nonce: u32,
    amount_requested: u64,
    withdrawal_mode: WithdrawalMode,
    now: i64,
) -> RequestRetirementWithdrawal {
    RequestRetirementWithdrawal {
        affiliate_account: AffiliateAccount {
            retired: true,
            withdrawal_mode: withdrawal_mode,
            ..c.affiliate_account
        },
        withdrawal_request: WithdrawalRequest {
            affiliate: c.affiliate,
            request_nonce: request_nonce,
            reason: WithdrawalReason::Retirement,
            status: WithdrawalStatus::Pending,
            amount_requested: amount_requested,
            amount_released: 0,
            penalty_amount: 0,
            requested_at: now,
            resolved_at: 0,
            oracle_attestation_hash: [0u8; 32usize],
            beneficiary_wallet: None,
            bump: c.withdrawal_request_bump,
        },
        ..c
    }
}

/// Whether the request would abort on these inputs (see `aborts`).
pub fn would_abort(ctx: &RequestRetirementWithdrawal, withdrawal_mode: WithdrawalMode, now: i64) -> (r: bool)
    ensures
        r == aborts(*ctx, withdrawal_mode, now),
{
    let age_seconds: i128 = now as i128 - ctx.affiliate_account.date_of_birth as i128;
    !ctx.fund_config.paused && !ctx.affiliate_account.deceased && ctx.affiliate_account.owner
        == ctx.affiliate && withdrawal_mode != WithdrawalMode::NotSet && (age_seconds
        < i64::MIN as i128 || age_seconds > i64::MAX as i128)
}

/// Requests a retirement withdrawal of `amount_requested` at `now`.
///
/// Requires a withdrawal mode, the minimum retirement age and contribution years, a
/// sufficient balance, and that this year's withdrawals with this one stay within the
/// annual cap share of the balance. On success the
/// affiliate is marked retired with that mode and a pending request is written.
/// A refused request changes nothing.
pub fn handler(
    ctx: &mut RequestRetirementWithdrawal,
    request_nonce: u32,
    amount_requested: u64,
    withdrawal_mode: WithdrawalMode,
    now: i64,
) -> (r: Result<(), PensionError>)
    requires
        !aborts(*old(ctx), withdrawal_mode, now),
    ensures
        match r {
            Ok(()) => {
                &&& retirement_error(*old(ctx), amount_requested, withdrawal_mode, now) is None
                &&& *final(ctx) == retirement_applied(
                    *old(ctx),
                    request_nonce,
                    amount_requested,
                    withdrawal_mode,
                    now,
                )
            },
            Err(e) => {
                &&& retirement_error(*old(ctx), amount_requested, withdrawal_mode, now) == Some(e)
                &&& *final(ctx) == *old(ctx)
            },
        },
{
    let cfg: FundConfig = ctx.fund_config;
    if cfg.paused {
        return Err(PensionError::FundPaused);
    }
    if ctx.affiliate_account.deceased {
        return Err(PensionError::AccountDeceased);
    }
    if !(ctx.affiliate_account.owner == ctx.affiliate) {
        return Err(PensionError::Unauthorized);
    }
    if withdrawal_mode == WithdrawalMode::NotSet {
        return Err(PensionError::WithdrawalModeNotSet);
    }
    let current_age = ctx.affiliate_account.age_at(now);
    if current_age < cfg.min_retirement_age {
        return Err(PensionError::NotRetirementAge);
    }
    if ctx.affiliate_account.contribution_years() < cfg.min_contribution_years as u32 {
        return Err(PensionError::InsufficientContributionYears);
    }
    let total_balance = match ctx.affiliate_account.total_contributed.checked_add(
        ctx.affiliate_account.accrued_yield,
    ) {
        Some(t) => t,
        None => {
            return Err(PensionError::ContributionOverflow);
        },
    };
    if amount_requested > total_balance {
        return Err(PensionError::InsufficientFunds);
    }
    let current_year = year_index(now);
    let withdrawn_so_far: u64 = if ctx.affiliate_account.withdrawal_year == current_year {
        ctx.affiliate_account.withdrawn_this_year
    } else {
        0
    };
    let max_this_year = match checked_bps_share(total_balance, cfg.max_annual_withdrawal_bps as u64) {
        Some(m) => m,
        None => {
            return Err(PensionError::ContributionOverflow);
        },
    };
    if withdrawn_so_far.saturating_add(amount_requested) > max_this_year {
        return Err(PensionError::AnnualCapExceeded);
    }
    ctx.affiliate_account.retired = true;
    ctx.affiliate_account.withdrawal_mode = withdrawal_mode;
    ctx.withdrawal_request = WithdrawalRequest {
        affiliate: ctx.affiliate,
        request_nonce: request_nonce,
        reason: WithdrawalReason::Retirement,
        status: WithdrawalStatus::Pending,
        amount_requested: amount_requested,
        amount_released: 0,
        penalty_amount: 0,
        requested_at: now,
        resolved_at: 0,
        oracle_attestation_hash: [0u8; 32],
        beneficiary_wallet: None,
        bump: ctx.withdrawal_request_bump,
    };
    Ok(())
}

} // verus!
