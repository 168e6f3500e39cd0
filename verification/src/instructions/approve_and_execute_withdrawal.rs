use vstd::prelude::*;

use crate::errors::PensionError;
use crate::key::{AccountKey, TokenAccountInfo, TokenTransfer};
use crate::math::{principal_part, sat_sub, split_payout, year_index, year_of, yield_part};
use crate::state::{
    AffiliateAccount, FundConfig, InvestmentPool, WithdrawalReason, WithdrawalRequest,
    WithdrawalStatus,
};

verus! {

/// The accounts the keeper's approval reads and writes.
#[derive(Clone, Debug)]
pub struct ApproveAndExecuteWithdrawal {
    pub fund_config: FundConfig,
    pub affiliate_account: AffiliateAccount,
    pub pool: InvestmentPool,
    pub withdrawal_request: WithdrawalRequest,
    /// The pool's source token account.
    pub pool_token_account: TokenAccountInfo,
    /// The recipient's token account.
    pub recipient_token_account: TokenAccountInfo,
    /// The fund's signing address over pool token accounts.
    pub fund_authority: AccountKey,
    /// The signing keeper.
    pub keeper: AccountKey,
}

/// The account constraints, in the order they are checked.
pub open spec fn account_check(c: ApproveAndExecuteWithdrawal) -> Option<PensionError> {
    if c.fund_config.paused {
        Some(PensionError::FundPaused)
    } else if c.fund_config.authority@ != c.keeper@ {
        Some(PensionError::Unauthorized)
    } else if c.withdrawal_request.status != WithdrawalStatus::Pending {
        Some(PensionError::RequestNotPending)
    } else if c.withdrawal_request.affiliate@ != c.affiliate_account.owner@ {
        Some(PensionError::Unauthorized)
    } else if c.pool_token_account.key@ != c.pool.token_account@ {
        Some(PensionError::PoolMismatch)
    } else if c.recipient_token_account.mint@ != c.fund_config.accepted_mint@ {
        Some(PensionError::PoolMismatch)
    } else if !recipient_allowed(c) {
        Some(PensionError::Unauthorized)
    } else {
        None
    }
}

/// The recipient's token account belongs to the beneficiary the request names, or to the
/// affiliate when it names none.
pub open spec fn recipient_allowed(c: ApproveAndExecuteWithdrawal) -> bool {
    match c.withdrawal_request.beneficiary_wallet {
        Some(w) => c.recipient_token_account.owner@ == w@,
        None => c.recipient_token_account.owner@ == c.affiliate_account.owner@,
    }
}

/// Why the approval is refused, checked in order; `None` when it goes through.
pub open spec fn approve_error(c: ApproveAndExecuteWithdrawal) -> Option<PensionError> {
    if account_check(c) is Some {
        account_check(c)
    } else if c.withdrawal_request.amount_requested == 0
        || c.withdrawal_request.amount_requested > c.affiliate_account.balance() {
        Some(PensionError::InsufficientFunds)
    } else {
        None
    }
}

/// The yearly withdrawal counter after a retirement payout of `amount` at `now`:
/// reset when the year changed, then increased (saturating).
pub open spec fn withdrawn_after(acc: AffiliateAccount, amount: u64, now: i64) -> u64 {
    let base: int = if acc.withdrawal_year != year_of(now as int) {
        0
    } else {
        acc.withdrawn_this_year as int
    };
    (if base + amount > u64::MAX {
        u64::MAX as int
    } else {
        base + amount
    }) as u64
}

/// The accounts after the approved request is executed at `now`.
pub open spec fn approve_applied(c: ApproveAndExecuteWithdrawal, now: i64) -> ApproveAndExecuteWithdrawal {
    let acc = c.affiliate_account;
    let req = c.withdrawal_request;
    let amount = req.amount_requested;
    let fp = principal_part(amount as int, acc.total_contributed as int);
    let fy = yield_part(amount as int, acc.total_contributed as int);
    let retirement = req.reason == WithdrawalReason::Retirement;
    ApproveAndExecuteWithdrawal {
        affiliate_account: AffiliateAccount {
            total_contributed: (acc.total_contributed - fp) as u64,
            accrued_yield: sat_sub(acc.accrued_yield as int, fy) as u64,
            withdrawn_this_year: if retirement {
                withdrawn_after(acc, amount, now)
            } else {
                acc.withdrawn_this_year
            },
            withdrawal_year: if retirement {
                year_of(now as int)
            } else {
                acc.withdrawal_year
            },
            ..acc
        },
        pool: InvestmentPool {
            total_principal: sat_sub(c.pool.total_principal as int, fp) as u64,
            total_yield: sat_sub(c.pool.total_yield as int, fy) as u64,
            ..c.pool
        },
        withdrawal_request: WithdrawalRequest {
            status: WithdrawalStatus::Executed,
            amount_released: amount,
            resolved_at: now,
            ..req
        },
        ..c
    }
}

/// Executes a pending withdrawal request at time `now`.
///
/// The recipient must be the affiliate, or the beneficiary the request names, and the
/// amount must be positive and within the affiliate's principal plus yield. The amount
/// is drawn from principal first, then from yield, on the affiliate and on the pool; retirement payouts count toward the yearly counter.
/// The request becomes `Executed`, and the returned transfer moves the amount from
/// the pool's token account to the recipient. A refused approval changes nothing.
pub fn handler(ctx: &mut ApproveAndExecuteWithdrawal, now: i64) -> (r: Result<TokenTransfer, PensionError>)
    ensures
        match r {
            Ok(t) => {
                &&& approve_error(*old(ctx)) is None
                &&& *final(ctx) == approve_applied(*old(ctx), now)
                &&& t == (TokenTransfer {
                    from: old(ctx).pool_token_account.key,
                    to: old(ctx).recipient_token_account.key,
                    authority: old(ctx).fund_authority,
                    amount: old(ctx).withdrawal_request.amount_requested,
                })
            },
            Err(e) => {
                &&& approve_error(*old(ctx)) == Some(e)
                &&& *final(ctx) == *old(ctx)
            },
        },
{
    if ctx.fund_config.paused {
        return Err(PensionError::FundPaused);
    }
    if !(ctx.fund_config.authority == ctx.keeper) {
        return Err(PensionError::Unauthorized);
    }
    if ctx.withdrawal_request.status != WithdrawalStatus::Pending {
        return Err(PensionError::RequestNotPending);
    }
    if !(ctx.withdrawal_request.affiliate == ctx.affiliate_account.owner) {
        return Err(PensionError::Unauthorized);
    }
    if !(ctx.pool_token_account.key == ctx.pool.token_account) {
        return Err(PensionError::PoolMismatch);
    }
    if !(ctx.recipient_token_account.mint == ctx.fund_config.accepted_mint) {
        return Err(PensionError::PoolMismatch);
    }
    let recipient_ok = match ctx.withdrawal_request.beneficiary_wallet {
        Some(w) => ctx.recipient_token_account.owner == w,
        None => ctx.recipient_token_account.owner == ctx.affiliate_account.owner,
    };
    if !recipient_ok {
        return Err(PensionError::Unauthorized);
    }
    let amount = ctx.withdrawal_request.amount_requested;
    if amount == 0 {
        return Err(PensionError::InsufficientFunds);
    }
    match ctx.affiliate_account.total_contributed.checked_add(ctx.affiliate_account.accrued_yield) {
        Some(balance) => {
            if amount > balance {
                return Err(PensionError::InsufficientFunds);
            }
        },
        None => {},
    }
    let (from_principal, from_yield) = split_payout(amount, ctx.affiliate_account.total_contributed);
    ctx.affiliate_account.total_contributed = ctx.affiliate_account.total_contributed - from_principal;
    ctx.affiliate_account.accrued_yield = ctx.affiliate_account.accrued_yield.saturating_sub(from_yield);
    ctx.pool.total_principal = ctx.pool.total_principal.saturating_sub(from_principal);
    ctx.pool.total_yield = ctx.pool.total_yield.saturating_sub(from_yield);
    if ctx.withdrawal_request.reason == WithdrawalReason::Retirement {
        let current_year = year_index(now);
        if ctx.affiliate_account.withdrawal_year != current_year {
            ctx.affiliate_account.withdrawn_this_year = 0;
            ctx.affiliate_account.withdrawal_year = current_year;
        }
        ctx.affiliate_account.withdrawn_this_year = ctx.affiliate_account.withdrawn_this_year.saturating_add(amount);
    }
    ctx.withdrawal_request.status = WithdrawalStatus::Executed;
    ctx.withdrawal_request.amount_released = amount;
    ctx.withdrawal_request.resolved_at = now;
    Ok(
        TokenTransfer {
            from: ctx.pool_token_account.key,
            to: ctx.recipient_token_account.key,
            authority: ctx.fund_authority,
            amount: amount,
        },
    )
}

} // verus!
