use vstd::prelude::*;

use crate::errors::PensionError;
use crate::key::AccountKey;
use crate::math::{fits_i64, fits_u64, sat_sub};
use crate::state::{AffiliateAccount, FundConfig, InvestmentPool, RiskProfile};

verus! {

/// Minimum seconds between risk profile changes (180 days).
pub const MIN_PROFILE_CHANGE_INTERVAL: i64 = 15_552_000;

/// The accounts a risk profile change reads and writes.
#[derive(Clone, Debug)]
pub struct UpdateRiskProfile {
    pub fund_config: FundConfig,
    pub affiliate_account: AffiliateAccount,
    /// The pool being left.
    pub old_pool: InvestmentPool,
    /// The pool being joined.
    pub new_pool: InvestmentPool,
    /// The signing affiliate wallet.
    pub affiliate: AccountKey,
}

/// The account constraints, in the order they are checked.
pub open spec fn account_check(c: UpdateRiskProfile) -> Option<PensionError> {
    if c.fund_config.paused {
        Some(PensionError::FundPaused)
    } else if c.affiliate_account.deceased {
        Some(PensionError::AccountDeceased)
    } else if c.affiliate_account.owner@ != c.affiliate@ {
        Some(PensionError::Unauthorized)
    } else {
        None
    }
}

/// The cooldown applies once the profile has been changed before: the first change is free.
pub open spec fn cooldown_applies(c: UpdateRiskProfile) -> bool {
    c.affiliate_account.last_profile_change_at is Some
}

/// Seconds since the last profile change (meaningful when `cooldown_applies`).
pub open spec fn since_last_change(c: UpdateRiskProfile, now: i64) -> int {
    match c.affiliate_account.last_profile_change_at {
        Some(t) => now - t,
        None => 0,
    }
}

/// Inputs on which the cooldown arithmetic leaves `i64`: the instruction aborts there.
pub open spec fn aborts(c: UpdateRiskProfile, now: i64) -> bool {
    account_check(c) is None && cooldown_applies(c) && !fits_i64(since_last_change(c, now))
}

/// Why the change is refused, checked in order; `None` when it is made.
pub open spec fn update_error(c: UpdateRiskProfile, now: i64) -> Option<PensionError> {
    if account_check(c) is Some {
        account_check(c)
    } else if cooldown_applies(c) && since_last_change(c, now) < MIN_PROFILE_CHANGE_INTERVAL {
        Some(PensionError::PeriodNotElapsed)
    } else if c.new_pool.affiliate_count == u32::MAX {
        Some(PensionError::ContributionOverflow)
    } else if !fits_u64(c.new_pool.total_principal + c.affiliate_account.total_contributed) {
        Some(PensionError::ContributionOverflow)
    } else {
        None
    }
}

/// The accounts after the change at `now`: the affiliate and its principal move from the
/// old pool's tallies to the new pool's, and the change time is recorded.
pub open spec fn update_applied(
    c: UpdateRiskProfile,
    new_risk_profile: RiskProfile,
    advisor_session_hash: [u8; 32],
    now: i64,
) -> UpdateRiskProfile {
    let tc = c.affiliate_account.total_contributed;
    UpdateRiskProfile {
        affiliate_account: AffiliateAccount {
            risk_profile: new_risk_profile,
            advisor_session_hash: advisor_session_hash,
            last_profile_change_at: Some(now),
            ..c.affiliate_account
        },
        old_pool: InvestmentPool {
            affiliate_count: sat_sub(c.old_pool.affiliate_count as int, 1) as u32,
            total_principal: sat_sub(c.old_pool.total_principal as int, tc as int) as u64,
            ..c.old_pool
        },
        new_pool: InvestmentPool {
            affiliate_count: (c.new_pool.affiliate_count + 1) as u32,
            total_principal: (c.new_pool.total_principal + tc) as u64,
            ..c.new_pool
        },
        ..c
    }
}

/// Whether the change would abort on these inputs (see `aborts`).
pub fn would_abort(ctx: &UpdateRiskProfile, now: i64) -> (r: bool)
    ensures
        r == aborts(*ctx, now),
{
    match ctx.affiliate_account.last_profile_change_at {
        Some(last) => {
            let since: i128 = now as i128 - last as i128;
            !ctx.fund_config.paused && !ctx.affiliate_account.deceased
                && ctx.affiliate_account.owner == ctx.affiliate && (since < i64::MIN as i128
                || since > i64::MAX as i128)
        },
        None => false,
    }
}

/// Changes the affiliate's risk profile at `now` (at most once per 180 days) and moves
/// its count and principal between the pools.
/// A refused change changes nothing.
pub fn handler(
    ctx: &mut UpdateRiskProfile,
    new_risk_profile: RiskProfile,
    advisor_session_hash: [u8; 32],
    now: i64,
) -> (r: Result<(), PensionError>)
    requires
        !aborts(*old(ctx), now),
    ensures
        match r {
            Ok(()) => {
                &&& update_error(*old(ctx), now) is None
                &&& *final(ctx) == update_applied(*old(ctx), new_risk_profile, advisor_session_hash, now)
            },
            Err(e) => {
                &&& update_error(*old(ctx), now) == Some(e)
                &&& *final(ctx) == *old(ctx)
            },
        },
{
    if ctx.fund_config.paused {
        return Err(PensionError::FundPaused);
    }
    if ctx.affiliate_account.deceased {
        return Err(PensionError::AccountDeceased);
    }
    if !(ctx.affiliate_account.owner == ctx.affiliate) {
        return Err(PensionError::Unauthorized);
    }
    if let Some(last) = ctx.affiliate_account.last_profile_change_at {
        if now - last < MIN_PROFILE_CHANGE_INTERVAL {
            return Err(PensionError::PeriodNotElapsed);
        }
    }
    let new_count = match ctx.new_pool.affiliate_count.checked_add(1) {
        Some(n) => n,
        None => {
            return Err(PensionError::ContributionOverflow);
        },
    };
    let contributed = ctx.affiliate_account.total_contributed;
    let new_principal = match ctx.new_pool.total_principal.checked_add(contributed) {
        Some(p) => p,
        None => {
            return Err(PensionError::ContributionOverflow);
        },
    };
    ctx.old_pool.affiliate_count = ctx.old_pool.affiliate_count.saturating_sub(1);
    ctx.new_pool.affiliate_count = new_count;
    ctx.old_pool.total_principal = ctx.old_pool.total_principal.saturating_sub(contributed);
    ctx.new_pool.total_principal = new_principal;
    ctx.affiliate_account.risk_profile = new_risk_profile;
    ctx.affiliate_account.advisor_session_hash = advisor_session_hash;
    ctx.affiliate_account.last_profile_change_at = Some(now);
    Ok(())
}

} // verus!
