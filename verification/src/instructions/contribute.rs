use vstd::prelude::*;

use crate::errors::PensionError;
use crate::key::{AccountKey, TokenAccountInfo, TokenTransfer};
use crate::math::{
    bps_share, checked_bps_share, fits_i64, fits_u64, min_int, sat_sub, signed_div, trunc_div,
};
use crate::state::{AffiliateAccount, ContributionRecord, FundConfig, InvestmentPool};

verus! {

/// The accounts a contribution reads and writes.
#[derive(Clone, Debug)]
pub struct Contribute {
    pub fund_config: FundConfig,
    pub affiliate_account: AffiliateAccount,
    pub pool: InvestmentPool,
    pub contribution_record: ContributionRecord,
    /// The affiliate's source token account.
    pub affiliate_token_account: TokenAccountInfo,
    /// The pool's destination token account.
    pub pool_token_account: TokenAccountInfo,
    /// The signing affiliate wallet.
    pub affiliate: AccountKey,
}

/// The account constraints, in the order they are checked.
pub open spec fn account_check(c: Contribute) -> Option<PensionError> {
    if c.fund_config.paused {
        Some(PensionError::FundPaused)
    } else if c.affiliate_account.deceased {
        Some(PensionError::AccountDeceased)
    } else if c.affiliate_account.owner@ != c.affiliate@ {
        Some(PensionError::Unauthorized)
    } else if c.affiliate_token_account.owner@ != c.affiliate@ {
        Some(PensionError::Unauthorized)
    } else if c.affiliate_token_account.mint@ != c.fund_config.accepted_mint@ {
        Some(PensionError::PoolMismatch)
    } else if c.pool_token_account.key@ != c.pool.token_account@ {
        Some(PensionError::PoolMismatch)
    } else {
        None
    }
}

/// Earliest time at which period `period_index` may be paid.
pub open spec fn period_start_of(c: Contribute, period_index: u32) -> int {
    c.affiliate_account.enrolled_at + period_index * c.fund_config.contribution_period
}

/// The timing arithmetic leaves the range of `i64` or divides by zero: the instruction
/// aborts there.
pub open spec fn timing_overflows(c: Contribute, period_index: u32, now: i64) -> bool {
    let period = c.fund_config.contribution_period;
    let elapsed = now - c.affiliate_account.enrolled_at;
    c.affiliate_account.last_contribution_at > 0 && {
        ||| !fits_i64(period_index * period)
        ||| !fits_i64(period_start_of(c, period_index))
        ||| (now >= period_start_of(c, period_index) && {
            ||| !fits_i64(elapsed)
            ||| period == 0
            ||| (period == -1 && elapsed == i64::MIN)
        })
    }
}

/// Inputs on which the instruction aborts instead of answering.
pub open spec fn aborts(c: Contribute, period_index: u32, amount: u64, now: i64) -> bool {
    &&& account_check(c) is None
    &&& amount >= c.fund_config.min_contribution
    &&& timing_overflows(c, period_index, now)
}

/// The period record, opened for `period_index` if no deposit has touched it yet.
pub open spec fn opened_record(c: Contribute, period_index: u32, now: i64) -> ContributionRecord {
    let r = c.contribution_record;
    if r.is_fresh() {
        ContributionRecord {
            affiliate: c.affiliate,
            period_index: period_index,
            period_start: now,
            met_minimum: false,
            penalty_applied: false,
            ..r
        }
    } else {
        r
    }
}

/// No contribution has been made yet: this one enrolls the affiliate.
pub open spec fn is_first_contribution(c: Contribute) -> bool {
    c.affiliate_account.last_contribution_at <= 0
}

/// Periods elapsed since enrollment, once the affiliate has contributed before.
pub open spec fn expected_periods(c: Contribute, now: i64) -> u32 {
    if c.affiliate_account.last_contribution_at > 0 {
        trunc_div(
            now - c.affiliate_account.enrolled_at,
            c.fund_config.contribution_period as int,
        ) as u32
    } else {
        0
    }
}

/// Elapsed periods that were not completed.
pub open spec fn missed_count(c: Contribute, now: i64) -> int {
    sat_sub(expected_periods(c, now) as int, c.affiliate_account.periods_completed as int)
}

/// A missed-period penalty is due: more periods missed than the grace allows,
/// and none applied yet for this period.
pub open spec fn penalty_due(c: Contribute, period_index: u32, now: i64) -> bool {
    missed_count(c, now) > c.fund_config.grace_periods && !opened_record(
        c,
        period_index,
        now,
    ).penalty_applied
}

/// Penalty rate: the per-period penalty times the periods missed beyond the grace.
pub open spec fn penalty_rate_bps(c: Contribute, now: i64) -> int {
    c.fund_config.missed_period_penalty_bps * (missed_count(c, now)
        - c.fund_config.grace_periods)
}

/// Yield deducted as missed-period penalty.
pub open spec fn penalty_amount(c: Contribute, now: i64) -> int {
    bps_share(c.affiliate_account.accrued_yield as int, penalty_rate_bps(c, now))
}

/// Why the contribution is refused, checked in order; `None` when it is accepted.
pub open spec fn contribute_error(c: Contribute, period_index: u32, amount: u64, now: i64) -> Option<
    PensionError,
> {
    if account_check(c) is Some {
        account_check(c)
    } else if amount < c.fund_config.min_contribution {
        Some(PensionError::BelowMinimumContribution)
    } else if c.affiliate_account.last_contribution_at > 0 && now < period_start_of(
        c,
        period_index,
    ) {
        Some(PensionError::PeriodNotElapsed)
    } else if penalty_due(c, period_index, now) && !fits_u64(
        c.affiliate_account.accrued_yield * penalty_rate_bps(c, now),
    ) {
        Some(PensionError::ContributionOverflow)
    } else if !fits_u64(opened_record(c, period_index, now).amount_deposited + amount)
        || !fits_u64(c.affiliate_account.total_contributed + amount) || !fits_u64(
        c.pool.total_principal + amount,
    ) {
        Some(PensionError::ContributionOverflow)
    } else {
        None
    }
}

/// The accounts after an accepted contribution.
pub open spec fn contribute_applied(c: Contribute, period_index: u32, amount: u64, now: i64) -> Contribute {
    let rec = opened_record(c, period_index, now);
    let due = penalty_due(c, period_index, now);
    let acc = c.affiliate_account;
    let yield_after = if due {
        sat_sub(acc.accrued_yield as int, penalty_amount(c, now))
    } else {
        acc.accrued_yield as int
    };
    let missed_after = if due {
        min_int(missed_count(c, now), 255)
    } else {
        acc.missed_periods as int
    };
    let deposited = rec.amount_deposited + amount;
    let met = deposited >= c.fund_config.min_contribution;
    let newly_met = met && !rec.met_minimum;
    Contribute {
        contribution_record: ContributionRecord {
            amount_deposited: deposited as u64,
            last_deposit_at: now,
            met_minimum: met,
            penalty_applied: rec.penalty_applied || due,
            ..rec
        },
        affiliate_account: AffiliateAccount {
            accrued_yield: yield_after as u64,
            missed_periods: (if met {
                0
            } else {
                missed_after
            }) as u8,
            total_contributed: (acc.total_contributed + amount) as u64,
            enrolled_at: if is_first_contribution(c) {
                now
            } else {
                acc.enrolled_at
            },
            last_contribution_at: now,
            periods_completed: (if newly_met {
                min_int(acc.periods_completed + 1, u32::MAX as int)
            } else {
                acc.periods_completed as int
            }) as u32,
            ..acc
        },
        pool: InvestmentPool {
            total_principal: (c.pool.total_principal + amount) as u64,
            ..c.pool
        },
        ..c
    }
}

/// Whether the contribution would abort on these inputs (see `aborts`).
pub fn would_abort(ctx: &Contribute, period_index: u32, amount: u64, now: i64) -> (r: bool)
    ensures
        r == aborts(*ctx, period_index, amount, now),
{
    let checks_pass = !ctx.fund_config.paused && !ctx.affiliate_account.deceased
        && ctx.affiliate_account.owner == ctx.affiliate && ctx.affiliate_token_account.owner
        == ctx.affiliate && ctx.affiliate_token_account.mint == ctx.fund_config.accepted_mint
        && ctx.pool_token_account.key == ctx.pool.token_account;
    if !checks_pass || amount < ctx.fund_config.min_contribution
        || ctx.affiliate_account.last_contribution_at <= 0 {
        return false;
    }
    let period: i128 = ctx.fund_config.contribution_period as i128;
    let enrolled: i128 = ctx.affiliate_account.enrolled_at as i128;
    let index: i128 = period_index as i128;
    assert(-0x1_0000_0000_0000_0000_0000_0000 <= index * period <= 0x1_0000_0000_0000_0000_0000_0000)
        by (nonlinear_arith)
        requires
            0 <= index <= u32::MAX,
            i64::MIN <= period <= i64::MAX,
    ;
    let offset: i128 = index * period;
    let start: i128 = enrolled + offset;
    let elapsed: i128 = now as i128 - enrolled;
    let min: i128 = i64::MIN as i128;
    let max: i128 = i64::MAX as i128;
    if offset < min || offset > max || start < min || start > max {
        return true;
    }
    (now as i128) >= start && (elapsed < min || elapsed > max || period == 0 || (period == -1
        && elapsed == min))
}

/// Deposits `amount` for period `period_index` at time `now`.
///
/// Applies the missed-period penalty to the accrued yield when due, records the deposit
/// and credits principal to the affiliate and to the pool. The first contribution sets the
/// enrollment time; a period counts as completed once, when its deposits first reach the
/// minimum. On success the returned
/// transfer moves `amount` from the affiliate's token account to the pool's.
/// A refused contribution changes nothing.
pub fn handler(ctx: &mut Contribute, period_index: u32, amount: u64, now: i64) -> (r: Result<
    TokenTransfer,
    PensionError,
>)
    requires
        !aborts(*old(ctx), period_index, amount, now),
    ensures
        match r {
            Ok(t) => {
                &&& contribute_error(*old(ctx), period_index, amount, now) is None
                &&& *final(ctx) == contribute_applied(*old(ctx), period_index, amount, now)
                &&& t == (TokenTransfer {
                    from: old(ctx).affiliate_token_account.key,
                    to: old(ctx).pool_token_account.key,
                    authority: old(ctx).affiliate,
                    amount: amount,
                })
            },
            Err(e) => {
                &&& contribute_error(*old(ctx), period_index, amount, now) == Some(e)
                &&& *final(ctx) == *old(ctx)
            },
        },
{
    let cfg: FundConfig = ctx.fund_config;
    if cfg.paused {
        return Err(PensionError::FundPaused);
    }
    if ctx.affiliate_account.deceased {
        return Err(PensionError::AccountDeceased);
    }
    if !(ctx.affiliate_account.owner == ctx.affiliate) {
        return Err(PensionError::Unauthorized);
    }
    if !(ctx.affiliate_token_account.owner == ctx.affiliate) {
        return Err(PensionError::Unauthorized);
    }
    if !(ctx.affiliate_token_account.mint == cfg.accepted_mint) {
        return Err(PensionError::PoolMismatch);
    }
    if !(ctx.pool_token_account.key == ctx.pool.token_account) {
        return Err(PensionError::PoolMismatch);
    }
    if amount < cfg.min_contribution {
        return Err(PensionError::BelowMinimumContribution);
    }
    let last = ctx.affiliate_account.last_contribution_at;
    let enrolled = ctx.affiliate_account.enrolled_at;
    if last > 0 {
        let expected_period_start = enrolled + (period_index as i64 * cfg.contribution_period);
        if now < expected_period_start {
            return Err(PensionError::PeriodNotElapsed);
        }
    }
    let mut record: ContributionRecord = ctx.contribution_record;
    if record.period_index == 0 && record.amount_deposited == 0 {
        record.affiliate = ctx.affiliate;
        record.period_index = period_index;
        record.period_start = now;
        record.met_minimum = false;
        record.penalty_applied = false;
    }
    let expected: u32 = if last > 0 {
        signed_div(now - enrolled, cfg.contribution_period) as u32
    } else {
        0
    };
    let missed: u32 = expected.saturating_sub(ctx.affiliate_account.periods_completed);
    let mut accrued: u64 = ctx.affiliate_account.accrued_yield;
    let mut missed_field: u8 = ctx.affiliate_account.missed_periods;
    if missed > cfg.grace_periods as u32 && !record.penalty_applied {
        let penalty_periods: u32 = missed - cfg.grace_periods as u32;
        let per_period: u64 = cfg.missed_period_penalty_bps as u64;
        assert(per_period * (penalty_periods as u64) <= u64::MAX) by (nonlinear_arith)
            requires
                per_period <= 65_535,
                penalty_periods <= u32::MAX,
        ;
        let total_penalty_bps: u64 = per_period * (penalty_periods as u64);
        let penalty = match checked_bps_share(accrued, total_penalty_bps) {
            Some(p) => p,
            None => {
                return Err(PensionError::ContributionOverflow);
            },
        };
        accrued = accrued.saturating_sub(penalty);
        missed_field = if missed < 255 {
            missed as u8
        } else {
            255
        };
        record.penalty_applied = true;
    }
    let deposited = match record.amount_deposited.checked_add(amount) {
        Some(d) => d,
        None => {
            return Err(PensionError::ContributionOverflow);
        },
    };
    let contributed = match ctx.affiliate_account.total_contributed.checked_add(amount) {
        Some(t) => t,
        None => {
            return Err(PensionError::ContributionOverflow);
        },
    };
    let principal = match ctx.pool.total_principal.checked_add(amount) {
        Some(p) => p,
        None => {
            return Err(PensionError::ContributionOverflow);
        },
    };
    let was_met = record.met_minimum;
    record.amount_deposited = deposited;
    record.last_deposit_at = now;
    record.met_minimum = deposited >= cfg.min_contribution;
    let mut periods_completed: u32 = ctx.affiliate_account.periods_completed;
    if record.met_minimum {
        if !was_met {
            periods_completed = periods_completed.saturating_add(1);
        }
        missed_field = 0;
    }
    if last <= 0 {
        ctx.affiliate_account.enrolled_at = now;
    }
    ctx.contribution_record = record;
    ctx.affiliate_account.accrued_yield = accrued;
    ctx.affiliate_account.missed_periods = missed_field;
    ctx.affiliate_account.total_contributed = contributed;
    ctx.affiliate_account.last_contribution_at = now;
    ctx.affiliate_account.periods_completed = periods_completed;
    ctx.pool.total_principal = principal;
    Ok(
        TokenTransfer {
            from: ctx.affiliate_token_account.key,
            to: ctx.pool_token_account.key,
            authority: ctx.affiliate,
            amount: amount,
        },
    )
}

} // verus!
