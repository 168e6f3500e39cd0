use vstd::prelude::*;

use crate::errors::PensionError;
use crate::key::AccountKey;
use crate::math::{bps_share, checked_bps_share, fits_i64, fits_u64, sat_sub};
use crate::state::{AffiliateAccount, FundConfig, InvestmentPool};

verus! {

/// Minimum seconds between keeper harvests (24 hours).
pub const MIN_HARVEST_INTERVAL: i64 = 86_400;

/// The accounts a harvest reads and writes.
#[derive(Clone, Debug)]
pub struct HarvestYield {
    pub fund_config: FundConfig,
    pub pool: InvestmentPool,
    pub affiliate_account: AffiliateAccount,
    /// The signing keeper.
    pub keeper: AccountKey,
}

/// The account constraints, in the order they are checked.
pub open spec fn account_check(c: HarvestYield) -> Option<PensionError> {
    if c.fund_config.paused {
        Some(PensionError::FundPaused)
    } else if c.fund_config.authority@ != c.keeper@ {
        Some(PensionError::Unauthorized)
    } else if c.affiliate_account.deceased {
        Some(PensionError::AccountDeceased)
    } else if c.affiliate_account.risk_profile != c.pool.risk_profile {
        Some(PensionError::PoolMismatch)
    } else {
        None
    }
}

/// The pool has been harvested before: only then does `last_harvest_at` hold a harvest time.
pub open spec fn harvested_before(c: HarvestYield) -> bool {
    c.pool.harvested
}

/// Inputs on which the interval arithmetic leaves `i64`: the instruction aborts there.
pub open spec fn aborts(c: HarvestYield, now: i64) -> bool {
    account_check(c) is None && harvested_before(c) && !fits_i64(now - c.pool.last_harvest_at)
}

/// Protocol fee taken from a harvested `yield_amount`.
pub open spec fn protocol_fee(cfg: FundConfig, yield_amount: u64) -> int {
    bps_share(yield_amount as int, cfg.protocol_fee_bps as int)
}

/// Yield credited after the protocol fee.
pub open spec fn net_yield(cfg: FundConfig, yield_amount: u64) -> int {
    sat_sub(yield_amount as int, protocol_fee(cfg, yield_amount))
}

/// Why the harvest is refused, checked in order; `None` when it is credited.
pub open spec fn harvest_error(c: HarvestYield, yield_amount: u64, now: i64) -> Option<PensionError> {
    let net = net_yield(c.fund_config, yield_amount);
    if account_check(c) is Some {
        account_check(c)
    } else if harvested_before(c) && now - c.pool.last_harvest_at < MIN_HARVEST_INTERVAL {
        Some(PensionError::HarvestTooEarly)
    } else if !fits_u64(yield_amount * c.fund_config.protocol_fee_bps) {
        Some(PensionError::ContributionOverflow)
    } else if !fits_u64(c.affiliate_account.accrued_yield + net) {
        Some(PensionError::ContributionOverflow)
    } else if !fits_u64(c.pool.total_yield + net) {
        Some(PensionError::ContributionOverflow)
    } else {
        None
    }
}

/// The accounts after a harvest is credited.
pub open spec fn harvest_applied(c: HarvestYield, new_apy_bps: u16, yield_amount: u64, now: i64) -> HarvestYield {
    let net = net_yield(c.fund_config, yield_amount);
    HarvestYield {
        affiliate_account: AffiliateAccount {
            accrued_yield: (c.affiliate_account.accrued_yield + net) as u64,
            ..c.affiliate_account
        },
        pool: InvestmentPool {
            total_yield: (c.pool.total_yield + net) as u64,
            current_apy_bps: new_apy_bps,
            last_harvest_at: now,
            harvested: true,
            ..c.pool
        },
        ..c
    }
}

/// Whether the harvest would abort on these inputs (see `aborts`).
pub fn would_abort(ctx: &HarvestYield, now: i64) -> (r: bool)
    ensures
        r == aborts(*ctx, now),
{
    let since: i128 = now as i128 - ctx.pool.last_harvest_at as i128;
    !ctx.fund_config.paused && ctx.fund_config.authority == ctx.keeper
        && !ctx.affiliate_account.deceased && ctx.affiliate_account.risk_profile
        == ctx.pool.risk_profile && ctx.pool.harvested && (since < i64::MIN as i128
        || since > i64::MAX as i128)
}

/// The keeper reports a new APY and credits `yield_amount`, net of the protocol fee,
/// to the affiliate and to the pool at `now`. A pool's first harvest may come at any time;
/// later ones at least 24 hours apart. A refused harvest changes nothing.
pub fn handler(ctx: &mut HarvestYield, new_apy_bps: u16, yield_amount: u64, now: i64) -> (r: Result<(), PensionError>)
    requires
        !aborts(*old(ctx), now),
    ensures
        match r {
            Ok(()) => {
                &&& harvest_error(*old(ctx), yield_amount, now) is None
                &&& *final(ctx) == harvest_applied(*old(ctx), new_apy_bps, yield_amount, now)
            },
            Err(e) => {
                &&& harvest_error(*old(ctx), yield_amount, now) == Some(e)
                &&& *final(ctx) == *old(ctx)
            },
        },
{
    let cfg: FundConfig = ctx.fund_config;
    if cfg.paused {
        return Err(PensionError::FundPaused);
    }
    if !(cfg.authority == ctx.keeper) {
        return Err(PensionError::Unauthorized);
    }
    if ctx.affiliate_account.deceased {
        return Err(PensionError::AccountDeceased);
    }
    if ctx.affiliate_account.risk_profile != ctx.pool.risk_profile {
        return Err(PensionError::PoolMismatch);
    }
    if ctx.pool.harvested && now - ctx.pool.last_harvest_at < MIN_HARVEST_INTERVAL {
        return Err(PensionError::HarvestTooEarly);
    }
    let fee = match checked_bps_share(yield_amount, cfg.protocol_fee_bps as u64) {
        Some(f) => f,
        None => {
            return Err(PensionError::ContributionOverflow);
        },
    };
    let net = yield_amount.saturating_sub(fee);
    let accrued = match ctx.affiliate_account.accrued_yield.checked_add(net) {
        Some(a) => a,
        None => {
            return Err(PensionError::ContributionOverflow);
        },
    };
    let pool_yield = match ctx.pool.total_yield.checked_add(net) {
        Some(y) => y,
        None => {
            return Err(PensionError::ContributionOverflow);
        },
    };
    ctx.affiliate_account.accrued_yield = accrued;
    ctx.pool.total_yield = pool_yield;
    ctx.pool.current_apy_bps = new_apy_bps;
    ctx.pool.last_harvest_at = now;
    ctx.pool.harvested = true;
    Ok(())
}

} // verus!
