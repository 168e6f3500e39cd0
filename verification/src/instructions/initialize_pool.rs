use vstd::prelude::*;

use crate::errors::PensionError;
use crate::key::{AccountKey, TokenAccountInfo};
use crate::state::investment_pool::default_allocation_of;
use crate::state::{FundConfig, InvestmentPool, RiskProfile};

verus! {

/// The accounts a pool's creation reads and writes.
#[derive(Clone, Debug)]
pub struct InitializePool {
    pub fund_config: FundConfig,
    /// The new pool.
    pub pool: InvestmentPool,
    /// Token account that will hold this pool's liquid balance.
    pub pool_token_account: TokenAccountInfo,
    /// The signing fund authority.
    pub authority: AccountKey,
    /// Bump seed of the pool's address.
    pub pool_bump: u8,
}

/// Why the creation is refused, checked in order; `None` when it is made.
pub open spec fn initialize_pool_error(c: InitializePool) -> Option<PensionError> {
    if c.fund_config.authority@ != c.authority@ {
        Some(PensionError::Unauthorized)
    } else if c.pool_token_account.mint@ != c.fund_config.accepted_mint@ {
        Some(PensionError::PoolMismatch)
    } else {
        None
    }
}

/// The accounts after the pool for `risk_profile` is created: empty, never harvested,
/// with the profile's default allocation.
pub open spec fn initialize_pool_applied(c: InitializePool, risk_profile: RiskProfile) -> InitializePool {
    InitializePool {
        pool: InvestmentPool {
            risk_profile: risk_profile,
            token_account: c.pool_token_account.key,
            total_principal: 0,
            total_yield: 0,
            current_apy_bps: 0,
            last_harvest_at: 0,
            harvested: false,
            affiliate_count: 0,
            allocation_bps: default_allocation_of(risk_profile),
            bump: c.pool_bump,
        },
        ..c
    }
}

/// Creates the investment pool of `risk_profile`, empty, never harvested and with the
/// profile's default allocation. A refused creation changes nothing.
pub fn handler(ctx: &mut InitializePool, risk_profile: RiskProfile) -> (r: Result<(), PensionError>)
    ensures
        match r {
            Ok(()) => {
                &&& initialize_pool_error(*old(ctx)) is None
                &&& *final(ctx) == initialize_pool_applied(*old(ctx), risk_profile)
            },
            Err(e) => {
                &&& initialize_pool_error(*old(ctx)) == Some(e)
                &&& *final(ctx) == *old(ctx)
            },
        },
{
    if !(ctx.fund_config.authority == ctx.authority) {
        return Err(PensionError::Unauthorized);
    }
    if !(ctx.pool_token_account.mint == ctx.fund_config.accepted_mint) {
        return Err(PensionError::PoolMismatch);
    }
    ctx.pool = InvestmentPool {
        risk_profile: risk_profile,
        token_account: ctx.pool_token_account.key,
        total_principal: 0,
        total_yield: 0,
        current_apy_bps: 0,
        last_harvest_at: 0,
        harvested: false,
        affiliate_count: 0,
        allocation_bps: InvestmentPool::default_allocation(risk_profile),
        bump: ctx.pool_bump,
    };
    Ok(())
}

} // verus!
