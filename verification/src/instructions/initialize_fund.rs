use vstd::prelude::*;

use crate::errors::PensionError;
use crate::key::AccountKey;
use crate::state::FundConfig;

verus! {

/// The accounts the fund's creation writes.
#[derive(Clone, Debug)]
pub struct InitializeFund {
    /// The new fund configuration.
    pub fund_config: FundConfig,
    /// The token mint that the fund accepts.
    pub accepted_mint: AccountKey,
    /// The fund's treasury token account.
    pub treasury: AccountKey,
    /// The signing deployer, who becomes the fund authority.
    pub authority: AccountKey,
    /// Bump seed of the configuration's address.
    pub fund_config_bump: u8,
}

/// Why the creation is refused, checked in order; `None` when it is made.
pub open spec fn initialize_fund_error(
    min_contribution: u64,
    contribution_period: i64,
    min_retirement_age: u8,
) -> Option<PensionError> {
    if contribution_period <= 0 {
        Some(PensionError::InvalidContributionPeriod)
    } else if min_contribution == 0 {
        Some(PensionError::InvalidMinContribution)
    } else if min_retirement_age < 40 {
        Some(PensionError::InvalidRetirementAge)
    } else {
        None
    }
}

/// The configuration a successful creation writes: the given parameters and the fund's
/// fixed rates (3 grace periods, 1% missed-period penalty, 10% early-withdrawal penalty,
/// 15% annual cap, 30% emergency and disaster release, 0.5% protocol fee).
pub open spec fn initial_config(
    c: InitializeFund,
    min_contribution: u64,
    contribution_period: i64,
    min_retirement_age: u8,
    min_contribution_years: u8,
) -> FundConfig {
    FundConfig {
        authority: c.authority,
        accepted_mint: c.accepted_mint,
        treasury: c.treasury,
        min_contribution: min_contribution,
        contribution_period: contribution_period,
        grace_periods: 3,
        missed_period_penalty_bps: 100,
        min_retirement_age: min_retirement_age,
        min_contribution_years: min_contribution_years,
        early_withdrawal_penalty_bps: 1_000,
        max_annual_withdrawal_bps: 1_500,
        emergency_release_bps: 3_000,
        disaster_release_bps: 3_000,
        protocol_fee_bps: 50,
        registrations_open: true,
        paused: false,
        bump: c.fund_config_bump,
    }
}

/// Creates the fund configuration. Contribution period and minimum contribution must be
/// positive and the minimum retirement age at least 40. A refused creation changes nothing.
pub fn handler(
    ctx: &mut InitializeFund,
    min_contribution: u64,
    contribution_period: i64,
    min_retirement_age: u8,
    min_contribution_years: u8,
) -> (r: Result<(), PensionError>)
    ensures
        match r {
            Ok(()) => {
                &&& initialize_fund_error(min_contribution, contribution_period, min_retirement_age) is None
                &&& final(ctx).fund_config.well_formed()
                &&& *final(ctx) == (InitializeFund {
                    fund_config: initial_config(
                        *old(ctx),
                        min_contribution,
                        contribution_period,
                        min_retirement_age,
                        min_contribution_years,
                    ),
                    ..*old(ctx)
                })
            },
            Err(e) => {
                &&& initialize_fund_error(min_contribution, contribution_period, min_retirement_age)
                    == Some(e)
                &&& *final(ctx) == *old(ctx)
            },
        },
{
    if contribution_period <= 0 {
        return Err(PensionError::InvalidContributionPeriod);
    }
    if min_contribution == 0 {
        return Err(PensionError::InvalidMinContribution);
    }
    if min_retirement_age < 40 {
        return Err(PensionError::InvalidRetirementAge);
    }
    ctx.fund_config = FundConfig {
        authority: ctx.authority,
        accepted_mint: ctx.accepted_mint,
        treasury: ctx.treasury,
        min_contribution: min_contribution,
        contribution_period: contribution_period,
        grace_periods: 3,
        missed_period_penalty_bps: 100,
        min_retirement_age: min_retirement_age,
        min_contribution_years: min_contribution_years,
        early_withdrawal_penalty_bps: 1_000,
        max_annual_withdrawal_bps: 1_500,
        emergency_release_bps: 3_000,
        disaster_release_bps: 3_000,
        protocol_fee_bps: 50,
        registrations_open: true,
        paused: false,
        bump: ctx.fund_config_bump,
    };
    Ok(())
}

} // verus!
