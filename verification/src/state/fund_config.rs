use vstd::prelude::*;

use crate::key::AccountKey;

verus! {

/// The fund's global configuration.
#[derive(Clone, Copy, Debug)]
pub struct FundConfig {
    pub authority: AccountKey,
    pub accepted_mint: AccountKey,
    pub treasury: AccountKey,
    pub min_contribution: u64,
    pub contribution_period: i64,
    pub grace_periods: u8,
    pub missed_period_penalty_bps: u16,
    pub min_retirement_age: u8,
    pub min_contribution_years: u8,
    pub early_withdrawal_penalty_bps: u16,
    pub max_annual_withdrawal_bps: u16,
    pub emergency_release_bps: u16,
    pub disaster_release_bps: u16,
    pub protocol_fee_bps: u16,
    pub registrations_open: bool,
    pub paused: bool,
    pub bump: u8,
}

impl FundConfig {
    /// A configuration as fund creation leaves it: a positive contribution period and
    /// minimum contribution, and a minimum retirement age of at least 40. No instruction
    /// changes the configuration afterwards.
    pub open spec fn well_formed(&self) -> bool {
        &&& self.contribution_period > 0
        &&& self.min_contribution > 0
        &&& self.min_retirement_age >= 40
    }

    /// Serialized size of the configuration, discriminator included.
    pub const LEN: usize = 8 + 32 + 32 + 32 + 8 + 8 + 1 + 2 + 1 + 1 + 2 + 2 + 2 + 2 + 2 + 1 + 1 + 1;
}

} // verus!
