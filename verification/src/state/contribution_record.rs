use vstd::prelude::*;

use crate::key::{is_zero_hash, AccountKey};

verus! {

/// Ledger entry for a single contribution period of one affiliate.
#[derive(Clone, Copy, Debug)]
pub struct ContributionRecord {
    /// The affiliate this record belongs to.
    pub affiliate: AccountKey,
    /// Sequential period index (0-based).
    pub period_index: u32,
    /// Total amount deposited during this period.
    pub amount_deposited: u64,
    /// Unix timestamp of the first deposit in this period.
    pub period_start: i64,
    /// Unix timestamp of the last deposit in this period.
    pub last_deposit_at: i64,
    /// Whether the minimum contribution requirement was met this period.
    pub met_minimum: bool,
    /// Whether a missed-period penalty was applied.
    pub penalty_applied: bool,
    /// Address bump seed.
    pub bump: u8,
}

impl ContributionRecord {
    /// Serialized size of the record, discriminator included.
    pub const LEN: usize = 8 + 32 + 4 + 8 + 8 + 8 + 1 + 1 + 1;

    /// A record that no deposit has touched yet.
    pub open spec fn is_fresh(&self) -> bool {
        self.period_index == 0 && self.amount_deposited == 0
    }
}

impl Default for ContributionRecord {
    fn default() -> (r: ContributionRecord)
        ensures
            is_zero_hash(r.affiliate@),
            r.affiliate@.len() == 32,
            r.period_index == 0,
            r.amount_deposited == 0,
            r.period_start == 0,
            r.last_deposit_at == 0,
            !r.met_minimum,
            !r.penalty_applied,
            r.bump == 0,
    {
        ContributionRecord {
            affiliate: AccountKey::zeroed(),
            period_index: 0,
            amount_deposited: 0,
            period_start: 0,
            last_deposit_at: 0,
            met_minimum: false,
            penalty_applied: false,
            bump: 0,
        }
    }
}

} // verus!
