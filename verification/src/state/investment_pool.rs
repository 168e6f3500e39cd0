use vstd::prelude::*;

use crate::key::{is_zero_hash, AccountKey};
use crate::state::affiliate::RiskProfile;

verus! {

/// Record for each investment pool (Conservative / Balanced / Aggressive).
#[derive(Clone, Copy, Debug)]
pub struct InvestmentPool {
    /// Which risk profile this pool serves.
    pub risk_profile: RiskProfile,
    /// Token account that holds this pool's liquid balance.
    pub token_account: AccountKey,
    /// Total principal currently held in the pool.
    pub total_principal: u64,
    /// Total yield harvested and not yet distributed.
    pub total_yield: u64,
    /// Current APY in basis points as reported by the last harvest.
    pub current_apy_bps: u16,
    /// Unix timestamp of the last yield harvest (meaningful once `harvested`).
    pub last_harvest_at: i64,
    /// Whether the pool has been harvested at least once.
    pub harvested: bool,
    /// Number of affiliates currently allocated to this pool.
    pub affiliate_count: u32,
    /// Allocation breakdown in bps over stablecoins, bonds, equities, DeFi and growth.
    pub allocation_bps: [u16; 5],
    /// Address bump seed.
    pub bump: u8,
}

/// Default allocation per profile, in bps over the five asset classes.
pub open spec fn default_allocation_of(profile: RiskProfile) -> [u16; 5] {
    match profile {
        RiskProfile::Conservative => [4_000u16, 4_000u16, 2_000u16, 0u16, 0u16],
        RiskProfile::Balanced => [2_000u16, 3_000u16, 3_000u16, 2_000u16, 0u16],
        RiskProfile::Aggressive => [500u16, 1_000u16, 2_500u16, 3_500u16, 2_500u16],
    }
}

/// Sum of the five allocation entries.
pub open spec fn allocation_total(a: Seq<u16>) -> int {
    a[0] + a[1] + a[2] + a[3] + a[4]
}

impl InvestmentPool {
    /// Serialized size of the pool, discriminator included.
    pub const LEN: usize = 8 + 1 + 32 + 8 + 8 + 2 + 8 + 1 + 4 + 10 + 1;

    /// Default allocations per profile.
    pub fn default_allocation(profile: RiskProfile) -> (a: [u16; 5])
        ensures
            a == default_allocation_of(profile),
    {
        match profile {
            RiskProfile::Conservative => [4_000, 4_000, 2_000, 0, 0],
            RiskProfile::Balanced => [2_000, 3_000, 3_000, 2_000, 0],
            RiskProfile::Aggressive => [500, 1_000, 2_500, 3_500, 2_500],
        }
    }

    /// Whether the allocation percentages sum to exactly 10_000 bps.
    pub fn allocation_valid(&self) -> (valid: bool)
        ensures
            valid == (allocation_total(self.allocation_bps@) == 10_000),
    {
        let a = &self.allocation_bps;
        let total: u32 = a[0] as u32 + a[1] as u32 + a[2] as u32 + a[3] as u32 + a[4] as u32;
        total == 10_000
    }
}

/// Every profile's default allocation sums to exactly 10_000 bps.
pub proof fn lemma_default_allocation_complete(profile: RiskProfile)
    ensures
        allocation_total(default_allocation_of(profile)@) == 10_000,
{
}

impl Default for InvestmentPool {
    fn default() -> (p: InvestmentPool)
        ensures
            p.risk_profile == RiskProfile::Conservative,
            is_zero_hash(p.token_account@),
            p.token_account@.len() == 32,
            p.total_principal == 0,
            p.total_yield == 0,
            p.current_apy_bps == 0,
            p.last_harvest_at == 0,
            !p.harvested,
            p.affiliate_count == 0,
            p.allocation_bps@ == seq![0u16, 0u16, 0u16, 0u16, 0u16],
            p.bump == 0,
    {
        let p = InvestmentPool {
            risk_profile: RiskProfile::Conservative,
            token_account: AccountKey::zeroed(),
            total_principal: 0,
            total_yield: 0,
            current_apy_bps: 0,
            last_harvest_at: 0,
            harvested: false,
            affiliate_count: 0,
            allocation_bps: [0u16, 0u16, 0u16, 0u16, 0u16],
            bump: 0,
        };
        assert(p.allocation_bps@ =~= seq![0u16, 0u16, 0u16, 0u16, 0u16]);
        p
    }
}

} // verus!
