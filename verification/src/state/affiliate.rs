use vstd::prelude::*;

use crate::key::{is_zero_hash, zero_bytes32, AccountKey};
use crate::math::{fits_i64, trunc_div, SECONDS_PER_YEAR};

verus! {

/// Risk profile chosen (or recommended) for an affiliate.
#[derive(Clone, Copy, PartialEq, Eq, Structural, Debug)]
pub enum RiskProfile {
    Conservative,
    Balanced,
    Aggressive,
}

impl Default for RiskProfile {
    fn default() -> (p: RiskProfile)
        ensures
            p == RiskProfile::Conservative,
    {
        RiskProfile::Conservative
    }
}

/// Withdrawal modality selected at retirement.
#[derive(Clone, Copy, PartialEq, Eq, Structural, Debug)]
pub enum WithdrawalMode {
    NotSet,
    MonthlyPayments,
    ProgrammedFund,
    LumpSum,
    Mixed,
}

impl Default for WithdrawalMode {
    fn default() -> (m: WithdrawalMode)
        ensures
            m == WithdrawalMode::NotSet,
    {
        WithdrawalMode::NotSet
    }
}

/// A registered beneficiary entry: wallet and share in basis points.
/// All beneficiary shares of an account sum to 10_000.
#[derive(Clone, Copy, Debug)]
pub struct Beneficiary {
    pub wallet: AccountKey,
    pub share_bps: u16,
}

impl Beneficiary {
    /// Serialized size: wallet + share_bps.
    pub const LEN: usize = 34;
}

impl Default for Beneficiary {
    fn default() -> (b: Beneficiary)
        ensures
            is_zero_hash(b.wallet@),
            b.wallet@.len() == 32,
            b.share_bps == 0,
    {
        Beneficiary { wallet: AccountKey::zeroed(), share_bps: 0 }
    }
}

/// Sum of the beneficiaries' shares, in basis points.
pub open spec fn share_total(b: Seq<Beneficiary>) -> int
    decreases b.len(),
{
    if b.len() == 0 {
        0
    } else {
        share_total(b.drop_last()) + b.last().share_bps
    }
}

/// The beneficiary list is acceptable: empty, or shares summing to exactly 10_000 bps.
pub open spec fn shares_valid(b: Seq<Beneficiary>) -> bool {
    b.len() == 0 || share_total(b) == 10_000
}

/// Each share is at most `u16::MAX`, so the total is bounded by the length.
pub proof fn lemma_share_total_bounds(b: Seq<Beneficiary>)
    ensures
        0 <= share_total(b) <= b.len() * 65_535,
    decreases b.len(),
{
    if b.len() > 0 {
        lemma_share_total_bounds(b.drop_last());
    }
}

/// Totals of prefixes grow toward the total of the whole list.
pub proof fn lemma_share_total_prefix(b: Seq<Beneficiary>, i: int)
    requires
        0 <= i <= b.len(),
    ensures
        share_total(b.take(i)) <= share_total(b),
    decreases b.len() - i,
{
    if i < b.len() {
        lemma_share_total_prefix(b, i + 1);
        assert(b.take(i + 1).drop_last() =~= b.take(i));
    } else {
        assert(b.take(i) =~= b);
    }
}

/// Sums the shares of `b` in `u32`.
pub fn share_sum(b: &Vec<Beneficiary>) -> (total: u32)
    requires
        share_total(b@) <= u32::MAX,
    ensures
        total == share_total(b@),
{
    let mut total: u32 = 0;
    let mut i: usize = 0;
    while i < b.len()
        invariant
            i <= b.len(),
            share_total(b@) <= u32::MAX,
            total == share_total(b@.take(i as int)),
        decreases b.len() - i,
    {
        proof {
            lemma_share_total_prefix(b@, i + 1);
            assert(b@.take(i + 1).drop_last() =~= b@.take(i as int));
        }
        total = total + b[i].share_bps as u32;
        i = i + 1;
    }
    assert(b@.take(b.len() as int) =~= b@);
    total
}

/// Whether `index` is listed in `list`.
pub fn lists_index(list: &Vec<u8>, index: u8) -> (found: bool)
    ensures
        found == list@.contains(index),
{
    let mut i: usize = 0;
    while i < list.len()
        invariant
            i <= list.len(),
            forall|j: int| 0 <= j < i ==> list@[j] != index,
        decreases list.len() - i,
    {
        if list[i] == index {
            assert(list@[i as int] == index);
            return true;
        }
        i = i + 1;
    }
    false
}

/// Core per-affiliate account.
#[derive(Clone, Debug)]
pub struct AffiliateAccount {
    /// The wallet that owns this pension account.
    pub owner: AccountKey,
    /// Unix timestamp of the first contribution (0 until the first contribution).
    pub enrolled_at: i64,
    /// Date of birth as a Unix timestamp.
    pub date_of_birth: i64,
    /// ISO 3166-1 alpha-2 country code as two ASCII bytes.
    pub country_code: [u8; 2],
    /// Hash of the off-chain KYC document.
    pub kyc_doc_hash: [u8; 32],
    /// Selected risk profile.
    pub risk_profile: RiskProfile,
    /// Hash of the advisor session that produced the risk profile recommendation.
    pub advisor_session_hash: [u8; 32],
    /// Total tokens contributed (principal only).
    pub total_contributed: u64,
    /// Accrued yield in token base units.
    pub accrued_yield: u64,
    /// Timestamp of the most recent contribution.
    pub last_contribution_at: i64,
    /// Number of consecutive missed contribution periods.
    pub missed_periods: u8,
    /// Total number of contribution periods completed.
    pub periods_completed: u32,
    /// Whether the affiliate has reached retirement and unlocked withdrawals.
    pub retired: bool,
    /// Chosen withdrawal modality.
    pub withdrawal_mode: WithdrawalMode,
    /// Amount withdrawn in the current year (for the annual cap).
    pub withdrawn_this_year: u64,
    /// Year of the `withdrawn_this_year` counter.
    pub withdrawal_year: i16,
    /// Registered beneficiaries (at most 5).
    pub beneficiaries: Vec<Beneficiary>,
    /// Whether the account has been marked deceased.
    pub deceased: bool,
    /// Address bump seed.
    pub bump: u8,
    /// Unix timestamp of the last risk profile change (`None` if never changed).
    pub last_profile_change_at: Option<i64>,
    /// Principal held when the affiliate was marked deceased: the base of inheritance shares.
    pub principal_at_death: u64,
    /// Yield held when the affiliate was marked deceased: the base of inheritance shares.
    pub yield_at_death: u64,
    /// Indices of the beneficiaries whose inheritance has been paid.
    pub paid_beneficiaries: Vec<u8>,
}

/// Age in whole years at `ts` of someone born at `dob`, clamped to `0..=255`.
pub open spec fn age_years(dob: int, ts: int) -> int {
    let years = trunc_div(ts - dob, SECONDS_PER_YEAR as int);
    if years < 0 {
        0
    } else if years > 255 {
        255
    } else {
        years
    }
}

impl AffiliateAccount {
    /// Most beneficiaries an account may register.
    pub const MAX_BENEFICIARIES: usize = 5;

    /// Serialized size of the account, discriminator included.
    pub const LEN: usize = 8 + 32 + 8 + 8 + 2 + 32 + 1 + 32 + 8 + 8 + 8 + 1 + 4 + 1 + 1 + 8 + 2 + (4 + 5 * 34) + 1 + 1 + 9 + 8 + 8 + (4 + 5);

    /// Whole balance owned by the affiliate: principal plus yield.
    pub open spec fn balance(&self) -> int {
        self.total_contributed + self.accrued_yield
    }

    /// The estate at death: the balance held when the affiliate was marked deceased.
    pub open spec fn estate(&self) -> int {
        self.principal_at_death + self.yield_at_death
    }

    /// Age in full years as of the given unix timestamp (clamped to 0..=255).
    pub fn age_at(&self, ts: i64) -> (age: u8)
        requires
            fits_i64(ts - self.date_of_birth),
        ensures
            age == age_years(self.date_of_birth as int, ts as int),
    {
        let seconds_per_year: i64 = SECONDS_PER_YEAR;
        let years = (ts - self.date_of_birth) / seconds_per_year;
        if years < 0 {
            0
        } else if years > 255 {
            255
        } else {
            years as u8
        }
    }

    /// Years of contributions completed (twelve periods per year).
    pub fn contribution_years(&self) -> (years: u32)
        ensures
            years == self.periods_completed / 12,
    {
        self.periods_completed / 12
    }

    /// Beneficiary shares are valid: none registered, or they sum to exactly 10_000 bps.
    pub fn beneficiaries_valid(&self) -> (valid: bool)
        requires
            share_total(self.beneficiaries@) <= u32::MAX,
        ensures
            valid == shares_valid(self.beneficiaries@),
    {
        if self.beneficiaries.len() == 0 {
            return true;
        }
        let total: u32 = share_sum(&self.beneficiaries);
        total == 10_000
    }
}

impl Default for AffiliateAccount {
    fn default() -> (a: AffiliateAccount)
        ensures
            is_zero_hash(a.owner@),
            a.enrolled_at == 0,
            a.date_of_birth == 0,
            a.country_code@ == seq![0u8, 0u8],
            is_zero_hash(a.kyc_doc_hash@),
            a.risk_profile == RiskProfile::Conservative,
            is_zero_hash(a.advisor_session_hash@),
            a.total_contributed == 0,
            a.accrued_yield == 0,
            a.last_contribution_at == 0,
            a.missed_periods == 0,
            a.periods_completed == 0,
            !a.retired,
            a.withdrawal_mode == WithdrawalMode::NotSet,
            a.withdrawn_this_year == 0,
            a.withdrawal_year == 0,
            a.beneficiaries@.len() == 0,
            !a.deceased,
            a.bump == 0,
            a.last_profile_change_at is None,
            a.principal_at_death == 0,
            a.yield_at_death == 0,
            a.paid_beneficiaries@.len() == 0,
    {
        let a = AffiliateAccount {
            owner: AccountKey::zeroed(),
            enrolled_at: 0,
            date_of_birth: 0,
            country_code: [0u8, 0u8],
            kyc_doc_hash: zero_bytes32(),
            risk_profile: RiskProfile::Conservative,
            advisor_session_hash: zero_bytes32(),
            total_contributed: 0,
            accrued_yield: 0,
            last_contribution_at: 0,
            missed_periods: 0,
            periods_completed: 0,
            retired: false,
            withdrawal_mode: WithdrawalMode::NotSet,
            withdrawn_this_year: 0,
            withdrawal_year: 0,
            beneficiaries: Vec::new(),
            deceased: false,
            bump: 0,
            last_profile_change_at: None,
            principal_at_death: 0,
            yield_at_death: 0,
            paid_beneficiaries: Vec::new(),
        };
        assert(a.country_code@ =~= seq![0u8, 0u8]);
        a
    }
}

} // verus!
