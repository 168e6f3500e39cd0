use vstd::prelude::*;

use crate::errors::PensionError;
use crate::instructions::approve_and_execute_withdrawal::{
    approve_applied, approve_error, recipient_allowed, ApproveAndExecuteWithdrawal,
};
use crate::instructions::contribute::{
    contribute_applied, contribute_error, is_first_contribution, penalty_due, Contribute,
};
use crate::instructions::harvest_yield::{
    harvest_applied, harvest_error, net_yield, protocol_fee, HarvestYield, MIN_HARVEST_INTERVAL,
};
use crate::instructions::initialize_fund::{initial_config, initialize_fund_error, InitializeFund};
use crate::instructions::initialize_pool::{
    initialize_pool_applied, initialize_pool_error, InitializePool,
};
use crate::instructions::mark_deceased::{mark_applied, mark_error, MarkDeceased};
use crate::instructions::process_inheritance::{
    account_check as inheritance_account_check, estate_payouts_total, inheritance_applied,
    inheritance_error, inheritance_payout, lemma_estate_payouts_total, ProcessInheritance,
};
use crate::instructions::register_affiliate::{register_applied, register_error, RegisterAffiliate};
use crate::instructions::request_early_voluntary_withdrawal::{
    early_amount, early_applied, early_error, early_penalty, RequestEarlyVoluntaryWithdrawal,
};
use crate::instructions::request_emergency_withdrawal::{
    emergency_amount, emergency_error, RequestEmergencyWithdrawal,
};
use crate::instructions::request_retirement_withdrawal::{
    annual_cap, retirement_applied, retirement_error, withdrawn_in_year,
    RequestRetirementWithdrawal,
};
use crate::instructions::update_risk_profile::{
    cooldown_applies, since_last_change, update_applied, update_error, UpdateRiskProfile, MIN_PROFILE_CHANGE_INTERVAL,
};
use crate::key::is_zero_hash;
use crate::math::{bps_share, lemma_bps_share_bounded, year_of, SECONDS_PER_YEAR};
use crate::state::affiliate::{age_years, shares_valid};
use crate::state::investment_pool::allocation_total;
use crate::state::{
    Beneficiary, RiskProfile, WithdrawalMode, WithdrawalReason, WithdrawalStatus,
};

verus! {

/// A created fund is well formed: its contribution period and minimum contribution are
/// positive and its minimum retirement age is at least 40.
pub proof fn law_created_fund_is_well_formed(
    c: InitializeFund,
    min_contribution: u64,
    contribution_period: i64,
    min_retirement_age: u8,
    min_contribution_years: u8,
)
    requires
        initialize_fund_error(min_contribution, contribution_period, min_retirement_age) is None,
    ensures
        initial_config(
            c,
            min_contribution,
            contribution_period,
            min_retirement_age,
            min_contribution_years,
        ).well_formed(),
{
}

/// A registration that is accepted leaves the account with at most five beneficiaries,
/// whose shares are valid: none at all, or summing to exactly 10_000 bps.
pub proof fn law_registered_beneficiaries_are_valid(
    c: RegisterAffiliate,
    date_of_birth: i64,
    country_code: [u8; 2],
    kyc_doc_hash: [u8; 32],
    risk_profile: RiskProfile,
    advisor_session_hash: [u8; 32],
    beneficiaries: Vec<Beneficiary>,
    paid_beneficiaries: Vec<u8>,
)
    requires
        register_error(c, beneficiaries@) is None,
    ensures
        ({
            let acc = register_applied(
                c,
                date_of_birth,
                country_code,
                kyc_doc_hash,
                risk_profile,
                advisor_session_hash,
                beneficiaries,
                paid_beneficiaries,
            ).affiliate_account;
            &&& shares_valid(acc.beneficiaries@)
            &&& acc.beneficiaries@.len() <= 5
            &&& acc.balance() == 0
        }),
{
}

/// Every pool is created with an allocation that sums to exactly 10_000 bps.
pub proof fn law_new_pool_allocation_is_complete(c: InitializePool, risk_profile: RiskProfile)
    requires
        initialize_pool_error(c) is None,
    ensures
        allocation_total(initialize_pool_applied(c, risk_profile).pool.allocation_bps@) == 10_000,
{
}

/// The protocol fee and the credited yield add up to the harvested amount, whenever the
/// fee rate is at most 100%; the credited yield never exceeds the harvested amount.
pub proof fn law_harvest_fee_split(c: HarvestYield, yield_amount: u64)
    requires
        c.fund_config.protocol_fee_bps <= 10_000,
    ensures
        protocol_fee(c.fund_config, yield_amount) + net_yield(c.fund_config, yield_amount)
            == yield_amount,
        0 <= net_yield(c.fund_config, yield_amount) <= yield_amount,
{
    lemma_bps_share_bounded(yield_amount as int, c.fund_config.protocol_fee_bps as int);
}

/// Two successive harvests credit the affiliate with the sum of their net yields.
pub proof fn law_harvests_accumulate(
    c: HarvestYield,
    apy1: u16,
    yield1: u64,
    now1: i64,
    apy2: u16,
    yield2: u64,
    now2: i64,
)
    requires
        harvest_error(c, yield1, now1) is None,
        harvest_error(harvest_applied(c, apy1, yield1, now1), yield2, now2) is None,
    ensures
        harvest_applied(harvest_applied(c, apy1, yield1, now1), apy2, yield2, now2).affiliate_account.accrued_yield
            == c.affiliate_account.accrued_yield + net_yield(c.fund_config, yield1) + net_yield(
            c.fund_config,
            yield2,
        ),
{
}

/// Two accepted harvests of a pool are at least 24 hours apart: after a harvest at `t1`,
/// a harvest of the pool it leaves, for any affiliate, is accepted only from
/// `t1 + MIN_HARVEST_INTERVAL` on.
pub proof fn law_harvests_are_a_day_apart(
    c: HarvestYield,
    apy1: u16,
    yield1: u64,
    t1: i64,
    later: HarvestYield,
    yield2: u64,
    t2: i64,
)
    requires
        harvest_error(c, yield1, t1) is None,
        later.pool == harvest_applied(c, apy1, yield1, t1).pool,
        harvest_error(later, yield2, t2) is None,
    ensures
        t2 - t1 >= MIN_HARVEST_INTERVAL,
{
}

/// A pool that has never been harvested can be harvested at once: a new pool starts
/// unharvested, and a harvest on an unharvested pool is never refused as too early.
pub proof fn law_first_harvest_is_never_early(
    p: InitializePool,
    risk_profile: RiskProfile,
    c: HarvestYield,
    yield_amount: u64,
    now: i64,
)
    requires
        initialize_pool_error(p) is None,
        !c.pool.harvested,
    ensures
        !initialize_pool_applied(p, risk_profile).pool.harvested,
        harvest_error(c, yield_amount, now) != Some(PensionError::HarvestTooEarly),
{
}

/// An accepted contribution credits exactly the deposited amount as principal, to the
/// affiliate and to the pool, and to the period's record; the affiliate's yield never grows.
/// The first contribution enrolls the affiliate at its time; later ones keep that time.
pub proof fn law_contribution_credits_principal(c: Contribute, period_index: u32, amount: u64, now: i64)
    requires
        contribute_error(c, period_index, amount, now) is None,
    ensures
        ({
            let after = contribute_applied(c, period_index, amount, now);
            &&& after.affiliate_account.total_contributed == c.affiliate_account.total_contributed + amount
            &&& after.pool.total_principal == c.pool.total_principal + amount
            &&& after.affiliate_account.accrued_yield <= c.affiliate_account.accrued_yield
            &&& after.contribution_record.met_minimum
            &&& after.affiliate_account.last_contribution_at == now
            &&& (is_first_contribution(c) ==> after.affiliate_account.enrolled_at == now)
            &&& (!is_first_contribution(c) ==> after.affiliate_account.enrolled_at
                == c.affiliate_account.enrolled_at)
        }),
{
}

/// A contribution period is counted once: the deposit that first meets the minimum in a
/// period's record completes at most one period, and a top-up into the same record
/// completes none.
pub proof fn law_period_counted_once(
    c: Contribute,
    period_index: u32,
    amount: u64,
    now: i64,
    top_up: u64,
    later: i64,
)
    requires
        c.fund_config.well_formed(),
        contribute_error(c, period_index, amount, now) is None,
        contribute_error(contribute_applied(c, period_index, amount, now), period_index, top_up, later)
            is None,
    ensures
        ({
            let mid = contribute_applied(c, period_index, amount, now);
            let after = contribute_applied(mid, period_index, top_up, later);
            &&& mid.affiliate_account.periods_completed <= c.affiliate_account.periods_completed + 1
            &&& after.affiliate_account.periods_completed == mid.affiliate_account.periods_completed
        }),
{
}

/// A period's record carries its missed-period penalty at most once: a due penalty is
/// recorded on the period's record, and once recorded, no later deposit into that period
/// is penalised again.
pub proof fn law_penalty_once_per_period(
    c: Contribute,
    period_index: u32,
    amount: u64,
    now: i64,
    later: i64,
)
    requires
        contribute_error(c, period_index, amount, now) is None,
        amount > 0,
    ensures
        penalty_due(c, period_index, now) ==> contribute_applied(
            c,
            period_index,
            amount,
            now,
        ).contribution_record.penalty_applied,
        contribute_applied(c, period_index, amount, now).contribution_record.penalty_applied
            ==> !penalty_due(contribute_applied(c, period_index, amount, now), period_index, later),
{
}

/// An executed request pays the affiliate, or the beneficiary it names, a positive amount
/// within the balance; it lowers the affiliate's balance by exactly the amount paid,
/// drawing on principal first, and the request can then not be executed again.
pub proof fn law_execution_pays_principal_first(c: ApproveAndExecuteWithdrawal, now: i64)
    requires
        approve_error(c) is None,
    ensures
        ({
            let after = approve_applied(c, now);
            let amount = c.withdrawal_request.amount_requested;
            let principal = c.affiliate_account.total_contributed;
            &&& 0 < amount <= c.affiliate_account.balance()
            &&& after.affiliate_account.balance() == c.affiliate_account.balance() - amount
            &&& recipient_allowed(c)
            &&& (amount <= principal ==> after.affiliate_account.accrued_yield
                == c.affiliate_account.accrued_yield)
            &&& (amount > principal ==> after.affiliate_account.total_contributed == 0)
            &&& after.withdrawal_request.status == WithdrawalStatus::Executed
            &&& after.withdrawal_request.amount_released == amount
            &&& approve_error(after) == Some(PensionError::RequestNotPending)
        }),
{
}

/// A retirement payout in a new year restarts the yearly counter at the amount paid;
/// in the same year it adds to it.
pub proof fn law_yearly_counter(c: ApproveAndExecuteWithdrawal, now: i64)
    requires
        approve_error(c) is None,
        c.withdrawal_request.reason == WithdrawalReason::Retirement,
    ensures
        ({
            let after = approve_applied(c, now).affiliate_account;
            let before = c.affiliate_account;
            let amount = c.withdrawal_request.amount_requested;
            &&& after.withdrawal_year == year_of(now as int)
            &&& (before.withdrawal_year != year_of(now as int) ==> after.withdrawn_this_year
                == amount)
            &&& (before.withdrawal_year == year_of(now as int) && before.withdrawn_this_year
                + amount <= u64::MAX ==> after.withdrawn_this_year == before.withdrawn_this_year
                + amount)
        }),
{
}

/// Every accepted retirement request, the first of a year included, keeps the year's
/// withdrawals with it within the annual cap share of the balance, and never asks for more
/// than the balance; the affiliate is of retirement age with the required contribution
/// years.
pub proof fn law_retirement_request_within_limits(
    c: RequestRetirementWithdrawal,
    amount_requested: u64,
    withdrawal_mode: WithdrawalMode,
    now: i64,
)
    requires
        retirement_error(c, amount_requested, withdrawal_mode, now) is None,
    ensures
        withdrawal_mode != WithdrawalMode::NotSet,
        age_years(c.affiliate_account.date_of_birth as int, now as int)
            >= c.fund_config.min_retirement_age,
        c.affiliate_account.periods_completed / 12 >= c.fund_config.min_contribution_years,
        amount_requested <= c.affiliate_account.balance(),
        withdrawn_in_year(c.affiliate_account, now) + amount_requested <= annual_cap(c),
        amount_requested <= annual_cap(c),
{
}

/// An emergency request asks for at most the balance when the release rate is at most 100%.
pub proof fn law_emergency_amount_bounded(c: RequestEmergencyWithdrawal, reason: WithdrawalReason)
    requires
        c.fund_config.emergency_release_bps <= 10_000,
        c.fund_config.disaster_release_bps <= 10_000,
    ensures
        0 <= emergency_amount(c, reason) <= c.affiliate_account.balance(),
{
    let bps = if reason == WithdrawalReason::MedicalEmergency {
        c.fund_config.emergency_release_bps as int
    } else {
        c.fund_config.disaster_release_bps as int
    };
    lemma_bps_share_bounded(c.affiliate_account.balance(), bps);
}

/// An early request asks for at most a tenth of the balance, and its penalty, taken from
/// yield at once, never exceeds the yield when the penalty rate is at most 100%.
pub proof fn law_early_withdrawal_bounds(c: RequestEarlyVoluntaryWithdrawal, request_nonce: u32, now: i64)
    requires
        early_error(c, now) is None,
        c.fund_config.early_withdrawal_penalty_bps <= 10_000,
    ensures
        early_amount(c) * 10 <= c.affiliate_account.balance(),
        early_penalty(c) <= c.affiliate_account.accrued_yield,
        early_applied(c, request_nonce, now).affiliate_account.accrued_yield
            == c.affiliate_account.accrued_yield - early_penalty(c),
        early_applied(c, request_nonce, now).affiliate_account.total_contributed
            == c.affiliate_account.total_contributed,
{
    lemma_bps_share_bounded(
        c.affiliate_account.accrued_yield as int,
        c.fund_config.early_withdrawal_penalty_bps as int,
    );
}

/// An inheritance payout is the beneficiary's share of the estate (the balance at death),
/// capped at what the affiliate still holds, so never more than the estate nor the
/// balance; it lowers the balance by exactly the payout, leaves the estate as it was, and
/// adds the beneficiary to the paid list.
pub proof fn law_inheritance_payout_conserves_balance(
    c: ProcessInheritance,
    request_nonce: u32,
    beneficiary_index: u8,
    oracle_attestation_hash: [u8; 32],
    now: i64,
    paid: Vec<u8>,
)
    requires
        inheritance_error(c, beneficiary_index, oracle_attestation_hash) is None,
        c.affiliate_account.beneficiaries@[beneficiary_index as int].share_bps <= 10_000,
        paid@ == c.affiliate_account.paid_beneficiaries@.push(beneficiary_index),
    ensures
        ({
            let after = inheritance_applied(
                c,
                request_nonce,
                beneficiary_index,
                oracle_attestation_hash,
                now,
                paid,
            );
            let payout = inheritance_payout(c, beneficiary_index);
            let share = bps_share(
                c.affiliate_account.estate(),
                c.affiliate_account.beneficiaries@[beneficiary_index as int].share_bps as int,
            );
            &&& payout == (if share <= c.affiliate_account.balance() {
                share
            } else {
                c.affiliate_account.balance()
            })
            &&& 0 <= payout <= c.affiliate_account.estate()
            &&& payout <= c.affiliate_account.balance()
            &&& after.affiliate_account.estate() == c.affiliate_account.estate()
            &&& after.affiliate_account.paid_beneficiaries@.contains(beneficiary_index)
            &&& after.affiliate_account.balance() == c.affiliate_account.balance() - payout
            &&& after.withdrawal_request.amount_released == payout
            &&& after.withdrawal_request.beneficiary_wallet == Some(
                c.affiliate_account.beneficiaries@[beneficiary_index as int].wallet,
            )
        }),
{
    lemma_bps_share_bounded(
        c.affiliate_account.estate(),
        c.affiliate_account.beneficiaries@[beneficiary_index as int].share_bps as int,
    );
    assert(paid@[paid@.len() - 1] == beneficiary_index);
}

/// Each beneficiary is paid once: after a payout to a beneficiary, every later payout
/// request for that beneficiary on the same affiliate account is refused, under any
/// request number, attestation or accounts, and with `BeneficiaryAlreadyPaid` when the
/// request is otherwise in order.
pub proof fn law_beneficiary_paid_once(
    c: ProcessInheritance,
    request_nonce: u32,
    beneficiary_index: u8,
    oracle_attestation_hash: [u8; 32],
    now: i64,
    paid: Vec<u8>,
    later: ProcessInheritance,
    later_hash: [u8; 32],
)
    requires
        inheritance_error(c, beneficiary_index, oracle_attestation_hash) is None,
        paid@ == c.affiliate_account.paid_beneficiaries@.push(beneficiary_index),
        later.affiliate_account == inheritance_applied(
            c,
            request_nonce,
            beneficiary_index,
            oracle_attestation_hash,
            now,
            paid,
        ).affiliate_account,
    ensures
        inheritance_error(later, beneficiary_index, later_hash) is Some,
        inheritance_account_check(later) is None && !is_zero_hash(later_hash@)
            && later.beneficiary_token_account.owner@
            == c.affiliate_account.beneficiaries@[beneficiary_index as int].wallet@
            ==> inheritance_error(later, beneficiary_index, later_hash) == Some(
            PensionError::BeneficiaryAlreadyPaid,
        ),
{
    assert(paid@[paid@.len() - 1] == beneficiary_index);
    assert(later.affiliate_account.paid_beneficiaries@.contains(beneficiary_index));
}

/// The beneficiaries' shares of the estate never add up to more than the estate, and with
/// shares summing to 10_000 bps they leave less than one unit per beneficiary unpaid.
pub proof fn law_inheritance_shares_divide_estate(estate: int, beneficiaries: Seq<Beneficiary>)
    requires
        estate >= 0,
        shares_valid(beneficiaries),
        beneficiaries.len() > 0,
    ensures
        estate_payouts_total(estate, beneficiaries) <= estate,
        estate - estate_payouts_total(estate, beneficiaries) < beneficiaries.len(),
{
    lemma_estate_payouts_total(estate, beneficiaries);
}

/// Marking an affiliate deceased is final: a second marking is refused with `AccountDeceased`,
/// and the deceased account then accepts no contribution.
pub proof fn law_death_is_final(m: MarkDeceased, h1: [u8; 32], h2: [u8; 32])
    requires
        mark_error(m, h1) is None,
    ensures
        mark_error(mark_applied(m), h2) == Some(PensionError::AccountDeceased),
        mark_applied(m).affiliate_account.deceased,
{
}

/// A deceased affiliate can neither contribute, harvest, change profile, nor request a
/// withdrawal: each of these is refused.
pub proof fn law_deceased_accounts_are_frozen(
    c: Contribute,
    period_index: u32,
    amount: u64,
    h: HarvestYield,
    yield_amount: u64,
    u: UpdateRiskProfile,
    r: RequestRetirementWithdrawal,
    amount_requested: u64,
    withdrawal_mode: WithdrawalMode,
    e: RequestEmergencyWithdrawal,
    reason: WithdrawalReason,
    oracle_attestation_hash: [u8; 32],
    v: RequestEarlyVoluntaryWithdrawal,
    now: i64,
)
    requires
        c.affiliate_account.deceased,
        h.affiliate_account.deceased,
        u.affiliate_account.deceased,
        r.affiliate_account.deceased,
        e.affiliate_account.deceased,
        v.affiliate_account.deceased,
    ensures
        contribute_error(c, period_index, amount, now) is Some,
        harvest_error(h, yield_amount, now) is Some,
        update_error(u, now) is Some,
        retirement_error(r, amount_requested, withdrawal_mode, now) is Some,
        emergency_error(e, reason, oracle_attestation_hash) is Some,
        early_error(v, now) is Some,
{
}

/// Inheritance is paid only for a deceased affiliate.
pub proof fn law_inheritance_requires_death(
    c: ProcessInheritance,
    beneficiary_index: u8,
    oracle_attestation_hash: [u8; 32],
)
    requires
        !c.affiliate_account.deceased,
    ensures
        inheritance_error(c, beneficiary_index, oracle_attestation_hash) is Some,
{
}

/// Changing profile moves the affiliate's principal and count from the old pool's tallies
/// to the new pool's: their sums are kept when the old pool's tallies cover the affiliate.
/// After an earlier change, a change comes at least 180 days after it.
pub proof fn law_profile_change_moves_tallies(
    c: UpdateRiskProfile,
    new_risk_profile: RiskProfile,
    advisor_session_hash: [u8; 32],
    now: i64,
)
    requires
        update_error(c, now) is None,
        c.old_pool.total_principal >= c.affiliate_account.total_contributed,
        c.old_pool.affiliate_count >= 1,
    ensures
        ({
            let after = update_applied(c, new_risk_profile, advisor_session_hash, now);
            &&& after.old_pool.total_principal + after.new_pool.total_principal
                == c.old_pool.total_principal + c.new_pool.total_principal
            &&& after.old_pool.affiliate_count + after.new_pool.affiliate_count
                == c.old_pool.affiliate_count + c.new_pool.affiliate_count
            &&& after.affiliate_account.risk_profile == new_risk_profile
            &&& after.affiliate_account.balance() == c.affiliate_account.balance()
        }),
        cooldown_applies(c) ==> since_last_change(c, now) >= MIN_PROFILE_CHANGE_INTERVAL,
{
}

/// The risk profile changes at most once per 180 days: after a change at `t0`, a second
/// change on the same accounts before 180 days have passed is refused with
/// `PeriodNotElapsed`.
pub proof fn law_profile_change_cooldown(
    c: UpdateRiskProfile,
    new_risk_profile: RiskProfile,
    advisor_session_hash: [u8; 32],
    t0: i64,
    t1: i64,
)
    requires
        update_error(c, t0) is None,
        t1 - t0 < MIN_PROFILE_CHANGE_INTERVAL,
    ensures
        update_error(update_applied(c, new_risk_profile, advisor_session_hash, t0), t1)
            == Some(PensionError::PeriodNotElapsed),
{
}

/// Age grows with time: a later timestamp never gives a lower age.
pub proof fn law_age_is_monotone(dob: int, t1: int, t2: int)
    requires
        t1 <= t2,
    ensures
        age_years(dob, t1) <= age_years(dob, t2),
{
    let s = SECONDS_PER_YEAR as int;
    let a = t1 - dob;
    let b = t2 - dob;
    if a >= 0 {
        assert(a / s <= b / s) by (nonlinear_arith)
            requires
                0 <= a <= b,
                s > 0,
        ;
    } else if b >= 0 {
        assert(0 <= b / s) by (nonlinear_arith)
            requires
                0 <= b,
                s > 0,
        ;
    } else {
        assert((-b) / s <= (-a) / s) by (nonlinear_arith)
            requires
                0 <= -b <= -a,
                s > 0,
        ;
    }
}

/// Someone born exactly `years` whole years before `ts` (up to 255) is `years` old at `ts`.
pub proof fn law_age_counts_whole_years(dob: int, years: int)
    requires
        0 <= years <= 255,
    ensures
        age_years(dob, dob + years * (SECONDS_PER_YEAR as int)) == years,
{
    let s = SECONDS_PER_YEAR as int;
    assert((years * s) / s == years) by (nonlinear_arith)
        requires
            s > 0,
            years >= 0,
    ;
}

/// Each created pool holds its own profile's default allocation over stablecoins, bonds,
/// equities, DeFi and growth: Conservative 40/40/20/0/0, Balanced 20/30/30/20/0,
/// Aggressive 5/10/25/35/25 percent.
pub proof fn law_new_pool_takes_its_profile_allocation(c: InitializePool, risk_profile: RiskProfile)
    requires
        initialize_pool_error(c) is None,
    ensures
        ({
            let pool = initialize_pool_applied(c, risk_profile).pool;
            &&& pool.risk_profile == risk_profile
            &&& pool.total_principal == 0 && pool.total_yield == 0 && pool.affiliate_count == 0
            &&& risk_profile == RiskProfile::Conservative ==> pool.allocation_bps == [
                4_000u16,
                4_000u16,
                2_000u16,
                0u16,
                0u16,
            ]
            &&& risk_profile == RiskProfile::Balanced ==> pool.allocation_bps == [
                2_000u16,
                3_000u16,
                3_000u16,
                2_000u16,
                0u16,
            ]
            &&& risk_profile == RiskProfile::Aggressive ==> pool.allocation_bps == [
                500u16,
                1_000u16,
                2_500u16,
                3_500u16,
                2_500u16,
            ]
        }),
{
}

/// An early voluntary withdrawal is refused as `AlreadyEligibleForRetirement` exactly when
/// the affiliate has both reached the retirement age and completed the required
/// contribution years: an affiliate below the retirement age, or short of the years, is
/// never refused for that reason. When the request is in order otherwise, it is accepted,
/// asks for a tenth of the balance (rounded down), and charges the penalty rate on the
/// yield, which the yield pays at once.
pub proof fn law_early_withdrawal_is_for_those_not_yet_eligible(
    c: RequestEarlyVoluntaryWithdrawal,
    request_nonce: u32,
    now: i64,
)
    ensures
        ({
            let acc = c.affiliate_account;
            let cfg = c.fund_config;
            let age = age_years(acc.date_of_birth as int, now as int);
            let in_order = !cfg.paused && !acc.deceased && acc.owner@ == c.affiliate@;
            let eligible = age >= cfg.min_retirement_age && acc.periods_completed / 12
                >= cfg.min_contribution_years;
            &&& early_error(c, now) == Some(PensionError::AlreadyEligibleForRetirement)
                ==> eligible
            &&& in_order && eligible ==> early_error(c, now) == Some(
                PensionError::AlreadyEligibleForRetirement,
            )
            &&& (in_order && !eligible && (acc.total_contributed + acc.accrued_yield) * 1_000
                <= u64::MAX && acc.accrued_yield * cfg.early_withdrawal_penalty_bps <= u64::MAX)
                ==> {
                let after = early_applied(c, request_nonce, now);
                let penalty = acc.accrued_yield * cfg.early_withdrawal_penalty_bps / 10_000;
                &&& early_error(c, now) is None
                &&& after.withdrawal_request.amount_requested == (acc.total_contributed
                    + acc.accrued_yield) / 10
                &&& after.withdrawal_request.penalty_amount == penalty
                &&& after.withdrawal_request.reason == WithdrawalReason::EarlyVoluntary
                &&& after.withdrawal_request.status == WithdrawalStatus::Pending
                &&& (penalty <= acc.accrued_yield ==> after.affiliate_account.accrued_yield
                    == acc.accrued_yield - penalty)
                &&& after.affiliate_account.total_contributed == acc.total_contributed
            }
        }),
{
    let b = c.affiliate_account.total_contributed + c.affiliate_account.accrued_yield;
    assert(b * 1_000 / 10_000 == b / 10) by (nonlinear_arith)
        requires
            b >= 0,
    ;
}

/// A retirement request is refused as `NotRetirementAge` exactly when the affiliate is
/// younger than the minimum retirement age (with the account in order and a mode chosen);
/// an affiliate of that age or older, with the contribution years, the balance and room
/// under the year's cap, is accepted and marked retired with the chosen mode.
pub proof fn law_retirement_opens_at_the_retirement_age(
    c: RequestRetirementWithdrawal,
    request_nonce: u32,
    amount_requested: u64,
    withdrawal_mode: WithdrawalMode,
    now: i64,
)
    ensures
        ({
            let acc = c.affiliate_account;
            let cfg = c.fund_config;
            let age = age_years(acc.date_of_birth as int, now as int);
            let in_order = !cfg.paused && !acc.deceased && acc.owner@ == c.affiliate@
                && withdrawal_mode != WithdrawalMode::NotSet;
            let balance = acc.total_contributed + acc.accrued_yield;
            let prior: int = if acc.withdrawal_year == year_of(now as int) {
                acc.withdrawn_this_year as int
            } else {
                0
            };
            &&& retirement_error(c, amount_requested, withdrawal_mode, now) == Some(
                PensionError::NotRetirementAge,
            ) ==> age < cfg.min_retirement_age
            &&& in_order && age < cfg.min_retirement_age ==> retirement_error(
                c,
                amount_requested,
                withdrawal_mode,
                now,
            ) == Some(PensionError::NotRetirementAge)
            &&& (in_order && age >= cfg.min_retirement_age && acc.periods_completed / 12
                >= cfg.min_contribution_years && balance <= u64::MAX && balance
                * cfg.max_annual_withdrawal_bps <= u64::MAX && amount_requested <= balance && prior + amount_requested <= balance
                * cfg.max_annual_withdrawal_bps / 10_000) ==> {
                let after = retirement_applied(c, request_nonce, amount_requested, withdrawal_mode, now);
                &&& retirement_error(c, amount_requested, withdrawal_mode, now) is None
                &&& after.affiliate_account.retired
                &&& after.affiliate_account.withdrawal_mode == withdrawal_mode
                &&& after.withdrawal_request.amount_requested == amount_requested
                &&& after.withdrawal_request.reason == WithdrawalReason::Retirement
                &&& after.withdrawal_request.status == WithdrawalStatus::Pending
            }
        }),
{
}

/// Only retirement payouts count toward the yearly withdrawal counter: executing any other
/// request leaves the counter and its year unchanged.
pub proof fn law_only_retirement_payouts_are_counted(c: ApproveAndExecuteWithdrawal, now: i64)
    requires
        c.withdrawal_request.reason != WithdrawalReason::Retirement,
    ensures
        approve_applied(c, now).affiliate_account.withdrawn_this_year
            == c.affiliate_account.withdrawn_this_year,
        approve_applied(c, now).affiliate_account.withdrawal_year
            == c.affiliate_account.withdrawal_year,
{
}

} // verus!
