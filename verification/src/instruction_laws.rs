//! Each instruction's rules stated directly over its inputs: when it is refused and with
//! which error, and what an accepted call writes, in plain arithmetic on the accounts.
use vstd::prelude::*;

use crate::errors::PensionError;
use crate::instructions::approve_and_execute_withdrawal::{
    approve_applied, approve_error, ApproveAndExecuteWithdrawal,
};
use crate::instructions::contribute::{contribute_applied, contribute_error, Contribute};
use crate::instructions::harvest_yield::{harvest_applied, harvest_error, HarvestYield};
use crate::instructions::initialize_fund::{initial_config, initialize_fund_error, InitializeFund};
use crate::instructions::initialize_pool::{
    initialize_pool_applied, initialize_pool_error, InitializePool,
};
use crate::instructions::mark_deceased::{mark_applied, mark_error, MarkDeceased};
use crate::instructions::process_inheritance::{
    inheritance_applied, inheritance_error, ProcessInheritance,
};
use crate::instructions::register_affiliate::{register_applied, register_error, RegisterAffiliate};
use crate::instructions::request_emergency_withdrawal::{
    emergency_applied, emergency_error, RequestEmergencyWithdrawal,
};
use crate::instructions::request_retirement_withdrawal::{
    retirement_error, RequestRetirementWithdrawal,
};
use crate::instructions::update_risk_profile::{update_applied, update_error, UpdateRiskProfile};
use crate::key::is_zero_hash;
use crate::math::year_of;
use crate::state::affiliate::{age_years, share_total};
use crate::state::{Beneficiary, RiskProfile, WithdrawalMode, WithdrawalReason, WithdrawalStatus};

verus! {

/// Fund creation is refused with `InvalidContributionPeriod` for a period that is not
/// positive, then with `InvalidMinContribution` for a zero minimum, then with
/// `InvalidRetirementAge` for a minimum age under 40, and is otherwise made. The created
/// fund has the given authority, mint, treasury and parameters, and the fixed rates:
/// 3 grace periods, 1% per missed period, 10% early-withdrawal penalty, 15% annual cap,
/// 30% emergency and disaster release, 0.5% protocol fee; it is open and not paused.
pub proof fn law_fund_creation(
    c: InitializeFund,
    min_contribution: u64,
    contribution_period: i64,
    min_retirement_age: u8,
    min_contribution_years: u8,
)
    ensures
        contribution_period <= 0 ==> initialize_fund_error(
            min_contribution,
            contribution_period,
            min_retirement_age,
        ) == Some(PensionError::InvalidContributionPeriod),
        contribution_period > 0 && min_contribution == 0 ==> initialize_fund_error(
            min_contribution,
            contribution_period,
            min_retirement_age,
        ) == Some(PensionError::InvalidMinContribution),
        contribution_period > 0 && min_contribution > 0 && min_retirement_age < 40
            ==> initialize_fund_error(min_contribution, contribution_period, min_retirement_age)
            == Some(PensionError::InvalidRetirementAge),
        (contribution_period > 0 && min_contribution > 0 && min_retirement_age >= 40)
            == (initialize_fund_error(min_contribution, contribution_period, min_retirement_age)
            is None),
        ({
            let f = initial_config(
                c,
                min_contribution,
                contribution_period,
                min_retirement_age,
                min_contribution_years,
            );
            &&& f.authority == c.authority && f.accepted_mint == c.accepted_mint
            &&& f.treasury == c.treasury && f.bump == c.fund_config_bump
            &&& f.min_contribution == min_contribution
            &&& f.contribution_period == contribution_period
            &&& f.min_retirement_age == min_retirement_age
            &&& f.min_contribution_years == min_contribution_years
            &&& f.grace_periods == 3
            &&& f.missed_period_penalty_bps == 100
            &&& f.early_withdrawal_penalty_bps == 1_000
            &&& f.max_annual_withdrawal_bps == 1_500
            &&& f.emergency_release_bps == 3_000
            &&& f.disaster_release_bps == 3_000
            &&& f.protocol_fee_bps == 50
            &&& f.registrations_open && !f.paused
        }),
{
}

/// Pool creation is refused with `Unauthorized` unless the fund authority signs, then with
/// `PoolMismatch` unless the pool's token account holds the accepted mint, and is
/// otherwise made: an empty, unharvested pool of the given profile over that token account.
pub proof fn law_pool_creation(c: InitializePool, risk_profile: RiskProfile)
    ensures
        c.fund_config.authority@ != c.authority@ ==> initialize_pool_error(c) == Some(
            PensionError::Unauthorized,
        ),
        c.fund_config.authority@ == c.authority@ && c.pool_token_account.mint@
            != c.fund_config.accepted_mint@ ==> initialize_pool_error(c) == Some(
            PensionError::PoolMismatch,
        ),
        (c.fund_config.authority@ == c.authority@ && c.pool_token_account.mint@
            == c.fund_config.accepted_mint@) == (initialize_pool_error(c) is None),
        ({
            let pool = initialize_pool_applied(c, risk_profile).pool;
            &&& pool.risk_profile == risk_profile
            &&& pool.token_account == c.pool_token_account.key
            &&& pool.bump == c.pool_bump
            &&& pool.total_principal == 0 && pool.total_yield == 0
            &&& pool.affiliate_count == 0 && pool.current_apy_bps == 0
            &&& !pool.harvested
        }),
{
}

/// Registration is refused while the fund is paused, then while registrations are closed;
/// a non-empty beneficiary list must have at most five entries (`TooManyBeneficiaries`)
/// whose shares sum to exactly 10_000 bps (`InvalidBeneficiaryShares`); an empty list is
/// accepted. An accepted registration writes an account owned by the signer, with the given
/// details and beneficiaries, nothing contributed, no yield, not yet enrolled, not retired
/// and alive, and counts one more affiliate in the pool.
pub proof fn law_registration(
    c: RegisterAffiliate,
    date_of_birth: i64,
    country_code: [u8; 2],
    kyc_doc_hash: [u8; 32],
    risk_profile: RiskProfile,
    advisor_session_hash: [u8; 32],
    beneficiaries: Vec<Beneficiary>,
    paid_beneficiaries: Vec<u8>,
)
    ensures
        ({
            let b = beneficiaries@;
            let open = !c.fund_config.paused && c.fund_config.registrations_open;
            &&& c.fund_config.paused ==> register_error(c, b) == Some(PensionError::FundPaused)
            &&& !c.fund_config.paused && !c.fund_config.registrations_open ==> register_error(c, b)
                == Some(PensionError::RegistrationsClosed)
            &&& open && b.len() > 5 ==> register_error(c, b) == Some(
                PensionError::TooManyBeneficiaries,
            )
            &&& open && 0 < b.len() <= 5 && share_total(b) != 10_000 ==> register_error(c, b)
                == Some(PensionError::InvalidBeneficiaryShares)
            &&& (open && (b.len() == 0 || (b.len() <= 5 && share_total(b) == 10_000))
                && c.pool.affiliate_count < u32::MAX) == (register_error(c, b) is None)
        }),
        ({
            let after = register_applied(
                c,
                date_of_birth,
                country_code,
                kyc_doc_hash,
                risk_profile,
                advisor_session_hash,
                beneficiaries,
                paid_beneficiaries,
            );
            let a = after.affiliate_account;
            &&& a.owner == c.affiliate
            &&& a.date_of_birth == date_of_birth && a.country_code == country_code
            &&& a.kyc_doc_hash == kyc_doc_hash && a.risk_profile == risk_profile
            &&& a.advisor_session_hash == advisor_session_hash
            &&& a.beneficiaries == beneficiaries
            &&& a.total_contributed == 0 && a.accrued_yield == 0
            &&& a.enrolled_at == 0 && a.last_contribution_at == 0
            &&& a.periods_completed == 0 && a.missed_periods == 0
            &&& !a.retired && !a.deceased && a.withdrawal_mode == WithdrawalMode::NotSet
            &&& a.last_profile_change_at is None
            &&& register_error(c, beneficiaries@) is None ==> after.pool.affiliate_count
                == c.pool.affiliate_count + 1
        }),
{
}

/// Marking an affiliate deceased needs the fund authority as oracle signer
/// (`InvalidOracleSigner`), a living affiliate (`AccountDeceased`), a non-zero attestation
/// (`MissingAttestation`) and at least one beneficiary (`NoBeneficiaries`), checked in that
/// order; a marking made records the balance held at that moment as the estate.
pub proof fn law_death_marking(c: MarkDeceased, h: [u8; 32])
    ensures
        c.fund_config.authority@ != c.oracle_authority@ ==> mark_error(c, h) == Some(
            PensionError::InvalidOracleSigner,
        ),
        c.fund_config.authority@ == c.oracle_authority@ && c.affiliate_account.deceased
            ==> mark_error(c, h) == Some(PensionError::AccountDeceased),
        c.fund_config.authority@ == c.oracle_authority@ && !c.affiliate_account.deceased
            && is_zero_hash(h@) ==> mark_error(c, h) == Some(PensionError::MissingAttestation),
        (c.fund_config.authority@ == c.oracle_authority@ && !c.affiliate_account.deceased
            && !is_zero_hash(h@) && c.affiliate_account.beneficiaries@.len() > 0) == (mark_error(
            c,
            h,
        ) is None),
        ({
            let a = mark_applied(c).affiliate_account;
            &&& a.deceased
            &&& a.principal_at_death == c.affiliate_account.total_contributed
            &&& a.yield_at_death == c.affiliate_account.accrued_yield
            &&& a.total_contributed == c.affiliate_account.total_contributed
            &&& a.accrued_yield == c.affiliate_account.accrued_yield
            &&& a.beneficiaries == c.affiliate_account.beneficiaries
        }),
{
}

/// An emergency request must name a medical emergency or a natural disaster
/// (`WithdrawalModeNotSet` otherwise) and carry a non-zero attestation
/// (`MissingAttestation`). In order, it is accepted and asks for the configured release
/// share of the whole balance, rounded down: `emergency_release_bps` for a medical
/// emergency, `disaster_release_bps` for a disaster; the request is pending with the
/// attestation recorded, and the affiliate's balance is not touched yet.
pub proof fn law_emergency_request(
    c: RequestEmergencyWithdrawal,
    request_nonce: u32,
    reason: WithdrawalReason,
    h: [u8; 32],
    now: i64,
)
    ensures
        ({
            let acc = c.affiliate_account;
            let cfg = c.fund_config;
            let in_order = !cfg.paused && !acc.deceased && acc.owner@ == c.affiliate@;
            let emergency = reason == WithdrawalReason::MedicalEmergency || reason
                == WithdrawalReason::NaturalDisaster;
            let balance = acc.total_contributed + acc.accrued_yield;
            let rate: int = if reason == WithdrawalReason::MedicalEmergency {
                cfg.emergency_release_bps as int
            } else {
                cfg.disaster_release_bps as int
            };
            &&& in_order && !emergency ==> emergency_error(c, reason, h) == Some(
                PensionError::WithdrawalModeNotSet,
            )
            &&& in_order && emergency && is_zero_hash(h@) ==> emergency_error(c, reason, h)
                == Some(PensionError::MissingAttestation)
            &&& (in_order && emergency && !is_zero_hash(h@) && balance <= u64::MAX && balance
                * rate <= u64::MAX) == (emergency_error(c, reason, h) is None)
            &&& emergency_error(c, reason, h) is None ==> {
                let after = emergency_applied(c, request_nonce, reason, h, now);
                &&& after.withdrawal_request.amount_requested == balance * rate / 10_000
                &&& after.withdrawal_request.reason == reason
                &&& after.withdrawal_request.status == WithdrawalStatus::Pending
                &&& after.withdrawal_request.oracle_attestation_hash == h
                &&& after.withdrawal_request.affiliate == c.affiliate
                &&& after.withdrawal_request.request_nonce == request_nonce
                &&& after.withdrawal_request.requested_at == now
                &&& after.affiliate_account == acc
            }
        }),
{
}

/// A harvest needs an unpaused fund, the fund authority as keeper, a living affiliate in
/// the pool of its own profile, and 24 hours since the pool's last harvest
/// (`HarvestTooEarly`; a never-harvested pool may be harvested at once). An accepted
/// harvest takes the protocol fee (the fee rate on the yield, rounded down) and credits the
/// rest to the affiliate and to the pool's yield, records the reported APY and the harvest
/// time.
pub proof fn law_harvest(c: HarvestYield, new_apy_bps: u16, yield_amount: u64, now: i64)
    ensures
        ({
            let cfg = c.fund_config;
            let in_order = !cfg.paused && cfg.authority@ == c.keeper@
                && !c.affiliate_account.deceased && c.affiliate_account.risk_profile
                == c.pool.risk_profile;
            let too_early = c.pool.harvested && now - c.pool.last_harvest_at < 86_400;
            let fee = yield_amount * cfg.protocol_fee_bps / 10_000;
            let net = if fee <= yield_amount {
                yield_amount - fee
            } else {
                0
            };
            &&& !cfg.paused && cfg.authority@ != c.keeper@ ==> harvest_error(c, yield_amount, now)
                == Some(PensionError::Unauthorized)
            &&& in_order && too_early ==> harvest_error(c, yield_amount, now) == Some(
                PensionError::HarvestTooEarly,
            )
            &&& harvest_error(c, yield_amount, now) == Some(PensionError::HarvestTooEarly)
                ==> too_early
            &&& (in_order && !too_early && yield_amount * cfg.protocol_fee_bps <= u64::MAX
                && c.affiliate_account.accrued_yield + net <= u64::MAX && c.pool.total_yield + net
                <= u64::MAX) == (harvest_error(c, yield_amount, now) is None)
            &&& harvest_error(c, yield_amount, now) is None ==> {
                let after = harvest_applied(c, new_apy_bps, yield_amount, now);
                &&& after.affiliate_account.accrued_yield == c.affiliate_account.accrued_yield + net
                &&& after.affiliate_account.total_contributed
                    == c.affiliate_account.total_contributed
                &&& after.pool.total_yield == c.pool.total_yield + net
                &&& after.pool.total_principal == c.pool.total_principal
                &&& after.pool.current_apy_bps == new_apy_bps
                &&& after.pool.last_harvest_at == now && after.pool.harvested
            }
        }),
{
}

/// A contribution needs the fund unpaused, a living affiliate signing for its own account
/// and token account, the accepted mint and the pool's token account; it must reach the
/// minimum (`BelowMinimumContribution`) and, after the first contribution, may not come
/// before its period starts at enrolment plus `period_index` periods (`PeriodNotElapsed`).
/// An accepted contribution adds the amount to the affiliate's principal, to the pool's
/// principal and to the period's record, which then meets the minimum; it clears the missed
/// periods, enrols the affiliate at the first contribution, and completes one more period
/// exactly when the record had not yet met the minimum.
pub proof fn law_contribution(c: Contribute, period_index: u32, amount: u64, now: i64)
    ensures
        ({
            let acc = c.affiliate_account;
            let cfg = c.fund_config;
            let rec = c.contribution_record;
            let in_order = !cfg.paused && !acc.deceased && acc.owner@ == c.affiliate@
                && c.affiliate_token_account.owner@ == c.affiliate@
                && c.affiliate_token_account.mint@ == cfg.accepted_mint@
                && c.pool_token_account.key@ == c.pool.token_account@;
            &&& in_order && amount < cfg.min_contribution ==> contribute_error(
                c,
                period_index,
                amount,
                now,
            ) == Some(PensionError::BelowMinimumContribution)
            &&& in_order && amount >= cfg.min_contribution && acc.last_contribution_at > 0 && now
                < acc.enrolled_at + period_index * cfg.contribution_period ==> contribute_error(
                c,
                period_index,
                amount,
                now,
            ) == Some(PensionError::PeriodNotElapsed)
            &&& contribute_error(c, period_index, amount, now) is None ==> {
                let after = contribute_applied(c, period_index, amount, now);
                let a = after.affiliate_account;
                &&& amount >= cfg.min_contribution
                &&& a.total_contributed == acc.total_contributed + amount
                &&& after.pool.total_principal == c.pool.total_principal + amount
                &&& after.contribution_record.amount_deposited == rec.amount_deposited + amount
                &&& after.contribution_record.met_minimum
                &&& after.contribution_record.last_deposit_at == now
                &&& a.missed_periods == 0
                &&& a.last_contribution_at == now
                &&& (acc.last_contribution_at <= 0 ==> a.enrolled_at == now)
                &&& (acc.last_contribution_at > 0 ==> a.enrolled_at == acc.enrolled_at)
                &&& (!rec.met_minimum && acc.periods_completed < u32::MAX ==> a.periods_completed
                    == acc.periods_completed + 1)
                &&& (rec.met_minimum && rec.amount_deposited > 0 ==> a.periods_completed
                    == acc.periods_completed)
                &&& (acc.last_contribution_at <= 0 ==> a.accrued_yield == acc.accrued_yield)
            }
        }),
{
}

/// The missed-period penalty: once the affiliate has contributed, the periods expected
/// since enrolment are the whole periods elapsed; those not completed are missed. When more
/// are missed than the grace allows and the period's record carries no penalty yet, the
/// yield loses the penalty rate (per missed period beyond the grace) of itself, down to
/// zero at most, and the record is marked penalised; otherwise the yield is untouched.
pub proof fn law_missed_period_penalty(c: Contribute, period_index: u32, amount: u64, now: i64)
    requires
        c.fund_config.well_formed(),
        contribute_error(c, period_index, amount, now) is None,
        c.affiliate_account.last_contribution_at > 0,
        now >= c.affiliate_account.enrolled_at,
        (now - c.affiliate_account.enrolled_at) / (c.fund_config.contribution_period as int)
            <= u32::MAX,
    ensures
        ({
            let acc = c.affiliate_account;
            let cfg = c.fund_config;
            let rec = c.contribution_record;
            let expected = (now - acc.enrolled_at) / (cfg.contribution_period as int);
            let missed = expected - acc.periods_completed;
            let already = rec.penalty_applied && !(rec.period_index == 0 && rec.amount_deposited
                == 0);
            let due = missed > cfg.grace_periods && !already;
            let penalty = acc.accrued_yield * (cfg.missed_period_penalty_bps * (missed
                - cfg.grace_periods)) / 10_000;
            let after = contribute_applied(c, period_index, amount, now);
            &&& due ==> after.affiliate_account.accrued_yield == (if penalty <= acc.accrued_yield {
                acc.accrued_yield - penalty
            } else {
                0
            })
            &&& due ==> after.contribution_record.penalty_applied
            &&& !due ==> after.affiliate_account.accrued_yield == acc.accrued_yield
        }),
{
}

/// A retirement request within the age and years is refused with `InsufficientFunds` when
/// it asks for more than the balance, and with `AnnualCapExceeded` when this year's
/// withdrawals with it would pass the annual cap share of the balance (a counter from an
/// earlier year counts as nothing).
pub proof fn law_retirement_limits(
    c: RequestRetirementWithdrawal,
    amount_requested: u64,
    withdrawal_mode: WithdrawalMode,
    now: i64,
)
    ensures
        ({
            let acc = c.affiliate_account;
            let cfg = c.fund_config;
            let eligible = !cfg.paused && !acc.deceased && acc.owner@ == c.affiliate@
                && withdrawal_mode != WithdrawalMode::NotSet && age_years(
                acc.date_of_birth as int,
                now as int,
            ) >= cfg.min_retirement_age && acc.periods_completed / 12
                >= cfg.min_contribution_years;
            let balance = acc.total_contributed + acc.accrued_yield;
            let prior: int = if acc.withdrawal_year == year_of(now as int) {
                acc.withdrawn_this_year as int
            } else {
                0
            };
            &&& eligible && balance <= u64::MAX && amount_requested > balance ==> retirement_error(
                c,
                amount_requested,
                withdrawal_mode,
                now,
            ) == Some(PensionError::InsufficientFunds)
            &&& eligible && amount_requested <= balance && balance <= u64::MAX && balance
                * cfg.max_annual_withdrawal_bps
                <= u64::MAX && prior + amount_requested <= u64::MAX && prior + amount_requested
                > balance * cfg.max_annual_withdrawal_bps / 10_000 ==> retirement_error(
                c,
                amount_requested,
                withdrawal_mode,
                now,
            ) == Some(PensionError::AnnualCapExceeded)
        }),
{
}

/// Executing a withdrawal needs an unpaused fund, the fund authority as keeper, a pending
/// request of this affiliate, the pool's token account, a recipient of the accepted mint
/// owned by the beneficiary the request names (or by the affiliate when it names none), and
/// an amount that is positive and within the affiliate's principal plus yield. An executed
/// request pays its amount from principal first and then from yield, on the affiliate and
/// on the pool, and is marked executed at `now` with the amount released.
pub proof fn law_execution(c: ApproveAndExecuteWithdrawal, now: i64)
    ensures
        ({
            let acc = c.affiliate_account;
            let req = c.withdrawal_request;
            let amount = req.amount_requested;
            let balance = acc.total_contributed + acc.accrued_yield;
            let recipient_ok = match req.beneficiary_wallet {
                Some(w) => c.recipient_token_account.owner@ == w@,
                None => c.recipient_token_account.owner@ == acc.owner@,
            };
            let accounts_ok = !c.fund_config.paused && c.fund_config.authority@ == c.keeper@
                && req.status == WithdrawalStatus::Pending && req.affiliate@ == acc.owner@
                && c.pool_token_account.key@ == c.pool.token_account@
                && c.recipient_token_account.mint@ == c.fund_config.accepted_mint@;
            let from_principal = if amount <= acc.total_contributed {
                amount as int
            } else {
                acc.total_contributed as int
            };
            &&& accounts_ok && !recipient_ok ==> approve_error(c) == Some(
                PensionError::Unauthorized,
            )
            &&& accounts_ok && recipient_ok && (amount == 0 || amount > balance) ==> approve_error(c)
                == Some(PensionError::InsufficientFunds)
            &&& (accounts_ok && recipient_ok && 0 < amount <= balance) == (approve_error(c) is None)
            &&& approve_error(c) is None ==> {
                let after = approve_applied(c, now);
                &&& after.affiliate_account.total_contributed == acc.total_contributed
                    - from_principal
                &&& after.affiliate_account.accrued_yield == acc.accrued_yield - (amount
                    - from_principal)
                &&& after.pool.total_principal == (if c.pool.total_principal >= from_principal {
                    c.pool.total_principal - from_principal
                } else {
                    0
                })
                &&& after.withdrawal_request.status == WithdrawalStatus::Executed
                &&& after.withdrawal_request.amount_released == amount
                &&& after.withdrawal_request.resolved_at == now
            }
        }),
{
}

/// An inheritance payout needs a deceased affiliate (`NotDeceased`), and a beneficiary not
/// yet paid (`BeneficiaryAlreadyPaid`). It pays the beneficiary's share (its basis points,
/// rounded down) of the principal plus yield held at death, capped at what the affiliate
/// still holds, drawn from principal first, and records it as an executed inheritance
/// request to the beneficiary's wallet.
pub proof fn law_inheritance(
    c: ProcessInheritance,
    request_nonce: u32,
    beneficiary_index: u8,
    h: [u8; 32],
    now: i64,
    paid: Vec<u8>,
)
    ensures
        ({
            let acc = c.affiliate_account;
            let before_death = !c.fund_config.paused && c.fund_config.authority@ == c.keeper@;
            &&& before_death && !acc.deceased ==> inheritance_error(c, beneficiary_index, h)
                == Some(PensionError::NotDeceased)
            &&& acc.paid_beneficiaries@.contains(beneficiary_index) ==> inheritance_error(
                c,
                beneficiary_index,
                h,
            ) is Some
            &&& inheritance_error(c, beneficiary_index, h) is None ==> {
                let b = acc.beneficiaries@[beneficiary_index as int];
                let share = (acc.principal_at_death + acc.yield_at_death) * b.share_bps / 10_000;
                let balance = acc.total_contributed + acc.accrued_yield;
                let payout = if share <= balance {
                    share
                } else {
                    balance
                };
                let after = inheritance_applied(c, request_nonce, beneficiary_index, h, now, paid);
                &&& acc.deceased
                &&& !acc.paid_beneficiaries@.contains(beneficiary_index)
                &&& c.beneficiary_token_account.owner@ == b.wallet@
                &&& after.withdrawal_request.amount_released == payout
                &&& after.withdrawal_request.amount_requested == payout
                &&& after.withdrawal_request.reason == WithdrawalReason::Inheritance
                &&& after.withdrawal_request.status == WithdrawalStatus::Executed
                &&& after.withdrawal_request.beneficiary_wallet == Some(b.wallet)
                &&& after.affiliate_account.total_contributed == acc.total_contributed - (
                if payout <= acc.total_contributed {
                    payout
                } else {
                    acc.total_contributed as int
                })
            }
        }),
{
}

/// A profile change needs an unpaused fund and a living affiliate signing for its account.
/// After an earlier change at `t`, a change before `t` plus 180 days is refused with
/// `PeriodNotElapsed`; the first change, or one 180 days or more after the last, is
/// accepted when the new pool's tallies have room. An accepted change sets the new profile
/// and advisor session, records `now`, and moves one affiliate and its principal from the
/// old pool's tallies to the new pool's.
pub proof fn law_profile_change(
    c: UpdateRiskProfile,
    new_risk_profile: RiskProfile,
    advisor_session_hash: [u8; 32],
    now: i64,
)
    ensures
        ({
            let acc = c.affiliate_account;
            let in_order = !c.fund_config.paused && !acc.deceased && acc.owner@ == c.affiliate@;
            let cooling = match acc.last_profile_change_at {
                Some(t) => now - t < 15_552_000,
                None => false,
            };
            &&& in_order && cooling ==> update_error(c, now) == Some(PensionError::PeriodNotElapsed)
            &&& (in_order && !cooling && c.new_pool.affiliate_count < u32::MAX
                && c.new_pool.total_principal + acc.total_contributed <= u64::MAX) == (update_error(
                c,
                now,
            ) is None)
            &&& update_error(c, now) is None ==> {
                let after = update_applied(c, new_risk_profile, advisor_session_hash, now);
                &&& after.affiliate_account.risk_profile == new_risk_profile
                &&& after.affiliate_account.advisor_session_hash == advisor_session_hash
                &&& after.affiliate_account.last_profile_change_at == Some(now)
                &&& after.affiliate_account.total_contributed == acc.total_contributed
                &&& after.new_pool.affiliate_count == c.new_pool.affiliate_count + 1
                &&& after.new_pool.total_principal == c.new_pool.total_principal
                    + acc.total_contributed
                &&& after.old_pool.affiliate_count == (if c.old_pool.affiliate_count >= 1 {
                    c.old_pool.affiliate_count - 1
                } else {
                    0
                })
                &&& after.old_pool.total_principal == (if c.old_pool.total_principal
                    >= acc.total_contributed {
                    c.old_pool.total_principal - acc.total_contributed
                } else {
                    0
                })
            }
        }),
{
}

} // verus!
