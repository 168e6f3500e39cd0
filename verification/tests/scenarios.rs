// Scenarios of the fund's instructions, run directly against the library.

use pension_chain::errors::PensionError;
use pension_chain::instructions::{
    contribute, harvest_yield, initialize_fund, initialize_pool, mark_deceased,
    process_inheritance, register_affiliate, request_early_voluntary_withdrawal,
    request_emergency_withdrawal, request_retirement_withdrawal,
};
use pension_chain::key::{AccountKey, TokenAccountInfo};
use pension_chain::state::{
    AffiliateAccount, Beneficiary, ContributionRecord, FundConfig, InvestmentPool, RiskProfile,
    WithdrawalMode, WithdrawalReason, WithdrawalRequest, WithdrawalStatus,
};

const MIN_CONTRIBUTION: u64 = 1_000_000; // 1 USDC (6 decimals)
const CONTRIBUTION_PERIOD: i64 = 30;
const MIN_RETIREMENT_AGE: u8 = 65;
const MIN_CONTRIBUTION_YEARS: u8 = 20;
const NOW: i64 = 1_700_000_000;
const YEAR: i64 = 365 * 24 * 3600;

fn key(n: u8) -> AccountKey {
    AccountKey { bytes: [n; 32] }
}

fn fake_hash() -> [u8; 32] {
    let mut h = [0u8; 32];
    for (i, b) in h.iter_mut().enumerate() {
        *b = (i + 1) as u8;
    }
    h
}

fn zero_hash() -> [u8; 32] {
    [0u8; 32]
}

fn dob_for_age(age: i64) -> i64 {
    NOW - age * YEAR
}

fn authority() -> AccountKey {
    key(1)
}

fn mint() -> AccountKey {
    key(2)
}

fn pool_token(profile_index: u8) -> AccountKey {
    key(10 + profile_index)
}

fn profile_of(profile_index: u8) -> RiskProfile {
    match profile_index {
        0 => RiskProfile::Conservative,
        1 => RiskProfile::Balanced,
        _ => RiskProfile::Aggressive,
    }
}

struct TestEnv {
    fund_config: FundConfig,
    pools: Vec<InvestmentPool>,
}

impl TestEnv {
    fn new() -> Self {
        let mut init = initialize_fund::InitializeFund {
            fund_config: blank_config(),
            accepted_mint: mint(),
            treasury: key(3),
            authority: authority(),
            fund_config_bump: 255,
        };
        initialize_fund::handler(
            &mut init,
            MIN_CONTRIBUTION,
            CONTRIBUTION_PERIOD,
            MIN_RETIREMENT_AGE,
            MIN_CONTRIBUTION_YEARS,
        )
        .expect("initialize_fund");
        let mut pools = Vec::new();
        for idx in 0u8..3 {
            let mut ctx = initialize_pool::InitializePool {
                fund_config: init.fund_config,
                pool: InvestmentPool::default(),
                pool_token_account: TokenAccountInfo {
                    key: pool_token(idx),
                    mint: mint(),
                    owner: key(4),
                },
                authority: authority(),
                pool_bump: 250 + idx,
            };
            initialize_pool::handler(&mut ctx, profile_of(idx)).expect("initialize_pool");
            pools.push(ctx.pool);
        }
        TestEnv { fund_config: init.fund_config, pools }
    }

    fn register_affiliate(
        &mut self,
        affiliate: AccountKey,
        date_of_birth: i64,
        profile_index: u8,
        beneficiaries: Vec<(AccountKey, u16)>,
    ) -> Result<AffiliateAccount, PensionError> {
        let mut ctx = register_affiliate::RegisterAffiliate {
            fund_config: self.fund_config,
            affiliate_account: AffiliateAccount::default(),
            pool: self.pools[profile_index as usize],
            affiliate,
            affiliate_account_bump: 254,
        };
        let list = beneficiaries
            .into_iter()
            .map(|(wallet, share_bps)| Beneficiary { wallet, share_bps })
            .collect();
        register_affiliate::handler(
            &mut ctx,
            date_of_birth,
            [72u8, 78u8],
            fake_hash(),
            profile_of(profile_index),
            fake_hash(),
            list,
        )?;
        self.pools[profile_index as usize] = ctx.pool;
        Ok(ctx.affiliate_account)
    }

    fn contribute_ctx(
        &self,
        account: &AffiliateAccount,
        affiliate_token: AccountKey,
        profile_index: u8,
    ) -> contribute::Contribute {
        contribute::Contribute {
            fund_config: self.fund_config,
            affiliate_account: account.clone(),
            pool: self.pools[profile_index as usize],
            contribution_record: ContributionRecord::default(),
            affiliate_token_account: TokenAccountInfo {
                key: affiliate_token,
                mint: mint(),
                owner: account.owner,
            },
            pool_token_account: TokenAccountInfo {
                key: pool_token(profile_index),
                mint: mint(),
                owner: key(4),
            },
            affiliate: account.owner,
        }
    }
}

fn blank_config() -> FundConfig {
    FundConfig {
        authority: AccountKey::default(),
        accepted_mint: AccountKey::default(),
        treasury: AccountKey::default(),
        min_contribution: 0,
        contribution_period: 0,
        grace_periods: 0,
        missed_period_penalty_bps: 0,
        min_retirement_age: 0,
        min_contribution_years: 0,
        early_withdrawal_penalty_bps: 0,
        max_annual_withdrawal_bps: 0,
        emergency_release_bps: 0,
        disaster_release_bps: 0,
        protocol_fee_bps: 0,
        registrations_open: false,
        paused: false,
        bump: 0,
    }
}

/// Registers an affiliate of the given age and makes one minimum contribution.
fn setup_contributed(env: &mut TestEnv, age: i64, profile: u8) -> AffiliateAccount {
    let wallet = key(40 + age as u8);
    let account = env.register_affiliate(wallet, dob_for_age(age), profile, vec![]).unwrap();
    let mut ctx = env.contribute_ctx(&account, key(90), profile);
    contribute::handler(&mut ctx, 0, MIN_CONTRIBUTION, NOW).expect("contribute");
    env.pools[profile as usize] = ctx.pool;
    ctx.affiliate_account
}

fn harvest_ctx(env: &TestEnv, account: &AffiliateAccount, profile: u8, keeper: AccountKey) -> harvest_yield::HarvestYield {
    harvest_yield::HarvestYield {
        fund_config: env.fund_config,
        pool: env.pools[profile as usize],
        affiliate_account: account.clone(),
        keeper,
    }
}

// ── Fund initialization ──────────────────────────────────────────────────────

#[test]
fn fund_config_is_created_with_correct_parameters() {
    let env = TestEnv::new();
    let cfg = env.fund_config;
    assert!(cfg.authority == authority(), "fund_config should name the authority");
    assert_eq!(cfg.min_contribution, MIN_CONTRIBUTION);
    assert_eq!(cfg.contribution_period, CONTRIBUTION_PERIOD);
    assert_eq!(cfg.min_retirement_age, MIN_RETIREMENT_AGE);
    assert_eq!(cfg.min_contribution_years, MIN_CONTRIBUTION_YEARS);
    assert_eq!(cfg.protocol_fee_bps, 50);
    assert!(cfg.registrations_open && !cfg.paused);
}

#[test]
fn all_three_pools_are_created() {
    let env = TestEnv::new();
    assert_eq!(env.pools.len(), 3);
    assert!(env.pools[0].risk_profile == RiskProfile::Conservative, "conservative pool must exist");
    assert!(env.pools[1].risk_profile == RiskProfile::Balanced, "balanced pool must exist");
    assert!(env.pools[2].risk_profile == RiskProfile::Aggressive, "aggressive pool must exist");
    for pool in &env.pools {
        assert!(pool.allocation_valid());
    }
}

// ── Affiliate registration ───────────────────────────────────────────────────

#[test]
fn register_affiliate_creates_account() {
    let mut env = TestEnv::new();
    let wallet = key(20);
    let account = env.register_affiliate(wallet, dob_for_age(35), 1, vec![]);
    let account = account.expect("affiliate account should exist after registration");
    assert!(account.owner == wallet);
    assert_eq!(account.date_of_birth, dob_for_age(35));
    assert_eq!(account.enrolled_at, 0, "enrolment waits for the first contribution");
}

#[test]
fn register_affiliate_increments_pool_count() {
    let mut env = TestEnv::new();
    let count_before = env.pools[1].affiliate_count;
    env.register_affiliate(key(21), dob_for_age(30), 1, vec![]).unwrap();
    let count_after = env.pools[1].affiliate_count;
    assert_eq!(count_after, count_before + 1, "pool affiliate_count should increment");
}

#[test]
fn register_with_valid_beneficiaries_succeeds() {
    let mut env = TestEnv::new();
    let result = env.register_affiliate(
        key(22),
        dob_for_age(40),
        0,
        vec![(key(60), 6_000), (key(61), 4_000)],
    );
    assert!(result.is_ok());
}

#[test]
fn register_with_invalid_beneficiary_shares_fails() {
    let mut env = TestEnv::new();
    let result = env.register_affiliate(key(23), dob_for_age(30), 0, vec![(key(62), 5_000)]);
    assert!(result.is_err(), "invalid beneficiary shares should fail");
    let err_str = format!("{:?}", result.unwrap_err());
    assert!(
        err_str.contains("InvalidBeneficiaryShares"),
        "expected InvalidBeneficiaryShares error, got: {err_str}"
    );
}

// ── Contributions ────────────────────────────────────────────────────────────

#[test]
fn valid_contribution_transfers_tokens_to_pool() {
    let mut env = TestEnv::new();
    let account = env.register_affiliate(key(24), dob_for_age(35), 1, vec![]).unwrap();
    let before = env.pools[1].total_principal;
    let mut ctx = env.contribute_ctx(&account, key(91), 1);
    let transfer = contribute::handler(&mut ctx, 0, MIN_CONTRIBUTION, NOW).unwrap();
    assert!(transfer.to == pool_token(1));
    assert_eq!(transfer.amount, MIN_CONTRIBUTION, "pool should receive exactly MIN_CONTRIBUTION tokens");
    assert_eq!(ctx.pool.total_principal - before, MIN_CONTRIBUTION);
}

#[test]
fn contribution_creates_record_account() {
    let mut env = TestEnv::new();
    let account = env.register_affiliate(key(25), dob_for_age(35), 0, vec![]).unwrap();
    let mut ctx = env.contribute_ctx(&account, key(92), 0);
    assert_eq!(ctx.contribution_record.amount_deposited, 0, "record should be empty before contribution");
    contribute::handler(&mut ctx, 0, MIN_CONTRIBUTION, NOW).unwrap();
    let record = ctx.contribution_record;
    assert!(record.affiliate == key(25), "contribution record should be opened for the affiliate");
    assert_eq!(record.period_start, NOW);
    assert_eq!(record.amount_deposited, MIN_CONTRIBUTION);
    assert!(record.met_minimum);
}

#[test]
fn contribution_below_minimum_fails() {
    let mut env = TestEnv::new();
    let account = env.register_affiliate(key(26), dob_for_age(35), 1, vec![]).unwrap();
    let mut ctx = env.contribute_ctx(&account, key(93), 1);
    let result = contribute::handler(&mut ctx, 0, 100, NOW);
    assert!(result.is_err(), "contribution below minimum should fail");
    let err_str = format!("{:?}", result.unwrap_err());
    assert!(
        err_str.contains("BelowMinimumContribution"),
        "expected BelowMinimumContribution, got: {err_str}"
    );
}

#[test]
fn affiliate_token_balance_decreases_after_contribution() {
    let mut env = TestEnv::new();
    let account = env.register_affiliate(key(27), dob_for_age(35), 2, vec![]).unwrap();
    let mut ctx = env.contribute_ctx(&account, key(94), 2);
    let transfer = contribute::handler(&mut ctx, 0, MIN_CONTRIBUTION, NOW).unwrap();
    assert!(transfer.from == key(94));
    assert!(transfer.authority == key(27));
    assert_eq!(
        transfer.amount,
        MIN_CONTRIBUTION,
        "affiliate token balance should decrease by contribution amount"
    );
}

// ── Yield harvesting ─────────────────────────────────────────────────────────

#[test]
fn harvest_credits_net_yield_to_affiliate() {
    let mut env = TestEnv::new();
    let account = setup_contributed(&mut env, 35, 1);
    let yield_amount: u64 = 50_000;
    let fee = yield_amount * 50 / 10_000; // 0.5% protocol fee = 250
    let expected_net = yield_amount - fee; // 49_750
    let mut ctx = harvest_ctx(&env, &account, 1, authority());
    harvest_yield::handler(&mut ctx, 800, yield_amount, NOW).expect("harvest_yield");
    assert_eq!(ctx.affiliate_account.accrued_yield, expected_net, "net yield after fee should be credited");
}

#[test]
fn harvest_from_non_keeper_fails() {
    let mut env = TestEnv::new();
    let account = setup_contributed(&mut env, 35, 0);
    let imposter = key(99);
    let mut ctx = harvest_ctx(&env, &account, 0, imposter);
    let result = harvest_yield::handler(&mut ctx, 600, 10_000, NOW);
    assert!(result.is_err(), "non-keeper harvest must fail");
    let err_str = format!("{:?}", result.unwrap_err());
    assert!(err_str.contains("Unauthorized"), "expected Unauthorized, got: {err_str}");
}

#[test]
fn multiple_harvests_accumulate_yield() {
    let mut env = TestEnv::new();
    let account = setup_contributed(&mut env, 35, 2);
    let yield_per_harvest: u64 = 10_000;
    let fee_per = yield_per_harvest * 50 / 10_000; // 50
    let net_per = yield_per_harvest - fee_per; // 9_950
    let mut ctx = harvest_ctx(&env, &account, 2, authority());
    harvest_yield::handler(&mut ctx, 1200, yield_per_harvest, NOW).expect("first harvest");
    let after_first = ctx.affiliate_account.accrued_yield;
    assert_eq!(after_first, net_per, "first harvest yield mismatch");
}

// ── Withdrawals ──────────────────────────────────────────────────────────────

fn retirement_ctx(env: &TestEnv, account: &AffiliateAccount, profile: u8) -> request_retirement_withdrawal::RequestRetirementWithdrawal {
    request_retirement_withdrawal::RequestRetirementWithdrawal {
        fund_config: env.fund_config,
        affiliate_account: account.clone(),
        pool: env.pools[profile as usize],
        withdrawal_request: WithdrawalRequest::default(),
        affiliate: account.owner,
        withdrawal_request_bump: 253,
    }
}

#[test]
fn retirement_withdrawal_below_age_fails() {
    let mut env = TestEnv::new();
    let account = setup_contributed(&mut env, 30, 1);
    let mut ctx = retirement_ctx(&env, &account, 1);
    let result = request_retirement_withdrawal::handler(
        &mut ctx,
        0,
        MIN_CONTRIBUTION,
        WithdrawalMode::LumpSum,
        NOW,
    );
    assert!(result.is_err(), "should fail: age 30 < 65");
    let err = format!("{:?}", result.unwrap_err());
    assert!(err.contains("NotRetirementAge"), "expected NotRetirementAge, got: {err}");
}

#[test]
fn retirement_withdrawal_with_not_set_mode_fails() {
    let mut env = TestEnv::new();
    let account = setup_contributed(&mut env, 70, 1);
    let mut ctx = retirement_ctx(&env, &account, 1);
    let result = request_retirement_withdrawal::handler(
        &mut ctx,
        0,
        MIN_CONTRIBUTION,
        WithdrawalMode::NotSet,
        NOW,
    );
    assert!(result.is_err(), "should fail: mode NotSet");
    let err = format!("{:?}", result.unwrap_err());
    assert!(err.contains("WithdrawalModeNotSet"), "expected WithdrawalModeNotSet, got: {err}");
}

fn emergency_ctx(env: &TestEnv, account: &AffiliateAccount) -> request_emergency_withdrawal::RequestEmergencyWithdrawal {
    request_emergency_withdrawal::RequestEmergencyWithdrawal {
        fund_config: env.fund_config,
        affiliate_account: account.clone(),
        withdrawal_request: WithdrawalRequest::default(),
        affiliate: account.owner,
        withdrawal_request_bump: 252,
    }
}

#[test]
fn emergency_withdrawal_with_valid_attestation_succeeds() {
    let mut env = TestEnv::new();
    let account = setup_contributed(&mut env, 45, 1);
    let mut ctx = emergency_ctx(&env, &account);
    request_emergency_withdrawal::handler(
        &mut ctx,
        0,
        WithdrawalReason::MedicalEmergency,
        fake_hash(),
        NOW,
    )
    .expect("emergency withdrawal should succeed");
    let req = ctx.withdrawal_request;
    assert!(req.status == WithdrawalStatus::Pending, "withdrawal request should be created");
    assert!(req.reason == WithdrawalReason::MedicalEmergency);
    assert_eq!(req.amount_requested, MIN_CONTRIBUTION * 3_000 / 10_000);
    assert_eq!(req.oracle_attestation_hash, fake_hash());
}

#[test]
fn emergency_withdrawal_with_zero_attestation_fails() {
    let mut env = TestEnv::new();
    let account = setup_contributed(&mut env, 45, 1);
    let mut ctx = emergency_ctx(&env, &account);
    let result = request_emergency_withdrawal::handler(
        &mut ctx,
        0,
        WithdrawalReason::MedicalEmergency,
        zero_hash(),
        NOW,
    );
    assert!(result.is_err(), "zero attestation must fail");
    let err = format!("{:?}", result.unwrap_err());
    assert!(err.contains("MissingAttestation"), "expected MissingAttestation, got: {err}");
}

#[test]
fn early_voluntary_withdrawal_creates_request() {
    let mut env = TestEnv::new();
    let account = setup_contributed(&mut env, 30, 1);
    let mut ctx = request_early_voluntary_withdrawal::RequestEarlyVoluntaryWithdrawal {
        fund_config: env.fund_config,
        affiliate_account: account.clone(),
        withdrawal_request: WithdrawalRequest::default(),
        affiliate: account.owner,
        withdrawal_request_bump: 251,
    };
    request_early_voluntary_withdrawal::handler(&mut ctx, 0, NOW).expect("early voluntary withdrawal");
    let req = ctx.withdrawal_request;
    assert!(req.reason == WithdrawalReason::EarlyVoluntary);
    assert!(req.status == WithdrawalStatus::Pending);
    assert_eq!(req.amount_requested, MIN_CONTRIBUTION / 10);
}

// ── Inheritance ──────────────────────────────────────────────────────────────

fn mark_ctx(env: &TestEnv, account: &AffiliateAccount) -> mark_deceased::MarkDeceased {
    mark_deceased::MarkDeceased {
        fund_config: env.fund_config,
        affiliate_account: account.clone(),
        oracle_authority: authority(),
    }
}

#[test]
fn mark_deceased_with_zero_hash_fails() {
    let mut env = TestEnv::new();
    let account = env
        .register_affiliate(key(28), dob_for_age(60), 1, vec![(key(63), 10_000)])
        .unwrap();
    let mut ctx = mark_ctx(&env, &account);
    let result = mark_deceased::handler(&mut ctx, zero_hash());
    assert!(result.is_err(), "zero attestation should fail");
    let err = format!("{:?}", result.unwrap_err());
    assert!(err.contains("MissingAttestation"), "expected MissingAttestation, got: {err}");
}

#[test]
fn mark_deceased_with_valid_attestation_succeeds() {
    let mut env = TestEnv::new();
    let account = env
        .register_affiliate(key(29), dob_for_age(60), 1, vec![(key(64), 10_000)])
        .unwrap();
    let mut ctx = mark_ctx(&env, &account);
    mark_deceased::handler(&mut ctx, fake_hash()).expect("mark_deceased");
    assert!(ctx.affiliate_account.deceased, "account should be marked deceased");
    assert_eq!(ctx.affiliate_account.beneficiaries.len(), 1);
}

#[test]
fn cannot_mark_deceased_twice() {
    let mut env = TestEnv::new();
    let account = env
        .register_affiliate(key(30), dob_for_age(55), 0, vec![(key(65), 10_000)])
        .unwrap();
    let mut ctx = mark_ctx(&env, &account);
    mark_deceased::handler(&mut ctx, fake_hash()).expect("mark_deceased");
    let result = mark_deceased::handler(&mut ctx, fake_hash());
    assert!(result.is_err(), "marking deceased twice must fail");
    let err = format!("{:?}", result.unwrap_err());
    assert!(err.contains("AccountDeceased"), "expected AccountDeceased, got: {err}");
}

#[test]
fn inheritance_on_living_affiliate_fails() {
    let mut env = TestEnv::new();
    let ben = key(66);
    let account = env.register_affiliate(key(31), dob_for_age(50), 0, vec![(ben, 10_000)]).unwrap();
    let mut cctx = env.contribute_ctx(&account, key(95), 0);
    contribute::handler(&mut cctx, 0, MIN_CONTRIBUTION, NOW).unwrap();
    let mut ctx = process_inheritance::ProcessInheritance {
        fund_config: env.fund_config,
        affiliate_account: cctx.affiliate_account.clone(),
        pool: cctx.pool,
        withdrawal_request: WithdrawalRequest::default(),
        pool_token_account: TokenAccountInfo { key: pool_token(0), mint: mint(), owner: key(4) },
        beneficiary_token_account: TokenAccountInfo { key: key(96), mint: mint(), owner: ben },
        fund_authority: key(4),
        keeper: authority(),
        withdrawal_request_bump: 250,
    };
    let result = process_inheritance::handler(&mut ctx, 0, 0, fake_hash(), NOW);
    assert!(result.is_err(), "inheritance on living affiliate must fail");
    let err = format!("{:?}", result.unwrap_err());
    assert!(err.contains("NotDeceased"), "expected NotDeceased, got: {err}");
}
