use vstd::prelude::*;

use crate::errors::PensionError;
use crate::key::{hash_is_zero, is_zero_hash, AccountKey, TokenAccountInfo, TokenTransfer};
use crate::math::{
    bps_share, checked_bps_share, fits_u64, min_int, principal_part, sat_sub, split_payout, yield_part,
};
use crate::state::affiliate::{lists_index, share_total};
use crate::state::{
    AffiliateAccount, Beneficiary, FundConfig, InvestmentPool, WithdrawalReason, WithdrawalRequest,
    WithdrawalStatus,
};

verus! {

/// The accounts an inheritance payout reads and writes.
#[derive(Clone, Debug)]
pub struct ProcessInheritance {
    pub fund_config: FundConfig,
    pub affiliate_account: AffiliateAccount,
    pub pool: InvestmentPool,
    /// The new request that records this payout.
    pub withdrawal_request: WithdrawalRequest,
    /// The pool's source token account.
    pub pool_token_account: TokenAccountInfo,
    /// The beneficiary's token account.
    pub beneficiary_token_account: TokenAccountInfo,
    /// The fund's signing address over pool token accounts.
    pub fund_authority: AccountKey,
    /// The signing keeper.
    pub keeper: AccountKey,
    /// Bump seed of the new request's address.
    pub withdrawal_request_bump: u8,
}

/// The account constraints, in the order they are checked.
pub open spec fn account_check(c: ProcessInheritance) -> Option<PensionError> {
    if c.fund_config.paused {
        Some(PensionError::FundPaused)
    } else if c.fund_config.authority@ != c.keeper@ {
        Some(PensionError::Unauthorized)
    } else if !c.affiliate_account.deceased {
        Some(PensionError::NotDeceased)
    } else if c.pool_token_account.key@ != c.pool.token_account@ {
        Some(PensionError::PoolMismatch)
    } else if c.beneficiary_token_account.mint@ != c.fund_config.accepted_mint@ {
        Some(PensionError::PoolMismatch)
    } else {
        None
    }
}

/// The beneficiary's share of the estate: the balance held when the affiliate was
/// marked deceased, so that shares summing to 10_000 bps divide all of it.
pub open spec fn estate_share(c: ProcessInheritance, beneficiary_index: u8) -> int {
    bps_share(
        c.affiliate_account.estate(),
        c.affiliate_account.beneficiaries@[beneficiary_index as int].share_bps as int,
    )
}

/// What the beneficiary is paid: its share of the estate, but never more than the
/// affiliate still holds.
pub open spec fn inheritance_payout(c: ProcessInheritance, beneficiary_index: u8) -> int {
    min_int(estate_share(c, beneficiary_index), c.affiliate_account.balance())
}

/// What paying every beneficiary of `b` its share of `estate` comes to.
pub open spec fn estate_payouts_total(estate: int, b: Seq<Beneficiary>) -> int
    decreases b.len(),
{
    if b.len() == 0 {
        0
    } else {
        estate_payouts_total(estate, b.drop_last()) + bps_share(estate, b.last().share_bps as int)
    }
}

/// The payouts of all beneficiaries add up to the estate's share of their total, rounded
/// down by less than one unit per beneficiary.
pub proof fn lemma_estate_payouts_total(estate: int, b: Seq<Beneficiary>)
    requires
        estate >= 0,
    ensures
        10_000 * estate_payouts_total(estate, b) <= estate * share_total(b),
        estate * share_total(b) <= 10_000 * estate_payouts_total(estate, b) + 9_999 * b.len(),
    decreases b.len(),
{
    if b.len() > 0 {
        let rest = b.drop_last();
        let s = b.last().share_bps as int;
        lemma_estate_payouts_total(estate, rest);
        let q = bps_share(estate, s);
        assert(10_000 * q <= estate * s && estate * s <= 10_000 * q + 9_999) by (nonlinear_arith)
            requires
                estate >= 0,
                s >= 0,
                q == estate * s / 10_000,
        ;
        assert(estate * share_total(b) == estate * share_total(rest) + estate * s)
            by (nonlinear_arith)
            requires
                share_total(b) == share_total(rest) + s,
        ;
    }
}

/// Why the payout is refused, checked in order; `None` when it is made.
pub open spec fn inheritance_error(
    c: ProcessInheritance,
    beneficiary_index: u8,
    oracle_attestation_hash: [u8; 32],
) -> Option<PensionError> {
    let acc = c.affiliate_account;
    if account_check(c) is Some {
        account_check(c)
    } else if acc.beneficiaries@.len() == 0 {
        Some(PensionError::NoBeneficiaries)
    } else if is_zero_hash(oracle_attestation_hash@) {
        Some(PensionError::MissingAttestation)
    } else if beneficiary_index >= acc.beneficiaries@.len() {
        Some(PensionError::BeneficiaryNotFound)
    } else if c.beneficiary_token_account.owner@
        != acc.beneficiaries@[beneficiary_index as int].wallet@ {
        Some(PensionError::BeneficiaryNotFound)
    } else if acc.paid_beneficiaries@.contains(beneficiary_index) {
        Some(PensionError::BeneficiaryAlreadyPaid)
    } else if !fits_u64(acc.estate()) {
        Some(PensionError::ContributionOverflow)
    } else if !fits_u64(
        acc.estate() * acc.beneficiaries@[beneficiary_index as int].share_bps,
    ) {
        Some(PensionError::ContributionOverflow)
    } else {
        None
    }
}

/// The accounts after the payout to beneficiary `beneficiary_index` at `now`, with
/// `paid_beneficiaries` as the list of paid beneficiaries.
pub open spec fn inheritance_applied(
    c: ProcessInheritance,
    request_nonce: u32,
    beneficiary_index: u8,
    oracle_attestation_hash: [u8; 32],
    now: i64,
    paid_beneficiaries: Vec<u8>,
) -> ProcessInheritance {
    let acc = c.affiliate_account;
    let payout = inheritance_payout(c, beneficiary_index);
    let fp = principal_part(payout, acc.total_contributed as int);
    let fy = yield_part(payout, acc.total_contributed as int);
    ProcessInheritance {
        affiliate_account: AffiliateAccount {
            total_contributed: (acc.total_contributed - fp) as u64,
            accrued_yield: sat_sub(acc.accrued_yield as int, fy) as u64,
            paid_beneficiaries: paid_beneficiaries,
            ..acc
        },
        pool: InvestmentPool {
            total_principal: sat_sub(c.pool.total_principal as int, fp) as u64,
            total_yield: sat_sub(c.pool.total_yield as int, fy) as u64,
            ..c.pool
        },
        withdrawal_request: WithdrawalRequest {
            affiliate: acc.owner,
            request_nonce: request_nonce,
            reason: WithdrawalReason::Inheritance,
            status: WithdrawalStatus::Executed,
            amount_requested: payout as u64,
            amount_released: payout as u64,
            penalty_amount: 0,
            requested_at: now,
            resolved_at: now,
            oracle_attestation_hash: oracle_attestation_hash,
            beneficiary_wallet: Some(acc.beneficiaries@[beneficiary_index as int].wallet),
            bump: c.withdrawal_request_bump,
        },
        ..c
    }
}

/// Pays beneficiary `beneficiary_index` its share of a deceased affiliate's estate at `now`.
///
/// The payout is the beneficiary's share of the principal plus yield held at death, capped
/// at what the affiliate still holds and drawn from the current principal first; each
/// beneficiary is paid once. The payout is recorded
/// as an executed inheritance request, the beneficiary is added to the paid list, and the
/// returned transfer moves the payout from the pool's token account to the beneficiary's.
/// A refused payout changes nothing.
pub fn handler(
    ctx: &mut ProcessInheritance,
    request_nonce: u32,
    beneficiary_index: u8,
    oracle_attestation_hash: [u8; 32],
    now: i64,
) -> (r: Result<TokenTransfer, PensionError>)
    ensures
        match r {
            Ok(t) => {
                &&& inheritance_error(*old(ctx), beneficiary_index, oracle_attestation_hash) is None
                &&& final(ctx).affiliate_account.paid_beneficiaries@
                    == old(ctx).affiliate_account.paid_beneficiaries@.push(beneficiary_index)
                &&& *final(ctx) == inheritance_applied(
                    *old(ctx),
                    request_nonce,
                    beneficiary_index,
                    oracle_attestation_hash,
                    now,
                    final(ctx).affiliate_account.paid_beneficiaries,
                )
                &&& t == (TokenTransfer {
                    from: old(ctx).pool_token_account.key,
                    to: old(ctx).beneficiary_token_account.key,
                    authority: old(ctx).fund_authority,
                    amount: inheritance_payout(*old(ctx), beneficiary_index) as u64,
                })
            },
            Err(e) => {
                &&& inheritance_error(*old(ctx), beneficiary_index, oracle_attestation_hash)
                    == Some(e)
                &&& *final(ctx) == *old(ctx)
            },
        },
{
    if ctx.fund_config.paused {
        return Err(PensionError::FundPaused);
    }
    if !(ctx.fund_config.authority == ctx.keeper) {
        return Err(PensionError::Unauthorized);
    }
    if !ctx.affiliate_account.deceased {
        return Err(PensionError::NotDeceased);
    }
    if !(ctx.pool_token_account.key == ctx.pool.token_account) {
        return Err(PensionError::PoolMismatch);
    }
    if !(ctx.beneficiary_token_account.mint == ctx.fund_config.accepted_mint) {
        return Err(PensionError::PoolMismatch);
    }
    if ctx.affiliate_account.beneficiaries.len() == 0 {
        return Err(PensionError::NoBeneficiaries);
    }
    if hash_is_zero(&oracle_attestation_hash) {
        return Err(PensionError::MissingAttestation);
    }
    let index = beneficiary_index as usize;
    if index >= ctx.affiliate_account.beneficiaries.len() {
        return Err(PensionError::BeneficiaryNotFound);
    }
    let beneficiary = ctx.affiliate_account.beneficiaries[index];
    if !(ctx.beneficiary_token_account.owner == beneficiary.wallet) {
        return Err(PensionError::BeneficiaryNotFound);
    }
    if lists_index(&ctx.affiliate_account.paid_beneficiaries, beneficiary_index) {
        return Err(PensionError::BeneficiaryAlreadyPaid);
    }
    let estate = match ctx.affiliate_account.principal_at_death.checked_add(
        ctx.affiliate_account.yield_at_death,
    ) {
        Some(t) => t,
        None => {
            return Err(PensionError::ContributionOverflow);
        },
    };
    let share = match checked_bps_share(estate, beneficiary.share_bps as u64) {
        Some(p) => p,
        None => {
            return Err(PensionError::ContributionOverflow);
        },
    };
    let payout = match ctx.affiliate_account.total_contributed.checked_add(
        ctx.affiliate_account.accrued_yield,
    ) {
        Some(balance) => if share > balance {
            balance
        } else {
            share
        },
        None => share,
    };
    let (from_principal, from_yield) = split_payout(payout, ctx.affiliate_account.total_contributed);
    ctx.affiliate_account.total_contributed = ctx.affiliate_account.total_contributed - from_principal;
    ctx.affiliate_account.accrued_yield = ctx.affiliate_account.accrued_yield.saturating_sub(from_yield);
    ctx.pool.total_principal = ctx.pool.total_principal.saturating_sub(from_principal);
    ctx.pool.total_yield = ctx.pool.total_yield.saturating_sub(from_yield);
    ctx.affiliate_account.paid_beneficiaries.push(beneficiary_index);
    ctx.withdrawal_request = WithdrawalRequest {
        affiliate: ctx.affiliate_account.owner,
        request_nonce: request_nonce,
        reason: WithdrawalReason::Inheritance,
        status: WithdrawalStatus::Executed,
        amount_requested: payout,
        amount_released: payout,
        penalty_amount: 0,
        requested_at: now,
        resolved_at: now,
        oracle_attestation_hash: oracle_attestation_hash,
        beneficiary_wallet: Some(beneficiary.wallet),
        bump: ctx.withdrawal_request_bump,
    };
    Ok(
        TokenTransfer {
            from: ctx.pool_token_account.key,
            to: ctx.beneficiary_token_account.key,
            authority: ctx.fund_authority,
            amount: payout,
        },
    )
}

} // verus!
