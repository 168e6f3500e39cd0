use vstd::prelude::*;

use crate::errors::PensionError;
use crate::key::AccountKey;
use crate::state::affiliate::{lemma_share_total_bounds, share_sum, share_total};
use crate::state::{
    AffiliateAccount, Beneficiary, FundConfig, InvestmentPool, RiskProfile, WithdrawalMode,
};

verus! {

/// The accounts a registration reads and writes.
#[derive(Clone, Debug)]
pub struct RegisterAffiliate {
    pub fund_config: FundConfig,
    /// The new affiliate account.
    pub affiliate_account: AffiliateAccount,
    /// The investment pool of the chosen risk profile.
    pub pool: InvestmentPool,
    /// The signing affiliate wallet.
    pub affiliate: AccountKey,
    /// Bump seed of the new account's address.
    pub affiliate_account_bump: u8,
}

/// Why the registration is refused, checked in order; `None` when it is accepted.
pub open spec fn register_error(c: RegisterAffiliate, beneficiaries: Seq<Beneficiary>) -> Option<PensionError> {
    if c.fund_config.paused {
        Some(PensionError::FundPaused)
    } else if !c.fund_config.registrations_open {
        Some(PensionError::RegistrationsClosed)
    } else if beneficiaries.len() > 0 && beneficiaries.len() > AffiliateAccount::MAX_BENEFICIARIES {
        Some(PensionError::TooManyBeneficiaries)
    } else if beneficiaries.len() > 0 && share_total(beneficiaries) != 10_000 {
        Some(PensionError::InvalidBeneficiaryShares)
    } else if c.pool.affiliate_count == u32::MAX {
        Some(PensionError::ContributionOverflow)
    } else {
        None
    }
}

/// The accounts after a registration with the given beneficiary list; `paid_beneficiaries`
/// is the account's (empty) list of paid inheritances.
pub open spec fn register_applied(
    c: RegisterAffiliate,
    date_of_birth: i64,
    country_code: [u8; 2],
    kyc_doc_hash: [u8; 32],
    risk_profile: RiskProfile,
    advisor_session_hash: [u8; 32],
    beneficiaries: Vec<Beneficiary>,
    paid_beneficiaries: Vec<u8>,
) -> RegisterAffiliate {
    RegisterAffiliate {
        affiliate_account: AffiliateAccount {
            owner: c.affiliate,
            enrolled_at: 0,
            date_of_birth: date_of_birth,
            country_code: country_code,
            kyc_doc_hash: kyc_doc_hash,
            risk_profile: risk_profile,
            advisor_session_hash: advisor_session_hash,
            total_contributed: 0,
            accrued_yield: 0,
            last_contribution_at: 0,
            missed_periods: 0,
            periods_completed: 0,
            retired: false,
            withdrawal_mode: WithdrawalMode::NotSet,
            withdrawn_this_year: 0,
            withdrawal_year: 0,
            beneficiaries: beneficiaries,
            deceased: false,
            bump: c.affiliate_account_bump,
            last_profile_change_at: None,
            principal_at_death: 0,
            yield_at_death: 0,
            paid_beneficiaries: paid_beneficiaries,
        },
        pool: InvestmentPool { affiliate_count: (c.pool.affiliate_count + 1) as u32, ..c.pool },
        ..c
    }
}

/// Registers a new affiliate with KYC hash, date of birth, risk profile and
/// beneficiaries (at most five, their shares summing to 10_000 bps when any are given),
/// and counts the affiliate in its pool. A refused registration changes nothing.
pub fn handler(
    ctx: &mut RegisterAffiliate,
    date_of_birth: i64,
    country_code: [u8; 2],
    kyc_doc_hash: [u8; 32],
    risk_profile: RiskProfile,
    advisor_session_hash: [u8; 32],
    beneficiaries: Vec<Beneficiary>,
) -> (r: Result<(), PensionError>)
    ensures
        match r {
            Ok(()) => {
                &&& register_error(*old(ctx), beneficiaries@) is None
                &&& final(ctx).affiliate_account.paid_beneficiaries@.len() == 0
                &&& *final(ctx) == register_applied(
                    *old(ctx),
                    date_of_birth,
                    country_code,
                    kyc_doc_hash,
                    risk_profile,
                    advisor_session_hash,
                    beneficiaries,
                    final(ctx).affiliate_account.paid_beneficiaries,
                )
            },
            Err(e) => {
                &&& register_error(*old(ctx), beneficiaries@) == Some(e)
                &&& *final(ctx) == *old(ctx)
            },
        },
{
    if ctx.fund_config.paused {
        return Err(PensionError::FundPaused);
    }
    if !ctx.fund_config.registrations_open {
        return Err(PensionError::RegistrationsClosed);
    }
    if beneficiaries.len() > 0 {
        if beneficiaries.len() > AffiliateAccount::MAX_BENEFICIARIES {
            return Err(PensionError::TooManyBeneficiaries);
        }
        proof {
            lemma_share_total_bounds(beneficiaries@);
        }
        let total: u32 = share_sum(&beneficiaries);
        if total != 10_000 {
            return Err(PensionError::InvalidBeneficiaryShares);
        }
    }
    let count = match ctx.pool.affiliate_count.checked_add(1) {
        Some(n) => n,
        None => {
            return Err(PensionError::ContributionOverflow);
        },
    };
    ctx.affiliate_account = AffiliateAccount {
        owner: ctx.affiliate,
        enrolled_at: 0,
        date_of_birth: date_of_birth,
        country_code: country_code,
        kyc_doc_hash: kyc_doc_hash,
        risk_profile: risk_profile,
        advisor_session_hash: advisor_session_hash,
        total_contributed: 0,
        accrued_yield: 0,
        last_contribution_at: 0,
        missed_periods: 0,
        periods_completed: 0,
        retired: false,
        withdrawal_mode: WithdrawalMode::NotSet,
        withdrawn_this_year: 0,
        withdrawal_year: 0,
        beneficiaries: beneficiaries,
        deceased: false,
        bump: ctx.affiliate_account_bump,
        last_profile_change_at: None,
        principal_at_death: 0,
        yield_at_death: 0,
        paid_beneficiaries: Vec::new(),
    };
    ctx.pool.affiliate_count = count;
    Ok(())
}

} // verus!
