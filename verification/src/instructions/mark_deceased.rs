use vstd::prelude::*;

use crate::errors::PensionError;
use crate::key::{hash_is_zero, is_zero_hash, AccountKey};
use crate::state::{AffiliateAccount, FundConfig};

verus! {

/// The accounts a death marking reads and writes.
#[derive(Clone, Debug)]
pub struct MarkDeceased {
    pub fund_config: FundConfig,
    pub affiliate_account: AffiliateAccount,
    /// The oracle authority that signs death attestations.
    pub oracle_authority: AccountKey,
}

/// Why the marking is refused, checked in order; `None` when it is made.
pub open spec fn mark_error(c: MarkDeceased, oracle_attestation_hash: [u8; 32]) -> Option<PensionError> {
    if c.fund_config.authority@ != c.oracle_authority@ {
        Some(PensionError::InvalidOracleSigner)
    } else if c.affiliate_account.deceased {
        Some(PensionError::AccountDeceased)
    } else if is_zero_hash(oracle_attestation_hash@) {
        Some(PensionError::MissingAttestation)
    } else if c.affiliate_account.beneficiaries@.len() == 0 {
        Some(PensionError::NoBeneficiaries)
    } else {
        None
    }
}

/// The accounts after the affiliate is marked deceased: the balance held at that moment
/// is recorded as the estate that the beneficiaries' shares divide.
pub open spec fn mark_applied(c: MarkDeceased) -> MarkDeceased {
    MarkDeceased {
        affiliate_account: AffiliateAccount {
            deceased: true,
            principal_at_death: c.affiliate_account.total_contributed,
            yield_at_death: c.affiliate_account.accrued_yield,
            ..c.affiliate_account
        },
        ..c
    }
}

/// Marks the affiliate deceased on an oracle attestation, which enables inheritance
/// payouts, and records the balance at death. A refused marking changes nothing.
pub fn handler(ctx: &mut MarkDeceased, oracle_attestation_hash: [u8; 32]) -> (r: Result<(), PensionError>)
    ensures
        match r {
            Ok(()) => {
                &&& mark_error(*old(ctx), oracle_attestation_hash) is None
                &&& *final(ctx) == mark_applied(*old(ctx))
            },
            Err(e) => {
                &&& mark_error(*old(ctx), oracle_attestation_hash) == Some(e)
                &&& *final(ctx) == *old(ctx)
            },
        },
{
    if !(ctx.fund_config.authority == ctx.oracle_authority) {
        return Err(PensionError::InvalidOracleSigner);
    }
    if ctx.affiliate_account.deceased {
        return Err(PensionError::AccountDeceased);
    }
    if hash_is_zero(&oracle_attestation_hash) {
        return Err(PensionError::MissingAttestation);
    }
    if ctx.affiliate_account.beneficiaries.len() == 0 {
        return Err(PensionError::NoBeneficiaries);
    }
    ctx.affiliate_account.deceased = true;
    ctx.affiliate_account.principal_at_death = ctx.affiliate_account.total_contributed;
    ctx.affiliate_account.yield_at_death = ctx.affiliate_account.accrued_yield;
    Ok(())
}

} // verus!
