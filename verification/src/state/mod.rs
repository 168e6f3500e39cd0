pub mod affiliate;
pub mod contribution_record;
pub mod fund_config;
pub mod investment_pool;
pub mod withdrawal_request;

pub use affiliate::{AffiliateAccount, Beneficiary, RiskProfile, WithdrawalMode};
pub use contribution_record::ContributionRecord;
pub use fund_config::FundConfig;
pub use investment_pool::InvestmentPool;
pub use withdrawal_request::{WithdrawalReason, WithdrawalRequest, WithdrawalStatus};
