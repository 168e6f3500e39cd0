pub mod approve_and_execute_withdrawal;
pub mod contribute;
pub mod harvest_yield;
pub mod initialize_fund;
pub mod initialize_pool;
pub mod mark_deceased;
pub mod process_inheritance;
pub mod register_affiliate;
pub mod request_early_voluntary_withdrawal;
pub mod request_emergency_withdrawal;
pub mod request_retirement_withdrawal;
pub mod update_risk_profile;

pub use approve_and_execute_withdrawal::ApproveAndExecuteWithdrawal;
pub use contribute::Contribute;
pub use harvest_yield::HarvestYield;
pub use initialize_fund::InitializeFund;
pub use initialize_pool::InitializePool;
pub use mark_deceased::MarkDeceased;
pub use process_inheritance::ProcessInheritance;
pub use register_affiliate::RegisterAffiliate;
pub use request_early_voluntary_withdrawal::RequestEarlyVoluntaryWithdrawal;
pub use request_emergency_withdrawal::RequestEmergencyWithdrawal;
pub use request_retirement_withdrawal::RequestRetirementWithdrawal;
pub use update_risk_profile::UpdateRiskProfile;
