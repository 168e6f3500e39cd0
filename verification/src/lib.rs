//! Verified core of a pension fund: the rules that govern registration,
//! contributions, yield, withdrawals and inheritance of affiliate accounts.
pub mod errors;
pub mod instruction_laws;
pub mod instructions;
pub mod key;
pub mod laws;
pub mod math;
pub mod state;
