//! Token vesting: company-level pools, per-beneficiary grants with a linear
//! schedule and a cliff, and the claim computation that decides how much a
//! beneficiary may withdraw from the pooled treasury.
//!
//! Every record lives at an address derived from its seeds: a pool from its
//! company name, its treasury from the same name under another tag, and a
//! grant from its beneficiary and pool. The treasury is its own authority, so
//! the program signs for it by re-deriving those seeds.
pub mod address;
pub mod error;
pub mod instructions;
pub mod laws;
pub mod ledger;
pub mod schedule;
pub mod seeds;
pub mod state;

pub use address::Address;
pub use error::VestingError;
pub use instructions::{ClaimTokens, CreateEmployee, CreateVesting};
pub use state::{Employee, Vesting};
