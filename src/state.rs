use vstd::prelude::*;

use crate::address::Address;

verus! {

/// A company's vesting pool. Never changed after creation.
#[derive(Debug)]
pub struct Vesting {
    /// The only identity that may create grants under this pool.
    pub owner: Address,
    /// The asset being vested.
    pub mint: Address,
    /// The pooled-funds account, controlled by its own derived authority.
    pub treasury_token_account: Address,
    /// Seed of the pool's address and of the treasury's authority.
    pub company_name: Vec<u8>,
    /// Bump that completes the treasury's derivation.
    pub treasury_bump: u8,
    /// Bump that completes the pool's own derivation.
    pub bump: u8,
}

/// One beneficiary's grant under a pool, with its withdrawal ledger.
#[derive(Clone, Copy, Debug, PartialEq, Eq)]
pub struct Employee {
    pub beneficiary: Address,
    pub start_time: i64,
    pub end_time: i64,
    /// Compared with the claim time by the cliff gate.
    pub cliff_time: i64,
    /// Address of the owning pool.
    pub vesting: Address,
    pub total_amount: u64,
    pub total_withdrawn: u64,
    pub bump: u8,
}

impl Employee {
    /// Never more has been paid out than was granted.
    pub open spec fn wf(&self) -> bool {
        self.total_withdrawn <= self.total_amount
    }
}

} // verus!
