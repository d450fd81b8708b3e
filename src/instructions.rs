use vstd::prelude::*;

use crate::address::{same_address, Address};
use crate::error::VestingError;
use crate::schedule::claim_outcome;
use crate::state::{Employee, Vesting};

verus! {

/// The accounts of a pool's creation: the paying owner, the pool's derived
/// address, the asset and the treasury's derived address.
pub struct CreateVesting {
    pub signer: Address,
    pub vesting: Address,
    pub mint: Address,
    pub treasury_token_account: Address,
}

impl CreateVesting {
    /// The pool record, with the signer as its owner.
    pub fn create_vesting(&self, company_name: Vec<u8>, treasury_bump: u8, bump: u8) -> (r:
        Vesting)
        ensures
            r.owner == self.signer,
            r.mint == self.mint,
            r.treasury_token_account == self.treasury_token_account,
            r.company_name@ == company_name@,
            r.treasury_bump == treasury_bump,
            r.bump == bump,
    {
        Vesting {
            owner: self.signer,
            mint: self.mint,
            treasury_token_account: self.treasury_token_account,
            company_name,
            treasury_bump,
            bump,
        }
    }
}

/// The accounts of a grant's creation: the caller, the beneficiary, the pool's
/// address and the owner recorded in that pool.
pub struct CreateEmployee {
    pub owner: Address,
    pub beneficiary: Address,
    pub vesting: Address,
    pub vesting_owner: Address,
}

impl CreateEmployee {
    /// The grant record, with nothing withdrawn; `Forbidden` unless the caller
    /// is the pool's owner.
    pub fn create_employee(
        &self,
        start_time: i64,
        end_time: i64,
        cliff_time: i64,
        total_amount: u64,
        bump: u8,
    ) -> (r: Result<Employee, VestingError>)
        ensures
            self.owner@ != self.vesting_owner@ ==> r == Err::<Employee, VestingError>(
                VestingError::Forbidden,
            ),
            self.owner@ == self.vesting_owner@ ==> r == Ok::<Employee, VestingError>(
                Employee {
                    beneficiary: self.beneficiary,
                    start_time,
                    end_time,
                    cliff_time,
                    vesting: self.vesting,
                    total_amount,
                    total_withdrawn: 0,
                    bump,
                },
            ),
    {
        if !same_address(&self.owner, &self.vesting_owner) {
            return Err(VestingError::Forbidden);
        }
        Ok(
            Employee {
                beneficiary: self.beneficiary,
                start_time,
                end_time,
                cliff_time,
                vesting: self.vesting,
                total_amount,
                total_withdrawn: 0,
                bump,
            },
        )
    }
}

/// The accounts of a claim: the calling beneficiary, the grant and the address
/// of the pool it is claimed under.
pub struct ClaimTokens {
    pub beneficiary: Address,
    pub employee: Employee,
    pub vesting: Address,
}

/// What a claim through `ctx` yields: `Forbidden` where the grant belongs to
/// another beneficiary or another pool, else the schedule's outcome.
pub open spec fn claim_tokens_outcome(ctx: ClaimTokens, now: i64) -> Result<u64, VestingError> {
    if ctx.employee.beneficiary@ != ctx.beneficiary@ || ctx.employee.vesting@ != ctx.vesting@ {
        Err(VestingError::Forbidden)
    } else {
        claim_outcome(ctx.employee, now)
    }
}

impl ClaimTokens {
    /// Claims on the grant at `now` after checking its references; on success
    /// the payout is added to `total_withdrawn` and returned, on failure
    /// nothing changes.
    pub fn claim_tokens(&mut self, now: i64) -> (r: Result<u64, VestingError>)
        ensures
            r == claim_tokens_outcome(*old(self), now),
            final(self).beneficiary == old(self).beneficiary,
            final(self).vesting == old(self).vesting,
            match r {
                Ok(amount) => final(self).employee == (Employee {
                    total_withdrawn: (old(self).employee.total_withdrawn + amount) as u64,
                    ..old(self).employee
                }),
                Err(_) => final(self).employee == old(self).employee,
            },
    {
        if !same_address(&self.employee.beneficiary, &self.beneficiary) {
            return Err(VestingError::Forbidden);
        }
        if !same_address(&self.employee.vesting, &self.vesting) {
            return Err(VestingError::Forbidden);
        }
        self.employee.claim(now)
    }
}

} // verus!
