use vstd::prelude::*;

use crate::error::VestingError;
use crate::state::Employee;

verus! {

/// Seconds elapsed since the start, clamped at zero.
pub open spec fn time_since_start(now: i64, start_time: i64) -> int {
    if now > start_time {
        now - start_time
    } else {
        0
    }
}

/// Length of the schedule, clamped at zero.
pub open spec fn total_vesting_time(start_time: i64, end_time: i64) -> int {
    if end_time > start_time {
        end_time - start_time
    } else {
        0
    }
}

/// The cliff gate: a claim passes only while `now` is still before
/// `cliff_time`. Note the direction: claims are refused from the cliff on,
/// the reverse of a conventional cliff.
pub open spec fn cliff_gate_open(now: i64, cliff_time: i64) -> bool {
    now < cliff_time
}

/// The amount vested at `now`. From `end_time` on the whole grant has vested.
/// Before that the formula `(total * t) / t`, with `t` the time since
/// the start, yields the whole grant once `t > 0`, nothing while `t == 0`, and
/// fails when the product leaves `u64`.
pub open spec fn vested_at(total_amount: u64, start_time: i64, end_time: i64, now: i64) -> Result<
    u64,
    VestingError,
> {
    if now >= end_time {
        Ok(total_amount)
    } else if total_amount * time_since_start(now, start_time) > u64::MAX {
        Err(VestingError::CalculationOverflow)
    } else if time_since_start(now, start_time) == 0 {
        Ok(0)
    } else {
        Ok(total_amount)
    }
}

/// What a claim on grant `e` at time `now` pays out, or why it fails, with the
/// checks in the order the claim makes them.
pub open spec fn claim_outcome(e: Employee, now: i64) -> Result<u64, VestingError> {
    if !cliff_gate_open(now, e.cliff_time) {
        Err(VestingError::ClaimNotAvailableYet)
    } else if total_vesting_time(e.start_time, e.end_time) == 0 {
        Err(VestingError::InvalidVestingPeriod)
    } else {
        match vested_at(e.total_amount, e.start_time, e.end_time, now) {
            Err(err) => Err(err),
            Ok(vested) => if vested <= e.total_withdrawn {
                Err(VestingError::NothingToClaim)
            } else {
                Ok((vested - e.total_withdrawn) as u64)
            },
        }
    }
}

/// `max(0, now - start_time)` as an unsigned count of seconds.
pub fn elapsed_since(now: i64, start_time: i64) -> (r: u64)
    ensures
        r == time_since_start(now, start_time),
{
    if now > start_time {
        (now as i128 - start_time as i128) as u64
    } else {
        0
    }
}

/// Computes the vested amount as `(total * t) / t`, checking the product for
/// overflow; the result does not depend on the schedule's length.
pub fn vested_amount(total_amount: u64, start_time: i64, end_time: i64, now: i64) -> (r: Result<
    u64,
    VestingError,
>)
    ensures
        r == vested_at(total_amount, start_time, end_time, now),
{
    if now >= end_time {
        return Ok(total_amount);
    }
    let elapsed = elapsed_since(now, start_time);
    match total_amount.checked_mul(elapsed) {
        Some(product) => {
            if elapsed == 0 {
                Ok(0)
            } else {
                proof {
                    vstd::arithmetic::div_mod::lemma_div_by_multiple(
                        total_amount as int,
                        elapsed as int,
                    );
                }
                Ok(product / elapsed)
            }
        },
        None => Err(VestingError::CalculationOverflow),
    }
}

impl Employee {
    /// The amount a claim at `now` would pay out, without changing the grant.
    pub fn claimable_at(&self, now: i64) -> (r: Result<u64, VestingError>)
        ensures
            r == claim_outcome(*self, now),
    {
        if !(now < self.cliff_time) {
            return Err(VestingError::ClaimNotAvailableYet);
        }
        if self.end_time <= self.start_time {
            return Err(VestingError::InvalidVestingPeriod);
        }
        let vested = vested_amount(self.total_amount, self.start_time, self.end_time, now)?;
        if vested <= self.total_withdrawn {
            return Err(VestingError::NothingToClaim);
        }
        Ok(vested - self.total_withdrawn)
    }

    /// Claims at `now`: on success records the payout in `total_withdrawn`
    /// and returns it; on failure leaves the grant as it was.
    pub fn claim(&mut self, now: i64) -> (r: Result<u64, VestingError>)
        ensures
            r == claim_outcome(*old(self), now),
            match r {
                Ok(amount) => *final(self) == (Employee {
                    total_withdrawn: (old(self).total_withdrawn + amount) as u64,
                    ..*old(self)
                }),
                Err(_) => *final(self) == *old(self),
            },
    {
        let amount = self.claimable_at(now)?;
        self.total_withdrawn = self.total_withdrawn + amount;
        Ok(amount)
    }
}

} // verus!
