use vstd::prelude::*;

verus! {

/// Every failure of a vesting operation. Each one aborts the whole operation.
#[derive(Clone, Copy, Debug, PartialEq, Eq, Structural)]
pub enum VestingError {
    /// The cliff gate refused the claim at the given time.
    ClaimNotAvailableYet,
    /// The schedule has no positive duration (`end_time <= start_time`).
    InvalidVestingPeriod,
    /// `total_amount * time_since_start` does not fit in a `u64`.
    CalculationOverflow,
    /// Nothing is claimable beyond what was already withdrawn.
    NothingToClaim,
    /// The caller or a supplied record does not match the recorded references.
    Forbidden,
    /// A record already lives at the derived address.
    AlreadyExists,
    /// The seeds do not derive a valid program address.
    InvalidDerivation,
}

} // verus!
