use vstd::prelude::*;

use crate::address::Address;
use crate::error::VestingError;
use crate::ledger::{
    claim_tokens_result,
    create_employee_error,
    create_vesting_error,
    derived,
    grant_claimed,
    pool_created,
    Ledger,
};
use crate::schedule::{claim_outcome, cliff_gate_open, time_since_start};
use crate::seeds::{grant_seeds, pool_seeds};
use crate::state::Employee;

verus! {

/// A successful claim never pays out more than the grant has left: the
/// withdrawals stay within the total amount.
pub proof fn lemma_claim_stays_within_total(e: Employee, now: i64)
    requires
        e.wf(),
    ensures
        claim_outcome(e, now) matches Ok(amount) ==> e.total_withdrawn + amount
            <= e.total_amount,
{
}

/// Withdrawals never decrease: a successful claim adds a positive amount,
/// which fits in a `u64`, and a failed one changes nothing.
pub proof fn lemma_claim_never_lowers_withdrawn(e: Employee, now: i64)
    requires
        e.wf(),
    ensures
        claim_outcome(e, now) matches Ok(amount) ==> amount > 0 && e.total_withdrawn
            < e.total_withdrawn + amount <= u64::MAX,
{
}

/// After a successful claim at `now`, a second claim at the same `now` has
/// nothing left to pay out.
pub proof fn lemma_second_claim_has_nothing(e: Employee, now: i64)
    requires
        claim_outcome(e, now) is Ok,
    ensures
        claim_outcome(
            Employee {
                total_withdrawn: (e.total_withdrawn + claim_outcome(e, now)->Ok_0) as u64,
                ..e
            },
            now,
        ) == Err::<u64, VestingError>(VestingError::NothingToClaim),
{
}

/// From `end_time` on, once the cliff gate passes on a schedule of positive
/// length, the claim pays out exactly what is left of the grant, and fails
/// with `NothingToClaim` when nothing is.
pub proof fn lemma_fully_vested_from_end(e: Employee, now: i64)
    requires
        e.wf(),
        now >= e.end_time,
        e.end_time > e.start_time,
        cliff_gate_open(now, e.cliff_time),
    ensures
        e.total_withdrawn < e.total_amount ==> claim_outcome(e, now) == Ok::<u64, VestingError>(
            (e.total_amount - e.total_withdrawn) as u64,
        ),
        e.total_withdrawn == e.total_amount ==> claim_outcome(e, now) == Err::<u64, VestingError>(
            VestingError::NothingToClaim,
        ),
{
}

/// A schedule that starts and ends at the same time fails with
/// `InvalidVestingPeriod` at every time the cliff gate lets through.
pub proof fn lemma_zero_duration_fails(e: Employee, now: i64)
    requires
        e.start_time == e.end_time,
        cliff_gate_open(now, e.cliff_time),
    ensures
        claim_outcome(e, now) == Err::<u64, VestingError>(VestingError::InvalidVestingPeriod),
{
}

/// Before `end_time`, on a schedule of positive length that the cliff gate
/// lets through, a product `total_amount * time_since_start` beyond `u64`
/// fails with `CalculationOverflow`.
pub proof fn lemma_overflow_fails(e: Employee, now: i64)
    requires
        cliff_gate_open(now, e.cliff_time),
        e.end_time > e.start_time,
        now < e.end_time,
        e.total_amount * time_since_start(now, e.start_time) > u64::MAX,
    ensures
        claim_outcome(e, now) == Err::<u64, VestingError>(VestingError::CalculationOverflow),
{
}

/// Only the pool's owner may create grants under it: anyone else is refused
/// with `Forbidden`.
pub proof fn lemma_only_owner_creates_grants(
    l: Ledger,
    owner: Seq<u8>,
    beneficiary: Seq<u8>,
    vesting: Seq<u8>,
)
    requires
        l.has_pool(vesting),
        owner != l.pool_at(vesting).owner@,
    ensures
        create_employee_error(l, owner, beneficiary, vesting) == Some(VestingError::Forbidden),
{
}

/// Once a pool named `company_name` exists, creating another pool with that
/// name fails with `AlreadyExists`.
pub proof fn lemma_pool_name_taken(
    old: Ledger,
    new: Ledger,
    signer: Address,
    mint: Address,
    company_name: Seq<u8>,
    pool: Seq<u8>,
)
    requires
        pool_created(old, new, signer, mint, company_name, pool),
    ensures
        create_vesting_error(new, company_name) == Some(VestingError::AlreadyExists),
{
    assert(new.pools@[old.pools@.len() as int].address@ == pool);
    assert(new.has_pool(pool));
}

/// A claim on the grant at `grant` leaves every other grant as it was, and
/// any claim that does not reach that grant has the same outcome as before.
pub proof fn lemma_claim_leaves_other_grants(
    old: Ledger,
    new: Ledger,
    grant: Seq<u8>,
    amount: u64,
    beneficiary: Seq<u8>,
    company_name: Seq<u8>,
    now: i64,
)
    requires
        old.wf(),
        new.wf(),
        grant_claimed(old, new, grant, amount),
        forall|p: Seq<u8>|
            derived(pool_seeds(company_name), old.program_id@) == Some(p) ==> derived(
                grant_seeds(beneficiary, p),
                old.program_id@,
            ) != Some(grant),
    ensures
        forall|a: Seq<u8>| a != grant ==> new.has_grant(a) == old.has_grant(a),
        forall|a: Seq<u8>| a != grant && old.has_grant(a) ==> new.grant_at(a) == old.grant_at(a),
        claim_tokens_result(new, beneficiary, company_name, now) == claim_tokens_result(
            old,
            beneficiary,
            company_name,
            now,
        ),
{
    assert forall|a: Seq<u8>| a != grant implies new.has_grant(a) == old.has_grant(a) by {
        if old.has_grant(a) {
            let i = choose|i: int| 0 <= i < old.grants@.len() && #[trigger] old.grants@[i].address@ == a;
            assert(new.grants@[i] == old.grants@[i]);
        }
        if new.has_grant(a) {
            let i = choose|i: int| 0 <= i < new.grants@.len() && #[trigger] new.grants@[i].address@ == a;
            assert(new.grants@[i].address@ == old.grants@[i].address@);
        }
    }
    assert forall|a: Seq<u8>| a != grant && old.has_grant(a) implies new.grant_at(a) == old.grant_at(
        a,
    ) by {
        let i = choose|i: int| 0 <= i < old.grants@.len() && #[trigger] old.grants@[i].address@ == a;
        let j = choose|j: int| 0 <= j < new.grants@.len() && #[trigger] new.grants@[j].address@ == a;
        assert(new.grants@[i] == old.grants@[i]);
        assert(new.grants@[j].address@ == old.grants@[j].address@);
        if i < j {
            assert(old.grants@[i].address@ != old.grants@[j].address@);
        } else if j < i {
            assert(old.grants@[j].address@ != old.grants@[i].address@);
        }
    }
}

/// Claiming twice at the same `now` through the ledger: after a successful
/// claim, the second one fails with `NothingToClaim`.
pub proof fn lemma_second_ledger_claim_has_nothing(
    old: Ledger,
    new: Ledger,
    beneficiary: Seq<u8>,
    company_name: Seq<u8>,
    now: i64,
)
    requires
        old.wf(),
        new.wf(),
        claim_tokens_result(old, beneficiary, company_name, now) is Ok,
        grant_claimed(
            old,
            new,
            derived(
                grant_seeds(beneficiary, derived(pool_seeds(company_name), old.program_id@)->Some_0),
                old.program_id@,
            )->Some_0,
            claim_tokens_result(old, beneficiary, company_name, now)->Ok_0,
        ),
    ensures
        claim_tokens_result(new, beneficiary, company_name, now) == Err::<u64, VestingError>(
            VestingError::NothingToClaim,
        ),
{
    let p = derived(pool_seeds(company_name), old.program_id@)->Some_0;
    let g = derived(grant_seeds(beneficiary, p), old.program_id@)->Some_0;
    let amount = claim_tokens_result(old, beneficiary, company_name, now)->Ok_0;
    let e = old.grant_at(g);
    let i = choose|i: int| 0 <= i < old.grants@.len() && #[trigger] old.grants@[i].address@ == g;
    assert(new.grants@[i].address@ == g);
    assert(new.has_grant(g));
    let j = choose|j: int| 0 <= j < new.grants@.len() && #[trigger] new.grants@[j].address@ == g;
    assert(new.grants@[j].address@ == old.grants@[j].address@);
    if i < j {
        assert(old.grants@[i].address@ != old.grants@[j].address@);
    } else if j < i {
        assert(old.grants@[j].address@ != old.grants@[i].address@);
    }
    assert(new.grant_at(g) == Employee {
        total_withdrawn: (e.total_withdrawn + amount) as u64,
        ..e
    });
    assert(claim_outcome(e, now) == Ok::<u64, VestingError>(amount));
    lemma_second_claim_has_nothing(e, now);
}

} // verus!
