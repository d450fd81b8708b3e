use vstd::prelude::*;

use crate::address::{
    check_derivation,
    find_address,
    found_program_address_of,
    program_address_of,
    same_address,
    Address,
};
use crate::error::VestingError;
use crate::instructions::{ClaimTokens, CreateEmployee, CreateVesting};
use crate::schedule::claim_outcome;
use crate::seeds::{
    grant_seed_list,
    grant_seeds,
    pool_seed_list,
    pool_seeds,
    treasury_seed_list,
    treasury_seeds,
    treasury_signer_seeds,
};
use crate::state::{Employee, Vesting};

verus! {

/// A pool record at its derived address.
pub struct PoolEntry {
    pub address: Address,
    pub pool: Vesting,
}

/// A grant record at its derived address.
#[derive(Clone, Copy, Debug, PartialEq, Eq)]
pub struct GrantEntry {
    pub address: Address,
    pub grant: Employee,
}

/// The records of one vesting program, each at the address its seeds derive.
pub struct Ledger {
    pub program_id: Address,
    pub pools: Vec<PoolEntry>,
    pub grants: Vec<GrantEntry>,
}

/// The transfer a successful claim asks of the token program: `amount` units
/// from the treasury to the beneficiary's holding of `mint`, signed with the
/// treasury's seeds.
pub struct TokenTransfer {
    pub from: Address,
    pub to_owner: Address,
    pub mint: Address,
    pub amount: u64,
    pub signer_seeds: Vec<Vec<u8>>,
}

/// Where `seeds` derive an address under `program_id`, that address.
pub open spec fn derived(seeds: Seq<Seq<u8>>, program_id: Seq<u8>) -> Option<Seq<u8>> {
    match found_program_address_of(seeds, program_id) {
        Some(f) => Some(f.0),
        None => None,
    }
}

impl Ledger {
    pub open spec fn has_pool(&self, a: Seq<u8>) -> bool {
        exists|i: int| 0 <= i < self.pools@.len() && #[trigger] self.pools@[i].address@ == a
    }

    pub open spec fn has_grant(&self, a: Seq<u8>) -> bool {
        exists|i: int| 0 <= i < self.grants@.len() && #[trigger] self.grants@[i].address@ == a
    }

    /// The pool recorded at `a`.
    pub open spec fn pool_at(&self, a: Seq<u8>) -> Vesting
        recommends
            self.has_pool(a),
    {
        self.pools@[choose|i: int| 0 <= i < self.pools@.len() && #[trigger] self.pools@[i].address@ == a].pool
    }

    /// The grant recorded at `a`.
    pub open spec fn grant_at(&self, a: Seq<u8>) -> Employee
        recommends
            self.has_grant(a),
    {
        self.grants@[choose|i: int|
            0 <= i < self.grants@.len() && #[trigger] self.grants@[i].address@ == a].grant
    }

    /// Some account lives at `a`: a pool, a pool's treasury or a grant.
    pub open spec fn is_taken(&self, a: Seq<u8>) -> bool {
        self.has_pool(a) || self.has_grant(a) || exists|i: int|
            0 <= i < self.pools@.len() && #[trigger] self.pools@[i].pool.treasury_token_account@ == a
    }

    /// Addresses are unique and no grant has paid out more than it holds.
    pub open spec fn wf(&self) -> bool {
        &&& forall|i: int, j: int|
            0 <= i < j < self.pools@.len() ==> #[trigger] self.pools@[i].address@
                != #[trigger] self.pools@[j].address@
        &&& forall|i: int, j: int|
            0 <= i < j < self.grants@.len() ==> #[trigger] self.grants@[i].address@
                != #[trigger] self.grants@[j].address@
        &&& forall|i: int| 0 <= i < self.grants@.len() ==> #[trigger] self.grants@[i].grant.wf()
    }

    /// An empty ledger for the program `program_id`.
    pub fn new(program_id: Address) -> (r: Ledger)
        ensures
            r.wf(),
            r.program_id == program_id,
            r.pools@.len() == 0,
            r.grants@.len() == 0,
    {
        Ledger { program_id, pools: Vec::new(), grants: Vec::new() }
    }

    /// Index of the pool at `a`, if any.
    pub fn find_pool(&self, a: &Address) -> (r: Option<usize>)
        requires
            self.wf(),
        ensures
            r is Some <==> self.has_pool(a@),
            r matches Some(i) ==> i < self.pools@.len() && self.pools@[i as int].address@ == a@
                && self.pool_at(a@) == self.pools@[i as int].pool,
    {
        let mut i: usize = 0;
        while i < self.pools.len()
            invariant
                self.wf(),
                i <= self.pools@.len(),
                forall|j: int| 0 <= j < i ==> self.pools@[j].address@ != a@,
            decreases self.pools@.len() - i,
        {
            if same_address(&self.pools[i].address, a) {
                proof {
                    let k = choose|k: int|
                        0 <= k < self.pools@.len() && #[trigger] self.pools@[k].address@ == a@;
                    assert(self.pools@[i as int].address@ == a@);
                    assert(0 <= k < self.pools@.len() && self.pools@[k].address@ == a@);
                    if k < i {
                        assert(self.pools@[k].address@ != self.pools@[i as int].address@);
                    } else if k > i {
                        assert(self.pools@[i as int].address@ != self.pools@[k].address@);
                    }
                }
                return Some(i);
            }
            i = i + 1;
        }
        None
    }

    /// Index of the grant at `a`, if any.
    pub fn find_grant(&self, a: &Address) -> (r: Option<usize>)
        requires
            self.wf(),
        ensures
            r is Some <==> self.has_grant(a@),
            r matches Some(i) ==> i < self.grants@.len() && self.grants@[i as int].address@ == a@
                && self.grant_at(a@) == self.grants@[i as int].grant,
    {
        let mut i: usize = 0;
        while i < self.grants.len()
            invariant
                self.wf(),
                i <= self.grants@.len(),
                forall|j: int| 0 <= j < i ==> self.grants@[j].address@ != a@,
            decreases self.grants@.len() - i,
        {
            if same_address(&self.grants[i].address, a) {
                proof {
                    let k = choose|k: int|
                        0 <= k < self.grants@.len() && #[trigger] self.grants@[k].address@ == a@;
                    assert(self.grants@[i as int].address@ == a@);
                    assert(0 <= k < self.grants@.len() && self.grants@[k].address@ == a@);
                    if k < i {
                        assert(self.grants@[k].address@ != self.grants@[i as int].address@);
                    } else if k > i {
                        assert(self.grants@[i as int].address@ != self.grants@[k].address@);
                    }
                }
                return Some(i);
            }
            i = i + 1;
        }
        None
    }

    /// Whether some account lives at `a`.
    pub fn taken(&self, a: &Address) -> (r: bool)
        requires
            self.wf(),
        ensures
            r == self.is_taken(a@),
    {
        if self.find_pool(a).is_some() || self.find_grant(a).is_some() {
            return true;
        }
        let mut i: usize = 0;
        while i < self.pools.len()
            invariant
                i <= self.pools@.len(),
                forall|j: int| 0 <= j < i ==> self.pools@[j].pool.treasury_token_account@ != a@,
            decreases self.pools@.len() - i,
        {
            if same_address(&self.pools[i].pool.treasury_token_account, a) {
                assert(self.pools@[i as int].pool.treasury_token_account@ == a@);
                return true;
            }
            i = i + 1;
        }
        false
    }
}

/// Why creating the pool named `company_name` fails on `l`, or `None` where
/// it succeeds: both addresses must derive, and neither may hold an account.
pub open spec fn create_vesting_error(l: Ledger, company_name: Seq<u8>) -> Option<VestingError> {
    match (
        derived(pool_seeds(company_name), l.program_id@),
        derived(treasury_seeds(company_name), l.program_id@),
    ) {
        (Some(p), Some(t)) => if l.is_taken(p) || l.is_taken(t) || p == t {
            Some(VestingError::AlreadyExists)
        } else {
            None
        },
        _ => Some(VestingError::InvalidDerivation),
    }
}

/// `new` is `old` with the pool named `company_name` added at `pool`, its
/// treasury at the treasury's derived address, and both bumps recorded.
pub open spec fn pool_created(
    old: Ledger,
    new: Ledger,
    signer: Address,
    mint: Address,
    company_name: Seq<u8>,
    pool: Seq<u8>,
) -> bool {
    let p = found_program_address_of(pool_seeds(company_name), old.program_id@);
    let t = found_program_address_of(treasury_seeds(company_name), old.program_id@);
    let e = new.pools@[old.pools@.len() as int];
    &&& p is Some
    &&& t is Some
    &&& pool == p->Some_0.0
    &&& new.program_id == old.program_id
    &&& new.grants == old.grants
    &&& new.pools@.len() == old.pools@.len() + 1
    &&& forall|i: int| 0 <= i < old.pools@.len() ==> new.pools@[i] == old.pools@[i]
    &&& e.address@ == pool
    &&& e.pool.owner == signer
    &&& e.pool.mint == mint
    &&& e.pool.treasury_token_account@ == t->Some_0.0
    &&& e.pool.company_name@ == company_name
    &&& e.pool.treasury_bump == t->Some_0.1
    &&& e.pool.bump == p->Some_0.1
}

/// Creates the pool named `company_name`, owned by `signer`, for the asset
/// `mint`, and returns its address.
pub fn create_vesting(ledger: &mut Ledger, signer: Address, mint: Address, company_name: Vec<u8>) -> (r:
    Result<Address, VestingError>)
    requires
        old(ledger).wf(),
    ensures
        final(ledger).wf(),
        match create_vesting_error(*old(ledger), company_name@) {
            Some(e) => r == Err::<Address, VestingError>(e) && *final(ledger) == *old(ledger),
            None => r matches Ok(a) && pool_created(
                *old(ledger),
                *final(ledger),
                signer,
                mint,
                company_name@,
                a@,
            ),
        },
{
    let (pool, bump) = find_address(&pool_seed_list(&company_name), &ledger.program_id)?;
    let (treasury, treasury_bump) = find_address(
        &treasury_seed_list(&company_name),
        &ledger.program_id,
    )?;
    if ledger.taken(&pool) || ledger.taken(&treasury) || same_address(&pool, &treasury) {
        return Err(VestingError::AlreadyExists);
    }
    let ctx = CreateVesting { signer, vesting: pool, mint, treasury_token_account: treasury };
    let record = ctx.create_vesting(company_name, treasury_bump, bump);
    ledger.pools.push(PoolEntry { address: pool, pool: record });
    proof {
        assert forall|i: int, j: int|
            0 <= i < j < ledger.pools@.len() implies #[trigger] ledger.pools@[i].address@
            != #[trigger] ledger.pools@[j].address@ by {
            if j == ledger.pools@.len() - 1 {
                assert(old(ledger).pools@[i].address@ != pool@);
            }
        }
    }
    Ok(pool)
}

/// Why creating the grant of `beneficiary` under the pool at `vesting` fails
/// when `owner` asks, or `None` where it succeeds.
pub open spec fn create_employee_error(
    l: Ledger,
    owner: Seq<u8>,
    beneficiary: Seq<u8>,
    vesting: Seq<u8>,
) -> Option<VestingError> {
    if !l.has_pool(vesting) || owner != l.pool_at(vesting).owner@ {
        Some(VestingError::Forbidden)
    } else {
        match derived(grant_seeds(beneficiary, vesting), l.program_id@) {
            None => Some(VestingError::InvalidDerivation),
            Some(g) => if l.is_taken(g) {
                Some(VestingError::AlreadyExists)
            } else {
                None
            },
        }
    }
}

/// `new` is `old` with the grant of `beneficiary` under `vesting` added at
/// `grant`, with nothing withdrawn.
pub open spec fn grant_created(
    old: Ledger,
    new: Ledger,
    beneficiary: Address,
    vesting: Address,
    start_time: i64,
    end_time: i64,
    cliff_time: i64,
    total_amount: u64,
    grant: Seq<u8>,
) -> bool {
    let g = found_program_address_of(grant_seeds(beneficiary@, vesting@), old.program_id@);
    let e = new.grants@[old.grants@.len() as int];
    &&& g is Some
    &&& grant == g->Some_0.0
    &&& new.program_id == old.program_id
    &&& new.pools == old.pools
    &&& new.grants@.len() == old.grants@.len() + 1
    &&& forall|i: int| 0 <= i < old.grants@.len() ==> new.grants@[i] == old.grants@[i]
    &&& e.address@ == grant
    &&& e.grant == Employee {
        beneficiary,
        start_time,
        end_time,
        cliff_time,
        vesting,
        total_amount,
        total_withdrawn: 0,
        bump: g->Some_0.1,
    }
}

/// Creates, at `owner`'s request, the grant of `beneficiary` under the pool at
/// `vesting`, and returns its address. The schedule is recorded as given.
pub fn create_employee(
    ledger: &mut Ledger,
    owner: Address,
    beneficiary: Address,
    vesting: Address,
    start_time: i64,
    end_time: i64,
    cliff_time: i64,
    total_amount: u64,
) -> (r: Result<Address, VestingError>)
    requires
        old(ledger).wf(),
    ensures
        final(ledger).wf(),
        match create_employee_error(*old(ledger), owner@, beneficiary@, vesting@) {
            Some(e) => r == Err::<Address, VestingError>(e) && *final(ledger) == *old(ledger),
            None => r matches Ok(a) && grant_created(
                *old(ledger),
                *final(ledger),
                beneficiary,
                vesting,
                start_time,
                end_time,
                cliff_time,
                total_amount,
                a@,
            ),
        },
{
    let pool_owner = match ledger.find_pool(&vesting) {
        Some(i) => ledger.pools[i].pool.owner,
        None => return Err(VestingError::Forbidden),
    };
    let ctx = CreateEmployee { owner, beneficiary, vesting, vesting_owner: pool_owner };
    if !same_address(&ctx.owner, &ctx.vesting_owner) {
        return Err(VestingError::Forbidden);
    }
    let (grant, bump) = find_address(&grant_seed_list(&beneficiary, &vesting), &ledger.program_id)?;
    if ledger.taken(&grant) {
        return Err(VestingError::AlreadyExists);
    }
    let record = ctx.create_employee(start_time, end_time, cliff_time, total_amount, bump)?;
    ledger.grants.push(GrantEntry { address: grant, grant: record });
    proof {
        assert forall|i: int, j: int|
            0 <= i < j < ledger.grants@.len() implies #[trigger] ledger.grants@[i].address@
            != #[trigger] ledger.grants@[j].address@ by {
            if j == ledger.grants@.len() - 1 {
                assert(old(ledger).grants@[i].address@ != grant@);
            }
        }
    }
    Ok(grant)
}

/// The treasury of the pool `pool` can be signed for under `program_id`: its
/// recorded seeds and bump derive its recorded address.
pub open spec fn treasury_authority_ok(pool: Vesting, program_id: Seq<u8>) -> bool {
    program_address_of(treasury_seeds(pool.company_name@).push(seq![pool.treasury_bump]), program_id)
        == Some(pool.treasury_token_account@)
}

/// What the claim of `beneficiary` under the pool named `company_name` at
/// `now` pays out on `l`, or why it fails. The grant and pool are looked up
/// at their derived addresses, the grant's references are checked, the
/// schedule decides the amount, and the treasury's authority is re-derived.
pub open spec fn claim_tokens_result(
    l: Ledger,
    beneficiary: Seq<u8>,
    company_name: Seq<u8>,
    now: i64,
) -> Result<u64, VestingError> {
    match derived(pool_seeds(company_name), l.program_id@) {
        None => Err(VestingError::InvalidDerivation),
        Some(p) => if !l.has_pool(p) {
            Err(VestingError::Forbidden)
        } else {
            match derived(grant_seeds(beneficiary, p), l.program_id@) {
                None => Err(VestingError::InvalidDerivation),
                Some(g) => if !l.has_grant(g) {
                    Err(VestingError::Forbidden)
                } else if l.grant_at(g).beneficiary@ != beneficiary || l.grant_at(g).vesting@ != p {
                    Err(VestingError::Forbidden)
                } else {
                    match claim_outcome(l.grant_at(g), now) {
                        Err(e) => Err(e),
                        Ok(amount) => if !treasury_authority_ok(l.pool_at(p), l.program_id@) {
                            Err(VestingError::InvalidDerivation)
                        } else {
                            Ok(amount)
                        },
                    }
                },
            }
        },
    }
}

/// `new` is `old` with `amount` added to the withdrawals of the grant at
/// `grant` and every other record as it was.
pub open spec fn grant_claimed(old: Ledger, new: Ledger, grant: Seq<u8>, amount: u64) -> bool {
    &&& new.program_id == old.program_id
    &&& new.pools == old.pools
    &&& new.grants@.len() == old.grants@.len()
    &&& forall|i: int|
        0 <= i < old.grants@.len() ==> #[trigger] new.grants@[i] == if old.grants@[i].address@
            == grant {
            GrantEntry {
                grant: Employee {
                    total_withdrawn: (old.grants@[i].grant.total_withdrawn + amount) as u64,
                    ..old.grants@[i].grant
                },
                ..old.grants@[i]
            }
        } else {
            old.grants@[i]
        }
}

/// Claims for `beneficiary` under the pool named `company_name` at `now`. On
/// success the grant records the payout and the transfer to make is returned;
/// on failure nothing changes.
pub fn claim_tokens(ledger: &mut Ledger, beneficiary: Address, company_name: &Vec<u8>, now: i64) -> (r:
    Result<TokenTransfer, VestingError>)
    requires
        old(ledger).wf(),
    ensures
        final(ledger).wf(),
        match claim_tokens_result(*old(ledger), beneficiary@, company_name@, now) {
            Err(e) => r == Err::<TokenTransfer, VestingError>(e) && *final(ledger) == *old(ledger),
            Ok(amount) => {
                let p = derived(pool_seeds(company_name@), old(ledger).program_id@)->Some_0;
                let g = derived(grant_seeds(beneficiary@, p), old(ledger).program_id@)->Some_0;
                let pool = old(ledger).pool_at(p);
                &&& r is Ok
                &&& r->Ok_0.amount == amount
                &&& r->Ok_0.from == pool.treasury_token_account
                &&& r->Ok_0.to_owner == beneficiary
                &&& r->Ok_0.mint == pool.mint
                &&& crate::address::seeds_view(r->Ok_0.signer_seeds@) == treasury_seeds(
                    pool.company_name@,
                ).push(seq![pool.treasury_bump])
                &&& grant_claimed(*old(ledger), *final(ledger), g, amount)
            },
        },
{
    let (pool_address, _) = find_address(&pool_seed_list(company_name), &ledger.program_id)?;
    let pi = match ledger.find_pool(&pool_address) {
        Some(i) => i,
        None => return Err(VestingError::Forbidden),
    };
    let (grant_address, _) = find_address(
        &grant_seed_list(&beneficiary, &pool_address),
        &ledger.program_id,
    )?;
    let gi = match ledger.find_grant(&grant_address) {
        Some(i) => i,
        None => return Err(VestingError::Forbidden),
    };
    let mut ctx = ClaimTokens {
        beneficiary,
        employee: ledger.grants[gi].grant,
        vesting: pool_address,
    };
    let amount = ctx.claim_tokens(now)?;
    let pool = &ledger.pools[pi].pool;
    let signer_seeds = treasury_signer_seeds(&pool.company_name, pool.treasury_bump);
    check_derivation(&signer_seeds, &ledger.program_id, &pool.treasury_token_account)?;
    let transfer = TokenTransfer {
        from: pool.treasury_token_account,
        to_owner: beneficiary,
        mint: pool.mint,
        amount,
        signer_seeds,
    };
    let entry = GrantEntry { address: ledger.grants[gi].address, grant: ctx.employee };
    ledger.grants.set(gi, entry);
    proof {
        assert forall|i: int| 0 <= i < old(ledger).grants@.len() && i != gi implies
            old(ledger).grants@[i].address@ != grant_address@ by {
            if i < gi {
                assert(old(ledger).grants@[i].address@ != old(ledger).grants@[gi as int].address@);
            } else {
                assert(old(ledger).grants@[gi as int].address@ != old(ledger).grants@[i].address@);
            }
        }
    }
    Ok(transfer)
}

} // verus!
