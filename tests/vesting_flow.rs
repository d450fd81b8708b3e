use vesting::address::{check_derivation, find_address, Address};
use vesting::ledger::{claim_tokens, create_employee, create_vesting, Ledger};
use vesting::schedule::{elapsed_since, vested_amount};
use vesting::seeds::{grant_seed_list, pool_seed_list, treasury_signer_seeds};
use vesting::{ClaimTokens, CreateEmployee, CreateVesting, Employee, VestingError};

fn addr(b: u8) -> Address {
    Address { bytes: [b; 32] }
}

fn ledger_with_pool(name: &[u8]) -> (Ledger, Address) {
    let mut ledger = Ledger::new(addr(7));
    let pool = create_vesting(&mut ledger, addr(1), addr(2), name.to_vec()).unwrap();
    (ledger, pool)
}

fn grant(start: i64, end: i64, cliff: i64, total: u64, withdrawn: u64) -> Employee {
    Employee {
        beneficiary: addr(3),
        start_time: start,
        end_time: end,
        cliff_time: cliff,
        vesting: addr(4),
        total_amount: total,
        total_withdrawn: withdrawn,
        bump: 255,
    }
}

#[test]
fn scenario_a_literal_cliff_gate_refuses_at_end() {
    let (mut ledger, pool) = ledger_with_pool(b"Acme");
    create_employee(&mut ledger, addr(1), addr(3), pool, 0, 1000, 100, 1000).unwrap();
    let r = claim_tokens(&mut ledger, addr(3), &b"Acme".to_vec(), 1000);
    assert!(matches!(r, Err(VestingError::ClaimNotAvailableYet)));
    assert_eq!(ledger.grants[0].grant.total_withdrawn, 0);
}

#[test]
fn scenario_a_claim_then_nothing_to_claim() {
    let (mut ledger, pool) = ledger_with_pool(b"Acme");
    create_employee(&mut ledger, addr(1), addr(3), pool, 0, 1000, 2000, 1000).unwrap();
    let t = claim_tokens(&mut ledger, addr(3), &b"Acme".to_vec(), 1000).unwrap();
    assert_eq!(t.amount, 1000);
    assert_eq!(t.to_owner, addr(3));
    assert_eq!(t.mint, addr(2));
    assert_eq!(t.from, ledger.pools[0].pool.treasury_token_account);
    assert_eq!(t.signer_seeds[0], b"vesting_treasury".to_vec());
    assert_eq!(t.signer_seeds[1], b"Acme".to_vec());
    assert_eq!(t.signer_seeds[2], vec![ledger.pools[0].pool.treasury_bump]);
    assert_eq!(ledger.grants[0].grant.total_withdrawn, 1000);
    let again = claim_tokens(&mut ledger, addr(3), &b"Acme".to_vec(), 1000);
    assert!(matches!(again, Err(VestingError::NothingToClaim)));
    assert_eq!(ledger.grants[0].grant.total_withdrawn, 1000);
}

#[test]
fn scenario_b_claim_leaves_other_grant() {
    let (mut ledger, pool) = ledger_with_pool(b"Acme");
    create_employee(&mut ledger, addr(1), addr(3), pool, 0, 1000, 2000, 1000).unwrap();
    create_employee(&mut ledger, addr(1), addr(5), pool, 0, 1000, 2000, 600).unwrap();
    assert_ne!(ledger.grants[0].address, ledger.grants[1].address);
    let before = ledger.grants[1];
    let t1 = claim_tokens(&mut ledger, addr(3), &b"Acme".to_vec(), 1500).unwrap();
    assert_eq!(t1.amount, 1000);
    assert_eq!(ledger.grants[1], before);
    let t2 = claim_tokens(&mut ledger, addr(5), &b"Acme".to_vec(), 1500).unwrap();
    assert_eq!(t2.amount, 600);
    assert_eq!(ledger.grants[1].grant.total_withdrawn, 600);
    assert_eq!(ledger.grants[0].grant.total_withdrawn, 1000);
}

#[test]
fn scenario_c_pool_name_collides() {
    let (mut ledger, pool) = ledger_with_pool(b"Acme");
    let second = create_vesting(&mut ledger, addr(9), addr(8), b"Acme".to_vec());
    assert!(matches!(second, Err(VestingError::AlreadyExists)));
    assert_eq!(ledger.pools.len(), 1);
    assert_eq!(ledger.pools[0].address, pool);
    assert_eq!(ledger.pools[0].pool.owner, addr(1));
    assert_eq!(ledger.pools[0].pool.mint, addr(2));
    assert_eq!(ledger.pools[0].pool.company_name, b"Acme".to_vec());
}

#[test]
fn pool_addresses_are_deterministic_and_distinct() {
    let (_, first) = ledger_with_pool(b"Acme");
    let (_, again) = ledger_with_pool(b"Acme");
    let (_, other) = ledger_with_pool(b"Zeta");
    assert_eq!(first, again);
    assert_ne!(first, other);
    assert_ne!(first, addr(7));
    let (mut ledger, pool) = ledger_with_pool(b"Acme");
    let treasury = ledger.pools[0].pool.treasury_token_account;
    assert_ne!(pool, treasury);
    assert!(create_vesting(&mut ledger, addr(1), addr(2), b"Zeta".to_vec()).is_ok());
    assert_eq!(ledger.pools.len(), 2);
}

#[test]
fn pool_records_derivation_bumps() {
    let (ledger, pool) = ledger_with_pool(b"Acme");
    let (found, bump) = find_address(&pool_seed_list(&b"Acme".to_vec()), &addr(7)).unwrap();
    assert_eq!(found, pool);
    assert_eq!(ledger.pools[0].pool.bump, bump);
    let p = &ledger.pools[0].pool;
    let seeds = treasury_signer_seeds(&p.company_name, p.treasury_bump);
    assert!(check_derivation(&seeds, &addr(7), &p.treasury_token_account).is_ok());
    let wrong = check_derivation(&seeds, &addr(7), &pool);
    assert!(matches!(wrong, Err(VestingError::InvalidDerivation)));
}

#[test]
fn over_long_company_name_is_invalid_derivation() {
    let mut ledger = Ledger::new(addr(7));
    let r = create_vesting(&mut ledger, addr(1), addr(2), vec![b'a'; 40]);
    assert!(matches!(r, Err(VestingError::InvalidDerivation)));
    assert_eq!(ledger.pools.len(), 0);
}

#[test]
fn grant_by_other_than_owner_is_forbidden() {
    let (mut ledger, pool) = ledger_with_pool(b"Acme");
    let r = create_employee(&mut ledger, addr(9), addr(3), pool, 0, 1000, 100, 1000);
    assert!(matches!(r, Err(VestingError::Forbidden)));
    assert_eq!(ledger.grants.len(), 0);
}

#[test]
fn grant_under_unknown_pool_is_forbidden() {
    let mut ledger = Ledger::new(addr(7));
    let r = create_employee(&mut ledger, addr(1), addr(3), addr(4), 0, 1000, 100, 1000);
    assert!(matches!(r, Err(VestingError::Forbidden)));
}

#[test]
fn second_grant_for_same_beneficiary_already_exists() {
    let (mut ledger, pool) = ledger_with_pool(b"Acme");
    let g = create_employee(&mut ledger, addr(1), addr(3), pool, 0, 1000, 100, 1000).unwrap();
    let (expected, bump) = find_address(&grant_seed_list(&addr(3), &pool), &addr(7)).unwrap();
    assert_eq!(g, expected);
    assert_eq!(ledger.grants[0].grant.bump, bump);
    assert_eq!(ledger.grants[0].grant.vesting, pool);
    let r = create_employee(&mut ledger, addr(1), addr(3), pool, 5, 50, 10, 7);
    assert!(matches!(r, Err(VestingError::AlreadyExists)));
    assert_eq!(ledger.grants.len(), 1);
    assert_eq!(ledger.grants[0].grant.total_amount, 1000);
}

#[test]
fn claim_without_grant_is_forbidden() {
    let (mut ledger, _) = ledger_with_pool(b"Acme");
    let r = claim_tokens(&mut ledger, addr(3), &b"Acme".to_vec(), 10);
    assert!(matches!(r, Err(VestingError::Forbidden)));
    let r = claim_tokens(&mut ledger, addr(3), &b"Nope".to_vec(), 10);
    assert!(matches!(r, Err(VestingError::Forbidden)));
}

#[test]
fn claim_with_foreign_references_is_forbidden() {
    let mut ctx = ClaimTokens { beneficiary: addr(9), employee: grant(0, 1000, 2000, 10, 0), vesting: addr(4) };
    assert!(matches!(ctx.claim_tokens(500), Err(VestingError::Forbidden)));
    let mut ctx = ClaimTokens { beneficiary: addr(3), employee: grant(0, 1000, 2000, 10, 0), vesting: addr(9) };
    assert!(matches!(ctx.claim_tokens(500), Err(VestingError::Forbidden)));
    let mut ctx = ClaimTokens { beneficiary: addr(3), employee: grant(0, 1000, 2000, 10, 0), vesting: addr(4) };
    assert_eq!(ctx.claim_tokens(500), Ok(10));
    assert_eq!(ctx.employee.total_withdrawn, 10);
}

#[test]
fn zero_duration_schedule_is_invalid() {
    let mut e = grant(500, 500, 2000, 100, 0);
    assert_eq!(e.claim(0), Err(VestingError::InvalidVestingPeriod));
    assert_eq!(e.claim(500), Err(VestingError::InvalidVestingPeriod));
    assert_eq!(e.claim(900), Err(VestingError::InvalidVestingPeriod));
    let mut reversed = grant(800, 500, 2000, 100, 0);
    assert_eq!(reversed.claim(600), Err(VestingError::InvalidVestingPeriod));
    assert_eq!(e, grant(500, 500, 2000, 100, 0));
}

#[test]
fn overflow_fails_and_changes_nothing() {
    let mut e = grant(0, 10, 100, u64::MAX, 0);
    assert_eq!(e.claim(2), Err(VestingError::CalculationOverflow));
    assert_eq!(e, grant(0, 10, 100, u64::MAX, 0));
    assert_eq!(vested_amount(u64::MAX, 0, 10, 1), Ok(u64::MAX));
    assert_eq!(vested_amount(u64::MAX / 2 + 1, 0, 10, 2), Err(VestingError::CalculationOverflow));
    assert_eq!(vested_amount(u64::MAX / 2, 0, 10, 2), Ok(u64::MAX / 2));
}

#[test]
fn boundary_at_and_after_end_pays_remainder() {
    let mut e = grant(0, 1000, 5000, 1000, 300);
    assert_eq!(e.claimable_at(1000), Ok(700));
    assert_eq!(e.claimable_at(4000), Ok(700));
    assert_eq!(e.claim(1000), Ok(700));
    assert_eq!(e.total_withdrawn, 1000);
    assert_eq!(e.claim(1000), Err(VestingError::NothingToClaim));
}

#[test]
fn literal_interpolation_vests_everything_once_started() {
    assert_eq!(vested_amount(1000, 0, 1000, 1), Ok(1000));
    assert_eq!(vested_amount(1000, 0, 1000, 999), Ok(1000));
    assert_eq!(vested_amount(1000, 100, 1000, 100), Ok(0));
    assert_eq!(vested_amount(1000, 100, 1000, -50), Ok(0));
    let mut e = grant(100, 1000, 2000, 1000, 0);
    assert_eq!(e.claim(50), Err(VestingError::NothingToClaim));
    assert_eq!(e.total_withdrawn, 0);
}

#[test]
fn cliff_gate_blocks_from_cliff_on() {
    let mut e = grant(0, 1000, 100, 1000, 0);
    assert_eq!(e.claim(100), Err(VestingError::ClaimNotAvailableYet));
    assert_eq!(e.claim(5000), Err(VestingError::ClaimNotAvailableYet));
    assert_eq!(e.claim(99), Ok(1000));
}

#[test]
fn elapsed_time_is_clamped() {
    assert_eq!(elapsed_since(10, 3), 7);
    assert_eq!(elapsed_since(3, 10), 0);
    assert_eq!(elapsed_since(i64::MAX, i64::MIN), u64::MAX);
}

#[test]
fn instruction_contexts_build_records() {
    let ctx = CreateVesting { signer: addr(1), vesting: addr(2), mint: addr(3), treasury_token_account: addr(4) };
    let v = ctx.create_vesting(b"Acme".to_vec(), 254, 253);
    assert_eq!(v.owner, addr(1));
    assert_eq!(v.mint, addr(3));
    assert_eq!(v.treasury_token_account, addr(4));
    assert_eq!(v.treasury_bump, 254);
    assert_eq!(v.bump, 253);
    let ctx = CreateEmployee { owner: addr(1), beneficiary: addr(3), vesting: addr(4), vesting_owner: addr(1) };
    assert_eq!(ctx.create_employee(0, 1000, 100, 1000, 250), Ok(grant(0, 1000, 100, 1000, 0)).map(|g| Employee { bump: 250, ..g }));
    let ctx = CreateEmployee { owner: addr(9), beneficiary: addr(3), vesting: addr(4), vesting_owner: addr(1) };
    assert_eq!(ctx.create_employee(0, 1000, 100, 1000, 250), Err(VestingError::Forbidden));
}
