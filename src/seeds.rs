use vstd::prelude::*;

use crate::address::Address;

verus! {

/// `b"vesting"`: namespace of pool addresses.
pub open spec fn vesting_tag() -> Seq<u8> {
    seq![118u8, 101u8, 115u8, 116u8, 105u8, 110u8, 103u8]
}

/// `b"vesting_treasury"`: namespace of treasury addresses.
pub open spec fn treasury_tag() -> Seq<u8> {
    vesting_tag() + seq![95u8, 116u8, 114u8, 101u8, 97u8, 115u8, 117u8, 114u8, 121u8]
}

/// `b"employee_vesting"`: namespace of grant addresses.
pub open spec fn employee_tag() -> Seq<u8> {
    seq![101u8, 109u8, 112u8, 108u8, 111u8, 121u8, 101u8, 101u8, 95u8] + vesting_tag()
}

/// Seeds of the pool named `company_name`.
pub open spec fn pool_seeds(company_name: Seq<u8>) -> Seq<Seq<u8>> {
    seq![vesting_tag(), company_name]
}

/// Seeds of the treasury of the pool named `company_name`.
pub open spec fn treasury_seeds(company_name: Seq<u8>) -> Seq<Seq<u8>> {
    seq![treasury_tag(), company_name]
}

/// Seeds of the grant of `beneficiary` under the pool at `pool`.
pub open spec fn grant_seeds(beneficiary: Seq<u8>, pool: Seq<u8>) -> Seq<Seq<u8>> {
    seq![employee_tag(), beneficiary, pool]
}

fn vesting_tag_bytes() -> (r: Vec<u8>)
    ensures
        r@ == vesting_tag(),
{
    let r: Vec<u8> = vec![118u8, 101u8, 115u8, 116u8, 105u8, 110u8, 103u8];
    assert(r@ =~= vesting_tag());
    r
}

fn treasury_tag_bytes() -> (r: Vec<u8>)
    ensures
        r@ == treasury_tag(),
{
    let r: Vec<u8> = vec![
        118u8,
        101u8,
        115u8,
        116u8,
        105u8,
        110u8,
        103u8,
        95u8,
        116u8,
        114u8,
        101u8,
        97u8,
        115u8,
        117u8,
        114u8,
        121u8,
    ];
    assert(r@ =~= treasury_tag());
    r
}

fn employee_tag_bytes() -> (r: Vec<u8>)
    ensures
        r@ == employee_tag(),
{
    let r: Vec<u8> = vec![
        101u8,
        109u8,
        112u8,
        108u8,
        111u8,
        121u8,
        101u8,
        101u8,
        95u8,
        118u8,
        101u8,
        115u8,
        116u8,
        105u8,
        110u8,
        103u8,
    ];
    assert(r@ =~= employee_tag());
    r
}

/// A copy of a byte string.
fn copy_bytes(b: &Vec<u8>) -> (r: Vec<u8>)
    ensures
        r@ == b@,
{
    let mut r: Vec<u8> = Vec::new();
    let mut i: usize = 0;
    while i < b.len()
        invariant
            i <= b@.len(),
            r@ == b@.subrange(0, i as int),
        decreases b@.len() - i,
    {
        r.push(b[i]);
        i = i + 1;
    }
    assert(r@ =~= b@);
    r
}

/// The 32 bytes of an address as a seed.
pub fn address_bytes(a: &Address) -> (r: Vec<u8>)
    ensures
        r@ == a@,
{
    let mut r: Vec<u8> = Vec::new();
    let mut i: usize = 0;
    while i < 32
        invariant
            i <= 32,
            a@.len() == 32,
            r@ == a@.subrange(0, i as int),
        decreases 32 - i,
    {
        r.push(a.bytes[i]);
        i = i + 1;
    }
    assert(r@ =~= a@);
    r
}

/// Builds the seed list whose byte strings are `parts`.
fn seed_list(parts: Vec<Vec<u8>>) -> (r: Vec<Vec<u8>>)
    ensures
        r@ == parts@,
{
    parts
}

/// The pool's seeds for `company_name`.
pub fn pool_seed_list(company_name: &Vec<u8>) -> (r: Vec<Vec<u8>>)
    ensures
        crate::address::seeds_view(r@) == pool_seeds(company_name@),
{
    let r = seed_list(vec![vesting_tag_bytes(), copy_bytes(company_name)]);
    assert(crate::address::seeds_view(r@) =~= pool_seeds(company_name@));
    r
}

/// The treasury's seeds for `company_name`, without the bump.
pub fn treasury_seed_list(company_name: &Vec<u8>) -> (r: Vec<Vec<u8>>)
    ensures
        crate::address::seeds_view(r@) == treasury_seeds(company_name@),
{
    let r = seed_list(vec![treasury_tag_bytes(), copy_bytes(company_name)]);
    assert(crate::address::seeds_view(r@) =~= treasury_seeds(company_name@));
    r
}

/// The seeds with which the program signs as the treasury: its seeds
/// followed by the recorded one-byte bump.
pub fn treasury_signer_seeds(company_name: &Vec<u8>, treasury_bump: u8) -> (r: Vec<Vec<u8>>)
    ensures
        crate::address::seeds_view(r@) == treasury_seeds(company_name@).push(seq![treasury_bump]),
{
    let mut r = treasury_seed_list(company_name);
    let bump: Vec<u8> = vec![treasury_bump];
    assert(bump@ =~= seq![treasury_bump]);
    r.push(bump);
    assert(crate::address::seeds_view(r@) =~= treasury_seeds(company_name@).push(
        seq![treasury_bump],
    ));
    r
}

/// The grant's seeds for `beneficiary` under the pool at `pool`.
pub fn grant_seed_list(beneficiary: &Address, pool: &Address) -> (r: Vec<Vec<u8>>)
    ensures
        crate::address::seeds_view(r@) == grant_seeds(beneficiary@, pool@),
{
    let r = seed_list(vec![employee_tag_bytes(), address_bytes(beneficiary), address_bytes(pool)]);
    assert(crate::address::seeds_view(r@) =~= grant_seeds(beneficiary@, pool@));
    r
}

} // verus!
