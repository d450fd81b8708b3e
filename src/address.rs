use anchor_lang::prelude::Pubkey;
use anchor_lang::solana_program::pubkey::PubkeyError;
use vstd::prelude::*;

use crate::error::VestingError;

verus! {

#[verifier::external_type_specification]
#[verifier::external_body]
pub struct ExPubkeyError(PubkeyError);

/// A 32-byte account address or identity.
#[derive(Clone, Copy, Debug, PartialEq, Eq)]
pub struct Address {
    pub bytes: [u8; 32],
}

impl View for Address {
    type V = Seq<u8>;

    open spec fn view(&self) -> Seq<u8> {
        self.bytes@
    }
}

/// Byte-wise comparison of two addresses.
pub fn same_address(a: &Address, b: &Address) -> (r: bool)
    ensures
        r == (a@ == b@),
{
    let mut i: usize = 0;
    while i < 32
        invariant
            0 <= i <= 32,
            a@.len() == 32,
            b@.len() == 32,
            forall|j: int| 0 <= j < i ==> a@[j] == b@[j],
        decreases 32 - i,
    {
        if a.bytes[i] != b.bytes[i] {
            return false;
        }
        i = i + 1;
    }
    assert(a@ =~= b@);
    true
}

/// The byte strings of a list of seeds.
pub open spec fn seeds_view(seeds: Seq<Vec<u8>>) -> Seq<Seq<u8>> {
    seeds.map_values(|s: Vec<u8>| s@)
}

/// At most `max_seeds` seeds, none longer than 32 bytes.
pub open spec fn seeds_fit(seeds: Seq<Seq<u8>>, max_seeds: int) -> bool {
    seeds.len() <= max_seeds && forall|i: int| 0 <= i < seeds.len() ==> seeds[i].len() <= 32
}

/// The program address that `Pubkey::create_program_address` derives from the
/// seeds under the program id, or `None` where it refuses them.
pub uninterp spec fn program_address_of(seeds: Seq<Seq<u8>>, program_id: Seq<u8>) -> Option<Seq<u8>>;

/// The address and bump that `Pubkey::try_find_program_address` finds for the
/// seeds under the program id, or `None` where it finds none.
pub uninterp spec fn found_program_address_of(seeds: Seq<Seq<u8>>, program_id: Seq<u8>) -> Option<
    (Seq<u8>, u8),
>;

/// Relies on `Pubkey::create_program_address` of solana-program: the result
/// depends on the seeds and the program id alone, and more than 16 seeds or a
/// seed longer than 32 bytes are refused.
#[verifier::external_body]
fn create_program_address(seeds: &Vec<Vec<u8>>, program_id: &Address) -> (r: Result<
    Address,
    PubkeyError,
>)
    ensures
        r is Ok <==> program_address_of(seeds_view(seeds@), program_id@) is Some,
        r matches Ok(a) ==> program_address_of(seeds_view(seeds@), program_id@) == Some(a@),
        !seeds_fit(seeds_view(seeds@), 16) ==> r is Err,
{
    let refs: Vec<&[u8]> = seeds.iter().map(|s| s.as_slice()).collect();
    match Pubkey::create_program_address(&refs, &Pubkey::new_from_array(program_id.bytes)) {
        Ok(key) => Ok(Address { bytes: key.to_bytes() }),
        Err(e) => Err(e),
    }
}

/// Relies on `Pubkey::try_find_program_address` of solana-program: the result
/// depends on the seeds and the program id alone; an address it finds is the
/// one `create_program_address` derives from the seeds followed by the
/// one-byte bump; with 16 seeds or more, or a seed longer than 32 bytes, it
/// finds none.
#[verifier::external_body]
fn try_find_program_address(seeds: &Vec<Vec<u8>>, program_id: &Address) -> (r: Option<
    (Address, u8),
>)
    ensures
        r is Some <==> found_program_address_of(seeds_view(seeds@), program_id@) is Some,
        r matches Some(f) ==> found_program_address_of(seeds_view(seeds@), program_id@) == Some(
            (f.0@, f.1),
        ),
        r matches Some(f) ==> program_address_of(
            seeds_view(seeds@).push(seq![f.1]),
            program_id@,
        ) == Some(f.0@),
        !seeds_fit(seeds_view(seeds@), 15) ==> r is None,
{
    let refs: Vec<&[u8]> = seeds.iter().map(|s| s.as_slice()).collect();
    match Pubkey::try_find_program_address(&refs, &Pubkey::new_from_array(program_id.bytes)) {
        Some((key, bump)) => Some((Address { bytes: key.to_bytes() }, bump)),
        None => None,
    }
}

/// Derives the program address of `seeds` together with its bump.
pub fn find_address(seeds: &Vec<Vec<u8>>, program_id: &Address) -> (r: Result<
    (Address, u8),
    VestingError,
>)
    ensures
        match found_program_address_of(seeds_view(seeds@), program_id@) {
            Some(f) => r matches Ok(p) && p.0@ == f.0 && p.1 == f.1,
            None => r == Err::<(Address, u8), VestingError>(VestingError::InvalidDerivation),
        },
{
    match try_find_program_address(seeds, program_id) {
        Some(found) => Ok(found),
        None => Err(VestingError::InvalidDerivation),
    }
}

/// Checks that `seeds` (ending in their bump) derive `expected`; this is the
/// capability that lets the program act as that address.
pub fn check_derivation(seeds: &Vec<Vec<u8>>, program_id: &Address, expected: &Address) -> (r:
    Result<(), VestingError>)
    ensures
        r is Ok <==> program_address_of(seeds_view(seeds@), program_id@) == Some(expected@),
        r is Err ==> r == Err::<(), VestingError>(VestingError::InvalidDerivation),
{
    match create_program_address(seeds, program_id) {
        Ok(derived) => {
            if same_address(&derived, expected) {
                Ok(())
            } else {
                Err(VestingError::InvalidDerivation)
            }
        },
        Err(_) => Err(VestingError::InvalidDerivation),
    }
}

} // verus!
