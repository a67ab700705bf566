use vstd::prelude::*;
use crate::errors::Errors;
use crate::pubkey::Pubkey;
use vstd::string::{StrSliceExecFns, StringSliceAdditionalSpecFns};

verus! {

/// The program-derived address and bump seed for a list of seeds under a
/// program, or `None` where no bump seed gives an address off the curve.
pub uninterp spec fn program_address(seeds: Seq<Seq<u8>>, program_id: Seq<u8>) -> Option<(Seq<u8>, u8)>;

/// The bytes of every seed in a list.
pub open spec fn seeds_view(seeds: Seq<Vec<u8>>) -> Seq<Seq<u8>> {
    seeds.map_values(|s: Vec<u8>| s@)
}

/// An address and bump seed, seen as bytes.
pub open spec fn derived_view(r: Option<(Pubkey, u8)>) -> Option<(Seq<u8>, u8)> {
    match r {
        Some((k, b)) => Some((k@, b)),
        None => None,
    }
}

/// Relies on `solana_program::pubkey::Pubkey::try_find_program_address`:
/// the search for a bump seed depends on the seeds and the program id
/// alone, and gives `None` when it finds none.
#[verifier::external_body]
fn try_find_program_address(seeds: &Vec<Vec<u8>>, program_id: &Pubkey) -> (r: Option<(Pubkey, u8)>)
    ensures
        derived_view(r) == program_address(seeds_view(seeds@), program_id@),
{
    let slices: Vec<&[u8]> = seeds.iter().map(|s| s.as_slice()).collect();
    let id = anchor_lang::prelude::Pubkey::new_from_array(program_id.bytes);
    match anchor_lang::prelude::Pubkey::try_find_program_address(&slices, &id) {
        Some((k, b)) => Some((Pubkey::new_from_array(k.to_bytes()), b)),
        None => None,
    }
}

/// The label that the shared counter's address is derived from.
pub open spec fn public_seed() -> Seq<u8> {
    "public_counter".spec_bytes()
}

/// The label that each identity's counter address is derived from.
pub open spec fn personal_seed() -> Seq<u8> {
    "personal_counter".spec_bytes()
}

/// The seeds of the shared counter.
pub open spec fn public_seeds() -> Seq<Seq<u8>> {
    seq![public_seed()]
}

/// The seeds of the counter that belongs to `user`.
pub open spec fn personal_seeds(user: Seq<u8>) -> Seq<Seq<u8>> {
    seq![personal_seed(), user]
}

/// What deriving from `seeds` under `program_id` gives: the address and
/// bump, or `DerivationExhausted`.
pub open spec fn derivation_result(seeds: Seq<Seq<u8>>, program_id: Seq<u8>) -> Result<(Seq<u8>, u8), Errors> {
    match program_address(seeds, program_id) {
        Some(p) => Ok(p),
        None => Err(Errors::DerivationExhausted),
    }
}

/// An address and bump, or an error, seen as bytes.
pub open spec fn result_view(r: Result<(Pubkey, u8), Errors>) -> Result<(Seq<u8>, u8), Errors> {
    match r {
        Ok((k, b)) => Ok((k@, b)),
        Err(e) => Err(e),
    }
}

/// Derives the address of a record from its seeds.
pub fn derive_address(seeds: &Vec<Vec<u8>>, program_id: &Pubkey) -> (r: Result<(Pubkey, u8), Errors>)
    ensures
        result_view(r) == derivation_result(seeds_view(seeds@), program_id@),
{
    match try_find_program_address(seeds, program_id) {
        Some(p) => Ok(p),
        None => Err(Errors::DerivationExhausted),
    }
}

/// The seed list of the shared counter.
pub fn public_counter_seeds() -> (r: Vec<Vec<u8>>)
    ensures
        seeds_view(r@) == public_seeds(),
{
    let mut seeds: Vec<Vec<u8>> = Vec::new();
    seeds.push("public_counter".as_bytes_vec());
    proof {
        assert(seeds_view(seeds@) =~= public_seeds());
    }
    seeds
}

/// The seed list of the counter that belongs to `user`.
pub fn personal_counter_seeds(user: &Pubkey) -> (r: Vec<Vec<u8>>)
    ensures
        seeds_view(r@) == personal_seeds(user@),
{
    let mut seeds: Vec<Vec<u8>> = Vec::new();
    seeds.push("personal_counter".as_bytes_vec());
    let mut key: Vec<u8> = Vec::new();
    let mut i: usize = 0;
    while i < 32
        invariant
            0 <= i <= 32,
            key@ =~= user@.subrange(0, i as int),
        decreases 32 - i,
    {
        key.push(user.bytes[i]);
        i = i + 1;
    }
    seeds.push(key);
    proof {
        assert(user@.subrange(0, 32) =~= user@);
        assert(seeds_view(seeds@) =~= personal_seeds(user@));
    }
    seeds
}

/// The address and bump of the shared counter.
pub fn public_counter_address(program_id: &Pubkey) -> (r: Result<(Pubkey, u8), Errors>)
    ensures
        result_view(r) == derivation_result(public_seeds(), program_id@),
{
    let seeds = public_counter_seeds();
    derive_address(&seeds, program_id)
}

/// The address and bump of the counter that belongs to `user`.
pub fn personal_counter_address(program_id: &Pubkey, user: &Pubkey) -> (r: Result<(Pubkey, u8), Errors>)
    ensures
        result_view(r) == derivation_result(personal_seeds(user@), program_id@),
{
    let seeds = personal_counter_seeds(user);
    derive_address(&seeds, program_id)
}

} // verus!
