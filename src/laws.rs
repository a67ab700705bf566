//! What holds of the two requests over any number of calls and any
//! identities, stated over the records they leave behind.
use vstd::prelude::*;
use crate::address::{
    derivation_result, personal_seeds, program_address, public_seeds, result_view,
};
use crate::errors::Errors;
use crate::ledger::{bump_personal_result, bump_shared_result, load_personal, load_public};
use crate::program::personal_mutation;
use crate::pubkey::{Pubkey, zero_key};
use crate::record::{lemma_personal_round_trip, lemma_public_round_trip};

verus! {

/// The records after `n` requests to count on the shared counter, or the
/// error of the first that fails.
pub open spec fn bump_shared_times(
    m: Map<Seq<u8>, Seq<u8>>,
    program_id: Seq<u8>,
    n: nat,
) -> Result<Map<Seq<u8>, Seq<u8>>, Errors>
    decreases n,
{
    if n == 0 {
        Ok(m)
    } else {
        match bump_shared_times(m, program_id, (n - 1) as nat) {
            Ok(m1) => bump_shared_result(m1, program_id),
            Err(e) => Err(e),
        }
    }
}

/// Where no shared counter is stored yet, `n` requests to count on it all
/// succeed and leave it holding `n`.
pub proof fn lemma_shared_counts_requests(m: Map<Seq<u8>, Seq<u8>>, program_id: Seq<u8>, n: nat)
    requires
        program_address(public_seeds(), program_id) is Some,
        !m.contains_key(program_address(public_seeds(), program_id)->Some_0.0),
        n <= u64::MAX,
    ensures
        bump_shared_times(m, program_id, n) is Ok,
        load_public(
            bump_shared_times(m, program_id, n)->Ok_0,
            program_address(public_seeds(), program_id)->Some_0.0,
        ) == Ok::<u64, Errors>(n as u64),
    decreases n,
{
    let addr = program_address(public_seeds(), program_id)->Some_0.0;
    if n > 0 {
        lemma_shared_counts_requests(m, program_id, (n - 1) as nat);
        lemma_public_round_trip(n as u64);
        let m1 = bump_shared_times(m, program_id, (n - 1) as nat)->Ok_0;
        assert(bump_shared_result(m1, program_id) == Ok::<Map<Seq<u8>, Seq<u8>>, Errors>(
            m1.insert(addr, crate::record::public_layout(n as u64)),
        ));
    }
}

/// A request by one identity changes no record but the one at that
/// identity's own derived address.
pub proof fn lemma_personal_touches_own_record(
    m: Map<Seq<u8>, Seq<u8>>,
    program_id: Seq<u8>,
    user: Seq<u8>,
    k: Seq<u8>,
)
    requires
        bump_personal_result(m, program_id, user) is Ok,
        k != program_address(personal_seeds(user), program_id)->Some_0.0,
    ensures
        bump_personal_result(m, program_id, user)->Ok_0.contains_key(k) == m.contains_key(k),
        m.contains_key(k) ==> bump_personal_result(m, program_id, user)->Ok_0[k] == m[k],
{
}

/// Two identities whose counters lie at different addresses never touch
/// each other's counter: a request by either leaves what the other's
/// counter loads as unchanged.
pub proof fn lemma_identities_independent(
    m: Map<Seq<u8>, Seq<u8>>,
    program_id: Seq<u8>,
    a: Seq<u8>,
    b: Seq<u8>,
)
    requires
        a != b,
        program_address(personal_seeds(a), program_id) is Some,
        program_address(personal_seeds(b), program_id) is Some,
        program_address(personal_seeds(a), program_id)->Some_0.0 != program_address(
            personal_seeds(b),
            program_id,
        )->Some_0.0,
    ensures
        bump_personal_result(m, program_id, a) is Ok ==> load_personal(
            bump_personal_result(m, program_id, a)->Ok_0,
            program_address(personal_seeds(b), program_id)->Some_0.0,
        ) == load_personal(m, program_address(personal_seeds(b), program_id)->Some_0.0),
        bump_personal_result(m, program_id, b) is Ok ==> load_personal(
            bump_personal_result(m, program_id, b)->Ok_0,
            program_address(personal_seeds(a), program_id)->Some_0.0,
        ) == load_personal(m, program_address(personal_seeds(a), program_id)->Some_0.0),
{
    let addr_a = program_address(personal_seeds(a), program_id)->Some_0.0;
    let addr_b = program_address(personal_seeds(b), program_id)->Some_0.0;
    if bump_personal_result(m, program_id, a) is Ok {
        let m2 = bump_personal_result(m, program_id, a)->Ok_0;
        assert(m2.contains_key(addr_b) == m.contains_key(addr_b));
    }
    if bump_personal_result(m, program_id, b) is Ok {
        let m2 = bump_personal_result(m, program_id, b)->Ok_0;
        assert(m2.contains_key(addr_a) == m.contains_key(addr_a));
    }
}

/// The first identity to count on a fresh counter claims it with value 1;
/// from then on any other identity is refused with `InvalidOwner` and the
/// record stays as it was.
pub proof fn lemma_first_mover_claims(
    m: Map<Seq<u8>, Seq<u8>>,
    program_id: Seq<u8>,
    a: Seq<u8>,
    b: Seq<u8>,
)
    requires
        a.len() == 32,
        a != zero_key(),
        b != a,
        program_address(personal_seeds(a), program_id) is Some,
        !m.contains_key(program_address(personal_seeds(a), program_id)->Some_0.0),
    ensures
        bump_personal_result(m, program_id, a) is Ok,
        load_personal(
            bump_personal_result(m, program_id, a)->Ok_0,
            program_address(personal_seeds(a), program_id)->Some_0.0,
        ) == Ok::<(Seq<u8>, u64), Errors>((a, 1u64)),
        forall|v: u64| personal_mutation(a, v, b) == Err::<(Seq<u8>, u64), Errors>(Errors::InvalidOwner),
{
    lemma_personal_round_trip(a, 1);
}

/// Once a counter is claimed, its owner never changes: whatever identity
/// asks, the request either fails and changes nothing, or leaves the same
/// owner with the value one higher; and every identity but the owner that
/// reaches it is refused with `InvalidOwner`.
pub proof fn lemma_owner_is_permanent(
    m: Map<Seq<u8>, Seq<u8>>,
    program_id: Seq<u8>,
    addr: Seq<u8>,
    user: Seq<u8>,
)
    requires
        user.len() == 32,
        load_personal(m, addr) is Ok,
        load_personal(m, addr)->Ok_0.0 != zero_key(),
    ensures
        bump_personal_result(m, program_id, user) is Ok ==> load_personal(
            bump_personal_result(m, program_id, user)->Ok_0,
            addr,
        ) is Ok && load_personal(bump_personal_result(m, program_id, user)->Ok_0, addr)->Ok_0.0
            == load_personal(m, addr)->Ok_0.0,
        derivation_result(personal_seeds(user), program_id) is Ok && program_address(
            personal_seeds(user),
            program_id,
        )->Some_0.0 == addr && user != load_personal(m, addr)->Ok_0.0 ==> bump_personal_result(
            m,
            program_id,
            user,
        ) == Err::<Map<Seq<u8>, Seq<u8>>, Errors>(Errors::InvalidOwner),
{
    if bump_personal_result(m, program_id, user) is Ok {
        let target = program_address(personal_seeds(user), program_id)->Some_0.0;
        if target == addr {
            let (o, v) = load_personal(m, addr)->Ok_0;
            lemma_personal_round_trip(o, (v + 1) as u64);
        }
    }
}

/// Counting again as a counter's owner keeps the owner and adds one to the
/// value.
pub proof fn lemma_owner_counts_again(m: Map<Seq<u8>, Seq<u8>>, program_id: Seq<u8>, a: Seq<u8>)
    requires
        a.len() == 32,
        program_address(personal_seeds(a), program_id) is Some,
        load_personal(m, program_address(personal_seeds(a), program_id)->Some_0.0) is Ok,
        load_personal(m, program_address(personal_seeds(a), program_id)->Some_0.0)->Ok_0.0 == a,
        load_personal(m, program_address(personal_seeds(a), program_id)->Some_0.0)->Ok_0.1
            < u64::MAX,
    ensures
        bump_personal_result(m, program_id, a) is Ok,
        load_personal(
            bump_personal_result(m, program_id, a)->Ok_0,
            program_address(personal_seeds(a), program_id)->Some_0.0,
        ) == Ok::<(Seq<u8>, u64), Errors>(
            (
                a,
                (load_personal(m, program_address(personal_seeds(a), program_id)->Some_0.0)->Ok_0.1
                    + 1) as u64,
            ),
        ),
{
    let addr = program_address(personal_seeds(a), program_id)->Some_0.0;
    let v = load_personal(m, addr)->Ok_0.1;
    lemma_personal_round_trip(a, (v + 1) as u64);
}

/// Deriving the shared counter's address twice under one program gives the
/// same address and bump.
pub proof fn lemma_public_address_deterministic(
    program_id: Pubkey,
    r1: Result<(Pubkey, u8), Errors>,
    r2: Result<(Pubkey, u8), Errors>,
)
    requires
        result_view(r1) == derivation_result(public_seeds(), program_id@),
        result_view(r2) == derivation_result(public_seeds(), program_id@),
    ensures
        result_view(r1) == result_view(r2),
{
}

/// Distinct identities give distinct seed lists for their counters.
pub proof fn lemma_personal_seeds_distinct(a: Seq<u8>, b: Seq<u8>)
    requires
        a != b,
    ensures
        personal_seeds(a) != personal_seeds(b),
{
    assert(personal_seeds(a)[1] == a);
    assert(personal_seeds(b)[1] == b);
}

} // verus!
