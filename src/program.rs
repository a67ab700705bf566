use vstd::prelude::*;
use crate::errors::Errors;
use crate::pubkey::{Pubkey, zero_key};
use crate::record::{PersonalCounter, PublicCounter};

verus! {

/// What one request does to the shared counter's value.
pub open spec fn public_mutation(value: u64) -> Result<u64, Errors> {
    if value == u64::MAX {
        Err(Errors::ValueOverflow)
    } else {
        Ok((value + 1) as u64)
    }
}

/// What one request by `user` does to a personal counter's owner and value:
/// claim it if it is unclaimed, then require the caller to be the owner,
/// then count.
pub open spec fn personal_mutation(owner: Seq<u8>, value: u64, user: Seq<u8>) -> Result<
    (Seq<u8>, u64),
    Errors,
> {
    let owner = if owner == zero_key() {
        user
    } else {
        owner
    };
    if owner != user {
        Err(Errors::InvalidOwner)
    } else if value == u64::MAX {
        Err(Errors::ValueOverflow)
    } else {
        Ok((owner, (value + 1) as u64))
    }
}

/// The records that a request to count on the shared counter works on.
pub struct AddPublic {
    /// The shared counter, as loaded or freshly created.
    pub public_counter: PublicCounter,
    /// Where the shared counter is stored.
    pub address: Pubkey,
    /// The bump seed that the address was derived with.
    pub bump: u8,
    /// The identity that signed the request and pays for a new record.
    pub user: Pubkey,
}

/// The records that a request to count on the caller's own counter works
/// on.
pub struct AddPersonal {
    /// The caller's counter, as loaded or freshly created.
    pub personal_counter: PersonalCounter,
    /// Where the caller's counter is stored.
    pub address: Pubkey,
    /// The bump seed that the address was derived with.
    pub bump: u8,
    /// The identity that signed the request and pays for a new record.
    pub user: Pubkey,
}

/// Counts one on the shared counter. Nobody needs to be authorized.
pub fn add_public(ctx: &mut AddPublic) -> (r: Result<(), Errors>)
    ensures
        match public_mutation(old(ctx).public_counter.value) {
            Ok(v) => r is Ok && final(ctx).public_counter.value == v,
            Err(e) => r == Err::<(), Errors>(e) && final(ctx).public_counter == old(
                ctx,
            ).public_counter,
        },
        final(ctx).address == old(ctx).address,
        final(ctx).bump == old(ctx).bump,
        final(ctx).user == old(ctx).user,
{
    if ctx.public_counter.value == u64::MAX {
        return Err(Errors::ValueOverflow);
    }
    ctx.public_counter.value = ctx.public_counter.value + 1;
    Ok(())
}

/// Counts one on the caller's counter: an unclaimed counter becomes the
/// caller's, and a counter that another identity claimed is refused with
/// `InvalidOwner` and left as it was.
pub fn add_personal(ctx: &mut AddPersonal) -> (r: Result<(), Errors>)
    ensures
        match personal_mutation(
            old(ctx).personal_counter.owner@,
            old(ctx).personal_counter.value,
            old(ctx).user@,
        ) {
            Ok((o, v)) => r is Ok && final(ctx).personal_counter.owner@ == o
                && final(ctx).personal_counter.value == v,
            Err(e) => r == Err::<(), Errors>(e) && final(ctx).personal_counter == old(
                ctx,
            ).personal_counter,
        },
        final(ctx).address == old(ctx).address,
        final(ctx).bump == old(ctx).bump,
        final(ctx).user == old(ctx).user,
{
    let owner = if ctx.personal_counter.owner.is_zero() {
        ctx.user
    } else {
        ctx.personal_counter.owner
    };
    if owner != ctx.user {
        return Err(Errors::InvalidOwner);
    }
    if ctx.personal_counter.value == u64::MAX {
        return Err(Errors::ValueOverflow);
    }
    ctx.personal_counter.owner = owner;
    ctx.personal_counter.value = ctx.personal_counter.value + 1;
    Ok(())
}

} // verus!
