use vstd::prelude::*;
use crate::errors::Errors;
use crate::pubkey::Pubkey;
use vstd::string::{StrSliceExecFns, StringSliceAdditionalSpecFns};

verus! {

/// The SHA-256 digest of a byte string.
pub uninterp spec fn sha256_of(data: Seq<u8>) -> [u8; 32];

/// Relies on `solana_program::hash::hash`: the SHA-256 digest of the bytes,
/// which depends on them alone.
#[verifier::external_body]
fn sha256(data: &Vec<u8>) -> (r: [u8; 32])
    ensures
        r == sha256_of(data@),
{
    anchor_lang::solana_program::hash::hash(data.as_slice()).to_bytes()
}

/// The tag that marks a record of the kind whose namespaced name is
/// `preimage`: the first eight bytes of its digest.
pub open spec fn discriminator_of(preimage: Seq<u8>) -> Seq<u8> {
    sha256_of(preimage)@.subrange(0, 8)
}

pub open spec fn public_discriminator() -> Seq<u8> {
    discriminator_of("account:PublicCounter".spec_bytes())
}

pub open spec fn personal_discriminator() -> Seq<u8> {
    discriminator_of("account:PersonalCounter".spec_bytes())
}

fn discriminator(preimage: &Vec<u8>) -> (r: Vec<u8>)
    ensures
        r@ == discriminator_of(preimage@),
{
    let digest = sha256(preimage);
    let mut r: Vec<u8> = Vec::new();
    let mut i: usize = 0;
    while i < 8
        invariant
            0 <= i <= 8,
            digest@.len() == 32,
            r@ =~= digest@.subrange(0, i as int),
        decreases 8 - i,
    {
        r.push(digest[i]);
        i = i + 1;
    }
    r
}

/// The eight little-endian bytes of a `u64`.
pub open spec fn le_bytes(v: u64) -> Seq<u8> {
    seq![
        (v & 0xff) as u8,
        ((v >> 8u64) & 0xff) as u8,
        ((v >> 16u64) & 0xff) as u8,
        ((v >> 24u64) & 0xff) as u8,
        ((v >> 32u64) & 0xff) as u8,
        ((v >> 40u64) & 0xff) as u8,
        ((v >> 48u64) & 0xff) as u8,
        ((v >> 56u64) & 0xff) as u8,
    ]
}

/// The `u64` that eight little-endian bytes spell.
pub open spec fn le_value(b: Seq<u8>) -> u64 {
    (b[0] as u64) | ((b[1] as u64) << 8u64) | ((b[2] as u64) << 16u64) | ((b[3] as u64) << 24u64)
        | ((b[4] as u64) << 32u64) | ((b[5] as u64) << 40u64) | ((b[6] as u64) << 48u64)
        | ((b[7] as u64) << 56u64)
}

/// Reading back the bytes of a `u64` gives the same `u64`.
pub proof fn lemma_le_round_trip(v: u64)
    ensures
        le_value(le_bytes(v)) == v,
{
    let b = le_bytes(v);
    let (b0, b1, b2, b3, b4, b5, b6, b7) = (b[0], b[1], b[2], b[3], b[4], b[5], b[6], b[7]);
    assert(b0 == (v & 0xff) as u8 && b1 == ((v >> 8u64) & 0xff) as u8 && b2 == ((v >> 16u64)
        & 0xff) as u8 && b3 == ((v >> 24u64) & 0xff) as u8 && b4 == ((v >> 32u64) & 0xff) as u8
        && b5 == ((v >> 40u64) & 0xff) as u8 && b6 == ((v >> 48u64) & 0xff) as u8 && b7 == ((v
        >> 56u64) & 0xff) as u8);
    assert((b0 as u64) | ((b1 as u64) << 8u64) | ((b2 as u64) << 16u64) | ((b3 as u64) << 24u64)
        | ((b4 as u64) << 32u64) | ((b5 as u64) << 40u64) | ((b6 as u64) << 48u64) | ((b7 as u64)
        << 56u64) == v) by (bit_vector)
        requires
            b0 == (v & 0xff) as u8,
            b1 == ((v >> 8u64) & 0xff) as u8,
            b2 == ((v >> 16u64) & 0xff) as u8,
            b3 == ((v >> 24u64) & 0xff) as u8,
            b4 == ((v >> 32u64) & 0xff) as u8,
            b5 == ((v >> 40u64) & 0xff) as u8,
            b6 == ((v >> 48u64) & 0xff) as u8,
            b7 == ((v >> 56u64) & 0xff) as u8,
    ;
}

fn push_le_bytes(out: &mut Vec<u8>, v: u64)
    ensures
        final(out)@ == old(out)@ + le_bytes(v),
{
    out.push((v & 0xff) as u8);
    out.push(((v >> 8u64) & 0xff) as u8);
    out.push(((v >> 16u64) & 0xff) as u8);
    out.push(((v >> 24u64) & 0xff) as u8);
    out.push(((v >> 32u64) & 0xff) as u8);
    out.push(((v >> 40u64) & 0xff) as u8);
    out.push(((v >> 48u64) & 0xff) as u8);
    out.push(((v >> 56u64) & 0xff) as u8);
    assert(final(out)@ =~= old(out)@ + le_bytes(v));
}

fn read_le_value(data: &Vec<u8>, start: usize) -> (r: u64)
    requires
        start <= 40,
        start + 8 <= data@.len(),
    ensures
        r == le_value(data@.subrange(start as int, start + 8)),
{
    (data[start] as u64) | ((data[start + 1] as u64) << 8u64) | ((data[start + 2] as u64) << 16u64)
        | ((data[start + 3] as u64) << 24u64) | ((data[start + 4] as u64) << 32u64) | ((data[start
        + 5] as u64) << 40u64) | ((data[start + 6] as u64) << 48u64) | ((data[start + 7] as u64)
        << 56u64)
}

/// Whether `data` starts with the eight bytes of `disc`.
fn has_prefix(data: &Vec<u8>, disc: &Vec<u8>) -> (r: bool)
    requires
        disc@.len() == 8,
        data@.len() >= 8,
    ensures
        r == (data@.subrange(0, 8) == disc@),
{
    let mut i: usize = 0;
    while i < 8
        invariant
            0 <= i <= 8,
            disc@.len() == 8,
            data@.len() >= 8,
            forall|j: int| 0 <= j < i ==> data@[j] == disc@[j],
        decreases 8 - i,
    {
        if data[i] != disc[i] {
            assert(data@.subrange(0, 8)[i as int] != disc@[i as int]);
            return false;
        }
        i = i + 1;
    }
    assert(data@.subrange(0, 8) =~= disc@);
    true
}

/// The shared counter's record.
#[derive(Clone, Copy, Debug)]
pub struct PublicCounter {
    pub value: u64,
}

/// The stored bytes of a shared counter holding `value`.
pub open spec fn public_layout(value: u64) -> Seq<u8> {
    public_discriminator() + le_bytes(value)
}

/// Whether `data` is a stored shared counter: the right size and tag.
pub open spec fn is_public_record(data: Seq<u8>) -> bool {
    data.len() == 16 && data.subrange(0, 8) == public_discriminator()
}

/// The value that a stored shared counter holds.
pub open spec fn public_value(data: Seq<u8>) -> u64 {
    le_value(data.subrange(8, 16))
}

impl PublicCounter {
    /// The stored size: the tag and a `u64`.
    pub const LEN: usize = 8 + 8;

    /// The tag of a shared counter's record.
    pub fn discriminator() -> (r: Vec<u8>)
        ensures
            r@ == public_discriminator(),
    {
        discriminator(&"account:PublicCounter".as_bytes_vec())
    }

    /// The bytes that store this record.
    pub fn try_serialize(&self) -> (r: Vec<u8>)
        ensures
            r@ == public_layout(self.value),
    {
        let mut out = PublicCounter::discriminator();
        push_le_bytes(&mut out, self.value);
        out
    }

    /// Reads a record from its stored bytes.
    pub fn try_deserialize(data: &Vec<u8>) -> (r: Result<PublicCounter, Errors>)
        ensures
            is_public_record(data@) ==> r == Ok::<PublicCounter, Errors>(
                PublicCounter { value: public_value(data@) },
            ),
            !is_public_record(data@) ==> r == Err::<PublicCounter, Errors>(Errors::TypeMismatch),
    {
        if data.len() != PublicCounter::LEN {
            return Err(Errors::TypeMismatch);
        }
        let disc = PublicCounter::discriminator();
        if !has_prefix(data, &disc) {
            return Err(Errors::TypeMismatch);
        }
        Ok(PublicCounter { value: read_le_value(data, 8) })
    }
}

/// Storing a shared counter and reading it back gives the same value.
pub proof fn lemma_public_round_trip(value: u64)
    ensures
        is_public_record(public_layout(value)),
        public_value(public_layout(value)) == value,
{
    let d = public_layout(value);
    assert(d.subrange(0, 8) =~= public_discriminator());
    assert(d.subrange(8, 16) =~= le_bytes(value));
    lemma_le_round_trip(value);
}

/// A counter that belongs to one identity.
#[derive(Clone, Copy, Debug)]
pub struct PersonalCounter {
    pub owner: Pubkey,
    pub value: u64,
}

/// The stored bytes of a personal counter.
pub open spec fn personal_layout(owner: Seq<u8>, value: u64) -> Seq<u8> {
    personal_discriminator() + owner + le_bytes(value)
}

/// Whether `data` is a stored personal counter: the right size and tag.
pub open spec fn is_personal_record(data: Seq<u8>) -> bool {
    data.len() == 48 && data.subrange(0, 8) == personal_discriminator()
}

/// The owner that a stored personal counter names.
pub open spec fn personal_owner(data: Seq<u8>) -> Seq<u8> {
    data.subrange(8, 40)
}

/// The value that a stored personal counter holds.
pub open spec fn personal_value(data: Seq<u8>) -> u64 {
    le_value(data.subrange(40, 48))
}

impl PersonalCounter {
    /// The stored size: the tag, a key and a `u64`.
    pub const LEN: usize = 8 + 32 + 8;

    /// The tag of a personal counter's record.
    pub fn discriminator() -> (r: Vec<u8>)
        ensures
            r@ == personal_discriminator(),
    {
        discriminator(&"account:PersonalCounter".as_bytes_vec())
    }

    /// The bytes that store this record.
    pub fn try_serialize(&self) -> (r: Vec<u8>)
        ensures
            r@ == personal_layout(self.owner@, self.value),
    {
        let mut out = PersonalCounter::discriminator();
        let mut i: usize = 0;
        while i < 32
            invariant
                0 <= i <= 32,
                out@ =~= personal_discriminator() + self.owner@.subrange(0, i as int),
            decreases 32 - i,
        {
            out.push(self.owner.bytes[i]);
            i = i + 1;
        }
        assert(self.owner@.subrange(0, 32) =~= self.owner@);
        push_le_bytes(&mut out, self.value);
        out
    }

    /// Reads a record from its stored bytes.
    pub fn try_deserialize(data: &Vec<u8>) -> (r: Result<PersonalCounter, Errors>)
        ensures
            is_personal_record(data@) ==> r is Ok && r->Ok_0.owner@ == personal_owner(data@)
                && r->Ok_0.value == personal_value(data@),
            !is_personal_record(data@) ==> r == Err::<PersonalCounter, Errors>(Errors::TypeMismatch),
    {
        if data.len() != PersonalCounter::LEN {
            return Err(Errors::TypeMismatch);
        }
        let disc = PersonalCounter::discriminator();
        if !has_prefix(data, &disc) {
            return Err(Errors::TypeMismatch);
        }
        let mut bytes = [0u8; 32];
        let mut i: usize = 0;
        while i < 32
            invariant
                0 <= i <= 32,
                data@.len() == 48,
                forall|j: int| 0 <= j < i ==> bytes@[j] == data@[8 + j],
            decreases 32 - i,
        {
            bytes[i] = data[8 + i];
            i = i + 1;
        }
        let owner = Pubkey::new_from_array(bytes);
        assert(owner@ =~= personal_owner(data@));
        Ok(PersonalCounter { owner, value: read_le_value(data, 40) })
    }
}

/// Storing a personal counter and reading it back gives the same owner and
/// value.
pub proof fn lemma_personal_round_trip(owner: Seq<u8>, value: u64)
    requires
        owner.len() == 32,
    ensures
        is_personal_record(personal_layout(owner, value)),
        personal_owner(personal_layout(owner, value)) == owner,
        personal_value(personal_layout(owner, value)) == value,
{
    let d = personal_layout(owner, value);
    assert(d.subrange(0, 8) =~= personal_discriminator());
    assert(d.subrange(8, 40) =~= owner);
    assert(d.subrange(40, 48) =~= le_bytes(value));
    lemma_le_round_trip(value);
}

} // verus!
