use vstd::prelude::*;
use crate::address::{
    derivation_result, personal_counter_address, personal_seeds, public_counter_address,
    public_seeds,
};
use crate::errors::Errors;
use crate::program::{
    add_personal, add_public, personal_mutation, public_mutation, AddPersonal, AddPublic,
};
use crate::pubkey::{Pubkey, zero_key};
use crate::record::{
    is_personal_record, is_public_record, personal_layout, personal_owner, personal_value,
    public_layout, public_value, PersonalCounter, PublicCounter,
};

verus! {

/// The bytes stored at one address.
pub struct StoredAccount {
    pub key: Pubkey,
    pub data: Vec<u8>,
}

/// The records of one program, each at its own address.
pub struct Ledger {
    /// The program whose records these are; every address is derived
    /// under it.
    program_id: Pubkey,
    accounts: Vec<StoredAccount>,
}

/// What loading the shared counter at `addr` gives: its value, 0 for a
/// record that does not exist yet, or `TypeMismatch`.
pub open spec fn load_public(m: Map<Seq<u8>, Seq<u8>>, addr: Seq<u8>) -> Result<u64, Errors> {
    if !m.contains_key(addr) {
        Ok(0)
    } else if is_public_record(m[addr]) {
        Ok(public_value(m[addr]))
    } else {
        Err(Errors::TypeMismatch)
    }
}

/// What loading a personal counter at `addr` gives: its owner and value,
/// the zero key and 0 for a record that does not exist yet, or
/// `TypeMismatch`.
pub open spec fn load_personal(m: Map<Seq<u8>, Seq<u8>>, addr: Seq<u8>) -> Result<
    (Seq<u8>, u64),
    Errors,
> {
    if !m.contains_key(addr) {
        Ok((zero_key(), 0))
    } else if is_personal_record(m[addr]) {
        Ok((personal_owner(m[addr]), personal_value(m[addr])))
    } else {
        Err(Errors::TypeMismatch)
    }
}

/// The records after a request to count on the shared counter, or why it
/// fails.
pub open spec fn bump_shared_result(m: Map<Seq<u8>, Seq<u8>>, program_id: Seq<u8>) -> Result<
    Map<Seq<u8>, Seq<u8>>,
    Errors,
> {
    match derivation_result(public_seeds(), program_id) {
        Err(e) => Err(e),
        Ok((addr, _bump)) => match load_public(m, addr) {
            Err(e) => Err(e),
            Ok(v) => match public_mutation(v) {
                Err(e) => Err(e),
                Ok(v2) => Ok(m.insert(addr, public_layout(v2))),
            },
        },
    }
}

/// The records after a request by `user` to count on their own counter, or
/// why it fails.
pub open spec fn bump_personal_result(
    m: Map<Seq<u8>, Seq<u8>>,
    program_id: Seq<u8>,
    user: Seq<u8>,
) -> Result<Map<Seq<u8>, Seq<u8>>, Errors> {
    match derivation_result(personal_seeds(user), program_id) {
        Err(e) => Err(e),
        Ok((addr, _bump)) => match load_personal(m, addr) {
            Err(e) => Err(e),
            Ok((owner, v)) => match personal_mutation(owner, v, user) {
                Err(e) => Err(e),
                Ok((o2, v2)) => Ok(m.insert(addr, personal_layout(o2, v2))),
            },
        },
    }
}

impl Ledger {
    /// No two stored records share an address.
    pub closed spec fn wf(&self) -> bool {
        forall|i: int, j: int|
            0 <= i < j < self.accounts@.len() ==> self.accounts@[i].key@
                != self.accounts@[j].key@
    }

    /// The bytes of the program's id.
    pub closed spec fn program(&self) -> Seq<u8> {
        self.program_id@
    }

    pub fn program_id(&self) -> (r: Pubkey)
        ensures
            r@ == self.program(),
    {
        self.program_id
    }

    closed spec fn has(&self, k: Seq<u8>) -> bool {
        exists|i: int| 0 <= i < self.accounts@.len() && self.accounts@[i].key@ == k
    }

    closed spec fn index_of(&self, k: Seq<u8>) -> int {
        choose|i: int| 0 <= i < self.accounts@.len() && self.accounts@[i].key@ == k
    }

    /// The stored bytes at each address that holds a record.
    pub closed spec fn view(&self) -> Map<Seq<u8>, Seq<u8>> {
        Map::new(|k: Seq<u8>| self.has(k), |k: Seq<u8>| self.accounts@[self.index_of(k)].data@)
    }

    proof fn lemma_index(&self, i: int)
        requires
            self.wf(),
            0 <= i < self.accounts@.len(),
        ensures
            self@.contains_key(self.accounts@[i].key@),
            self@[self.accounts@[i].key@] == self.accounts@[i].data@,
    {
        let k = self.accounts@[i].key@;
        assert(self.has(k));
        let j = self.index_of(k);
        assert(j == i);
    }

    /// A ledger of the program `program_id` with no records yet.
    pub fn new(program_id: Pubkey) -> (r: Ledger)
        ensures
            r.wf(),
            r@ == Map::<Seq<u8>, Seq<u8>>::empty(),
            r.program() == program_id@,
    {
        let r = Ledger { program_id, accounts: Vec::new() };
        assert(r@ =~= Map::<Seq<u8>, Seq<u8>>::empty());
        r
    }

    fn find(&self, key: &Pubkey) -> (r: Option<usize>)
        requires
            self.wf(),
        ensures
            match r {
                Some(i) => i < self.accounts@.len() && self.accounts@[i as int].key@ == key@,
                None => !self@.contains_key(key@),
            },
    {
        let mut i: usize = 0;
        while i < self.accounts.len()
            invariant
                0 <= i <= self.accounts@.len(),
                forall|j: int| 0 <= j < i ==> self.accounts@[j].key@ != key@,
            decreases self.accounts@.len() - i,
        {
            if self.accounts[i].key == *key {
                return Some(i);
            }
            i = i + 1;
        }
        None
    }

    /// The bytes stored at `key`, if a record is there.
    pub fn get(&self, key: &Pubkey) -> (r: Option<&Vec<u8>>)
        requires
            self.wf(),
        ensures
            match r {
                Some(d) => self@.contains_key(key@) && d@ == self@[key@],
                None => !self@.contains_key(key@),
            },
    {
        match self.find(key) {
            Some(i) => {
                proof {
                    self.lemma_index(i as int);
                }
                Some(&self.accounts[i].data)
            },
            None => None,
        }
    }

    /// Stores `data` at `key`, in place of what was there.
    pub fn write_account(&mut self, key: Pubkey, data: Vec<u8>)
        requires
            old(self).wf(),
        ensures
            final(self).wf(),
            final(self)@ == old(self)@.insert(key@, data@),
            final(self).program() == old(self).program(),
    {
        let ghost k = key@;
        let ghost d = data@;
        match self.find(&key) {
            Some(i) => {
                let ghost before = *self;
                let acc = StoredAccount { key, data };
                self.accounts.set(i, acc);
                proof {
                    assert forall|x: Seq<u8>| #[trigger]
                        self@.contains_key(x) == before@.insert(k, d).contains_key(x) && (
                        self@.contains_key(x) ==> self@[x] == before@.insert(k, d)[x]) by {
                        if self.has(x) {
                            let j = self.index_of(x);
                            self.lemma_index(j);
                            assert(before.accounts@[j].key@ == x);
                            before.lemma_index(j);
                        }
                        if before.has(x) {
                            let j = before.index_of(x);
                            assert(self.accounts@[j].key@ == x);
                        }
                        if x == k {
                            assert(self.accounts@[i as int].key@ == x);
                        }
                    }
                    assert(self@ =~= before@.insert(k, d));
                }
            },
            None => {
                let ghost before = *self;
                self.accounts.push(StoredAccount { key, data });
                proof {
                    let n = before.accounts@.len() as int;
                    assert forall|x: Seq<u8>| #[trigger]
                        self@.contains_key(x) == before@.insert(k, d).contains_key(x) && (
                        self@.contains_key(x) ==> self@[x] == before@.insert(k, d)[x]) by {
                        if self.has(x) {
                            let j = self.index_of(x);
                            self.lemma_index(j);
                            if j < n {
                                assert(before.accounts@[j] == self.accounts@[j]);
                                before.lemma_index(j);
                            }
                        }
                        if before.has(x) {
                            let j = before.index_of(x);
                            assert(self.accounts@[j] == before.accounts@[j]);
                        }
                        if x == k {
                            assert(self.accounts@[n].key@ == x);
                        }
                    }
                    assert(self@ =~= before@.insert(k, d));
                }
            },
        }
    }

    /// The shared counter at `address`: the stored one, or a fresh one
    /// holding 0 where nothing is stored there yet.
    pub fn fetch_or_create_public(&self, address: &Pubkey) -> (r: Result<PublicCounter, Errors>)
        requires
            self.wf(),
        ensures
            match load_public(self@, address@) {
                Ok(v) => r is Ok && r->Ok_0.value == v,
                Err(e) => r == Err::<PublicCounter, Errors>(e),
            },
    {
        match self.get(address) {
            None => Ok(PublicCounter { value: 0 }),
            Some(d) => PublicCounter::try_deserialize(d),
        }
    }

    /// The personal counter at `address`: the stored one, or a fresh,
    /// unclaimed one holding 0 where nothing is stored there yet.
    pub fn fetch_or_create_personal(&self, address: &Pubkey) -> (r: Result<PersonalCounter, Errors>)
        requires
            self.wf(),
        ensures
            match load_personal(self@, address@) {
                Ok((o, v)) => r is Ok && r->Ok_0.owner@ == o && r->Ok_0.value == v,
                Err(e) => r == Err::<PersonalCounter, Errors>(e),
            },
    {
        match self.get(address) {
            None => Ok(PersonalCounter { owner: Pubkey::default(), value: 0 }),
            Some(d) => PersonalCounter::try_deserialize(d),
        }
    }

    /// Counts one on the shared counter, creating it on first use. On
    /// failure no record changes.
    pub fn bump_shared(&mut self, user: &Pubkey) -> (r: Result<(), Errors>)
        requires
            old(self).wf(),
        ensures
            final(self).wf(),
            final(self).program() == old(self).program(),
            match bump_shared_result(old(self)@, old(self).program()) {
                Ok(m) => r is Ok && final(self)@ == m,
                Err(e) => r == Err::<(), Errors>(e) && final(self)@ == old(self)@,
            },
    {
        let (address, bump) = match public_counter_address(&self.program_id) {
            Ok(p) => p,
            Err(e) => return Err(e),
        };
        let public_counter = match self.fetch_or_create_public(&address) {
            Ok(c) => c,
            Err(e) => return Err(e),
        };
        let mut ctx = AddPublic { public_counter, address, bump, user: *user };
        match add_public(&mut ctx) {
            Ok(()) => {},
            Err(e) => return Err(e),
        }
        let data = ctx.public_counter.try_serialize();
        self.write_account(ctx.address, data);
        Ok(())
    }

    /// Counts one on the caller's own counter, creating it on first use and
    /// claiming it for the caller while it is unclaimed. On failure no
    /// record changes.
    pub fn bump_personal(&mut self, user: &Pubkey) -> (r: Result<(), Errors>)
        requires
            old(self).wf(),
        ensures
            final(self).wf(),
            final(self).program() == old(self).program(),
            match bump_personal_result(old(self)@, old(self).program(), user@) {
                Ok(m) => r is Ok && final(self)@ == m,
                Err(e) => r == Err::<(), Errors>(e) && final(self)@ == old(self)@,
            },
    {
        let (address, bump) = match personal_counter_address(&self.program_id, user) {
            Ok(p) => p,
            Err(e) => return Err(e),
        };
        let personal_counter = match self.fetch_or_create_personal(&address) {
            Ok(c) => c,
            Err(e) => return Err(e),
        };
        let mut ctx = AddPersonal { personal_counter, address, bump, user: *user };
        match add_personal(&mut ctx) {
            Ok(()) => {},
            Err(e) => return Err(e),
        }
        let data = ctx.personal_counter.try_serialize();
        self.write_account(ctx.address, data);
        Ok(())
    }
}

} // verus!
