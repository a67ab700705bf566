use counter::{
    add_personal, add_public, derive_address, personal_counter_address, public_counter_address,
    AddPersonal, AddPublic, Errors, Ledger, PersonalCounter, Pubkey, PublicCounter,
};

fn key(fill: u8) -> Pubkey {
    Pubkey::new_from_array([fill; 32])
}

fn program() -> Pubkey {
    let mut bytes = [0u8; 32];
    for (i, b) in bytes.iter_mut().enumerate() {
        *b = (i as u8).wrapping_mul(7).wrapping_add(3);
    }
    Pubkey::new_from_array(bytes)
}

fn shared_value(ledger: &Ledger) -> u64 {
    let (addr, _) = public_counter_address(&ledger.program_id()).unwrap();
    PublicCounter::try_deserialize(ledger.get(&addr).unwrap()).unwrap().value
}

fn personal(ledger: &Ledger, user: &Pubkey) -> PersonalCounter {
    let (addr, _) = personal_counter_address(&ledger.program_id(), user).unwrap();
    PersonalCounter::try_deserialize(ledger.get(&addr).unwrap()).unwrap()
}

#[test]
fn scenario_shared_and_personal_counters() {
    let x = key(1);
    let y = key(2);
    let mut ledger = Ledger::new(program());
    assert_eq!(ledger.bump_shared(&x), Ok(()));
    assert_eq!(shared_value(&ledger), 1);
    assert_eq!(ledger.bump_personal(&x), Ok(()));
    let cx = personal(&ledger, &x);
    assert_eq!(cx.owner, x);
    assert_eq!(cx.value, 1);
    assert_eq!(ledger.bump_personal(&y), Ok(()));
    let cy = personal(&ledger, &y);
    assert_eq!(cy.owner, y);
    assert_eq!(cy.value, 1);
    assert_eq!(ledger.bump_personal(&y), Ok(()));
    let cy = personal(&ledger, &y);
    assert_eq!(cy.owner, y);
    assert_eq!(cy.value, 2);
    let (ax, _) = personal_counter_address(&program(), &x).unwrap();
    let (ay, _) = personal_counter_address(&program(), &y).unwrap();
    assert_ne!(ax, ay);
    assert_eq!(ledger.bump_personal(&x), Ok(()));
    let cx = personal(&ledger, &x);
    assert_eq!(cx.owner, x);
    assert_eq!(cx.value, 2);
    assert_eq!(shared_value(&ledger), 1);
}

#[test]
fn shared_counter_counts_every_request() {
    let mut ledger = Ledger::new(program());
    for n in 1..=10u64 {
        let caller = key(n as u8);
        assert_eq!(ledger.bump_shared(&caller), Ok(()));
        assert_eq!(shared_value(&ledger), n);
    }
}

#[test]
fn identities_keep_separate_counters() {
    let a = key(5);
    let b = key(6);
    let mut ledger = Ledger::new(program());
    for _ in 0..3 {
        assert_eq!(ledger.bump_personal(&a), Ok(()));
    }
    assert_eq!(ledger.bump_personal(&b), Ok(()));
    assert_eq!(personal(&ledger, &a).value, 3);
    assert_eq!(personal(&ledger, &b).value, 1);
    assert_eq!(personal(&ledger, &a).owner, a);
    assert_eq!(personal(&ledger, &b).owner, b);
}

#[test]
fn other_identity_is_refused_on_claimed_counter() {
    let a = key(7);
    let b = key(8);
    let mut ctx = AddPersonal {
        personal_counter: PersonalCounter { owner: Pubkey::default(), value: 0 },
        address: key(9),
        bump: 254,
        user: a,
    };
    assert_eq!(add_personal(&mut ctx), Ok(()));
    assert_eq!(ctx.personal_counter.owner, a);
    assert_eq!(ctx.personal_counter.value, 1);
    ctx.user = b;
    assert_eq!(add_personal(&mut ctx), Err(Errors::InvalidOwner));
    assert_eq!(ctx.personal_counter.owner, a);
    assert_eq!(ctx.personal_counter.value, 1);
}

#[test]
fn claimed_record_at_callers_address_refuses_stranger() {
    let a = key(10);
    let b = key(11);
    let mut ledger = Ledger::new(program());
    let (addr_b, _) = personal_counter_address(&program(), &b).unwrap();
    let foreign = PersonalCounter { owner: a, value: 4 };
    ledger.write_account(addr_b, foreign.try_serialize());
    assert_eq!(ledger.bump_personal(&b), Err(Errors::InvalidOwner));
    let c = personal(&ledger, &b);
    assert_eq!(c.owner, a);
    assert_eq!(c.value, 4);
}

#[test]
fn owner_counts_repeatedly_without_changing_owner() {
    let a = key(12);
    let mut ctx = AddPersonal {
        personal_counter: PersonalCounter { owner: a, value: 41 },
        address: key(13),
        bump: 255,
        user: a,
    };
    for expected in 42..45u64 {
        assert_eq!(add_personal(&mut ctx), Ok(()));
        assert_eq!(ctx.personal_counter.owner, a);
        assert_eq!(ctx.personal_counter.value, expected);
    }
}

#[test]
fn address_derivation_is_deterministic() {
    let first = public_counter_address(&program()).unwrap();
    let second = public_counter_address(&program()).unwrap();
    assert_eq!(first, second);
    let (pa, ba) = personal_counter_address(&program(), &key(1)).unwrap();
    let (pb, _) = personal_counter_address(&program(), &key(2)).unwrap();
    assert_ne!(pa, pb);
    assert_eq!(personal_counter_address(&program(), &key(1)).unwrap(), (pa, ba));
}

#[test]
fn derived_address_is_not_an_input() {
    let (addr, _) = public_counter_address(&program()).unwrap();
    assert_ne!(addr, program());
    let seeds = vec![b"public_counter".to_vec()];
    assert_eq!(derive_address(&seeds, &program()), Ok((addr, public_counter_address(&program()).unwrap().1)));
    let other = Pubkey::new_from_array([200u8; 32]);
    let (elsewhere, _) = public_counter_address(&other).unwrap();
    assert_ne!(addr, elsewhere);
}

#[test]
fn public_record_layout() {
    assert_eq!(PublicCounter::LEN, 16);
    assert_eq!(PublicCounter::discriminator(), vec![24, 39, 141, 94, 252, 238, 50, 150]);
    let bytes = PublicCounter { value: 0x0807060504030201 }.try_serialize();
    assert_eq!(bytes, vec![24, 39, 141, 94, 252, 238, 50, 150, 1, 2, 3, 4, 5, 6, 7, 8]);
    assert_eq!(PublicCounter::try_deserialize(&bytes).unwrap().value, 0x0807060504030201);
}

#[test]
fn personal_record_layout() {
    assert_eq!(PersonalCounter::LEN, 48);
    assert_eq!(PersonalCounter::discriminator(), vec![230, 62, 85, 95, 21, 117, 6, 231]);
    let owner = key(0xab);
    let bytes = PersonalCounter { owner, value: 258 }.try_serialize();
    assert_eq!(bytes.len(), 48);
    assert_eq!(&bytes[..8], &[230, 62, 85, 95, 21, 117, 6, 231]);
    assert_eq!(&bytes[8..40], &[0xab; 32]);
    assert_eq!(&bytes[40..], &[2, 1, 0, 0, 0, 0, 0, 0]);
    let back = PersonalCounter::try_deserialize(&bytes).unwrap();
    assert_eq!(back.owner, owner);
    assert_eq!(back.value, 258);
}

#[test]
fn wrong_kind_at_address_is_type_mismatch() {
    let a = key(14);
    let mut ledger = Ledger::new(program());
    let (addr, _) = personal_counter_address(&program(), &a).unwrap();
    ledger.write_account(addr, PublicCounter { value: 3 }.try_serialize());
    assert_eq!(ledger.bump_personal(&a), Err(Errors::TypeMismatch));
    let (shared, _) = public_counter_address(&program()).unwrap();
    ledger.write_account(shared, vec![0u8; 16]);
    assert_eq!(ledger.bump_shared(&a), Err(Errors::TypeMismatch));
    assert_eq!(ledger.get(&shared).unwrap(), &vec![0u8; 16]);
}

#[test]
fn full_counter_reports_overflow() {
    let a = key(15);
    let mut ledger = Ledger::new(program());
    let (shared, _) = public_counter_address(&program()).unwrap();
    ledger.write_account(shared, PublicCounter { value: u64::MAX }.try_serialize());
    assert_eq!(ledger.bump_shared(&a), Err(Errors::ValueOverflow));
    assert_eq!(shared_value(&ledger), u64::MAX);
    let mut ctx = AddPublic {
        public_counter: PublicCounter { value: u64::MAX },
        address: shared,
        bump: 1,
        user: a,
    };
    assert_eq!(add_public(&mut ctx), Err(Errors::ValueOverflow));
    assert_eq!(ctx.public_counter.value, u64::MAX);
}

#[test]
fn add_public_counts_from_zero() {
    let mut ctx = AddPublic {
        public_counter: PublicCounter { value: 0 },
        address: key(16),
        bump: 200,
        user: key(17),
    };
    assert_eq!(add_public(&mut ctx), Ok(()));
    assert_eq!(ctx.public_counter.value, 1);
}

#[test]
fn unknown_address_reads_nothing() {
    let ledger = Ledger::new(program());
    assert!(ledger.get(&key(18)).is_none());
}
