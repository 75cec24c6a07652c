use anchor_lang::prelude::Pubkey;
use counter::{
    derive_key, increment, initialize, reset, Counter, CounterError, CounterStore, Initialize,
    PublicKey, Update, COUNTER_SEED, INIT_SPACE, PROGRAM_ID_BYTES,
};
use std::str::FromStr;

fn key(b: u8) -> PublicKey {
    PublicKey::new([b; 32])
}

fn program() -> PublicKey {
    PublicKey::new(PROGRAM_ID_BYTES)
}

fn record(owner: PublicKey, count: u64, total: u64) -> Counter {
    Counter { owner, count, total_increments: total, created_at: 1_700_000_000 }
}

#[test]
fn program_id_is_the_declared_one() {
    let declared = Pubkey::from_str("7LxeBUZbMQ5kAumYKAtD6RcMnGws6HGLNqGsUuQ27mcN").unwrap();
    assert_eq!(declared.to_bytes(), PROGRAM_ID_BYTES);
    assert_eq!(&COUNTER_SEED, b"counter");
}

#[test]
fn initialize_creates_fresh_record() {
    let alice = key(1);
    let mut store = CounterStore::new(program());
    let address = initialize(&mut store, &Initialize { user: alice, unix_timestamp: 42 }).unwrap();
    let c = store.get(&address).unwrap();
    assert_eq!(c, Counter { owner: alice, count: 0, total_increments: 0, created_at: 42 });
    assert_eq!(derive_key(&COUNTER_SEED, &alice, &program()).unwrap().0, address);
}

#[test]
fn initialize_twice_fails_already_exists() {
    let alice = key(1);
    let mut store = CounterStore::new(program());
    let address = initialize(&mut store, &Initialize { user: alice, unix_timestamp: 42 }).unwrap();
    let first = store.get(&address);
    let second = initialize(&mut store, &Initialize { user: alice, unix_timestamp: 99 });
    assert_eq!(second, Err(CounterError::AlreadyExists));
    assert_eq!(store.get(&address), first);
    assert_eq!(store.get(&address).unwrap().created_at, 42);
}

#[test]
fn initialize_separate_owners_get_separate_records() {
    let mut store = CounterStore::new(program());
    let a = initialize(&mut store, &Initialize { user: key(1), unix_timestamp: 1 }).unwrap();
    let b = initialize(&mut store, &Initialize { user: key(2), unix_timestamp: 2 }).unwrap();
    assert_ne!(a, b);
    assert_eq!(store.get(&a).unwrap().owner, key(1));
    assert_eq!(store.get(&b).unwrap().owner, key(2));
    assert_eq!(store.get(&key(3)), None);
    assert_eq!(store.program_id(), program());
}

#[test]
fn non_owner_increment_is_unauthorized() {
    let before = record(key(1), 5, 9);
    let mut ctx = Update { counter: before, user: key(2) };
    assert_eq!(increment(&mut ctx), Err(CounterError::Unauthorized));
    assert_eq!(ctx.counter, before);
}

#[test]
fn non_owner_reset_is_unauthorized() {
    let before = record(key(1), 5, 9);
    let mut ctx = Update { counter: before, user: key(2) };
    assert_eq!(reset(&mut ctx), Err(CounterError::Unauthorized));
    assert_eq!(ctx.counter, before);
}

#[test]
fn non_owner_at_max_is_unauthorized_not_overflow() {
    let before = record(key(1), u64::MAX, 9);
    let mut ctx = Update { counter: before, user: key(2) };
    assert_eq!(increment(&mut ctx), Err(CounterError::Unauthorized));
    assert_eq!(ctx.counter, before);
}

#[test]
fn owner_increment_adds_one_to_both() {
    let before = record(key(1), 5, 9);
    let mut ctx = Update { counter: before, user: key(1) };
    assert_eq!(increment(&mut ctx), Ok(()));
    assert_eq!(ctx.counter, Counter { count: 6, total_increments: 10, ..before });
}

#[test]
fn reset_zeroes_count_and_keeps_total() {
    let before = record(key(1), 5, 9);
    let mut ctx = Update { counter: before, user: key(1) };
    assert_eq!(reset(&mut ctx), Ok(()));
    assert_eq!(ctx.counter, Counter { count: 0, ..before });
}

#[test]
fn reset_of_zero_is_a_no_op() {
    let before = record(key(1), 0, 9);
    let mut ctx = Update { counter: before, user: key(1) };
    assert_eq!(reset(&mut ctx), Ok(()));
    assert_eq!(ctx.counter, before);
    assert_eq!(reset(&mut ctx), Ok(()));
    assert_eq!(ctx.counter, before);
}

#[test]
fn increment_at_max_count_overflows() {
    let before = record(key(1), u64::MAX, 9);
    let mut ctx = Update { counter: before, user: key(1) };
    assert_eq!(increment(&mut ctx), Err(CounterError::Overflow));
    assert_eq!(ctx.counter, before);
    assert_eq!(ctx.counter.to_bytes(), before.to_bytes());
}

#[test]
fn increment_at_max_total_overflows_without_touching_count() {
    let before = record(key(1), 3, u64::MAX);
    let mut ctx = Update { counter: before, user: key(1) };
    assert_eq!(increment(&mut ctx), Err(CounterError::Overflow));
    assert_eq!(ctx.counter, before);
}

#[test]
fn end_to_end_scenario() {
    let alice = key(0xa1);
    let bob = key(0xb0);
    let mut store = CounterStore::new(program());
    let address = initialize(&mut store, &Initialize { user: alice, unix_timestamp: 10 }).unwrap();
    let c = store.get(&address).unwrap();
    assert_eq!((c.owner, c.count, c.total_increments), (alice, 0, 0));

    let mut ctx = Update { counter: c, user: alice };
    for _ in 0..3 {
        assert_eq!(increment(&mut ctx), Ok(()));
    }
    assert_eq!((ctx.counter.count, ctx.counter.total_increments), (3, 3));
    assert_eq!(reset(&mut ctx), Ok(()));
    assert_eq!((ctx.counter.count, ctx.counter.total_increments), (0, 3));

    let mut by_bob = Update { counter: ctx.counter, user: bob };
    assert_eq!(increment(&mut by_bob), Err(CounterError::Unauthorized));
    assert_eq!((by_bob.counter.count, by_bob.counter.total_increments), (0, 3));
}

#[test]
fn derive_key_is_deterministic() {
    for b in 0..=255u8 {
        let owner = key(b);
        assert_eq!(derive_key(&COUNTER_SEED, &owner, &program()), derive_key(&COUNTER_SEED, &owner, &program()));
    }
}

#[test]
fn derive_key_separates_owners() {
    let mut seen: Vec<PublicKey> = Vec::new();
    for b in 0..=255u8 {
        let (address, _) = derive_key(&COUNTER_SEED, &key(b), &program()).unwrap();
        assert!(!seen.contains(&address));
        seen.push(address);
    }
}

#[test]
fn derive_key_agrees_with_program_address_search() {
    let owner = key(7);
    let (address, bump) = derive_key(&COUNTER_SEED, &owner, &program()).unwrap();
    let expected = Pubkey::find_program_address(
        &[b"counter", &owner.bytes[..]],
        &Pubkey::new_from_array(PROGRAM_ID_BYTES),
    );
    assert_eq!((address.bytes, bump), (expected.0.to_bytes(), expected.1));
    assert_ne!(address, owner);
}

#[test]
fn derive_key_refuses_overlong_seed() {
    let long_tag = [1u8; 33];
    assert_eq!(derive_key(&long_tag, &key(1), &program()), None);
}

#[test]
fn public_key_equality_compares_every_byte() {
    let mut other = [1u8; 32];
    other[31] = 2;
    assert_eq!(key(1), key(1));
    assert_ne!(key(1), PublicKey::new(other));
}

#[test]
fn to_bytes_follows_the_layout() {
    let c = Counter { owner: key(3), count: 0x0102, total_increments: 7, created_at: -1 };
    let b = c.to_bytes();
    assert_eq!(b.len(), INIT_SPACE);
    assert_eq!(INIT_SPACE, 56);
    assert_eq!(&b[0..32], &[3u8; 32][..]);
    assert_eq!(&b[32..40], &[2, 1, 0, 0, 0, 0, 0, 0]);
    assert_eq!(&b[40..48], &[7, 0, 0, 0, 0, 0, 0, 0]);
    assert_eq!(&b[48..56], &[0xff; 8]);
}

#[test]
fn from_bytes_round_trips() {
    let c = Counter { owner: key(9), count: u64::MAX, total_increments: 12, created_at: i64::MIN };
    assert_eq!(Counter::from_bytes(&c.to_bytes()), Some(c));
}

#[test]
fn from_bytes_refuses_wrong_length() {
    assert_eq!(Counter::from_bytes(&[0u8; 55]), None);
    assert_eq!(Counter::from_bytes(&[0u8; 57]), None);
    assert_eq!(Counter::from_bytes(&[]), None);
}
