use silk::entry::{create_entry, next_hash, next_tick, Entry};
use silk::event::Event;
use silk::hash::hash;
use silk::signature::KeyPair;
use silk::transaction::Transaction;

#[test]
fn test_entry_verify() {
    let zero = silk::hash::Hash::default();
    let one = hash(&zero);
    assert!(Entry::new_tick(0, &zero).verify(&zero)); // base case
    assert!(!Entry::new_tick(0, &zero).verify(&one)); // base case, bad
    assert!(next_tick(&zero, 1).verify(&zero)); // inductive step
    assert!(!next_tick(&zero, 1).verify(&one)); // inductive step, bad
}

#[test]
fn test_event_reorder_attack() {
    let zero = silk::hash::Hash::default();

    // First, verify entries
    let keypair = KeyPair::new();
    let tr0 = Event::Transaction(Transaction::new(&keypair, keypair.pubkey(), 0, zero));
    let tr1 = Event::Transaction(Transaction::new(&keypair, keypair.pubkey(), 1, zero));
    let mut e0 = create_entry(&zero, 0, vec![tr0.clone(), tr1.clone()]);
    assert!(e0.verify(&zero));

    // Next, swap two events and ensure verification fails.
    e0.events[0] = tr1; // <-- attack
    e0.events[1] = tr0;
    assert!(!e0.verify(&zero));
}

#[test]
fn test_next_tick() {
    let zero = silk::hash::Hash::default();
    assert_eq!(next_tick(&zero, 1).num_hashes, 1)
}

#[test]
fn test_next_hash_deterministic() {
    let zero = silk::hash::Hash::default();
    let keypair = KeyPair::new();
    let tr0 = Event::Transaction(Transaction::new(&keypair, keypair.pubkey(), 42, zero));
    let events = vec![tr0];
    let a = next_hash(&zero, 1000, events.as_slice());
    let b = next_hash(&zero, 1000, events.as_slice());
    assert!(a == b);
    let c = next_hash(&zero, 1000, &[]);
    let d = next_hash(&zero, 1000, &[]);
    assert!(c == d);
}

#[test]
fn test_tick_round_trip() {
    let zero = silk::hash::Hash::default();
    let one = hash(&zero);
    assert!(next_tick(&zero, 0).verify(&zero));
    assert!(next_tick(&zero, 1).verify(&zero));
    assert!(next_tick(&one, 1000).verify(&one));
}

#[test]
fn test_tick_wrong_start_fails() {
    let zero = silk::hash::Hash::default();
    let one = hash(&zero);
    assert!(!next_tick(&zero, 0).verify(&one));
    assert!(!next_tick(&zero, 1000).verify(&one));
}

#[test]
fn test_empty_event_identity() {
    let zero = silk::hash::Hash::default();
    let e = create_entry(&zero, 0, vec![]);
    assert_eq!(e.num_hashes, 0);
    assert!(e.id == zero);
    assert!(e.events.is_empty());
}

#[test]
fn test_hash_advances_value() {
    // The digest of a hash must differ from the hash itself.
    let zero = silk::hash::Hash::default();
    let one = hash(&zero);
    assert!(!(one == zero));
    // And hashing is repeatable.
    assert!(hash(&zero) == one);
}

#[test]
fn test_end_to_end_tick() {
    let zero = silk::hash::Hash::default();
    let entry = next_tick(&zero, 1);
    assert_eq!(entry.num_hashes, 1);
    assert!(entry.verify(&zero));
    assert!(!entry.verify(&hash(&zero)));
}

#[test]
fn test_two_transfers_and_signature_flip() {
    let zero = silk::hash::Hash::default();
    let keypair = KeyPair::new();
    let alice = KeyPair::new().pubkey();
    let bob = KeyPair::new().pubkey();
    let tr0 = Event::Transaction(Transaction::new(&keypair, alice, 200, zero));
    let tr1 = Event::Transaction(Transaction::new(&keypair, bob, 100, zero));
    let entry = create_entry(&zero, 0, vec![tr0, tr1]);
    assert!(entry.verify(&zero));

    // Flipping one bit of either signature must break verification.
    for victim in 0..2 {
        let mut forged = create_entry(&zero, 0, vec![tr0, tr1]);
        let Event::Transaction(ref mut t) = forged.events[victim];
        t.sig.b[3] ^= 0x40;
        assert!(!forged.verify(&zero));
    }
}
