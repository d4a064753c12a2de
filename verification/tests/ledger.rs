use silk::entry::{create_entry, next_tick};
use silk::event::Event;
use silk::hash::hash;
use silk::ledger::{verify_chain, ChainProducer};
use silk::signature::KeyPair;
use silk::transaction::Transaction;

#[test]
fn test_two_entry_chain() {
    // An entry valid against a genesis hash, extended by an entry built from
    // its id, forms a valid two-entry ledger.
    let genesis = silk::hash::Hash::default();
    let keypair = KeyPair::new();
    let e0 = next_tick(&genesis, 3);
    assert!(e0.verify(&genesis));
    let tr = Event::Transaction(Transaction::new(&keypair, keypair.pubkey(), 7, e0.id));
    let e1 = create_entry(&e0.id, 0, vec![tr]);
    let entries = vec![e0, e1];
    assert_eq!(verify_chain(&entries, &genesis), Ok(()));
}

#[test]
fn test_chain_reports_first_bad_index() {
    let genesis = silk::hash::Hash::default();
    let e0 = next_tick(&genesis, 2);
    let mut e1 = next_tick(&e0.id, 2);
    e1.num_hashes = 3; // falsify the claimed elapsed work
    let e2 = next_tick(&e1.id, 2);
    let entries = vec![e0, e1, e2];
    assert_eq!(verify_chain(&entries, &genesis), Err(1));
}

#[test]
fn test_chain_discontinuity_fails() {
    // Skipping an entry breaks the chain at the skip.
    let genesis = silk::hash::Hash::default();
    let e0 = next_tick(&genesis, 2);
    let e1 = next_tick(&e0.id, 2);
    let e2 = next_tick(&e1.id, 2);
    let entries = vec![e0, e2];
    assert_eq!(verify_chain(&entries, &genesis), Err(1));
}

#[test]
fn test_producer_appends_verifiable_chain() {
    let genesis = silk::hash::Hash::default();
    let keypair = KeyPair::new();
    let mut producer = ChainProducer::new(genesis);

    producer.tick();
    producer.tick();
    let e0 = producer.flush_tick();
    assert_eq!(e0.num_hashes, 2);
    assert_eq!(producer.pending_hash_count, 0);

    producer.tick();
    let tr = Event::Transaction(Transaction::new(
        &keypair,
        keypair.pubkey(),
        50,
        producer.current_hash,
    ));
    let e1 = producer.append(vec![tr]);
    assert_eq!(e1.num_hashes, 2); // one pending tick, one binding step
    assert!(producer.current_hash == e1.id);

    let e2 = producer.flush_tick();
    assert_eq!(e2.num_hashes, 0);

    let entries = vec![e0, e1, e2];
    assert_eq!(verify_chain(&entries, &genesis), Ok(()));
}

#[test]
fn test_chain_wrong_genesis_fails() {
    let genesis = silk::hash::Hash::default();
    let e0 = next_tick(&genesis, 5);
    let entries = vec![e0];
    assert_eq!(verify_chain(&entries, &hash(&genesis)), Err(0));
}
