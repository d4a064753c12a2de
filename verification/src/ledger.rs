//! Ledger verification — sequential entry verification across an ordered
//! list of entries, each starting from the previous entry's resulting hash —
//! and the producer-side chaining state that appends entries incrementally.

use vstd::prelude::*;

use crate::entry::{create_entry_mut, entry_valid, next_hash_spec, next_tick, Entry};
use crate::event::{event_valid, Event};

verus! {

/// The starting hash that entry `i` of the ledger must chain from: the
/// genesis hash for the first entry, otherwise the previous entry's id.
pub open spec fn link_start(entries: Seq<Entry>, genesis: Seq<u8>, i: int) -> Seq<u8> {
    if i == 0 {
        genesis
    } else {
        entries[i - 1].id@
    }
}

/// Every entry of the ledger is valid against the hash it chains from.
pub open spec fn chain_valid(entries: Seq<Entry>, genesis: Seq<u8>) -> bool {
    forall|i: int|
        0 <= i < entries.len() ==> #[trigger] entry_valid(
            entries[i],
            link_start(entries, genesis, i),
        )
}

/// Walks the entries in order, verifying each against the previous entry's
/// id (the genesis hash for the first). Succeeds iff the whole chain is
/// valid; otherwise reports the index of the first entry that fails.
pub fn verify_chain(entries: &Vec<Entry>, genesis: &crate::hash::Hash) -> (r: Result<(), usize>)
    ensures
        match r {
            Ok(()) => chain_valid(entries@, genesis@),
            Err(i) => {
                &&& 0 <= i < entries@.len()
                &&& !entry_valid(entries@[i as int], link_start(entries@, genesis@, i as int))
                &&& forall|j: int|
                    0 <= j < i ==> #[trigger] entry_valid(
                        entries@[j],
                        link_start(entries@, genesis@, j),
                    )
            },
        },
{
    let mut prev: crate::hash::Hash = *genesis;
    let mut i: usize = 0;
    while i < entries.len()
        invariant
            i <= entries@.len(),
            prev@ == link_start(entries@, genesis@, i as int),
            forall|j: int|
                0 <= j < i ==> #[trigger] entry_valid(
                    entries@[j],
                    link_start(entries@, genesis@, j),
                ),
        decreases entries@.len() - i,
    {
        if !entries[i].verify(&prev) {
            return Err(i);
        }
        prev = entries[i].id;
        i += 1;
    }
    Ok(())
}

/// If an entry is valid against a hash, and a second entry is valid against
/// the first entry's id, the two-entry ledger is valid against that hash:
/// chains extend one entry at a time.
pub proof fn lemma_chain_extension(e1: Entry, e2: Entry, genesis: crate::hash::Hash)
    requires
        entry_valid(e1, genesis@),
        entry_valid(e2, e1.id@),
    ensures
        chain_valid(seq![e1, e2], genesis@),
{
    let entries = seq![e1, e2];
    assert forall|i: int| 0 <= i < entries.len() implies #[trigger] entry_valid(
        entries[i],
        link_start(entries, genesis@, i),
    ) by {
        if i == 0 {
            assert(entries[0] == e1);
        } else {
            assert(entries[1] == e2);
            assert(link_start(entries, genesis@, 1) == e1.id@);
        }
    }
}

/// The producer side of the chain: the frontier hash, and hash iterations
/// counted but not yet materialized into an entry. Owned by one producer at
/// a time; appending advances the state so the next call continues the chain.
pub struct ChainProducer {
    pub current_hash: crate::hash::Hash,
    pub pending_hash_count: u64,
}

impl ChainProducer {
    /// A producer whose frontier is `start` with no pending work.
    pub fn new(start: crate::hash::Hash) -> (p: ChainProducer)
        ensures
            p.current_hash == start,
            p.pending_hash_count == 0,
    {
        ChainProducer { current_hash: start, pending_hash_count: 0 }
    }

    /// Counts one hash iteration of idle elapsed time without producing an
    /// entry.
    pub fn tick(&mut self)
        requires
            old(self).pending_hash_count < u64::MAX,
        ensures
            final(self).current_hash == old(self).current_hash,
            final(self).pending_hash_count == old(self).pending_hash_count + 1,
    {
        self.pending_hash_count = self.pending_hash_count + 1;
    }

    /// Flushes the pending count into a tick entry — pure time advancement,
    /// no events — and advances the frontier to the new entry's id. The
    /// entry is valid against the old frontier.
    pub fn flush_tick(&mut self) -> (e: Entry)
        ensures
            e.num_hashes == old(self).pending_hash_count,
            e.events@ == Seq::<Event>::empty(),
            e.id@ == next_hash_spec(old(self).current_hash@, e.num_hashes, Seq::empty()),
            entry_valid(e, old(self).current_hash@),
            final(self).current_hash == e.id,
            final(self).pending_hash_count == 0,
    {
        let entry = next_tick(&self.current_hash, self.pending_hash_count);
        self.current_hash = entry.id;
        self.pending_hash_count = 0;
        entry
    }

    /// Appends an event-bearing entry built from the frontier hash and the
    /// pending count, then advances the frontier to the new entry's id and
    /// resets the pending count. The entry is valid against the old frontier
    /// whenever every event is valid.
    pub fn append(&mut self, events: Vec<Event>) -> (e: Entry)
        requires
            events@.len() > 0 ==> old(self).pending_hash_count < u64::MAX,
        ensures
            e.num_hashes == old(self).pending_hash_count + (if events@.len() == 0 {
                0int
            } else {
                1int
            }),
            e.events@ == events@,
            e.id@ == next_hash_spec(old(self).current_hash@, e.num_hashes, events@),
            (forall|i: int| 0 <= i < events@.len() ==> event_valid(#[trigger] events@[i]))
                ==> entry_valid(e, old(self).current_hash@),
            final(self).current_hash == e.id,
            final(self).pending_hash_count == 0,
    {
        create_entry_mut(&mut self.current_hash, &mut self.pending_hash_count, events)
    }
}

} // verus!
