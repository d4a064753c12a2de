//! The atomic unit of the ledger: an iteration count, a resulting hash, and
//! an ordered sequence of events. The hash chain primitive `next_hash`
//! advances a digest by sequential hashing and binds event signatures into
//! the final step; `Entry::verify` checks that an entry's stored hash is the
//! correct result of that chaining from a given starting hash.

use vstd::prelude::*;

use crate::event::{event_sig, event_valid, Event};
use crate::hash::{extend_and_hash, hash, sha256_of};

verus! {

/// The digest after `n` sequential hash applications to `start`.
pub open spec fn iter_hash(start: Seq<u8>, n: nat) -> Seq<u8>
    decreases n,
{
    if n == 0 {
        start
    } else {
        sha256_of(iter_hash(start, (n - 1) as nat))
    }
}

/// The concatenated signature bytes of the events that carry one, in
/// sequence order.
pub open spec fn sig_bytes(events: Seq<Event>) -> Seq<u8>
    decreases events.len(),
{
    if events.len() == 0 {
        Seq::empty()
    } else {
        sig_bytes(events.drop_last()) + match event_sig(events.last()) {
            Some(s) => s,
            None => Seq::empty(),
        }
    }
}

/// The chain value reached from `start` after `num_hashes` iterations with
/// the events' signatures bound into the last step: with no signature bytes,
/// the plain iterated hash; otherwise one fewer plain iteration, then a hash
/// of the intermediate value extended with the signature bytes.
pub open spec fn next_hash_spec(start: Seq<u8>, num_hashes: u64, events: Seq<Event>) -> Seq<u8> {
    let iters: nat = if num_hashes == 0 { 0 } else { (num_hashes - 1) as nat };
    let id = iter_hash(start, iters);
    let sigs = sig_bytes(events);
    if sigs.len() == 0 {
        id
    } else {
        sha256_of(id + sigs)
    }
}

/// An entry is valid against a starting hash when every event it carries is
/// valid on its own terms and its stored hash is the chain value recomputed
/// from that start through its iteration count and events.
pub open spec fn entry_valid(e: Entry, start: Seq<u8>) -> bool {
    &&& forall|i: int| 0 <= i < e.events@.len() ==> event_valid(#[trigger] e.events@[i])
    &&& e.id@ == next_hash_spec(start, e.num_hashes, e.events@)
}

/// The atomic unit of the chain: `num_hashes` hash iterations since the
/// previous entry, the resulting digest `id`, and the events bound in. An
/// entry with no events is a tick, pure elapsed hashing time.
pub struct Entry {
    pub num_hashes: u64,
    pub id: crate::hash::Hash,
    pub events: Vec<Event>,
}

impl Entry {
    /// Creates an Entry from the number of hashes `num_hashes` since the
    /// previous entry and that resulting `id`.
    pub fn new_tick(num_hashes: u64, id: &crate::hash::Hash) -> (e: Self)
        ensures
            e.num_hashes == num_hashes,
            e.id == *id,
            e.events@ == Seq::<Event>::empty(),
    {
        Entry { num_hashes, id: *id, events: Vec::new() }
    }

    /// Verifies that `self.id` is the result of chaining from `start_hash`
    /// through `self.num_hashes` iterations and the events' signatures, and
    /// that every event is valid on its own terms.
    pub fn verify(&self, start_hash: &crate::hash::Hash) -> (r: bool)
        ensures
            r == entry_valid(*self, start_hash@),
    {
        let mut i: usize = 0;
        while i < self.events.len()
            invariant
                i <= self.events@.len(),
                forall|j: int| 0 <= j < i ==> event_valid(#[trigger] self.events@[j]),
            decreases self.events@.len() - i,
        {
            if !self.events[i].verify() {
                return false;
            }
            i += 1;
        }
        let expected = next_hash(start_hash, self.num_hashes, self.events.as_slice());
        self.id == expected
    }
}

/// Creates the hash `num_hashes` after `start_hash`. If any event carries a
/// signature, the final hash is a hash of the previous value and the
/// concatenated signature bytes.
pub fn next_hash(start_hash: &crate::hash::Hash, num_hashes: u64, events: &[Event]) -> (r: crate::hash::Hash)
    ensures
        r@ == next_hash_spec(start_hash@, num_hashes, events@),
{
    let mut id: crate::hash::Hash = *start_hash;
    let mut i: u64 = 1;
    while i < num_hashes
        invariant
            1 <= i,
            num_hashes >= 1 ==> i <= num_hashes,
            num_hashes == 0 ==> i == 1,
            id@ == iter_hash(start_hash@, (i - 1) as nat),
        decreases num_hashes - i,
    {
        id = hash(&id);
        i += 1;
    }

    let mut hash_data: Vec<u8> = Vec::new();
    let mut j: usize = 0;
    while j < events.len()
        invariant
            j <= events@.len(),
            hash_data@ == sig_bytes(events@.take(j as int)),
        decreases events@.len() - j,
    {
        proof {
            assert(events@.take(j as int + 1).drop_last() =~= events@.take(j as int));
            assert(events@.take(j as int + 1).last() == events@[j as int]);
        }
        let sig = events[j].get_signature();
        match sig {
            Some(sig) => {
                crate::hash::append_bytes(&mut hash_data, sig.b.as_slice());
            },
            None => {
                proof {
                    assert(hash_data@ =~= sig_bytes(events@.take(j as int + 1)));
                }
            },
        }
        j += 1;
    }
    proof {
        assert(events@.take(events@.len() as int) =~= events@);
    }

    if hash_data.len() != 0 {
        return extend_and_hash(&id, hash_data.as_slice());
    }
    id
}

/// Creates the next Entry `num_hashes` after `start_hash`: the prior count,
/// plus one extra hash step that binds in the events' signatures when there
/// are events.
pub fn create_entry(start_hash: &crate::hash::Hash, cur_hashes: u64, events: Vec<Event>) -> (e: Entry)
    requires
        events@.len() > 0 ==> cur_hashes < u64::MAX,
    ensures
        e.num_hashes == cur_hashes + (if events@.len() == 0 { 0int } else { 1int }),
        e.events@ == events@,
        e.id@ == next_hash_spec(start_hash@, e.num_hashes, events@),
        (forall|i: int| 0 <= i < events@.len() ==> event_valid(#[trigger] events@[i]))
            ==> entry_valid(e, start_hash@),
{
    let num_hashes: u64 = cur_hashes + if events.is_empty() { 0 } else { 1 };
    let id = next_hash(start_hash, num_hashes, events.as_slice());
    Entry { num_hashes, id, events }
}

/// Creates the next Entry as `create_entry` does, then advances the chain
/// state in place: the frontier hash becomes the new entry's id and the
/// pending count resets to zero.
pub fn create_entry_mut(start_hash: &mut crate::hash::Hash, cur_hashes: &mut u64, events: Vec<Event>) -> (e: Entry)
    requires
        events@.len() > 0 ==> *old(cur_hashes) < u64::MAX,
    ensures
        e.num_hashes == *old(cur_hashes) + (if events@.len() == 0 { 0int } else { 1int }),
        e.events@ == events@,
        e.id@ == next_hash_spec(old(start_hash)@, e.num_hashes, events@),
        (forall|i: int| 0 <= i < events@.len() ==> event_valid(#[trigger] events@[i]))
            ==> entry_valid(e, old(start_hash)@),
        *final(start_hash) == e.id,
        *final(cur_hashes) == 0,
{
    let entry = create_entry(start_hash, *cur_hashes, events);
    *start_hash = entry.id;
    *cur_hashes = 0;
    entry
}

/// Creates the next tick Entry `num_hashes` after `start_hash`: pure elapsed
/// hashing time, no events. The result always verifies against `start_hash`.
pub fn next_tick(start_hash: &crate::hash::Hash, num_hashes: u64) -> (e: Entry)
    ensures
        e.num_hashes == num_hashes,
        e.events@ == Seq::<Event>::empty(),
        e.id@ == next_hash_spec(start_hash@, num_hashes, Seq::empty()),
        entry_valid(e, start_hash@),
{
    let events: Vec<Event> = Vec::new();
    let id = next_hash(start_hash, num_hashes, events.as_slice());
    Entry { num_hashes, id, events }
}

/// Determinism of the hash chain primitive: the chain value is a function of
/// the starting hash, the iteration count and the events alone, so any two
/// results computed from equal inputs are equal.
pub proof fn lemma_next_hash_deterministic(
    start: Seq<u8>,
    num_hashes: u64,
    events: Seq<Event>,
    r1: Seq<u8>,
    r2: Seq<u8>,
)
    requires
        r1 == next_hash_spec(start, num_hashes, events),
        r2 == next_hash_spec(start, num_hashes, events),
    ensures
        r1 == r2,
{
}

/// Tick round-trip: an entry with no events whose id is the chain value of
/// its own iteration count — what `next_tick` builds — verifies against the
/// starting hash it was built from, for every count.
pub proof fn lemma_tick_round_trip(e: Entry, start: crate::hash::Hash)
    requires
        e.events@ == Seq::<Event>::empty(),
        e.id@ == next_hash_spec(start@, e.num_hashes, e.events@),
    ensures
        entry_valid(e, start@),
{
}

/// A zero-work tick built from one starting hash fails verification against
/// every different starting hash: with no iterations and no events the
/// stored id is the starting hash itself, which pins the start down.
pub proof fn lemma_zero_tick_mismatch(e: Entry, start: crate::hash::Hash, other: crate::hash::Hash)
    requires
        e.num_hashes == 0,
        e.events@ == Seq::<Event>::empty(),
        e.id@ == next_hash_spec(start@, 0, e.events@),
        other@ != start@,
    ensures
        !entry_valid(e, other@),
{
    assert(e.id@ == start@);
}

/// Empty-event identity: an entry built from zero prior hashes and no events
/// carries its starting hash unchanged — the degenerate genesis case.
pub proof fn lemma_zero_entry_identity(start: Seq<u8>)
    ensures
        next_hash_spec(start, 0, Seq::<Event>::empty()) == start,
{
}

} // verus!
