//! Proof-of-History ledger core: a hash-chained sequence of entries whose
//! position in the chain is provable by the amount of sequential hashing work
//! performed, interleaved with signed state-transition events.

pub mod entry;
pub mod event;
pub mod hash;
pub mod ledger;
pub mod signature;
pub mod transaction;
