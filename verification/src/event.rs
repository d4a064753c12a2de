//! The event capability: a state-transition record carried inside an entry.
//! The chain engine reads an event only through two operations — its optional
//! signature, and its self-contained validity check.

use vstd::prelude::*;

use crate::signature::Signature;
use crate::transaction::Transaction;

verus! {

/// A state-transition record. One concrete variant is defined, a signed value
/// transfer; the chain engine never inspects an event beyond its signature
/// and its validity.
#[derive(Clone, Copy)]
pub enum Event {
    Transaction(Transaction),
}

/// The signature bytes an event carries, if any.
pub open spec fn event_sig(e: Event) -> Option<Seq<u8>> {
    match e {
        Event::Transaction(t) => Some(t.sig@),
    }
}

/// An event's self-contained validity.
pub open spec fn event_valid(e: Event) -> bool {
    match e {
        Event::Transaction(t) => t.valid(),
    }
}

impl Event {
    /// The event's signature, absent for signature-less events.
    pub fn get_signature(&self) -> (r: Option<Signature>)
        ensures
            match r {
                Some(s) => event_sig(*self) == Some(s@),
                None => event_sig(*self) is None,
            },
    {
        match self {
            Event::Transaction(t) => Some(t.sig),
        }
    }

    /// Whether the event is valid on its own terms (its signature is valid
    /// over its payload).
    pub fn verify(&self) -> (r: bool)
        ensures
            r == event_valid(*self),
    {
        match self {
            Event::Transaction(t) => t.verify(),
        }
    }
}

} // verus!
