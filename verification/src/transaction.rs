//! The one concrete event variant: a signed value transfer. The payload is
//! framed as fixed-width fields — sender key, recipient key, token count in
//! little-endian bytes, and the chain hash the transfer references — and the
//! signature is taken over exactly those bytes.

use vstd::prelude::*;

use crate::hash::append_bytes;
use crate::signature::{pk_of, sig_ok, sign_of, verify_message, KeyPair, PublicKey, Signature};

verus! {

/// The eight little-endian bytes of `x`.
pub open spec fn u64_le_bytes(x: u64) -> Seq<u8> {
    Seq::new(8, |i: int| (x >> ((8 * i) as u64)) as u8)
}

/// The byte sequence a transfer's signature is taken over.
pub open spec fn txn_msg(from: Seq<u8>, to: Seq<u8>, tokens: i64, last_id: Seq<u8>) -> Seq<u8> {
    from + to + u64_le_bytes(tokens as u64) + last_id
}

/// A signed transfer of `tokens` from `from` to `to`, referencing the chain
/// value `last_id`.
#[derive(Clone, Copy)]
pub struct Transaction {
    pub from: PublicKey,
    pub to: PublicKey,
    pub tokens: i64,
    pub last_id: crate::hash::Hash,
    pub sig: Signature,
}

impl Transaction {
    /// The signature is valid over the transfer's own payload, under the
    /// sender's key.
    pub open spec fn valid(&self) -> bool {
        sig_ok(self.from@, txn_msg(self.from@, self.to@, self.tokens, self.last_id@), self.sig@)
    }

    /// A transfer signed by `from`, valid by construction when the key pair
    /// is well formed.
    pub fn new(from: &KeyPair, to: PublicKey, tokens: i64, last_id: crate::hash::Hash) -> (t: Transaction)
        ensures
            t.from == from.public,
            t.to == to,
            t.tokens == tokens,
            t.last_id == last_id,
            t.sig@ == sign_of(from.secret@, txn_msg(from.public@, to@, tokens, last_id@)),
            from.wf() ==> t.valid(),
    {
        let from_key = from.pubkey();
        let msg = txn_message_bytes(&from_key, &to, tokens, &last_id);
        let sig = from.sign(&msg);
        Transaction { from: from_key, to, tokens, last_id, sig }
    }

    /// Whether this transfer's signature is valid.
    pub fn verify(&self) -> (r: bool)
        ensures
            r == self.valid(),
    {
        let msg = txn_message_bytes(&self.from, &self.to, self.tokens, &self.last_id);
        verify_message(&self.from, &msg, &self.sig)
    }
}

/// Builds the payload bytes a transfer signature covers.
fn txn_message_bytes(from: &PublicKey, to: &PublicKey, tokens: i64, last_id: &crate::hash::Hash) -> (m: Vec<u8>)
    ensures
        m@ == txn_msg(from@, to@, tokens, last_id@),
{
    let mut m: Vec<u8> = Vec::new();
    append_bytes(&mut m, from.b.as_slice());
    append_bytes(&mut m, to.b.as_slice());
    let x: u64 = tokens as u64;
    let mut k: usize = 0;
    while k < 8
        invariant
            k <= 8,
            m@ == from@ + to@ + u64_le_bytes(x).take(k as int),
        decreases 8 - k,
    {
        let sh: u64 = 8 * (k as u64);
        let byte: u8 = #[verifier::truncate] ((x >> sh) as u8);
        proof {
            assert(u64_le_bytes(x).take(k as int + 1)
                =~= u64_le_bytes(x).take(k as int) + seq![u64_le_bytes(x)[k as int]]);
        }
        m.push(byte);
        k += 1;
    }
    append_bytes(&mut m, last_id.b.as_slice());
    proof {
        assert(u64_le_bytes(x).take(8) =~= u64_le_bytes(x));
        assert(m@ =~= from@ + to@ + u64_le_bytes(x) + last_id@);
    }
    m
}

} // verus!
