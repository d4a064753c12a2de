//! The fixed-width digest value that the chain is built from, and the two
//! digest operations the chain engine uses: hashing a previous digest, and
//! hashing a digest extended with auxiliary bytes.

use vstd::prelude::*;

verus! {

/// The 32-byte digest that SHA-256 assigns to a byte sequence.
pub uninterp spec fn sha256_of(data: Seq<u8>) -> Seq<u8>;

/// A 256-bit digest, compared by exact byte equality.
#[derive(Clone, Copy)]
pub struct Hash {
    pub b: [u8; 32],
}

impl View for Hash {
    type V = Seq<u8>;

    open spec fn view(&self) -> Seq<u8> {
        self.b@
    }
}

impl Default for Hash {
    /// The all-zero digest, used as a genesis value.
    fn default() -> (r: Self)
        ensures
            r@ == Seq::new(32, |i: int| 0u8),
    {
        let b = [0u8; 32];
        proof {
            assert(b@ =~= Seq::new(32, |i: int| 0u8));
        }
        Hash { b }
    }
}

impl PartialEq for Hash {
    fn eq(&self, other: &Hash) -> (r: bool) {
        let mut i: usize = 0;
        while i < 32
            invariant
                i <= 32,
                forall|j: int| 0 <= j < i ==> self.b@[j] == other.b@[j],
            decreases 32 - i,
        {
            if self.b[i] != other.b[i] {
                return false;
            }
            i += 1;
        }
        proof {
            assert(self.b@ =~= other.b@);
        }
        true
    }
}

impl vstd::std_specs::cmp::PartialEqSpecImpl for Hash {
    open spec fn obeys_eq_spec() -> bool {
        true
    }

    open spec fn eq_spec(&self, other: &Hash) -> bool {
        self@ == other@
    }
}

/// Relies on sha2::Sha256::digest: the result is the 32-byte SHA-256 digest
/// of the input, a function of the input bytes alone.
#[verifier::external_body]
fn sha256(data: &[u8]) -> (r: [u8; 32])
    ensures
        r@ == sha256_of(data@),
{
    <sha2::Sha256 as sha2::Digest>::digest(data).into()
}

/// Appends the bytes of `src` to `dst`.
pub(crate) fn append_bytes(dst: &mut Vec<u8>, src: &[u8])
    ensures
        final(dst)@ == old(dst)@ + src@,
{
    let mut k: usize = 0;
    while k < src.len()
        invariant
            k <= src@.len(),
            dst@ == old(dst)@ + src@.take(k as int),
        decreases src@.len() - k,
    {
        proof {
            assert(src@.take(k as int + 1) =~= src@.take(k as int) + seq![src@[k as int]]);
        }
        dst.push(src[k]);
        k += 1;
    }
    proof {
        assert(old(dst)@ + src@.take(src@.len() as int) =~= old(dst)@ + src@);
    }
}

/// The digest one hash application after `val`.
pub fn hash(val: &Hash) -> (r: Hash)
    ensures
        r@ == sha256_of(val@),
{
    Hash { b: sha256(val.b.as_slice()) }
}

/// The digest of `id` extended with the bytes of `val`.
pub fn extend_and_hash(id: &Hash, val: &[u8]) -> (r: Hash)
    ensures
        r@ == sha256_of(id@ + val@),
{
    let mut data: Vec<u8> = Vec::new();
    append_bytes(&mut data, id.b.as_slice());
    append_bytes(&mut data, val);
    proof {
        assert(data@ =~= id@ + val@);
    }
    Hash { b: sha256(data.as_slice()) }
}

} // verus!
