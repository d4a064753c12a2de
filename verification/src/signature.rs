//! Ed25519 key pairs, public keys and signatures: the concrete signature
//! scheme behind the event capability. The scheme itself is supplied by an
//! outside implementation and is specified here only at its boundary.

use vstd::prelude::*;

verus! {

/// The public key that Ed25519 derives from a 32-byte secret.
pub uninterp spec fn pk_of(secret: Seq<u8>) -> Seq<u8>;

/// The 64-byte signature that Ed25519 produces for a secret and a message;
/// signing is deterministic, a function of the two alone.
pub uninterp spec fn sign_of(secret: Seq<u8>, msg: Seq<u8>) -> Seq<u8>;

/// Whether Ed25519 accepts `sig` as a signature on `msg` under `pk`.
pub uninterp spec fn sig_ok(pk: Seq<u8>, msg: Seq<u8>, sig: Seq<u8>) -> bool;

/// A 32-byte Ed25519 public key, the identity that signs value transfers.
#[derive(Clone, Copy)]
pub struct PublicKey {
    pub b: [u8; 32],
}

impl View for PublicKey {
    type V = Seq<u8>;

    open spec fn view(&self) -> Seq<u8> {
        self.b@
    }
}

/// A 64-byte Ed25519 signature.
#[derive(Clone, Copy)]
pub struct Signature {
    pub b: [u8; 64],
}

impl View for Signature {
    type V = Seq<u8>;

    open spec fn view(&self) -> Seq<u8> {
        self.b@
    }
}

/// A signing identity: a secret and the public key derived from it.
pub struct KeyPair {
    pub secret: [u8; 32],
    pub public: PublicKey,
}

/// Relies on rand::random: 32 bytes drawn from the thread-local generator.
/// Nothing is promised of the value.
#[verifier::external_body]
fn random_secret() -> (r: [u8; 32]) {
    rand::random::<[u8; 32]>()
}

/// Relies on ed25519_dalek::SigningKey::verifying_key: the public key is
/// derived from the secret bytes alone.
#[verifier::external_body]
fn ed25519_pubkey(secret: &[u8; 32]) -> (r: [u8; 32])
    ensures
        r@ == pk_of(secret@),
{
    ed25519_dalek::SigningKey::from_bytes(secret).verifying_key().to_bytes()
}

/// Relies on ed25519_dalek::SigningKey::sign (RFC 8032): the signature is a
/// deterministic function of the secret and the message, and verifies under
/// the public key derived from that secret.
#[verifier::external_body]
fn ed25519_sign(secret: &[u8; 32], msg: &Vec<u8>) -> (r: [u8; 64])
    ensures
        r@ == sign_of(secret@, msg@),
        sig_ok(pk_of(secret@), msg@, r@),
{
    ed25519_dalek::Signer::sign(&ed25519_dalek::SigningKey::from_bytes(secret), msg.as_slice())
        .to_bytes()
}

/// Relies on ed25519_dalek::VerifyingKey::verify: acceptance is a function of
/// the public key, message and signature bytes alone; bytes that are no valid
/// public key accept nothing.
#[verifier::external_body]
fn ed25519_verify(pk: &[u8; 32], msg: &Vec<u8>, sig: &[u8; 64]) -> (r: bool)
    ensures
        r == sig_ok(pk@, msg@, sig@),
{
    match ed25519_dalek::VerifyingKey::from_bytes(pk) {
        Ok(vk) => {
            let s = ed25519_dalek::Signature::from_bytes(sig);
            ed25519_dalek::Verifier::verify(&vk, msg.as_slice(), &s).is_ok()
        },
        Err(_) => false,
    }
}

impl KeyPair {
    /// The public key matches the secret.
    pub open spec fn wf(&self) -> bool {
        self.public@ == pk_of(self.secret@)
    }

    /// A fresh signing identity from random secret bytes.
    pub fn new() -> (kp: KeyPair)
        ensures
            kp.wf(),
    {
        let secret = random_secret();
        KeyPair::from_secret(secret)
    }

    /// The signing identity of the given secret bytes.
    pub fn from_secret(secret: [u8; 32]) -> (kp: KeyPair)
        ensures
            kp.wf(),
            kp.secret == secret,
    {
        let public = PublicKey { b: ed25519_pubkey(&secret) };
        KeyPair { secret, public }
    }

    /// This identity's public key.
    pub fn pubkey(&self) -> (r: PublicKey)
        ensures
            r == self.public,
    {
        self.public
    }

    /// Signs `msg` with this identity's secret.
    pub fn sign(&self, msg: &Vec<u8>) -> (s: Signature)
        ensures
            s@ == sign_of(self.secret@, msg@),
            sig_ok(pk_of(self.secret@), msg@, s@),
    {
        Signature { b: ed25519_sign(&self.secret, msg) }
    }
}

/// Whether `sig` is a valid signature on `msg` under `pk`.
pub fn verify_message(pk: &PublicKey, msg: &Vec<u8>, sig: &Signature) -> (r: bool)
    ensures
        r == sig_ok(pk@, msg@, sig@),
{
    ed25519_verify(&pk.b, msg, &sig.b)
}

} // verus!
