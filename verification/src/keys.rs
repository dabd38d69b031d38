//! The keypair handle used throughout the crate, and the trusted boundary to
//! the cryptographic primitive library (helium_crypto).
//!
//! A [`SlotKeypair`] couples an opaque handle to the primitive library's keypair
//! with the compact binary encoding of its public key. The encoding is the
//! keypair's identity for every contract in this crate: the view of a
//! `SlotKeypair` is that byte string. The two fields are kept private so that
//! only the trusted constructors below can pair a handle with its encoding.

use vstd::prelude::*;

use crate::Error;

verus! {

/// The base58-check rendering of the public key whose compact encoding is
/// the given bytes. Produced by helium_crypto's Display for public keys.
pub uninterp spec fn b58_of(public_bytes: Seq<u8>) -> Seq<char>;

/// Whether ECDSA verification accepts the signature over the message under
/// the public key with the given compact encoding. Computed by
/// helium_crypto's Verify.
pub uninterp spec fn sig_verifies(public_bytes: Seq<u8>, msg: Seq<u8>, sig: Seq<u8>) -> bool;

/// The ECDH shared secret agreed between the keypairs with the two given
/// compact public encodings. Computed by helium_crypto's key agreement.
pub uninterp spec fn shared_secret(public_bytes: Seq<u8>, other_public_bytes: Seq<u8>) -> Seq<u8>;

/// An elliptic-curve keypair on the main network, compact key type: an
/// opaque handle able to sign and agree on keys, together with the compact
/// binary encoding of its public key.
pub struct SlotKeypair {
    inner: helium_crypto::Keypair,
    public_bytes: Vec<u8>,
}

impl View for SlotKeypair {
    type V = Seq<u8>;

    closed spec fn view(&self) -> Seq<u8> {
        self.public_bytes@
    }
}

impl SlotKeypair {
    /// Generates a fresh software keypair from the operating system's secure
    /// random source.
    ///
    /// Relies on helium_crypto::Keypair::generate with rand's OsRng; the key
    /// is random, so nothing is promised of which key comes back. The stored
    /// encoding is the generated public key's own (PublicKey::to_vec).
    #[verifier::external_body]
    pub fn generate() -> (r: SlotKeypair) {
        let inner = helium_crypto::Keypair::generate(
            helium_crypto::KeyTag {
                network: helium_crypto::Network::MainNet,
                key_type: helium_crypto::KeyType::EccCompact,
            },
            &mut rand::rngs::OsRng,
        );
        let public_bytes = inner.public_key().to_vec();
        SlotKeypair { inner, public_bytes }
    }

    /// Produces an independent handle to the same keypair.
    ///
    /// Relies on helium_crypto::Keypair::to_vec and TryFrom<&[u8]>, which
    /// round-trip a software keypair exactly (the library's own round-trip
    /// tests show this), so the rebuild below cannot fail for the software
    /// keypairs this crate constructs.
    #[verifier::external_body]
    pub fn dup(&self) -> (r: SlotKeypair)
        ensures
            r@ == self@,
    {
        let bytes = self.inner.to_vec();
        let inner = helium_crypto::Keypair::try_from(&bytes[..])
            .expect("a software keypair encodes and decodes to itself");
        SlotKeypair { inner, public_bytes: self.public_bytes.clone() }
    }

    /// The compact binary encoding of the public key.
    pub fn compact_bytes(&self) -> (r: &Vec<u8>)
        ensures
            r@ == self@,
    {
        &self.public_bytes
    }

    /// Renders the public key in its canonical base58-check form.
    ///
    /// Relies on helium_crypto's Display for PublicKey: the rendering is a
    /// function of the key alone, hence of its compact encoding.
    #[verifier::external_body]
    pub fn public_b58(&self) -> (r: String)
        ensures
            r@ == b58_of(self@),
    {
        self.inner.public_key().to_string()
    }

    /// Signs a message with this keypair.
    ///
    /// Relies on helium_crypto::Sign::sign for compact-key keypairs: a
    /// signature it produces verifies under the same key and message, and
    /// the compact-key signer cannot report failure (it wraps an infallible
    /// deterministic ECDSA signer), so the call returns Ok.
    #[verifier::external_body]
    pub fn sign(&self, msg: &Vec<u8>) -> (r: Result<Vec<u8>, Error>)
        ensures
            r is Ok,
            r matches Ok(s) ==> sig_verifies(self@, msg@, s@),
    {
        match helium_crypto::Sign::sign(&self.inner, &msg[..]) {
            Ok(s) => Ok(s),
            Err(_) => Err(Error::Crypto),
        }
    }

    /// Verifies a signature over a message against this keypair's public key.
    ///
    /// Relies on helium_crypto::Verify::verify: acceptance is a function of
    /// key, message and signature.
    #[verifier::external_body]
    pub fn verify(&self, msg: &Vec<u8>, sig: &Vec<u8>) -> (r: bool)
        ensures
            r == sig_verifies(self@, msg@, sig@),
    {
        helium_crypto::Verify::verify(self.inner.public_key(), &msg[..], &sig[..]).is_ok()
    }

    /// Agrees on an ECDH shared secret with the other keypair's public key.
    ///
    /// Relies on helium_crypto::Keypair::ecdh, which for compact keys is
    /// p256 Diffie-Hellman: the secret is a function of the two public keys
    /// and is symmetric in them, so both orders of the arguments name the
    /// same byte string. Between two compact keypairs — the only kind this
    /// type holds — every step of the agreement is infallible, so the call
    /// returns Ok.
    #[verifier::external_body]
    pub fn ecdh(&self, other: &SlotKeypair) -> (r: Result<Vec<u8>, Error>)
        ensures
            r is Ok,
            r matches Ok(s) ==> s@ == shared_secret(self@, other@) && s@ == shared_secret(
                other@,
                self@,
            ),
    {
        match self.inner.ecdh(other.inner.public_key()) {
            Ok(s) => Ok(s.as_bytes().to_vec()),
            Err(_) => Err(Error::Crypto),
        }
    }
}

/// ECDH symmetry: secrets produced by key agreement between the same two
/// keypairs, in either order, are byte-for-byte identical. The premises are
/// exactly what [`SlotKeypair::ecdh`] ensures of each of the two computations.
pub proof fn lemma_ecdh_symmetry(a: Seq<u8>, b: Seq<u8>, s1: Seq<u8>, s2: Seq<u8>)
    requires
        s1 == shared_secret(a, b) && s1 == shared_secret(b, a),
        s2 == shared_secret(b, a) && s2 == shared_secret(a, b),
    ensures
        s1 == s2,
{
}

} // verus!
