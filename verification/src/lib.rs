//! Hardware-backed cryptographic identity held in a secure-element slot.
//!
//! The crate provisions an elliptic-curve keypair into a numbered hardware
//! slot, retrieves the compact public representation of whatever keypair
//! currently occupies that slot, and exposes a small self-test suite that
//! exercises signing and key agreement against the element.
//!
//! The secure element itself is reached through the narrow
//! [`element::SecureElement`] capability trait; [`element::MemElement`] is an
//! in-memory element that implements it and is used to exercise the
//! provisioning protocol deterministically.

use vstd::prelude::*;

pub mod device;
pub mod element;
pub mod hcrypto;
pub mod keys;
pub mod manager;
pub mod text;

verus! {

/// Failure classes reported by slot management and the self tests.
#[derive(Debug, Clone, Copy, PartialEq, Eq, Structural)]
pub enum Error {
    /// The secure element reported failure: slot empty, device fault.
    Hardware,
    /// Bytes read from the slot do not decode into a compact keypair.
    Format,
    /// Signing, verification or key agreement failed at the primitive layer.
    Crypto,
}

} // verus!
