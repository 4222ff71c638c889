//! A salted hash commitment to a 64-bit secret, and its check against a claimed
//! public value.
//!
//! A [`Prover`] holds a secret and issues a [`Proof`]: the SHA-256 digest of the
//! secret and a salt, both written as eight big-endian bytes, together with the
//! salt. A [`Verifier`] recomputes the digest from a claimed value and the
//! proof's salt and accepts exactly when the two digests are equal.
//!
//! This is a keyed-hash commitment, not a zero-knowledge proof. It hides the
//! secret behind a one-way function and binds the prover to it as far as
//! SHA-256 resists collisions; it has no challenge, no interaction, and none of
//! the soundness or zero-knowledge guarantees of a protocol such as Schnorr's.
//! That nobody can read the secret off a proof rests on the pre-image
//! resistance of SHA-256, which is assumed here and not proved.

pub mod commitment;
pub mod encoding;
pub mod laws;
pub mod scheme;

pub use scheme::{Proof, Prover, Verifier};
