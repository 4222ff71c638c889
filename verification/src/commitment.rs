//! The commitment itself: SHA-256 over the encoded value and salt.

use crate::encoding::{commitment_input, preimage};
use sha2::{Digest, Sha256};
use vstd::prelude::*;

verus! {

/// The SHA-256 digest of `message`. The algorithm is not written out here;
/// contracts only rely on the digest being a function of the message.
pub uninterp spec fn sha256(message: Seq<u8>) -> Seq<u8>;

/// The commitment to `value` under `salt`.
pub open spec fn commitment(value: u64, salt: u64) -> Seq<u8> {
    sha256(preimage(value, salt))
}

/// Two different messages with the same digest.
pub open spec fn is_collision(m1: Seq<u8>, m2: Seq<u8>) -> bool {
    m1 != m2 && sha256(m1) == sha256(m2)
}

/// Calls `sha2::Sha256::digest` and copies the digest out of its array.
///
/// Trusted, not proved: the bytes returned are the SHA-256 digest of the
/// message and there are 32 of them, the output size that `sha2` fixes for
/// `Sha256` in its type. The bound on the message is the one SHA-256 itself
/// has, a length of less than 2^64 bits; past it `sha2` overflows its bit
/// counter.
#[verifier::external_body]
fn sha256_digest(message: &[u8]) -> (digest: Vec<u8>)
    requires
        message@.len() < 0x2000_0000_0000_0000,
    ensures
        digest@ == sha256(message@),
        digest@.len() == 32,
{
    Sha256::digest(message).to_vec()
}

/// Computes the commitment to `value` under `salt`.
pub fn commit(value: u64, salt: u64) -> (digest: Vec<u8>)
    ensures
        digest@ == commitment(value, salt),
        digest@.len() == 32,
{
    let input = commitment_input(value, salt);
    sha256_digest(input.as_slice())
}

} // verus!
