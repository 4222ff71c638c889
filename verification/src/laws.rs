//! What holds of the scheme as a whole.
//!
//! SHA-256 has collisions, so no statement here says that a wrong value is
//! always rejected. What is proved instead is where the scheme's binding
//! rests: every acceptance of a wrong value, and every pair of salts that
//! share a commitment, exhibits a collision of SHA-256.

use crate::commitment::{commitment, is_collision};
use crate::encoding::{lemma_preimage_injective, preimage};
use crate::scheme::{accepts, issued, Proof};
use vstd::prelude::*;

verus! {

/// A proof issued for a secret is accepted for that secret, whatever the salt.
pub proof fn lemma_issued_proof_is_accepted(secret: u64, salt: u64)
    ensures
        accepts(issued(secret, salt), secret),
{
}

/// Issuing is deterministic: two proofs issued for the same secret under the
/// same salt have the same commitment, byte for byte, and the same salt.
pub proof fn lemma_issuing_is_deterministic(secret: u64, salt: u64, first: Proof, second: Proof)
    requires
        first@ == issued(secret, salt),
        second@ == issued(secret, salt),
    ensures
        first.commitment@ == second.commitment@,
        first.salt == second.salt,
{
}

/// A proof issued for `secret` is accepted for `public_value` exactly when the
/// two are equal or their hashed bytes collide under SHA-256.
pub proof fn lemma_wrong_value_needs_collision(secret: u64, salt: u64, public_value: u64)
    ensures
        accepts(issued(secret, salt), public_value) == (public_value == secret || is_collision(
            preimage(secret, salt),
            preimage(public_value, salt),
        )),
{
    if preimage(secret, salt) == preimage(public_value, salt) {
        lemma_preimage_injective(secret, salt, public_value, salt);
    }
}

/// One secret has the same commitment under two salts exactly when the salts
/// are equal or the hashed bytes collide under SHA-256.
pub proof fn lemma_salts_agree_only_by_collision(secret: u64, salt1: u64, salt2: u64)
    ensures
        (commitment(secret, salt1) == commitment(secret, salt2)) == (salt1 == salt2
            || is_collision(preimage(secret, salt1), preimage(secret, salt2))),
{
    if preimage(secret, salt1) == preimage(secret, salt2) {
        lemma_preimage_injective(secret, salt1, secret, salt2);
    }
}

} // verus!
