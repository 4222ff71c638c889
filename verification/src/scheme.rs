//! The prover, the verifier, and the proof that passes between them.

use crate::commitment::{commit, commitment};
use crate::encoding::bytes_equal;
use vstd::prelude::*;

verus! {

/// A commitment together with the salt it was made under. It carries nothing
/// else: the secret enters only through the digest.
pub struct Proof {
    /// Digest of the committed value and the salt.
    pub commitment: Vec<u8>,
    /// The salt that was hashed along with the value.
    pub salt: u64,
}

/// What a [`Proof`] is, mathematically.
pub struct ProofView {
    pub commitment: Seq<u8>,
    pub salt: u64,
}

impl View for Proof {
    type V = ProofView;

    open spec fn view(&self) -> ProofView {
        ProofView { commitment: self.commitment@, salt: self.salt }
    }
}

/// The proof that a prover holding `secret` issues for `salt`.
pub open spec fn issued(secret: u64, salt: u64) -> ProofView {
    ProofView { commitment: commitment(secret, salt), salt }
}

/// Whether `proof` is accepted for `public_value`: its commitment is the one
/// that `public_value` has under the proof's own salt.
pub open spec fn accepts(proof: ProofView, public_value: u64) -> bool {
    proof.commitment == commitment(public_value, proof.salt)
}

/// Holds a secret and commits to it.
pub struct Prover {
    secret: u64,
}

impl Prover {
    /// The secret this prover holds.
    pub closed spec fn secret(&self) -> u64 {
        self.secret
    }

    /// A prover that holds `secret`.
    pub fn new(secret: u64) -> (prover: Prover)
        ensures
            prover.secret() == secret,
    {
        Prover { secret }
    }

    /// Commits to the secret under `salt`.
    pub fn generate_proof(&self, salt: u64) -> (proof: Proof)
        ensures
            proof@ == issued(self.secret(), salt),
            proof.commitment@.len() == 32,
    {
        let commitment = commit(self.secret, salt);
        Proof { commitment, salt }
    }
}

/// Checks proofs. It holds no state and never learns a prover's secret.
pub struct Verifier;

impl Verifier {
    /// Recomputes the commitment of `public_value` under the proof's salt and
    /// compares it with the one in the proof.
    pub fn verify(proof: &Proof, public_value: u64) -> (accepted: bool)
        ensures
            accepted == accepts(proof@, public_value),
    {
        let expected = commit(public_value, proof.salt);
        bytes_equal(proof.commitment.as_slice(), expected.as_slice())
    }
}

} // verus!
