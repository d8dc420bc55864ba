use vstd::prelude::*;

verus! {

/// The capability that decides whether a payment proof is good.
///
/// The engine asks it at most once per burn request, after all its own
/// checks have passed, and refuses the burn when the proof is rejected. The
/// engine does not look into the proof itself.
pub trait PaymentProofVerifier {
    /// Checks `proof` and says whether it is accepted.
    fn verify(&self, proof: &str) -> (accepted: bool);
}

/// A stand-in for a real verifier: it accepts every proof, the empty one
/// too. It checks nothing and protects nothing.
#[derive(Clone, Copy, Debug)]
pub struct PlaceholderVerifier;

impl PaymentProofVerifier for PlaceholderVerifier {
    fn verify(&self, proof: &str) -> (accepted: bool)
        ensures
            accepted,
    {
        true
    }
}

} // verus!
