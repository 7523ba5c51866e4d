//! Error taxonomy of the compilation, proving and verification pipeline.

use vstd::prelude::*;

verus! {

/// Why a completed verification rejected the proof.
#[derive(Clone, Copy, Debug, PartialEq, Eq)]
pub enum RejectReason {
    /// The proof does not satisfy the verifying equation for the supplied
    /// public inputs and key.
    Cryptographic,
    /// The declared public-input values and the recorded positions do not
    /// line up: the flattened values and the position list differ in
    /// length, or a position falls outside the public-input vector.
    StructuralMismatch,
}

/// Every fallible step surfaces its failure with its kind preserved;
/// nothing is swallowed or downgraded inside this layer.
#[derive(Clone, Copy, Debug, PartialEq, Eq)]
pub enum Error {
    /// The requested trim size exceeds what the public parameters support,
    /// or the parameters are malformed.
    ParameterTrim,
    /// The gadget-building routine found its own witness or public data
    /// inconsistent and aborted constraint emission.
    GadgetConstruction,
    /// A preprocessing pass failed to yield its key: the prover/verifier
    /// symmetry invariant was broken by a contract violation in the
    /// circuit or the backend.
    KeyCompilationInvariant,
    /// The proving capability failed, for instance because the committer
    /// key cannot cover the emitted circuit.
    Proving,
    /// Verification completed and rejected the proof.
    VerificationReject(RejectReason),
    /// A byte buffer for parameters, keys or proofs is malformed.
    Serialization,
}

} // verus!
