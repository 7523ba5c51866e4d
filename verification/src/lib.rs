//! Circuit-compilation and public-input-binding layer of a PLONK-style
//! proof system.
//!
//! The crate defines the contract every arithmetic-relation gadget must
//! satisfy ([`circuit::Circuit`]), a constraint recorder that tracks where
//! declared public inputs land ([`composer::Composer`]), and the encoding
//! that turns domain values into base-field scalars
//! ([`public_input::PublicInputValue`]). Key compilation, proof generation
//! and proof verification are orchestrated here and delegate the
//! cryptographic work to an external capability ([`circuit::ProofBackend`]).

pub mod circuit;
pub mod composer;
pub mod error;
pub mod public_input;
pub mod scalar;
pub mod test_circuit;
