//! A pairing-based signature toolkit over BLS12-381: proofs of knowledge
//! that bind a secret scalar to a registry index, BLS-style signatures over
//! hash-to-curve message points, additive aggregation of keys, proofs and
//! signatures, and the rogue-key construction that the collinear per-index
//! generators make possible.

use vstd::prelude::*;

pub mod aggregate;
pub mod bls;
pub mod field;
pub mod group;
pub mod pok;
pub mod registry;

verus! {

/// The failure taxonomy of the toolkit.  A failed final signature check is
/// not an error: it is reported as an ordinary boolean outcome.
#[derive(Clone, Copy, Debug, PartialEq, Eq, Structural)]
pub enum Error {
    /// Malformed or truncated registry input; surfaced before any protocol
    /// logic runs, with no entry accepted.
    Deserialization,
    /// The proof of knowledge of the registry entry at this index does not
    /// verify there; the whole registry is rejected.
    PokVerificationFailure(usize),
    /// Inversion of the zero scalar was attempted.
    ScalarInversion,
}

} // verus!
