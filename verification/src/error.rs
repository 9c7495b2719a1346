//! The ways in which a run of the protocol can fail.

use vstd::prelude::*;

verus! {

/// A fatal failure of a run. A proof that is read and then rejected by the
/// verifier is not one: that run ends with the answer `false`.
#[derive(Clone, Copy, Debug, PartialEq, Eq)]
pub enum Error {
    /// The number of round constants is not the circuit's number of rounds.
    ShapeMismatch,
    /// The backend could not generate keys, or the key that it gave holds a
    /// point that is not sound.
    SetupError,
    /// The backend could not produce a proof. Nothing is said of the cause.
    ProveError,
    /// The proof bytes could not be decoded, or what they decode to holds a
    /// point that is not sound.
    DecodeError,
    /// The backend reported something that the phase does not expect.
    OutOfOrder,
}

} // verus!
