//! The error vocabulary of the crate.

use vstd::prelude::*;

verus! {

/// Everything that can go wrong between the host and the engine.
///
/// `LoadFailure` and `InitFailure` are fatal to session construction and are
/// produced only by the unverified plumbing that loads the engine library;
/// they live here so the whole error vocabulary has one home. The other
/// variants are recoverable outcomes of verified functions: each of those
/// says in its contract exactly when which variant comes back.
#[derive(Clone, Copy, PartialEq, Eq, Debug)]
pub enum JError {
    /// The engine library could not be loaded.
    LoadFailure,
    /// The engine library loaded but its initializer failed.
    InitFailure,
    /// A binary capture was requested of a value whose type tag is not the
    /// literal (character) tag.
    TypeMismatch,
    /// A binary record's header is incomplete, or claims more shape words or
    /// payload bytes than the buffer holds.
    Malformed,
    /// A sentence holds an embedded terminator byte and cannot be handed to
    /// the engine's C interface.
    EmbeddedNul,
}

} // verus!
