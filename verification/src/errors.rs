//! The failure taxonomy of the store layer.
//!
//! Every operation returns a tagged outcome; absence of a key is an expected
//! result (`GetOutcome::NotFound`), never an error. Engine-level failures are
//! wrapped with their underlying reason text and handed back to the caller,
//! never escalated into a process abort.

use vstd::prelude::*;

verus! {

/// One structured error per operation family, each carrying the underlying
/// reason text where the engine supplies one.
#[derive(Clone, Debug, PartialEq, Eq)]
pub enum RockerError {
    /// A recognized configuration key was given a value of the wrong type.
    /// Carries the offending key.
    ConfigTypeMismatch(String),
    /// The engine could not be opened at the requested path.
    OpenFailed(String),
    /// On-disk state at a path could not be removed.
    DestroyFailed(String),
    /// A damaged store at a path could not be recovered.
    RepairFailed(String),
    /// An insert or a delete did not reach the engine.
    WriteFailed(String),
    /// A lookup failed at the I/O level (distinct from the key being absent).
    ReadFailed(String),
    /// A stored value was read back but is not well-formed text, where text
    /// semantics were asked for.
    DecodeFailed,
}

/// Outcome of a lookup for a raw byte-string value.
#[derive(Clone, Debug, PartialEq, Eq)]
pub enum GetOutcome {
    Found(Vec<u8>),
    NotFound,
}

/// Outcome of a lookup that asks for text semantics.
#[derive(Clone, Debug, PartialEq, Eq)]
pub enum GetTextOutcome {
    Found(String),
    NotFound,
}

} // verus!
