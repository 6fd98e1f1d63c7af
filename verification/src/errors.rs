//! Recoverable failures of the game core.  Transport and store failures
//! belong to the callers that own those collaborators.

use vstd::prelude::*;

verus! {

/// What can go wrong inside the game core itself.
#[derive(Clone, Copy, Debug, PartialEq, Eq, Structural)]
pub enum GameError {
    /// The question catalog held no eligible rows; fatal at startup.
    EmptyCatalog,
    /// An answer of fewer than two characters cannot be obfuscated into a
    /// hint; recoverable, the session keeps its state.
    InvalidAnswerLength,
}

} // verus!
