//! The error taxonomy shared by every layer of the engine.
//!
//! Failures are returned as typed values up through validator and
//! coordinator alike; nothing is caught and converted to a generic failure.

use vstd::prelude::*;

verus! {

/// A typed failure of a store, validator or coordinator operation.
#[derive(Debug, PartialEq, Eq)]
pub enum Error {
    /// Malformed or missing input (an empty identifier, code or state);
    /// caller-correctable and never retried.
    Validation(String),
    /// A referenced order or diagram code does not exist.
    NotFound,
    /// An attempted creation with an already-used unique identifier.
    Conflict,
    /// An order's business has no governing diagram; transitions for that
    /// order cannot ever succeed until a diagram is installed.
    Configuration,
    /// The requested `(from, to)` pair is not an edge of the governing
    /// diagram; carries both endpoints for diagnosability.
    InvalidTransition { from: String, to: String },
    /// An underlying persistence failure, in particular a compare-and-swap
    /// write that found the persisted state no longer matches the state the
    /// transition was validated against; transient, the caller may retry.
    Storage,
}

} // verus!
