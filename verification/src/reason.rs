//! Why a request could not be answered.

use vstd::prelude::*;

verus! {

/// The reason a pipeline gave up. It goes to the diagnostics only: the reply
/// to the client carries the status and the empty body, never the reason.
#[derive(Debug, Clone, Copy, PartialEq, Eq, Structural)]
pub enum Reason {
    /// The request names nothing to look up.
    EmptyTerm,
    /// The provider could not be reached.
    ConnectionFailed,
    /// The provider answered with a status outside the success range.
    BadStatus,
    /// The provider's body could not be decoded into a document.
    UndecodableBody,
    /// The document is not a non-empty sequence of entries with metadata.
    MalformedPayload,
    /// The metadata of the first entry has no synonyms field.
    MissingSynonymsField,
    /// The synonyms field is not an array of arrays of strings.
    UnexpectedShape,
    /// The inference model could not be loaded.
    ModelUnavailable,
    /// The inference model produced no prediction for the input.
    PredictionFailed,
}

} // verus!
