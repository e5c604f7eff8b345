//! Error taxonomy of the ingestion pipeline.
//!
//! Every stage fails the whole run: there is no retry and no partial
//! success. Each variant names the stage that gave up.

use vstd::prelude::*;

verus! {

/// Why a JSON payload could not be normalized into a snapshot record.
#[derive(Clone, Copy, Debug, PartialEq, Eq, Structural)]
pub enum ParseError {
    /// The text is not valid JSON at all.
    Syntax,
    /// A required top-level field (timestamp or a root array) is absent.
    MissingField,
    /// A field is present but holds a value of the wrong shape.
    WrongType,
}

/// Why a source-local timestamp could not be resolved to an epoch key.
#[derive(Clone, Copy, Debug, PartialEq, Eq, Structural)]
pub enum TimeError {
    /// The text does not match the declared format or names no real date.
    Format,
    /// The wall-clock time is ambiguous or nonexistent in the fixed zone.
    Zone,
}

/// A whole-run failure, tagged with the stage that caused it.
#[derive(Clone, Copy, Debug, PartialEq, Eq, Structural)]
pub enum IngestError {
    /// The HTTP fetch of an upstream payload failed.
    Transport,
    /// The embedded script failed to compile or run.
    Evaluation,
    /// The payload did not normalize into the expected shape.
    Parse(ParseError),
    /// The snapshot timestamp could not be resolved.
    TimeResolution(TimeError),
    /// A row insert failed under the fatal write policy.
    Persistence,
}

} // verus!
