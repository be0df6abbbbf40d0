//! Error kinds raised at construction and build time. A successfully built
//! entity is valid for its whole lifetime; no validation is deferred.

use vstd::prelude::*;

verus! {

/// The failure kinds of the data model. Every one of them is reported
/// synchronously, by the constructor or the `build` call that detected it.
#[derive(Clone, Copy, Debug, PartialEq, Eq, Structural)]
pub enum NexusError {
    /// An identifier or a catalog path does not match its grammar.
    InvalidIdentifier,
    /// A sample period was constructed from a non-positive duration.
    InvalidSamplePeriod,
    /// Two sibling entities collapse to the same derived identifier.
    DuplicateIdentifier,
    /// A representation parameter key does not match the identifier grammar.
    InvalidParameterKey,
}

} // verus!
