//! The error taxonomy of the pipeline: schema errors, type errors, transport
//! errors and state errors, surfaced by every fallible operation.

use vstd::prelude::*;
use crate::typesys::{DataOrder, TypeTag};

verus! {

/// Every failure the pipeline can surface.
#[derive(Clone, Debug, PartialEq)]
pub enum ConnectorError {
    /// The source could not report a schema for the query.
    SchemaUnavailable,
    /// A canonical type that this destination or mapping does not handle.
    UnsupportedType(TypeTag),
    /// The requested data order is not in the supported set.
    UnsupportedDataOrder(DataOrder),
    /// The declared column type does not match the produced or consumed value.
    TypeMismatch { expected: TypeTag, got: TypeTag },
    /// A source cell could not be parsed as the target type; carries the raw
    /// cell text.
    CannotProduce(Option<String>),
    /// A null cell arrived where the column is not nullable.
    UnexpectedNull,
    /// A malformed or incomplete response from the backend.
    MalformedResponse,
    /// A connection string that is not a well-formed URL.
    InvalidConnectionString,
    /// A credentials document without a usable project identifier.
    InvalidAuth,
    /// `finish` was called while partition writers are still outstanding.
    WritersOutstanding,
    /// A writer thread died while holding the shared output lock.
    MutexPoisoned,
    /// Columns of unequal length reached batch assembly; an internal bug.
    ShapeMismatch,
    /// A string column's data would exceed the offset range of its layout.
    OffsetOverflow,
}

} // verus!
