//! What can go wrong while decoding a feed.
use vstd::prelude::*;

verus! {

/// Why one field could not be decoded.
#[derive(Clone, Copy, Debug, PartialEq, Eq, Structural)]
pub enum ErrorKind {
    /// No key of the field's alias list is present.
    MissingRequiredField,
    /// A value is present but has the wrong JSON shape.
    TypeMismatch,
    /// A text value does not follow the field's grammar.
    ParseFailure,
    /// A value is well formed but out of the range its field allows.
    RangeViolation,
}

/// A required field that failed, and how.
#[derive(Clone, Copy, Debug, PartialEq, Eq)]
pub struct FieldFailure {
    pub field: &'static str,
    pub kind: ErrorKind,
}

/// Why a whole feed could not be decoded.
#[derive(Clone, Debug, PartialEq, Eq)]
pub enum DecodeError {
    /// The document is not of the expected object or array shape.
    MalformedDocument,
    /// The record at `index` failed on these required fields, in schema order.
    Record { index: usize, failures: Vec<FieldFailure> },
}

} // verus!
