use vstd::prelude::*;

verus! {

/// The failure taxonomy of the scan harness.
///
/// Every failure is a misconfiguration of the input data, not a transient
/// fault: callers are expected to surface the error and stop, never retry.
#[derive(Clone, Copy, Debug, PartialEq, Eq, Structural)]
pub enum BenchError {
    /// The columnar container is missing, unreadable, or its metadata
    /// cannot be parsed.
    ContainerOpenError,
    /// A column's runtime type does not match the statically expected
    /// 32-bit float type, or the requested column position does not exist.
    TypeMismatchError,
    /// The index directory is absent or is not a valid index.
    IndexOpenError,
    /// The requested field name is absent from the index schema.
    UnknownFieldError,
    /// The field exists but was not indexed as a 64-bit float fast field.
    FastFieldUnavailableError,
    /// The index does not consist of exactly one searchable segment.
    UnexpectedSegmentCountError,
}

} // verus!
