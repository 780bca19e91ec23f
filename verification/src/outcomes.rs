//! The closed outcome taxonomy of every catalog operation.

use vstd::prelude::*;

use crate::tag::Timestamp;
use crate::value::DataType;

verus! {

/// Outcome of creating a tag.
#[derive(Clone, Copy, PartialEq, Eq, Structural, Debug)]
pub enum CreateTagResult {
    SuccessfullyCreated,
    AlreadyExists,
}

/// Outcome of an accepted value update: `Updated` if the stored value
/// changed structurally, `Ignored` if the incoming value equalled the stored
/// one (even when the timestamp advanced).
#[derive(Clone, Copy, PartialEq, Eq, Structural, Debug)]
pub enum UpdateValueResult {
    Updated,
    Ignored,
}

/// The update outcome under its command-level name.
pub type UpdateValueOk = UpdateValueResult;

/// Why a value update was rejected. A rejected update never mutates the
/// store.
#[derive(Clone, Copy, PartialEq, Eq, Structural, Debug)]
pub enum UpdateValueError {
    /// The incoming timestamp does not strictly exceed the stored one.
    TimestampOutOfOrder { previous: Timestamp },
    /// The incoming value's runtime type differs from the declared type.
    InvalidDataType { expected: DataType, actual: DataType },
    /// The tag has a stored timestamp, but the write carried none.
    NoneTimestampProvided,
    /// No tag of that name exists.
    TagNameNotFound,
}

/// Outcome of deleting a tag.
#[derive(Clone, Copy, PartialEq, Eq, Structural, Debug)]
pub enum DeleteTagResult {
    Deleted,
}

/// Why a delete was rejected.
#[derive(Clone, Copy, PartialEq, Eq, Structural, Debug)]
pub enum DeleteTagError {
    TagNameNotFound,
}

/// Why a read was rejected.
#[derive(Clone, Copy, PartialEq, Eq, Structural, Debug)]
pub enum ReadTagError {
    TagNameNotFound,
}

} // verus!
