use vstd::prelude::*;

use crate::requests::Direction;

verus! {

/// What a decoder expected to find.
#[derive(Clone, Copy, Debug, PartialEq, Eq, Structural)]
pub enum Expected {
    /// A JSON string.
    Text,
    /// A JSON number or string holding a whole number.
    Integer,
    /// Comma-separated integers.
    IntegerList,
    /// `true` or `false`, in any ASCII case.
    Bool,
    /// A time of day such as `9:08pm`.
    TimeOfDay,
    /// A time of day such as `9:08 pm`.
    TimeOfDayWithSpace,
    /// A date and time such as `2023-04-11 18:30:00.000`.
    DateTime,
    /// The name of a regional rail line.
    Line,
    /// A JSON number.
    Number,
    /// A JSON array.
    Array,
    /// A JSON object.
    Object,
}

/// Why a payload could not be decoded.
#[derive(Debug)]
pub enum DecodeError {
    /// A text value did not have the expected shape; carries the raw text.
    InvalidValue { value: String, expected: Expected },
    /// A JSON value was of another kind than expected.
    InvalidType { expected: Expected },
    /// A record lacked a field it needs.
    MissingField { field: String },
    /// The arrivals envelope did not have exactly one top-level key.
    KeyCount { found: usize },
    /// An element of the arrivals envelope was a non-empty array.
    UnknownElementShape,
    /// Two elements of the arrivals envelope supplied the same direction.
    DuplicateDirection { direction: Direction },
    /// An error envelope carried more than one error.
    MultipleErrors,
    /// An error envelope carried no error.
    NoErrorMessage,
}

/// The failures of the client.
#[derive(Debug)]
pub enum Error {
    /// The request could not be sent or its response read; carries the transport's message.
    RequestFailed(String),
    /// The payload could not be decoded.
    DeserializeFailed(DecodeError),
    /// The feed answered with an error envelope; carries its message.
    ApiErrorResponse(String),
    /// Catalog data was asked of a stop that is not in the catalog; carries its text.
    UnknownRegionalRailStation(String),
}

} // verus!
