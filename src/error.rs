//! Why a conversion fails.
use vstd::prelude::*;

use crate::model::ParticipantId;
use crate::numeric::IntErrorKind;

verus! {

/// The one failure that stops a conversion.
#[derive(Debug, Clone, PartialEq, Eq)]
pub enum ConversionError {
    /// A text field that should hold a decimal number does not.
    ParseInt(IntErrorKind),
    /// A timestamp lies outside the range of instants that a UTC date-time
    /// can hold.
    TimestampOutOfRange {
        value: i64,
    },
    /// A code lies outside the closed set known for its field.
    UnknownEnumValue {
        field: &'static str,
        value: String,
    },
    /// An event's kind tag names one payload shape and the event carries
    /// another.
    TagPayloadMismatch {
        tag: String,
    },
    /// A participant of the roster has no read state left to join.
    MissingReadState(ParticipantId),
    /// Two read states name the same participant.
    DuplicateReadState(ParticipantId),
    /// A field that the domain model needs is absent.
    MissingRequiredField {
        field: &'static str,
    },
}

} // verus!
