//! The ways in which a conversion between wire and domain form can fail.

use vstd::prelude::*;

verus! {

/// Why an attribute-value pair could not be converted.
///
/// Every failure is reported as a value; no conversion aborts the process.
#[derive(Debug, Clone, Copy, PartialEq, Eq, Hash, Structural)]
pub enum ConversionError {
    /// The wire code has no entry in the dictionary.
    UnknownAttribute,
    /// The declared wire type, or the shape of a payload, disagrees with what
    /// the dictionary expects for the attribute.
    TypeMismatch,
    /// A text payload is not well-formed UTF-8.
    InvalidUtf8,
    /// The payload length disagrees with the fixed or maximum size of its
    /// wire type.
    ValueLengthInvalid,
    /// An integer payload for an enumerated attribute names no symbol of the
    /// attribute's closed set.
    EnumValueOutOfRange,
}

} // verus!
