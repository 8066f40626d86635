//! Decode failures. Every failure is fatal for the block being decoded:
//! there is no partial-field recovery.

use vstd::prelude::*;

verus! {

/// Why decoding a block, or a part of one, failed.
#[derive(Debug, Clone, Copy, PartialEq, Eq, Structural)]
pub enum DecodeError {
    /// An array or object had the wrong length or field set.
    UnexpectedShape,
    /// A leading integer code lay outside its valid set; carries the
    /// offending value.
    UnexpectedTag(i64),
    /// A value was present but of the wrong kind.
    TypeMismatch,
    /// A required element or field was absent.
    MissingField,
}

} // verus!
