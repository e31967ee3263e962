//! The ways in which a decode ends without a record.

use vstd::prelude::*;

verus! {

/// Why a decode was abandoned.
#[derive(Debug, Clone, Copy, PartialEq, Eq, Structural)]
pub enum DecodeError {
    /// The input text is not an even number of hexadecimal digits.
    HexDecodeError,
    /// The byte buffer ended before a field was complete.
    UnexpectedEof,
}

} // verus!
