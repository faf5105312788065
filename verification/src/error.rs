//! The closed set of ways a buffer can fail to decode as a puzzle
//! container header. Every variant carries the raw values it was
//! rejected over, so a caller can render a diagnostic without
//! re-reading the buffer.

use vstd::prelude::*;

verus! {

#[derive(Debug, Clone, Copy, PartialEq, Eq, Structural)]
pub enum ParsePuzError {
    /// The magic marker was never found in the buffer; this also covers
    /// truncated or empty buffers in which no window could hold it.
    NotAPuz,
    /// The four version bytes did not match the digit-dot-digit pattern;
    /// carries the four raw bytes unchanged.
    UnexpectedVersionFormat(u8, u8, u8, u8),
    /// The puzzle-type field held a code outside the known table;
    /// carries the code.
    UnknownPuzzleType(u16),
    /// The solution-type field held a code outside the known table;
    /// carries the code.
    UnknownSolutionType(u16),
    /// A fixed-size field read ran past the end of the buffer after the
    /// magic marker had been found.
    Malformed,
}

} // verus!
