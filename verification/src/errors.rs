//! Failure values surfaced by the recognition engine.

use vstd::prelude::*;

verus! {

/// A failure of one recognition attempt.
///
/// Both variants are ordinary values returned to the caller; the engine
/// never panics. Recovery (for example trying an alternative pattern) is
/// the responsibility of the caller.
#[derive(Debug, Clone, Copy, PartialEq, Eq, Structural)]
pub enum ParseError {
    /// The input is too short for the attempted pattern: either the
    /// scanner was already exhausted, or the pattern's declared minimum
    /// size exceeds the remaining input.
    UnexpectedEndOfInput,
    /// Enough input remained, but the pattern did not match at the
    /// current position.
    UnexpectedToken,
}

/// The result of one recognition attempt.
pub type ParseResult<T> = Result<T, ParseError>;

} // verus!
