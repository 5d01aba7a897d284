//! The recognition protocol and the hard-failure recognize operation.
//!
//! [`Recognizable`] is the generic capability "attempt to recognize
//! myself against a scanner, consuming on success, leaving the scanner
//! untouched on failure". [`recognize`] is the only point in the engine
//! that turns a soft "did not match" answer into a hard, propagating
//! error.

use vstd::prelude::*;
use vstd::slice::slice_subrange;
use crate::errors::{ParseError, ParseResult};
use crate::matcher::{Match, MatchSize};
use crate::scanner::Scanner;

verus! {

/// Describes a recognizable object.
///
/// An implementor attempts to recognize itself against a scanner and, on
/// success, produces a typed result and advances the cursor by exactly
/// the matched length. Its outcome is a pure function of the remaining
/// input, given by [`Recognizable::spec_recognize`].
pub trait Recognizable<'a, T, V>: MatchSize {
    /// The outcome recognition produces on this remaining input:
    /// `Ok(Some(k))` for a match consuming `k` elements, `Ok(None)` for
    /// no match, `Err(e)` for a hard failure.
    spec fn spec_recognize(&self, remaining: Seq<T>) -> ParseResult<Option<nat>>;

    /// Try to recognize the object for the given scanner.
    ///
    /// Returns `Ok(Some(v))` if the object was recognized, `Ok(None)` if
    /// it was not recognized (the scanner is then untouched), and
    /// `Err(e)` if a hard failure occurred. The cursor never moves
    /// backwards, and the input view is never altered.
    fn recognize(self, scanner: &mut Scanner<'a, T>) -> (r: ParseResult<Option<V>>)
        requires
            old(scanner).wf(),
        ensures
            final(scanner).wf(),
            final(scanner).spec_data() == old(scanner).spec_data(),
            old(scanner).spec_position() <= final(scanner).spec_position(),
            match r {
                Ok(Some(_)) => (self.spec_recognize(old(scanner).spec_remaining())
                    matches Ok(Some(k))
                    && final(scanner).spec_position() == old(scanner).spec_position() + k),
                Ok(None) => (self.spec_recognize(old(scanner).spec_remaining())
                    matches Ok(None))
                    && final(scanner).spec_position() == old(scanner).spec_position(),
                Err(e) => (self.spec_recognize(old(scanner).spec_remaining())
                    matches Err(f) && f == e),
            },
    ;
}

/// The canonical recognition protocol, for any plain element matcher:
/// reject an exhausted scanner with a hard end-of-input failure; run the
/// matcher against the remaining input; on no match leave the scanner
/// untouched; on a match advance the cursor by the consumed length and
/// return the recognized sub-view of the input.
impl<'a, T, M: Match<T> + MatchSize> Recognizable<'a, T, &'a [T]> for M {
    open spec fn spec_recognize(&self, remaining: Seq<T>) -> ParseResult<Option<nat>> {
        if remaining.len() == 0 {
            Err(ParseError::UnexpectedEndOfInput)
        } else if self.spec_matches(remaining) {
            Ok(Some(self.spec_consumed(remaining)))
        } else {
            Ok(None)
        }
    }

    fn recognize(self, scanner: &mut Scanner<'a, T>) -> (r: ParseResult<Option<&'a [T]>>)
        ensures
            match r {
                Ok(Some(v)) => {
                    &&& !old(scanner).spec_is_empty()
                    &&& self.spec_matches(old(scanner).spec_remaining())
                    &&& final(scanner).spec_position() == old(scanner).spec_position()
                        + self.spec_consumed(old(scanner).spec_remaining())
                    &&& v@ == old(scanner).spec_data().subrange(
                        old(scanner).spec_position(),
                        final(scanner).spec_position(),
                    )
                    &&& v@.len() == self.spec_consumed(old(scanner).spec_remaining())
                },
                Ok(None) => {
                    &&& !old(scanner).spec_is_empty()
                    &&& !self.spec_matches(old(scanner).spec_remaining())
                    &&& final(scanner).spec_position() == old(scanner).spec_position()
                },
                Err(e) => {
                    &&& e == ParseError::UnexpectedEndOfInput
                    &&& old(scanner).spec_is_empty()
                    &&& final(scanner).spec_position() == old(scanner).spec_position()
                },
            },
    {
        if scanner.is_empty() {
            return Err(ParseError::UnexpectedEndOfInput);
        }

        let data = scanner.remaining();

        let (result, size) = self.matcher(data);
        if !result {
            return Ok(None);
        }
        let current_position = scanner.current_position();
        if !scanner.is_empty() {
            scanner.bump_by(size);
        }
        let full = scanner.data();
        let full_len: usize = full.len();
        assert(current_position + size <= full_len);
        Ok(Some(slice_subrange(full, current_position, current_position + size)))
    }
}

/// Recognize an object for the given scanner, or fail hard.
///
/// If the recognizable's declared minimum size exceeds the remaining
/// input, fails with [`ParseError::UnexpectedEndOfInput`] without
/// invoking the recognizable at all. Otherwise delegates to
/// [`Recognizable::recognize`]: a recognized value is returned as is, "no
/// match" is translated into [`ParseError::UnexpectedToken`], and a
/// lower-level failure propagates unchanged.
pub fn recognize<'a, T, V, R: Recognizable<'a, T, V>>(
    recognizable: R,
    scanner: &mut Scanner<'a, T>,
) -> (r: ParseResult<V>)
    requires
        old(scanner).wf(),
    ensures
        final(scanner).wf(),
        final(scanner).spec_data() == old(scanner).spec_data(),
        old(scanner).spec_position() <= final(scanner).spec_position(),
        old(scanner).spec_remaining().len() < recognizable.spec_size() ==> (
            (r matches Err(e) && e == ParseError::UnexpectedEndOfInput)
            && final(scanner).spec_position() == old(scanner).spec_position()
        ),
        recognizable.spec_size() <= old(scanner).spec_remaining().len() ==> (match r {
            Ok(_) => (recognizable.spec_recognize(old(scanner).spec_remaining())
                matches Ok(Some(k))
                && final(scanner).spec_position() == old(scanner).spec_position() + k),
            Err(e) => (match recognizable.spec_recognize(old(scanner).spec_remaining()) {
                Ok(Some(_)) => false,
                Ok(None) => e == ParseError::UnexpectedToken
                    && final(scanner).spec_position() == old(scanner).spec_position(),
                Err(f) => e == f,
            }),
        }),
{
    if recognizable.size() > scanner.remaining().len() {
        return Err(ParseError::UnexpectedEndOfInput);
    }
    match recognizable.recognize(scanner) {
        Ok(Some(v)) => Ok(v),
        Ok(None) => Err(ParseError::UnexpectedToken),
        Err(e) => Err(e),
    }
}

} // verus!
