//! The position-tracking scanner: a borrowed view of the input plus a
//! cursor.
//!
//! The cursor is the single piece of mutable state in the engine. It never
//! decreases, and it never exceeds the input length.

use vstd::prelude::*;
use vstd::slice::slice_subrange;
use crate::errors::{ParseError, ParseResult};
use crate::matcher::Match;

verus! {

/// A scanner over a borrowed view of a contiguous input sequence.
///
/// The scanner never copies or mutates the input; it only moves its
/// cursor forward. Invariant ([`Scanner::wf`]): the cursor never exceeds
/// the input length.
pub struct Scanner<'a, T> {
    data: &'a [T],
    position: usize,
}

impl<'a, T> Scanner<'a, T> {
    /// The full input view, as a mathematical sequence.
    pub closed spec fn spec_data(&self) -> Seq<T> {
        self.data@
    }

    /// The cursor: the offset into the input at which the next match is
    /// attempted.
    pub closed spec fn spec_position(&self) -> int {
        self.position as int
    }

    /// Well-formedness: the cursor stays within the input bounds. Every
    /// operation preserves this.
    pub open spec fn wf(&self) -> bool {
        0 <= self.spec_position() <= self.spec_data().len()
    }

    /// The input from the cursor to the end, as a mathematical sequence.
    pub open spec fn spec_remaining(&self) -> Seq<T> {
        self.spec_data().subrange(self.spec_position(), self.spec_data().len() as int)
    }

    /// True iff the cursor has reached the end of the input.
    pub open spec fn spec_is_empty(&self) -> bool {
        self.spec_position() == self.spec_data().len()
    }

    /// Creates a scanner over `data` with the cursor at the start.
    pub fn new(data: &'a [T]) -> (s: Self)
        ensures
            s.wf(),
            s.spec_data() == data@,
            s.spec_position() == 0,
    {
        Scanner { data, position: 0 }
    }

    /// Returns the sub-view from the cursor to the end of the input.
    /// Read-only: the cursor does not move.
    pub fn remaining(&self) -> (r: &'a [T])
        requires
            self.wf(),
        ensures
            r@ == self.spec_remaining(),
            r@.len() == self.spec_data().len() - self.spec_position(),
    {
        slice_subrange(self.data, self.position, self.data.len())
    }

    /// True iff the cursor has reached the end of the input.
    pub fn is_empty(&self) -> (r: bool)
        ensures
            r == self.spec_is_empty(),
    {
        self.position == self.data.len()
    }

    /// Returns the cursor. Callers use it to compute sub-view boundaries
    /// for recognized output.
    pub fn current_position(&self) -> (r: usize)
        ensures
            r == self.spec_position(),
    {
        self.position
    }

    /// Returns the full original input view.
    pub fn data(&self) -> (r: &'a [T])
        ensures
            r@ == self.spec_data(),
    {
        self.data
    }

    /// Advances the cursor by `n`.
    ///
    /// Must not be called on an exhausted scanner, and must not advance
    /// past the end of the input: the cursor invariant holds before and
    /// after every operation.
    pub fn bump_by(&mut self, n: usize)
        requires
            old(self).wf(),
            !old(self).spec_is_empty(),
            old(self).spec_position() + n <= old(self).spec_data().len(),
        ensures
            final(self).wf(),
            final(self).spec_data() == old(self).spec_data(),
            final(self).spec_position() == old(self).spec_position() + n,
    {
        let len: usize = self.data.len();
        assert(self.position + n <= len);
        self.position = self.position + n;
    }

    /// Runs `matcher` against the remaining input and returns its raw
    /// `(matched, consumed)` answer without moving the cursor; advancing
    /// is the caller's separate, explicit responsibility via
    /// [`Scanner::bump_by`].
    ///
    /// Fails with [`ParseError::UnexpectedEndOfInput`] iff the scanner is
    /// already exhausted, in which case the matcher is never invoked.
    pub fn recognize<M: Match<T>>(&self, matcher: M) -> (r: ParseResult<(bool, usize)>)
        requires
            self.wf(),
        ensures
            match r {
                Ok(m) => {
                    &&& !self.spec_is_empty()
                    &&& m.0 == matcher.spec_matches(self.spec_remaining())
                    &&& m.1 == matcher.spec_consumed(self.spec_remaining())
                    &&& m.1 <= self.spec_remaining().len()
                },
                Err(e) => {
                    &&& e == ParseError::UnexpectedEndOfInput
                    &&& self.spec_is_empty()
                },
            },
    {
        if self.is_empty() {
            return Err(ParseError::UnexpectedEndOfInput);
        }
        Ok(matcher.matcher(self.remaining()))
    }
}

} // verus!
