//! The two-tier matching contract: a pure predicate-with-length
//! ([`Match`]) and a declared minimum input size ([`MatchSize`]).
//!
//! The two capabilities are kept separate so that a generic pre-check can
//! run on the size alone, without invoking the (possibly costlier)
//! matcher.

use vstd::prelude::*;

verus! {

/// A pure predicate answering "does my pattern start at the front of
/// this view, and how many elements does it consume?".
///
/// A matcher must be a repeatable computation with no side effects: the
/// two spec functions fix its answer for every view, and [`Match::matcher`]
/// must return exactly that answer.
pub trait Match<T> {
    /// Whether the pattern matches at the front of `data`.
    spec fn spec_matches(&self, data: Seq<T>) -> bool;

    /// How many elements the pattern consumes at the front of `data`.
    /// Zero whenever the pattern does not match.
    spec fn spec_consumed(&self, data: Seq<T>) -> nat;

    /// Runs the matcher against `data`, the full remaining view from a
    /// scanner's cursor to the end of its input.
    ///
    /// The matcher must not assume any particular remaining length: on a
    /// view shorter than its own pattern it answers `(false, 0)`. When it
    /// reports a match, the consumed length is the exact number of
    /// elements that constitute the pattern, and never exceeds the length
    /// of the view passed in.
    fn matcher(&self, data: &[T]) -> (r: (bool, usize))
        ensures
            r.0 == self.spec_matches(data@),
            r.1 == self.spec_consumed(data@),
            self.spec_consumed(data@) <= data@.len(),
            !self.spec_matches(data@) ==> self.spec_consumed(data@) == 0,
    ;
}

/// The minimum input length for which a matcher could possibly succeed.
///
/// A lower-bound optimization hint used for fast rejection, not a promise
/// of the actual consumed length: a matcher may declare size 0 and still
/// consume several elements when it matches.
pub trait MatchSize {
    /// The declared minimum size, a constant per instance.
    spec fn spec_size(&self) -> nat;

    /// Returns the declared minimum size. Pure: no scanner access, same
    /// answer on every call.
    fn size(&self) -> (r: usize)
        ensures
            r == self.spec_size(),
    ;
}

} // verus!
