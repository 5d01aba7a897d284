//! Element matchers over byte input: a single fixed character, and a run
//! of decimal digits.

use vstd::prelude::*;
use vstd::slice::slice_index_get;
use crate::matcher::{Match, MatchSize};

verus! {

/// Whether the character `c`, taken as a byte, stands at the front of
/// `data`.
pub open spec fn spec_match_char(c: char, data: Seq<u8>) -> bool {
    data.len() > 0 && data[0] == c as u8
}

/// Matches the single character `c` at the front of `data`: `(true, 1)`
/// when `data` starts with `c` as a byte, `(false, 0)` otherwise (in
/// particular on empty input).
pub fn match_char(c: char, data: &[u8]) -> (r: (bool, usize))
    ensures
        r.0 == spec_match_char(c, data@),
        r.1 == (if spec_match_char(c, data@) { 1int } else { 0int }),
{
    if data.len() > 0 && *slice_index_get(data, 0) == c as u8 {
        (true, 1)
    } else {
        (false, 0)
    }
}

/// Whether `b` is the code of a decimal digit.
pub open spec fn spec_is_digit(b: u8) -> bool {
    48 <= b && b <= 57
}

/// The number of leading decimal-digit bytes of `data`.
pub open spec fn spec_digit_run(data: Seq<u8>) -> nat
    decreases data.len(),
{
    if data.len() > 0 && spec_is_digit(data[0]) {
        (1 + spec_digit_run(data.drop_first())) as nat
    } else {
        0
    }
}

/// A digit run never extends past the end of the input.
pub proof fn lemma_digit_run_le_len(data: Seq<u8>)
    ensures
        spec_digit_run(data) <= data.len(),
    decreases data.len(),
{
    if data.len() > 0 && spec_is_digit(data[0]) {
        lemma_digit_run_le_len(data.drop_first());
    }
}

/// Matches a run of decimal digits at the front of `data`, scanning
/// forward until a non-digit element or the end of input. Zero matched
/// elements are reported as `(false, 0)`, not `(true, 0)`.
pub fn match_number(data: &[u8]) -> (r: (bool, usize))
    ensures
        r.1 == spec_digit_run(data@),
        r.0 == (spec_digit_run(data@) > 0),
{
    let len: usize = data.len();
    let mut i: usize = 0;
    proof {
        assert(data@.skip(0) =~= data@);
    }
    while i < len && *slice_index_get(data, i) >= 48 && *slice_index_get(data, i) <= 57
        invariant
            0 <= i <= len,
            len == data@.len(),
            spec_digit_run(data@) == i + spec_digit_run(data@.skip(i as int)),
        decreases len - i,
    {
        proof {
            assert(data@.skip(i as int).drop_first() =~= data@.skip(i + 1));
        }
        i = i + 1;
    }
    proof {
        assert(spec_digit_run(data@.skip(i as int)) == 0);
    }
    (i > 0, i)
}

/// A variable-length matcher for a run of decimal digits.
///
/// Declares minimum size 0 — a deliberately conservative lower bound —
/// even though it always consumes at least one element when it matches.
/// No correctness rule may assume the declared size equals the consumed
/// length.
pub struct TokenNumber;

impl Match<u8> for TokenNumber {
    open spec fn spec_matches(&self, data: Seq<u8>) -> bool {
        spec_digit_run(data) > 0
    }

    open spec fn spec_consumed(&self, data: Seq<u8>) -> nat {
        spec_digit_run(data)
    }

    fn matcher(&self, data: &[u8]) -> (r: (bool, usize)) {
        proof {
            lemma_digit_run_le_len(data@);
        }
        match_number(data)
    }
}

impl MatchSize for TokenNumber {
    open spec fn spec_size(&self) -> nat {
        0
    }

    fn size(&self) -> usize {
        0
    }
}

} // verus!
