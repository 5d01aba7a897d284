//! A multi-character fixed-operator matcher over character input: the
//! 4-character compound operator `::<>`.

use vstd::prelude::*;
use vstd::slice::slice_index_get;
use crate::matcher::{Match, MatchSize};

verus! {

/// Whether the 4-character operator `::<>` stands at the front of `data`.
pub open spec fn spec_turbofish(data: Seq<char>) -> bool {
    data.len() >= 4 && data[0] == ':' && data[1] == ':' && data[2] == '<' && data[3] == '>'
}

/// The compound operator `::<>`: a fixed pattern of 4 characters, with
/// exact size 4.
pub struct Turbofish;

impl Match<char> for Turbofish {
    open spec fn spec_matches(&self, data: Seq<char>) -> bool {
        spec_turbofish(data)
    }

    open spec fn spec_consumed(&self, data: Seq<char>) -> nat {
        if spec_turbofish(data) {
            4
        } else {
            0
        }
    }

    fn matcher(&self, data: &[char]) -> (r: (bool, usize)) {
        if data.len() < 4 {
            return (false, 0);
        }
        if *slice_index_get(data, 0) == ':' && *slice_index_get(data, 1) == ':'
            && *slice_index_get(data, 2) == '<' && *slice_index_get(data, 3) == '>' {
            return (true, 4);
        }
        (false, 0)
    }
}

impl MatchSize for Turbofish {
    open spec fn spec_size(&self) -> nat {
        4
    }

    fn size(&self) -> usize {
        4
    }
}

} // verus!
