//! Loop-based pop-front-then-match: a `loop` that pops elements from the
//! front of a span and matches on the result. Only the category's message
//! constant lives here; detection needs the host's semantic arenas and
//! stays with the host adapter.

use vstd::prelude::*;

verus! {

pub const LOOP_MATCH_POP_FRONT: &'static str =
    "you seem to be using a loop for iterating over a span. Consider using `for in`";

/// The message constant, as a character sequence.
pub open spec fn loop_match_pop_front_msg() -> Seq<char> {
    "you seem to be using a loop for iterating over a span. Consider using `for in`"@
}

} // verus!
