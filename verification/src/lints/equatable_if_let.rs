//! Equatable `if let`: an `if let` whose pattern could be a plain `==`
//! comparison. Only the category's message constant lives here; detection
//! needs the host's type information and stays with the host adapter.

use vstd::prelude::*;

verus! {

pub const EQUATABLE_IF_LET: &'static str =
    "`if let` pattern used for an equatable value. Consider using a simple comparison instead";

/// The message constant, as a character sequence.
pub open spec fn equatable_if_let_msg() -> Seq<char> {
    "`if let` pattern used for an equatable value. Consider using a simple comparison instead"@
}

} // verus!
