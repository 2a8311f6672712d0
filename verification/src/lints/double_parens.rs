//! Double parentheses: an expression parenthesized more than once.

use vstd::prelude::*;
use vstd::string::StringExecFns;

use crate::node::{diag_views, ExprParens, PluginDiagnostic, Severity, SpecDiagnostic};

verus! {

pub const DOUBLE_PARENS: &'static str =
    "unnecessary double parentheses found. Consider removing them.";

/// The message constant, as a character sequence.
pub open spec fn double_parens_msg() -> Seq<char> {
    "unnecessary double parentheses found. Consider removing them."@
}

/// Whether the expression is parenthesized more than once.
pub open spec fn spec_is_double_parens(e: ExprParens) -> bool {
    match e {
        ExprParens::Paren(inner) => *inner matches ExprParens::Paren(_),
        ExprParens::Inner(_) => false,
    }
}

/// The trivia-free text of the first non-parenthesized expression inside.
pub open spec fn spec_innermost_text(e: ExprParens) -> Seq<char>
    decreases e,
{
    match e {
        ExprParens::Paren(inner) => spec_innermost_text(*inner),
        ExprParens::Inner(t) => t@,
    }
}

/// What the detector emits for a parenthesized expression at `stable_ptr`.
pub open spec fn spec_check_double_parens(stable_ptr: u64, e: ExprParens) -> Seq<SpecDiagnostic> {
    if spec_is_double_parens(e) {
        seq![
            SpecDiagnostic {
                stable_ptr,
                message: double_parens_msg(),
                severity: Severity::Warning,
            },
        ]
    } else {
        Seq::empty()
    }
}

/// The detector: flags an expression parenthesized more than once.
pub fn check_double_parens(
    stable_ptr: u64,
    expr: &ExprParens,
    diagnostics: &mut Vec<PluginDiagnostic>,
)
    ensures
        diag_views(final(diagnostics)@) == diag_views(old(diagnostics)@)
            + spec_check_double_parens(stable_ptr, *expr),
{
    let double = match expr {
        ExprParens::Paren(inner) => match &**inner {
            ExprParens::Paren(_) => true,
            ExprParens::Inner(_) => false,
        },
        ExprParens::Inner(_) => false,
    };
    if double {
        let d = PluginDiagnostic {
            stable_ptr,
            message: String::from_str(DOUBLE_PARENS),
            severity: Severity::Warning,
        };
        diagnostics.push(d);
        proof {
            assert(diag_views(diagnostics@) =~= diag_views(old(diagnostics)@)
                + spec_check_double_parens(stable_ptr, *expr));
        }
    } else {
        proof {
            assert(diag_views(diagnostics@) =~= diag_views(old(diagnostics)@)
                + spec_check_double_parens(stable_ptr, *expr));
        }
    }
}

/// The fix for this lint replaces the whole parenthesized expression with
/// its innermost expression, which is not parenthesized; re-running the
/// detector on that result emits nothing.
pub proof fn lemma_double_parens_fix_not_reflagged(stable_ptr: u64, s: String)
    ensures
        spec_check_double_parens(stable_ptr, ExprParens::Inner(s))
            == Seq::<SpecDiagnostic>::empty(),
{
}

} // verus!
