//! Comparison with a boolean literal: `x == true`, `x != false` and the
//! like can be written as `x` or `!x`.

use vstd::prelude::*;
use vstd::string::StringExecFns;

use crate::node::{diag_views, BinOpKind, BinaryExprNode, CmpOp, PluginDiagnostic, Severity,
    SpecDiagnostic};
use crate::text::str_eq;

verus! {

pub const BOOL_COMPARISON: &'static str =
    "unnecessary comparison with a boolean value. Use the variable directly";

/// The message constant, as a character sequence.
pub open spec fn bool_comparison_msg() -> Seq<char> {
    "unnecessary comparison with a boolean value. Use the variable directly"@
}

/// Whether the text is one of the boolean literals.
pub open spec fn spec_is_bool_literal(t: Seq<char>) -> bool {
    t == "true"@ || t == "false"@
}

/// Whether the node is an `==` or `!=` comparison with a boolean literal
/// on either side.
pub open spec fn spec_is_bool_comparison(n: BinaryExprNode) -> bool {
    &&& (n.op == BinOpKind::Cmp(CmpOp::Eq) || n.op == BinOpKind::Cmp(CmpOp::Ne))
    &&& (spec_is_bool_literal(n.lhs.text@) || spec_is_bool_literal(n.rhs.text@))
}

/// `s` negated: `!` prepended.
pub open spec fn spec_negated(s: Seq<char>) -> Seq<char> {
    seq!['!'] + s
}

/// The replacement text for a comparison with a boolean literal, by the
/// truth table: `x == true` is `x`, `x == false` is `!x`, `x != true` is
/// `!x`, `x != false` is `x`, and symmetrically when the literal stands on
/// the left. Meaningful only when one side is a boolean literal.
pub open spec fn spec_bool_fix(lhs: Seq<char>, rhs: Seq<char>, op: CmpOp) -> Seq<char> {
    if lhs == "true"@ {
        if op == CmpOp::Eq {
            rhs
        } else {
            spec_negated(rhs)
        }
    } else if lhs == "false"@ {
        if op == CmpOp::Eq {
            spec_negated(rhs)
        } else {
            rhs
        }
    } else if rhs == "true"@ {
        if op == CmpOp::Eq {
            lhs
        } else {
            spec_negated(lhs)
        }
    } else if rhs == "false"@ {
        if op == CmpOp::Eq {
            spec_negated(lhs)
        } else {
            lhs
        }
    } else {
        Seq::empty()
    }
}

/// What the detector emits for a binary expression: one diagnostic when it
/// compares against a boolean literal with `==` or `!=`.
pub open spec fn spec_check_bool_comparison(n: BinaryExprNode) -> Seq<SpecDiagnostic> {
    if spec_is_bool_comparison(n) {
        seq![
            SpecDiagnostic {
                stable_ptr: n.stable_ptr,
                message: bool_comparison_msg(),
                severity: Severity::Warning,
            },
        ]
    } else {
        Seq::empty()
    }
}

/// Whether the string is the literal `true` or `false`.
pub fn is_bool_literal(t: &str) -> (r: bool)
    ensures
        r == spec_is_bool_literal(t@),
{
    str_eq(t, "true") || str_eq(t, "false")
}

/// The detector: flags an `==` or `!=` comparison with a boolean literal.
pub fn check_bool_comparison(node: &BinaryExprNode, diagnostics: &mut Vec<PluginDiagnostic>)
    ensures
        diag_views(final(diagnostics)@) == diag_views(old(diagnostics)@)
            + spec_check_bool_comparison(*node),
{
    let op_matches = match node.op {
        BinOpKind::Cmp(CmpOp::Eq) => true,
        BinOpKind::Cmp(CmpOp::Ne) => true,
        _ => false,
    };
    if op_matches && (is_bool_literal(node.lhs.text.as_str()) || is_bool_literal(
        node.rhs.text.as_str(),
    )) {
        let d = PluginDiagnostic {
            stable_ptr: node.stable_ptr,
            message: String::from_str(BOOL_COMPARISON),
            severity: Severity::Warning,
        };
        diagnostics.push(d);
        proof {
            assert(diag_views(diagnostics@) =~= diag_views(old(diagnostics)@)
                + spec_check_bool_comparison(*node));
        }
    } else {
        proof {
            assert(diag_views(diagnostics@) =~= diag_views(old(diagnostics)@)
                + spec_check_bool_comparison(*node));
        }
    }
}

/// The replacement text for a comparison with a boolean literal, by the
/// truth table of [`spec_bool_fix`].
pub fn generate_fixed_text_for_comparison(lhs: &str, rhs: &str, op: CmpOp) -> (r: String)
    requires
        spec_is_bool_literal(lhs@) || spec_is_bool_literal(rhs@),
    ensures
        r@ == spec_bool_fix(lhs@, rhs@, op),
{
    let eq = match op {
        CmpOp::Eq => true,
        _ => false,
    };
    if str_eq(lhs, "true") {
        if eq {
            String::from_str(rhs)
        } else {
            negated(rhs)
        }
    } else if str_eq(lhs, "false") {
        if eq {
            negated(rhs)
        } else {
            String::from_str(rhs)
        }
    } else if str_eq(rhs, "true") {
        if eq {
            String::from_str(lhs)
        } else {
            negated(lhs)
        }
    } else {
        if eq {
            negated(lhs)
        } else {
            String::from_str(lhs)
        }
    }
}

/// `s` with `!` prepended.
fn negated(s: &str) -> (r: String)
    ensures
        r@ == spec_negated(s@),
{
    let mut r = String::from_str("!");
    r.append(s);
    proof {
        reveal_strlit("!");
        assert(r@ =~= spec_negated(s@));
    }
    r
}

} // verus!
