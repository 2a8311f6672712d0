//! Double comparison: two relational sub-expressions on the same operands
//! joined by `&&` or `||`, where the combination is reducible to a single
//! operator, redundant, or contradictory.

use vstd::prelude::*;
use vstd::string::StringExecFns;

use crate::node::{diag_views, BinOpKind, BinaryExprNode, CmpOp, LogicalOp, PluginDiagnostic,
    Severity, SpecDiagnostic};
use crate::text::{replace_all, str_eq};

verus! {

pub const SIMPLIFIABLE_COMPARISON: &'static str = "This double comparison can be simplified.";

pub const REDUNDANT_COMPARISON: &'static str =
    "Redundant double comparison found. Consider simplifying it to a single comparison.";

pub const CONTRADICTORY_COMPARISON: &'static str =
    "This double comparison is contradictory and always false.";

/// The message constants, as character sequences.
pub open spec fn simplifiable_comparison_msg() -> Seq<char> {
    "This double comparison can be simplified."@
}

pub open spec fn redundant_comparison_msg() -> Seq<char> {
    "Redundant double comparison found. Consider simplifying it to a single comparison."@
}

pub open spec fn contradictory_comparison_msg() -> Seq<char> {
    "This double comparison is contradictory and always false."@
}

/// The fixed fusion table: the single operator equivalent to the two
/// comparisons joined by `mid`, when one exists. `a < b || a == b` is
/// `a <= b`; `a < b || a > b` is `a != b`; `a <= b && a >= b` is
/// `a == b`; and symmetrically.
pub open spec fn spec_simplified_op(l: CmpOp, r: CmpOp, mid: LogicalOp) -> Option<CmpOp> {
    match mid {
        LogicalOp::OrOr => {
            if (l == CmpOp::Lt && r == CmpOp::Eq) || (l == CmpOp::Eq && r == CmpOp::Lt) {
                Some(CmpOp::Le)
            } else if (l == CmpOp::Gt && r == CmpOp::Eq) || (l == CmpOp::Eq && r == CmpOp::Gt) {
                Some(CmpOp::Ge)
            } else if (l == CmpOp::Lt && r == CmpOp::Gt) || (l == CmpOp::Gt && r == CmpOp::Lt) {
                Some(CmpOp::Ne)
            } else {
                None
            }
        },
        LogicalOp::AndAnd => {
            if (l == CmpOp::Le && r == CmpOp::Ge) || (l == CmpOp::Ge && r == CmpOp::Le) {
                Some(CmpOp::Eq)
            } else {
                None
            }
        },
    }
}

/// Whether one comparison makes the other redundant: the two operators are
/// equal, or one admits exactly what the other admits and more.
pub open spec fn spec_redundant_pair(l: CmpOp, r: CmpOp) -> bool {
    ||| l == r
    ||| (l == CmpOp::Le && r == CmpOp::Lt)
    ||| (l == CmpOp::Lt && r == CmpOp::Le)
    ||| (l == CmpOp::Ge && r == CmpOp::Gt)
    ||| (l == CmpOp::Gt && r == CmpOp::Ge)
    ||| (l == CmpOp::Le && r == CmpOp::Eq)
    ||| (l == CmpOp::Eq && r == CmpOp::Le)
    ||| (l == CmpOp::Ge && r == CmpOp::Eq)
    ||| (l == CmpOp::Eq && r == CmpOp::Ge)
}

/// Whether the two comparisons joined by `mid` can never hold together:
/// mutually exclusive operators under `&&`.
pub open spec fn spec_contradictory(l: CmpOp, r: CmpOp, mid: LogicalOp) -> bool {
    mid == LogicalOp::AndAnd && ((l == CmpOp::Lt && r == CmpOp::Gt) || (l == CmpOp::Gt && r
        == CmpOp::Lt) || (l == CmpOp::Eq && r == CmpOp::Ne) || (l == CmpOp::Ne && r == CmpOp::Eq)
        || (l == CmpOp::Lt && r == CmpOp::Eq) || (l == CmpOp::Eq && r == CmpOp::Lt) || (l
        == CmpOp::Gt && r == CmpOp::Eq) || (l == CmpOp::Eq && r == CmpOp::Gt))
}

/// The source text of a comparison operator.
pub open spec fn spec_op_text(op: CmpOp) -> Seq<char> {
    match op {
        CmpOp::Lt => seq!['<'],
        CmpOp::Gt => seq!['>'],
        CmpOp::Le => seq!['<', '='],
        CmpOp::Ge => seq!['>', '='],
        CmpOp::Eq => seq!['=', '='],
        CmpOp::Ne => seq!['!', '='],
    }
}

/// Whether the node is two comparisons on the same operands joined by a
/// logical connective.
pub open spec fn spec_is_double_comparison(n: BinaryExprNode) -> bool {
    &&& n.op matches BinOpKind::Logic(_)
    &&& n.lhs.cmp is Some
    &&& n.rhs.cmp is Some
    &&& n.lhs.cmp->0.lhs_text@ == n.rhs.cmp->0.lhs_text@
    &&& n.lhs.cmp->0.rhs_text@ == n.rhs.cmp->0.rhs_text@
}

/// What the detector emits for a binary expression: one diagnostic when it
/// is a double comparison, with the message telling whether it can be
/// simplified, is redundant, or is contradictory.
pub open spec fn spec_check_double_comparison(n: BinaryExprNode) -> Seq<SpecDiagnostic> {
    if spec_is_double_comparison(n) {
        let l = n.lhs.cmp->0.op;
        let r = n.rhs.cmp->0.op;
        let mid = n.op->Logic_0;
        if spec_simplified_op(l, r, mid) is Some {
            seq![
                SpecDiagnostic {
                    stable_ptr: n.stable_ptr,
                    message: simplifiable_comparison_msg(),
                    severity: Severity::Warning,
                },
            ]
        } else if spec_contradictory(l, r, mid) {
            seq![
                SpecDiagnostic {
                    stable_ptr: n.stable_ptr,
                    message: contradictory_comparison_msg(),
                    severity: Severity::Warning,
                },
            ]
        } else if spec_redundant_pair(l, r) {
            seq![
                SpecDiagnostic {
                    stable_ptr: n.stable_ptr,
                    message: redundant_comparison_msg(),
                    severity: Severity::Warning,
                },
            ]
        } else {
            Seq::empty()
        }
    } else {
        Seq::empty()
    }
}

/// Executable [`spec_simplified_op`].
pub fn determine_simplified_operator(l: CmpOp, r: CmpOp, mid: LogicalOp) -> (res: Option<CmpOp>)
    ensures
        res == spec_simplified_op(l, r, mid),
{
    match mid {
        LogicalOp::OrOr => {
            if (l == CmpOp::Lt && r == CmpOp::Eq) || (l == CmpOp::Eq && r == CmpOp::Lt) {
                Some(CmpOp::Le)
            } else if (l == CmpOp::Gt && r == CmpOp::Eq) || (l == CmpOp::Eq && r == CmpOp::Gt) {
                Some(CmpOp::Ge)
            } else if (l == CmpOp::Lt && r == CmpOp::Gt) || (l == CmpOp::Gt && r == CmpOp::Lt) {
                Some(CmpOp::Ne)
            } else {
                None
            }
        },
        LogicalOp::AndAnd => {
            if (l == CmpOp::Le && r == CmpOp::Ge) || (l == CmpOp::Ge && r == CmpOp::Le) {
                Some(CmpOp::Eq)
            } else {
                None
            }
        },
    }
}

/// The source text of a comparison operator.
pub fn operator_to_replace(op: CmpOp) -> (r: &'static str)
    ensures
        r@ == spec_op_text(op),
{
    let r: &'static str = match op {
        CmpOp::Lt => "<",
        CmpOp::Gt => ">",
        CmpOp::Le => "<=",
        CmpOp::Ge => ">=",
        CmpOp::Eq => "==",
        CmpOp::Ne => "!=",
    };
    proof {
        reveal_strlit("<");
        reveal_strlit(">");
        reveal_strlit("<=");
        reveal_strlit(">=");
        reveal_strlit("==");
        reveal_strlit("!=");
        assert(r@ =~= spec_op_text(op));
    }
    r
}

/// The detector: flags a double comparison and classifies it.
pub fn check_double_comparison(node: &BinaryExprNode, diagnostics: &mut Vec<PluginDiagnostic>)
    ensures
        diag_views(final(diagnostics)@) == diag_views(old(diagnostics)@)
            + spec_check_double_comparison(*node),
{
    let mid = match node.op {
        BinOpKind::Logic(m) => Some(m),
        _ => None,
    };
    let shape: bool = if mid.is_some() && node.lhs.cmp.is_some() && node.rhs.cmp.is_some() {
        let a = node.lhs.cmp.as_ref().unwrap();
        let b = node.rhs.cmp.as_ref().unwrap();
        str_eq(a.lhs_text.as_str(), b.lhs_text.as_str()) && str_eq(
            a.rhs_text.as_str(),
            b.rhs_text.as_str(),
        )
    } else {
        false
    };
    if shape {
        let m = mid.unwrap();
        let l = node.lhs.cmp.as_ref().unwrap().op;
        let r = node.rhs.cmp.as_ref().unwrap().op;
        let msg: Option<&'static str> = if determine_simplified_operator(l, r, m).is_some() {
            Some(SIMPLIFIABLE_COMPARISON)
        } else if m == LogicalOp::AndAnd && ((l == CmpOp::Lt && r == CmpOp::Gt) || (l == CmpOp::Gt
            && r == CmpOp::Lt) || (l == CmpOp::Eq && r == CmpOp::Ne) || (l == CmpOp::Ne && r
            == CmpOp::Eq) || (l == CmpOp::Lt && r == CmpOp::Eq) || (l == CmpOp::Eq && r
            == CmpOp::Lt) || (l == CmpOp::Gt && r == CmpOp::Eq) || (l == CmpOp::Eq && r
            == CmpOp::Gt)) {
            Some(CONTRADICTORY_COMPARISON)
        } else if l == r || (l == CmpOp::Le && r == CmpOp::Lt) || (l == CmpOp::Lt && r == CmpOp::Le)
            || (l == CmpOp::Ge && r == CmpOp::Gt) || (l == CmpOp::Gt && r == CmpOp::Ge) || (l
            == CmpOp::Le && r == CmpOp::Eq) || (l == CmpOp::Eq && r == CmpOp::Le) || (l
            == CmpOp::Ge && r == CmpOp::Eq) || (l == CmpOp::Eq && r == CmpOp::Ge) {
            Some(REDUNDANT_COMPARISON)
        } else {
            None
        };
        match msg {
            Some(text) => {
                let d = PluginDiagnostic {
                    stable_ptr: node.stable_ptr,
                    message: String::from_str(text),
                    severity: Severity::Warning,
                };
                diagnostics.push(d);
                proof {
                    assert(diag_views(diagnostics@) =~= diag_views(old(diagnostics)@)
                        + spec_check_double_comparison(*node));
                }
            },
            None => {
                proof {
                    assert(diag_views(diagnostics@) =~= diag_views(old(diagnostics)@)
                        + spec_check_double_comparison(*node));
                }
            },
        }
    } else {
        proof {
            assert(diag_views(diagnostics@) =~= diag_views(old(diagnostics)@)
                + spec_check_double_comparison(*node));
        }
    }
}

/// The replacement text for a simplifiable double comparison: the left
/// comparison's text with its operator text replaced by the fused
/// operator. When the node is not a simplifiable double comparison, the
/// node's own text, unchanged.
pub open spec fn spec_fix_double_comparison(n: BinaryExprNode) -> Seq<char> {
    if n.op matches BinOpKind::Logic(_) && n.lhs.cmp is Some && n.rhs.cmp is Some
        && spec_simplified_op(n.lhs.cmp->0.op, n.rhs.cmp->0.op, n.op->Logic_0) is Some {
        replace_all(
            n.lhs.text@,
            spec_op_text(n.lhs.cmp->0.op),
            spec_op_text(spec_simplified_op(n.lhs.cmp->0.op, n.rhs.cmp->0.op, n.op->Logic_0)->0),
        )
    } else {
        n.node_text@
    }
}

} // verus!
