//! Destructuring match: a two-arm match that destructures a single
//! pattern, reducible to `if let`.

use vstd::prelude::*;
use vstd::string::StringExecFns;

use crate::node::{diag_views, MatchExprNode, PatternNode, PluginDiagnostic, Severity,
    SpecDiagnostic};

verus! {

pub const DESTRUCT_MATCH: &'static str =
    "you seem to be trying to destructure a single pattern. Consider using `if let` instead of `match`";

/// Reported when a match is really an equality check. Recognizing that
/// shape needs the host's type information, so detection stays with the
/// host adapter; the constant lives here for the classifier.
pub const MATCH_FOR_EQUALITY: &'static str =
    "you seem to be trying to use `match` for an equality check. Consider using `if`";

/// The message constants, as character sequences.
pub open spec fn destruct_match_msg() -> Seq<char> {
    "you seem to be trying to destructure a single pattern. Consider using `if let` instead of `match`"@
}

pub open spec fn match_for_equality_msg() -> Seq<char> {
    "you seem to be trying to use `match` for an equality check. Consider using `if`"@
}

pub open spec fn spec_is_underscore(p: PatternNode) -> bool {
    p matches PatternNode::Underscore
}

pub open spec fn spec_is_enum(p: PatternNode) -> bool {
    p matches PatternNode::Enum { .. }
}

pub open spec fn spec_is_struct(p: PatternNode) -> bool {
    p matches PatternNode::Struct { .. }
}

/// The arm-pattern shapes a destructuring match can have: a wildcard on
/// one side with an enum or struct pattern on the other, or two enum
/// patterns.
pub open spec fn spec_destruct_pair_ok(p1: PatternNode, p2: PatternNode) -> bool {
    ||| (spec_is_underscore(p1) && spec_is_enum(p2))
    ||| (spec_is_enum(p1) && spec_is_underscore(p2))
    ||| (spec_is_underscore(p1) && spec_is_struct(p2))
    ||| (spec_is_struct(p1) && spec_is_underscore(p2))
    ||| (spec_is_enum(p1) && spec_is_enum(p2))
}

/// What the detector flags: a two-arm match whose arms fit
/// [`spec_destruct_pair_ok`], where the arm that would be dropped by the
/// `if let` rewrite does nothing (its body is the unit expression).
pub open spec fn spec_is_destruct_match(m: MatchExprNode) -> bool {
    &&& m.arms@.len() == 2
    &&& spec_destruct_pair_ok(m.arms@[0].pattern, m.arms@[1].pattern)
    &&& (if spec_is_underscore(m.arms@[0].pattern) {
        m.arms@[0].body_is_unit
    } else if spec_is_underscore(m.arms@[1].pattern) {
        m.arms@[1].body_is_unit
    } else {
        m.arms@[0].body_is_unit || m.arms@[1].body_is_unit
    })
}

/// What the detector emits for a match expression.
pub open spec fn spec_check_single_match(m: MatchExprNode) -> Seq<SpecDiagnostic> {
    if spec_is_destruct_match(m) {
        seq![
            SpecDiagnostic {
                stable_ptr: m.stable_ptr,
                message: destruct_match_msg(),
                severity: Severity::Warning,
            },
        ]
    } else {
        Seq::empty()
    }
}

pub fn is_underscore(p: &PatternNode) -> (r: bool)
    ensures
        r == spec_is_underscore(*p),
{
    match p {
        PatternNode::Underscore => true,
        _ => false,
    }
}

pub fn is_enum(p: &PatternNode) -> (r: bool)
    ensures
        r == spec_is_enum(*p),
{
    match p {
        PatternNode::Enum { .. } => true,
        _ => false,
    }
}

pub fn is_struct(p: &PatternNode) -> (r: bool)
    ensures
        r == spec_is_struct(*p),
{
    match p {
        PatternNode::Struct { .. } => true,
        _ => false,
    }
}

/// The detector: flags a two-arm match that destructures a single pattern
/// and whose dropped arm does nothing.
pub fn check_single_match(match_expr: &MatchExprNode, diagnostics: &mut Vec<PluginDiagnostic>)
    ensures
        diag_views(final(diagnostics)@) == diag_views(old(diagnostics)@) + spec_check_single_match(
            *match_expr,
        ),
{
    let flagged: bool = if match_expr.arms.len() == 2 {
        let p1 = &match_expr.arms[0].pattern;
        let p2 = &match_expr.arms[1].pattern;
        let pair_ok = (is_underscore(p1) && is_enum(p2)) || (is_enum(p1) && is_underscore(p2)) || (
        is_underscore(p1) && is_struct(p2)) || (is_struct(p1) && is_underscore(p2)) || (is_enum(p1)
            && is_enum(p2));
        if pair_ok {
            if is_underscore(p1) {
                match_expr.arms[0].body_is_unit
            } else if is_underscore(p2) {
                match_expr.arms[1].body_is_unit
            } else {
                match_expr.arms[0].body_is_unit || match_expr.arms[1].body_is_unit
            }
        } else {
            false
        }
    } else {
        false
    };
    if flagged {
        let d = PluginDiagnostic {
            stable_ptr: match_expr.stable_ptr,
            message: String::from_str(DESTRUCT_MATCH),
            severity: Severity::Warning,
        };
        diagnostics.push(d);
        proof {
            assert(diag_views(diagnostics@) =~= diag_views(old(diagnostics)@)
                + spec_check_single_match(*match_expr));
        }
    } else {
        proof {
            assert(diag_views(diagnostics@) =~= diag_views(old(diagnostics)@)
                + spec_check_single_match(*match_expr));
        }
    }
}

} // verus!
