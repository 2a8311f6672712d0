//! Break with a unit value: `break ();` can be written `break;`.

use vstd::prelude::*;
use vstd::string::StringExecFns;

use crate::node::{diag_views, BreakStatementNode, BreakValueKind, PluginDiagnostic, Severity,
    SpecDiagnostic};

verus! {

pub const BREAK_UNIT: &'static str =
    "unnecessary break with a unit value. Consider using `break;`";

/// The message constant, as a character sequence.
pub open spec fn break_unit_msg() -> Seq<char> {
    "unnecessary break with a unit value. Consider using `break;`"@
}

/// What the detector emits for a break statement: one diagnostic when the
/// break carries the unit value, nothing otherwise.
pub open spec fn spec_check_break(b: BreakStatementNode) -> Seq<SpecDiagnostic> {
    if b.value == BreakValueKind::Unit {
        seq![
            SpecDiagnostic {
                stable_ptr: b.stable_ptr,
                message: break_unit_msg(),
                severity: Severity::Warning,
            },
        ]
    } else {
        Seq::empty()
    }
}

/// The detector: flags `break ();`.
pub fn check_break(node: &BreakStatementNode, diagnostics: &mut Vec<PluginDiagnostic>)
    ensures
        diag_views(final(diagnostics)@) == diag_views(old(diagnostics)@) + spec_check_break(
            *node,
        ),
{
    if node.value == BreakValueKind::Unit {
        let d = PluginDiagnostic {
            stable_ptr: node.stable_ptr,
            message: String::from_str(BREAK_UNIT),
            severity: Severity::Warning,
        };
        diagnostics.push(d);
        proof {
            assert(diag_views(diagnostics@) =~= diag_views(old(diagnostics)@) + spec_check_break(
                *node,
            ));
        }
    } else {
        proof {
            assert(diag_views(diagnostics@) =~= diag_views(old(diagnostics)@) + spec_check_break(
                *node,
            ));
        }
    }
}

} // verus!
