//! Collapsible `else { if ... }`: an else clause whose block's first
//! statement is itself an `if` expression can be written `else if`.

use vstd::prelude::*;
use vstd::string::StringExecFns;

use crate::node::{
    diag_views, BlockOrIfNode, ElseClauseNode, ExprBlockNode, ExprKindNode, PluginDiagnostic,
    Severity, SpecDiagnostic, StatementNode,
};

verus! {

pub const COLLAPSIBLE_ELSE_IF: &'static str =
    "Consider using 'else if' instead of 'else { if ... }'";

/// The message constant, as a character sequence.
pub open spec fn collapsible_else_if_msg() -> Seq<char> {
    "Consider using 'else if' instead of 'else { if ... }'"@
}

/// Whether the else clause is already an `else if`.
pub open spec fn spec_is_else_if(clause: ElseClauseNode) -> bool {
    clause.else_block_or_if matches BlockOrIfNode::If
}

/// Whether the block's first statement is an `if` expression.
pub open spec fn spec_first_statement_is_if(block: ExprBlockNode) -> bool {
    block.statements@.len() > 0 && block.statements@[0] == StatementNode::Expr(ExprKindNode::If)
}

/// The diagnostic this lint reports for `clause`.
pub open spec fn spec_collapsible_diag(clause: ElseClauseNode) -> SpecDiagnostic {
    SpecDiagnostic {
        stable_ptr: clause.stable_ptr,
        message: collapsible_else_if_msg(),
        severity: Severity::Warning,
    }
}

/// What the detector emits for `clause`: one diagnostic when the clause is
/// a block whose first statement is an `if`, nothing otherwise.
pub open spec fn spec_check_collapsible_else_if(clause: ElseClauseNode) -> Seq<SpecDiagnostic> {
    match clause.else_block_or_if {
        BlockOrIfNode::If => Seq::empty(),
        BlockOrIfNode::Block(block) => if spec_first_statement_is_if(block) {
            seq![spec_collapsible_diag(clause)]
        } else {
            Seq::empty()
        },
    }
}

/// Whether the else clause is directly an `else if`.
pub fn is_else_if(else_clause: &ElseClauseNode) -> (r: bool)
    ensures
        r == spec_is_else_if(*else_clause),
{
    match &else_clause.else_block_or_if {
        BlockOrIfNode::If => true,
        BlockOrIfNode::Block(_) => false,
    }
}

/// Whether the block's first statement is an `if` expression.
pub fn is_first_statement_if(block_expr: &ExprBlockNode) -> (r: bool)
    ensures
        r == spec_first_statement_is_if(*block_expr),
{
    if block_expr.statements.len() == 0 {
        return false;
    }
    match block_expr.statements[0] {
        StatementNode::Expr(ExprKindNode::If) => true,
        _ => false,
    }
}

/// The detector: flags an else clause that holds a block whose first
/// statement is an `if` expression.
pub fn check_collapsible_else_if(
    else_clause: &ElseClauseNode,
    diagnostics: &mut Vec<PluginDiagnostic>,
)
    ensures
        diag_views(final(diagnostics)@) == diag_views(old(diagnostics)@)
            + spec_check_collapsible_else_if(*else_clause),
{
    let else_if = is_else_if(else_clause);
    if !else_if {
        match &else_clause.else_block_or_if {
            BlockOrIfNode::Block(block_expr) => {
                let is_if = is_first_statement_if(block_expr);
                if is_if {
                    let d = PluginDiagnostic {
                        stable_ptr: else_clause.stable_ptr,
                        message: String::from_str(COLLAPSIBLE_ELSE_IF),
                        severity: Severity::Warning,
                    };
                    diagnostics.push(d);
                    proof {
                        assert(diag_views(diagnostics@) =~= diag_views(old(diagnostics)@)
                            + spec_check_collapsible_else_if(*else_clause));
                    }
                } else {
                    proof {
                        assert(diag_views(diagnostics@) =~= diag_views(old(diagnostics)@)
                            + spec_check_collapsible_else_if(*else_clause));
                    }
                }
            },
            BlockOrIfNode::If => {
                proof {
                    assert(false);
                }
            },
        }
    } else {
        proof {
            assert(diag_views(diagnostics@) =~= diag_views(old(diagnostics)@)
                + spec_check_collapsible_else_if(*else_clause));
        }
    }
}

/// The fix for this lint turns the clause into a direct `else if`;
/// re-running the detector on such a clause emits nothing.
pub proof fn lemma_else_if_not_reflagged(stable_ptr: u64)
    ensures
        spec_check_collapsible_else_if(
            ElseClauseNode { stable_ptr, else_block_or_if: BlockOrIfNode::If },
        ) == Seq::<SpecDiagnostic>::empty(),
{
}

} // verus!
