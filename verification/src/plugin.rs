//! The analysis entry point and the diagnostic classifier.
//!
//! [`CairoLint::diagnostics`] runs every detector over a module's items and
//! returns the flat list of diagnostics. [`diagnostic_kind_from_message`]
//! maps a diagnostic's message — the only channel that carries category
//! identity across the detector/fixer boundary — back to its lint category.

use vstd::prelude::*;

use crate::lints::bool_comparison::{check_bool_comparison, spec_check_bool_comparison,
    bool_comparison_msg, BOOL_COMPARISON};
use crate::lints::breaks::{check_break, spec_check_break, break_unit_msg, BREAK_UNIT};
use crate::lints::collapsible_if_else::{check_collapsible_else_if,
    spec_check_collapsible_else_if, collapsible_else_if_msg, COLLAPSIBLE_ELSE_IF};
use crate::lints::double_comparison::{check_double_comparison, spec_check_double_comparison,
    simplifiable_comparison_msg, redundant_comparison_msg, contradictory_comparison_msg,
    SIMPLIFIABLE_COMPARISON, REDUNDANT_COMPARISON, CONTRADICTORY_COMPARISON};
use crate::lints::double_parens::{check_double_parens, spec_check_double_parens,
    double_parens_msg, DOUBLE_PARENS};
use crate::lints::duplicate_underscore_args::{check_duplicate_underscore_args,
    spec_check_duplicate_underscore_args, duplicate_underscore_args_msg,
    DUPLICATE_UNDERSCORE_ARGS};
use crate::lints::equatable_if_let::{equatable_if_let_msg, EQUATABLE_IF_LET};
use crate::lints::loops::{loop_match_pop_front_msg, LOOP_MATCH_POP_FRONT};
use crate::lints::single_match::{check_single_match, spec_check_single_match,
    destruct_match_msg, match_for_equality_msg, DESTRUCT_MATCH, MATCH_FOR_EQUALITY};
use crate::node::{diag_views, MatchExprNode, ModuleItemModel, ModuleModel, PluginDiagnostic,
    SpecDiagnostic, SyntaxNodeModel};
use crate::text::str_eq;

verus! {

/// The analyzer: a stateless service whose one capability is producing the
/// diagnostics of a module.
#[derive(Debug, Default)]
pub struct CairoLint;

/// The closed set of lint categories.
#[derive(Clone, Copy, PartialEq, Eq, Debug, Structural)]
pub enum CairoLintKind {
    DestructMatch,
    MatchForEquality,
    DoubleComparison,
    DoubleParens,
    EquatableIfLet,
    BreakUnit,
    BoolComparison,
    CollapsibleIfElse,
    DuplicateUnderscoreArgs,
    LoopMatchPopFront,
    Unknown,
}

/// The category a message belongs to: the message is compared against each
/// category's fixed constant; anything unmatched is `Unknown`.
pub open spec fn spec_classify(m: Seq<char>) -> CairoLintKind {
    if m == destruct_match_msg() {
        CairoLintKind::DestructMatch
    } else if m == match_for_equality_msg() {
        CairoLintKind::MatchForEquality
    } else if m == double_parens_msg() {
        CairoLintKind::DoubleParens
    } else if m == simplifiable_comparison_msg() {
        CairoLintKind::DoubleComparison
    } else if m == redundant_comparison_msg() {
        CairoLintKind::DoubleComparison
    } else if m == contradictory_comparison_msg() {
        CairoLintKind::DoubleComparison
    } else if m == break_unit_msg() {
        CairoLintKind::BreakUnit
    } else if m == equatable_if_let_msg() {
        CairoLintKind::EquatableIfLet
    } else if m == bool_comparison_msg() {
        CairoLintKind::BoolComparison
    } else if m == collapsible_else_if_msg() {
        CairoLintKind::CollapsibleIfElse
    } else if m == duplicate_underscore_args_msg() {
        CairoLintKind::DuplicateUnderscoreArgs
    } else if m == loop_match_pop_front_msg() {
        CairoLintKind::LoopMatchPopFront
    } else {
        CairoLintKind::Unknown
    }
}

/// Maps a diagnostic's message back to its lint category.
pub fn diagnostic_kind_from_message(message: &str) -> (k: CairoLintKind)
    ensures
        k == spec_classify(message@),
{
    if str_eq(message, DESTRUCT_MATCH) {
        CairoLintKind::DestructMatch
    } else if str_eq(message, MATCH_FOR_EQUALITY) {
        CairoLintKind::MatchForEquality
    } else if str_eq(message, DOUBLE_PARENS) {
        CairoLintKind::DoubleParens
    } else if str_eq(message, SIMPLIFIABLE_COMPARISON) {
        CairoLintKind::DoubleComparison
    } else if str_eq(message, REDUNDANT_COMPARISON) {
        CairoLintKind::DoubleComparison
    } else if str_eq(message, CONTRADICTORY_COMPARISON) {
        CairoLintKind::DoubleComparison
    } else if str_eq(message, BREAK_UNIT) {
        CairoLintKind::BreakUnit
    } else if str_eq(message, EQUATABLE_IF_LET) {
        CairoLintKind::EquatableIfLet
    } else if str_eq(message, BOOL_COMPARISON) {
        CairoLintKind::BoolComparison
    } else if str_eq(message, COLLAPSIBLE_ELSE_IF) {
        CairoLintKind::CollapsibleIfElse
    } else if str_eq(message, DUPLICATE_UNDERSCORE_ARGS) {
        CairoLintKind::DuplicateUnderscoreArgs
    } else if str_eq(message, LOOP_MATCH_POP_FRONT) {
        CairoLintKind::LoopMatchPopFront
    } else {
        CairoLintKind::Unknown
    }
}

/// Category round-trip: every category's message constant classifies back
/// to its own category — never `Unknown`. Classification is a pure
/// function of the message, so repeated calls always agree.
pub proof fn lemma_category_messages_round_trip()
    ensures
        spec_classify(destruct_match_msg()) == CairoLintKind::DestructMatch,
        spec_classify(match_for_equality_msg()) == CairoLintKind::MatchForEquality,
        spec_classify(double_parens_msg()) == CairoLintKind::DoubleParens,
        spec_classify(simplifiable_comparison_msg()) == CairoLintKind::DoubleComparison,
        spec_classify(redundant_comparison_msg()) == CairoLintKind::DoubleComparison,
        spec_classify(contradictory_comparison_msg()) == CairoLintKind::DoubleComparison,
        spec_classify(break_unit_msg()) == CairoLintKind::BreakUnit,
        spec_classify(equatable_if_let_msg()) == CairoLintKind::EquatableIfLet,
        spec_classify(bool_comparison_msg()) == CairoLintKind::BoolComparison,
        spec_classify(collapsible_else_if_msg()) == CairoLintKind::CollapsibleIfElse,
        spec_classify(duplicate_underscore_args_msg()) == CairoLintKind::DuplicateUnderscoreArgs,
        spec_classify(loop_match_pop_front_msg()) == CairoLintKind::LoopMatchPopFront,
{
    reveal_strlit(
        "you seem to be trying to destructure a single pattern. Consider using `if let` instead of `match`",
    );
    reveal_strlit("you seem to be trying to use `match` for an equality check. Consider using `if`");
    reveal_strlit("unnecessary double parentheses found. Consider removing them.");
    reveal_strlit("This double comparison can be simplified.");
    reveal_strlit(
        "Redundant double comparison found. Consider simplifying it to a single comparison.",
    );
    reveal_strlit("This double comparison is contradictory and always false.");
    reveal_strlit("unnecessary break with a unit value. Consider using `break;`");
    reveal_strlit(
        "`if let` pattern used for an equatable value. Consider using a simple comparison instead",
    );
    reveal_strlit("unnecessary comparison with a boolean value. Use the variable directly");
    reveal_strlit("Consider using 'else if' instead of 'else { if ... }'");
    reveal_strlit("duplicate parameter names differing only by a leading underscore");
    reveal_strlit("you seem to be using a loop for iterating over a span. Consider using `for in`");
    assert(destruct_match_msg().len() == 97);
    assert(match_for_equality_msg().len() == 79);
    assert(double_parens_msg().len() == 61);
    assert(simplifiable_comparison_msg().len() == 41);
    assert(redundant_comparison_msg().len() == 82);
    assert(contradictory_comparison_msg().len() == 57);
    assert(break_unit_msg().len() == 60);
    assert(equatable_if_let_msg().len() == 88);
    assert(bool_comparison_msg().len() == 70);
    assert(collapsible_else_if_msg().len() == 53);
    assert(duplicate_underscore_args_msg().len() == 64);
    assert(loop_match_pop_front_msg().len() == 78);
}

/// Every message constant differs from every other: the classifier table
/// is collision-free.
pub proof fn lemma_category_messages_unique()
    ensures
        destruct_match_msg() != match_for_equality_msg(),
        destruct_match_msg() != double_parens_msg(),
        simplifiable_comparison_msg() != redundant_comparison_msg(),
        simplifiable_comparison_msg() != contradictory_comparison_msg(),
        redundant_comparison_msg() != contradictory_comparison_msg(),
        break_unit_msg() != bool_comparison_msg(),
        collapsible_else_if_msg() != equatable_if_let_msg(),
        duplicate_underscore_args_msg() != loop_match_pop_front_msg(),
{
    lemma_category_messages_round_trip();
    reveal_strlit("This double comparison can be simplified.");
    reveal_strlit(
        "Redundant double comparison found. Consider simplifying it to a single comparison.",
    );
    reveal_strlit("This double comparison is contradictory and always false.");
    assert(simplifiable_comparison_msg().len() == 41);
    assert(redundant_comparison_msg().len() == 82);
    assert(contradictory_comparison_msg().len() == 57);
}

/// What one dispatched syntax node contributes.
pub open spec fn spec_node_diags(n: SyntaxNodeModel) -> Seq<SpecDiagnostic> {
    match n {
        SyntaxNodeModel::Parenthesized { stable_ptr, expr } => spec_check_double_parens(
            stable_ptr,
            expr,
        ),
        SyntaxNodeModel::BreakStatement(b) => spec_check_break(b),
        SyntaxNodeModel::Binary(b) => spec_check_bool_comparison(b)
            + spec_check_double_comparison(b),
        SyntaxNodeModel::ElseClause(c) => spec_check_collapsible_else_if(c),
        SyntaxNodeModel::Other => Seq::empty(),
    }
}

/// What a list of syntax nodes contributes, in order.
pub open spec fn spec_nodes_diags(ns: Seq<SyntaxNodeModel>) -> Seq<SpecDiagnostic>
    decreases ns.len(),
{
    if ns.len() == 0 {
        Seq::empty()
    } else {
        spec_nodes_diags(ns.drop_last()) + spec_node_diags(ns.last())
    }
}

/// What a list of match expressions contributes, in order.
pub open spec fn spec_matches_diags(ms: Seq<MatchExprNode>) -> Seq<SpecDiagnostic>
    decreases ms.len(),
{
    if ms.len() == 0 {
        Seq::empty()
    } else {
        spec_matches_diags(ms.drop_last()) + spec_check_single_match(ms.last())
    }
}

/// What one module item contributes: for a function, first its signature
/// check, then its body's match expressions, then its dispatched syntax
/// descendants.
pub open spec fn spec_item_diags(item: ModuleItemModel) -> Seq<SpecDiagnostic> {
    match item {
        ModuleItemModel::Constant { descendants } => spec_nodes_diags(descendants@),
        ModuleItemModel::FreeFunction { params, body_matches, descendants } =>
            spec_check_duplicate_underscore_args(params@) + spec_matches_diags(body_matches@)
            + spec_nodes_diags(descendants@),
        ModuleItemModel::Impl { body_matches, descendants } => spec_matches_diags(body_matches@)
            + spec_nodes_diags(descendants@),
        ModuleItemModel::Other => Seq::empty(),
    }
}

/// What a whole module's item list contributes, in order.
pub open spec fn spec_module_diags(items: Seq<ModuleItemModel>) -> Seq<SpecDiagnostic>
    decreases items.len(),
{
    if items.len() == 0 {
        Seq::empty()
    } else {
        spec_module_diags(items.drop_last()) + spec_item_diags(items.last())
    }
}

/// Runs the detectors that dispatch on syntax-node kind over each node.
fn process_nodes(nodes: &Vec<SyntaxNodeModel>, diags: &mut Vec<PluginDiagnostic>)
    ensures
        diag_views(final(diags)@) == diag_views(old(diags)@) + spec_nodes_diags(nodes@),
{
    let mut k: usize = 0;
    proof {
        assert(nodes@.take(0) =~= Seq::<SyntaxNodeModel>::empty());
        assert(diag_views(diags@) =~= diag_views(old(diags)@) + spec_nodes_diags(nodes@.take(0)));
    }
    while k < nodes.len()
        invariant
            0 <= k <= nodes@.len(),
            diag_views(diags@) == diag_views(old(diags)@) + spec_nodes_diags(
                nodes@.take(k as int),
            ),
        decreases nodes.len() - k,
    {
        match &nodes[k] {
            SyntaxNodeModel::Parenthesized { stable_ptr, expr } => {
                check_double_parens(*stable_ptr, expr, diags);
            },
            SyntaxNodeModel::BreakStatement(b) => {
                check_break(b, diags);
            },
            SyntaxNodeModel::Binary(b) => {
                check_bool_comparison(b, diags);
                check_double_comparison(b, diags);
            },
            SyntaxNodeModel::ElseClause(c) => {
                check_collapsible_else_if(c, diags);
            },
            SyntaxNodeModel::Other => {},
        }
        proof {
            assert(nodes@.take(k as int + 1).drop_last() =~= nodes@.take(k as int));
            assert(nodes@.take(k as int + 1).last() == nodes@[k as int]);
            assert(diag_views(diags@) =~= diag_views(old(diags)@) + spec_nodes_diags(
                nodes@.take(k as int + 1),
            ));
        }
        k = k + 1;
    }
    proof {
        assert(nodes@.take(nodes@.len() as int) =~= nodes@);
    }
}

/// Runs the destructuring-match detector over each match expression.
fn process_matches(ms: &Vec<MatchExprNode>, diags: &mut Vec<PluginDiagnostic>)
    ensures
        diag_views(final(diags)@) == diag_views(old(diags)@) + spec_matches_diags(ms@),
{
    let mut k: usize = 0;
    proof {
        assert(ms@.take(0) =~= Seq::<MatchExprNode>::empty());
        assert(diag_views(diags@) =~= diag_views(old(diags)@) + spec_matches_diags(ms@.take(0)));
    }
    while k < ms.len()
        invariant
            0 <= k <= ms@.len(),
            diag_views(diags@) == diag_views(old(diags)@) + spec_matches_diags(ms@.take(k as int)),
        decreases ms.len() - k,
    {
        check_single_match(&ms[k], diags);
        proof {
            assert(ms@.take(k as int + 1).drop_last() =~= ms@.take(k as int));
            assert(ms@.take(k as int + 1).last() == ms@[k as int]);
            assert(diag_views(diags@) =~= diag_views(old(diags)@) + spec_matches_diags(
                ms@.take(k as int + 1),
            ));
        }
        k = k + 1;
    }
    proof {
        assert(ms@.take(ms@.len() as int) =~= ms@);
    }
}

impl CairoLint {
    /// The analysis pass: walks the module's items and collects every
    /// detector's diagnostics, in item order.
    pub fn diagnostics(&self, module: &ModuleModel) -> (diags: Vec<PluginDiagnostic>)
        ensures
            diag_views(diags@) == spec_module_diags(module.items@),
    {
        let mut diags: Vec<PluginDiagnostic> = Vec::new();
        let mut j: usize = 0;
        proof {
            assert(module.items@.take(0) =~= Seq::<ModuleItemModel>::empty());
            assert(diag_views(diags@) =~= spec_module_diags(module.items@.take(0)));
        }
        while j < module.items.len()
            invariant
                0 <= j <= module.items@.len(),
                diag_views(diags@) == spec_module_diags(module.items@.take(j as int)),
            decreases module.items.len() - j,
        {
            match &module.items[j] {
                ModuleItemModel::Constant { descendants } => {
                    process_nodes(descendants, &mut diags);
                },
                ModuleItemModel::FreeFunction { params, body_matches, descendants } => {
                    check_duplicate_underscore_args(params, &mut diags);
                    process_matches(body_matches, &mut diags);
                    process_nodes(descendants, &mut diags);
                },
                ModuleItemModel::Impl { body_matches, descendants } => {
                    process_matches(body_matches, &mut diags);
                    process_nodes(descendants, &mut diags);
                },
                ModuleItemModel::Other => {},
            }
            proof {
                assert(module.items@.take(j as int + 1).drop_last() =~= module.items@.take(
                    j as int,
                ));
                assert(module.items@.take(j as int + 1).last() == module.items@[j as int]);
                assert(diag_views(diags@) =~= spec_module_diags(module.items@.take(j as int + 1)));
            }
            j = j + 1;
        }
        proof {
            assert(module.items@.take(module.items@.len() as int) =~= module.items@);
        }
        diags
    }
}

} // verus!
