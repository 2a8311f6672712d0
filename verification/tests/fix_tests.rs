use cairo_lint_core::fix::{fix_semantic_diagnostic, Fixer};
use cairo_lint_core::node::{
    BinOpKind, BinaryExprNode, CmpDetail, CmpOp, ExprParens, FixNode, LogicalOp, MatchArmNode,
    MatchExprNode, PatternNode, SemanticDiagnosticModel,
};

fn paren(e: ExprParens) -> ExprParens {
    ExprParens::Paren(Box::new(e))
}

fn inner(t: &str) -> ExprParens {
    ExprParens::Inner(t.to_string())
}

fn cmp_side(text: &str, op: Option<CmpOp>, l: &str, r: &str) -> cairo_lint_core::node::CmpSide {
    cairo_lint_core::node::CmpSide {
        text: text.to_string(),
        cmp: op.map(|op| CmpDetail { op, lhs_text: l.to_string(), rhs_text: r.to_string() }),
    }
}

fn bool_cmp(lhs: &str, rhs: &str, op: CmpOp) -> BinaryExprNode {
    BinaryExprNode {
        stable_ptr: 1,
        node_text: format!("{} ? {}", lhs, rhs),
        op: BinOpKind::Cmp(op),
        lhs: cmp_side(lhs, None, "", ""),
        rhs: cmp_side(rhs, None, "", ""),
    }
}

#[test]
fn double_parens_fix_strips_all_layers() {
    let e = paren(paren(inner("x + y")));
    assert_eq!(Fixer.fix_double_parens("((x + y))", &e), "x + y");
}

#[test]
fn double_parens_fix_three_layers() {
    let e = paren(paren(paren(inner("a"))));
    assert_eq!(Fixer.fix_double_parens("(((a)))", &e), "a");
}

#[test]
fn double_parens_fix_keeps_leading_whitespace() {
    let e = paren(paren(inner("a")));
    assert_eq!(Fixer.fix_double_parens("  ((a))", &e), "  a");
}

#[test]
fn break_unit_fix_rewrites_literal() {
    assert_eq!(Fixer.fix_break_unit("break ();"), "break;");
}

#[test]
fn break_unit_fix_inside_statement() {
    assert_eq!(Fixer.fix_break_unit("loop { break (); }"), "loop { break; }");
}

#[test]
fn break_with_value_untouched() {
    assert_eq!(Fixer.fix_break_unit("break (5);"), "break (5);");
}

#[test]
fn break_unit_fix_is_idempotent() {
    let once = Fixer.fix_break_unit("break ();");
    assert_eq!(Fixer.fix_break_unit(&once), once);
}

#[test]
fn bool_comparison_eq_true() {
    assert_eq!(Fixer.fix_bool_comparison(&bool_cmp("x", "true", CmpOp::Eq)), "x");
}

#[test]
fn bool_comparison_eq_false() {
    assert_eq!(Fixer.fix_bool_comparison(&bool_cmp("x", "false", CmpOp::Eq)), "!x");
}

#[test]
fn bool_comparison_ne_false() {
    assert_eq!(Fixer.fix_bool_comparison(&bool_cmp("x", "false", CmpOp::Ne)), "x");
}

#[test]
fn bool_comparison_ne_true() {
    assert_eq!(Fixer.fix_bool_comparison(&bool_cmp("x", "true", CmpOp::Ne)), "!x");
}

#[test]
fn bool_comparison_literal_on_left() {
    assert_eq!(Fixer.fix_bool_comparison(&bool_cmp("true", "x", CmpOp::Eq)), "x");
    assert_eq!(Fixer.fix_bool_comparison(&bool_cmp("false", "x", CmpOp::Eq)), "!x");
}

fn double_cmp(l: CmpOp, r: CmpOp, mid: LogicalOp, lhs_text: &str) -> BinaryExprNode {
    BinaryExprNode {
        stable_ptr: 2,
        node_text: format!("{} .. b", lhs_text),
        op: BinOpKind::Logic(mid),
        lhs: cmp_side(lhs_text, Some(l), "a", "b"),
        rhs: cmp_side("a == b", Some(r), "a", "b"),
    }
}

#[test]
fn double_comparison_lt_or_eq_fuses_to_le() {
    let n = double_cmp(CmpOp::Lt, CmpOp::Eq, LogicalOp::OrOr, "a < b");
    assert_eq!(Fixer.fix_double_comparison(&n), "a <= b");
}

#[test]
fn double_comparison_gt_or_eq_fuses_to_ge() {
    let n = double_cmp(CmpOp::Gt, CmpOp::Eq, LogicalOp::OrOr, "a > b");
    assert_eq!(Fixer.fix_double_comparison(&n), "a >= b");
}

#[test]
fn double_comparison_lt_or_gt_fuses_to_ne() {
    let n = double_cmp(CmpOp::Lt, CmpOp::Gt, LogicalOp::OrOr, "a < b");
    assert_eq!(Fixer.fix_double_comparison(&n), "a != b");
}

#[test]
fn double_comparison_le_and_ge_fuses_to_eq() {
    let n = double_cmp(CmpOp::Le, CmpOp::Ge, LogicalOp::AndAnd, "a <= b");
    assert_eq!(Fixer.fix_double_comparison(&n), "a == b");
}

#[test]
fn double_comparison_contradiction_left_unchanged() {
    let mut n = double_cmp(CmpOp::Lt, CmpOp::Gt, LogicalOp::AndAnd, "a < b");
    n.node_text = "a < b && a > b".to_string();
    assert_eq!(Fixer.fix_double_comparison(&n), "a < b && a > b");
}

fn destruct_match(trivia: &str, node_text: &str) -> MatchExprNode {
    MatchExprNode {
        stable_ptr: 3,
        node_text: node_text.to_string(),
        scrutinee_text: "opt_val".to_string(),
        arms: vec![
            MatchArmNode {
                pattern: PatternNode::Enum {
                    text: "Some(v)".to_string(),
                    trivia: trivia.to_string(),
                },
                body_text: "v".to_string(),
                body_is_unit: false,
            },
            MatchArmNode {
                pattern: PatternNode::Underscore,
                body_text: "()".to_string(),
                body_is_unit: true,
            },
        ],
    }
}

#[test]
fn destruct_match_fix_builds_if_let() {
    let m = destruct_match("", "match opt_val { ... }");
    assert_eq!(Fixer.fix_destruct_match(&m), "if let Some(v) = opt_val { v }");
}

#[test]
fn destruct_match_fix_keeps_comment_above_pattern() {
    let m = destruct_match("// keep this\n", "    match opt_val { ... }");
    assert_eq!(
        Fixer.fix_destruct_match(&m),
        "    // keep this\n    if let Some(v) = opt_val { v }"
    );
}

#[test]
fn destruct_match_fix_wildcard_first() {
    let m = MatchExprNode {
        stable_ptr: 3,
        node_text: "match opt_val { ... }".to_string(),
        scrutinee_text: "opt_val".to_string(),
        arms: vec![
            MatchArmNode {
                pattern: PatternNode::Underscore,
                body_text: "()".to_string(),
                body_is_unit: true,
            },
            MatchArmNode {
                pattern: PatternNode::Enum { text: "Ok(x)".to_string(), trivia: String::new() },
                body_text: "x".to_string(),
                body_is_unit: false,
            },
        ],
    };
    assert_eq!(Fixer.fix_destruct_match(&m), "if let Ok(x) = opt_val { x }");
}

#[test]
fn unused_variable_fix_prefixes_underscore() {
    assert_eq!(Fixer.fix_unused_variable("shadow"), "_shadow");
}

#[test]
fn plugin_dispatch_break_unit() {
    let node = FixNode::BreakUnit { node_text: "break ();".to_string() };
    let fix = Fixer.fix_plugin_diagnostic(
        "unnecessary break with a unit value. Consider using `break;`",
        &node,
    );
    assert_eq!(fix, Some("break;".to_string()));
}

#[test]
fn plugin_dispatch_unknown_message_has_no_fix() {
    let node = FixNode::Other;
    assert_eq!(Fixer.fix_plugin_diagnostic("some unrelated host message", &node), None);
}

#[test]
fn plugin_dispatch_category_without_fixer() {
    let node = FixNode::Other;
    let fix = Fixer.fix_plugin_diagnostic(
        "duplicate parameter names differing only by a leading underscore",
        &node,
    );
    assert_eq!(fix, None);
}

#[test]
fn semantic_fix_unused_variable() {
    let d = SemanticDiagnosticModel::UnusedVariable { name_text: "count".to_string() };
    assert_eq!(fix_semantic_diagnostic(&d), Some("_count".to_string()));
}

#[test]
fn semantic_fix_unused_import_handled_elsewhere() {
    assert_eq!(fix_semantic_diagnostic(&SemanticDiagnosticModel::UnusedImport), None);
}

#[test]
fn semantic_fix_other_kind_has_no_fix() {
    assert_eq!(fix_semantic_diagnostic(&SemanticDiagnosticModel::Other), None);
}

#[test]
fn semantic_fix_dispatches_plugin_diagnostic() {
    let d = SemanticDiagnosticModel::Plugin {
        message: "unnecessary double parentheses found. Consider removing them.".to_string(),
        node: FixNode::DoubleParens {
            node_text: "((x + y))".to_string(),
            expr: paren(paren(inner("x + y"))),
        },
    };
    assert_eq!(fix_semantic_diagnostic(&d), Some("x + y".to_string()));
}
