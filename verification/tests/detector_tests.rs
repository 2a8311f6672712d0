use cairo_lint_core::lints::bool_comparison::{check_bool_comparison, BOOL_COMPARISON};
use cairo_lint_core::lints::breaks::{check_break, BREAK_UNIT};
use cairo_lint_core::lints::collapsible_if_else::{
    check_collapsible_else_if, is_else_if, is_first_statement_if, COLLAPSIBLE_ELSE_IF,
};
use cairo_lint_core::lints::double_comparison::{
    check_double_comparison, determine_simplified_operator, operator_to_replace,
    CONTRADICTORY_COMPARISON, REDUNDANT_COMPARISON, SIMPLIFIABLE_COMPARISON,
};
use cairo_lint_core::lints::double_parens::{check_double_parens, DOUBLE_PARENS};
use cairo_lint_core::lints::duplicate_underscore_args::{
    check_duplicate_underscore_args, DUPLICATE_UNDERSCORE_ARGS,
};
use cairo_lint_core::lints::single_match::{check_single_match, DESTRUCT_MATCH};
use cairo_lint_core::node::{
    BinOpKind, BinaryExprNode, BlockOrIfNode, BreakStatementNode, BreakValueKind, CmpDetail,
    CmpOp, CmpSide, ElseClauseNode, ExprBlockNode, ExprKindNode, ExprParens, LogicalOp,
    MatchArmNode, MatchExprNode, ModuleItemModel, ModuleModel, ParamNode, PatternNode,
    PluginDiagnostic, StatementNode, SyntaxNodeModel,
};
use cairo_lint_core::plugin::CairoLint;

fn else_clause_with_if_first() -> ElseClauseNode {
    ElseClauseNode {
        stable_ptr: 7,
        else_block_or_if: BlockOrIfNode::Block(ExprBlockNode {
            statements: vec![StatementNode::Expr(ExprKindNode::If), StatementNode::Other],
        }),
    }
}

#[test]
fn collapsible_detector_flags_nested_if() {
    let mut diags: Vec<PluginDiagnostic> = Vec::new();
    check_collapsible_else_if(&else_clause_with_if_first(), &mut diags);
    assert_eq!(diags.len(), 1);
    assert_eq!(diags[0].message, COLLAPSIBLE_ELSE_IF);
    assert_eq!(diags[0].stable_ptr, 7);
}

#[test]
fn collapsible_detector_skips_direct_else_if() {
    let clause = ElseClauseNode { stable_ptr: 7, else_block_or_if: BlockOrIfNode::If };
    assert!(is_else_if(&clause));
    let mut diags: Vec<PluginDiagnostic> = Vec::new();
    check_collapsible_else_if(&clause, &mut diags);
    assert!(diags.is_empty());
}

#[test]
fn collapsible_detector_skips_other_first_statement() {
    let clause = ElseClauseNode {
        stable_ptr: 7,
        else_block_or_if: BlockOrIfNode::Block(ExprBlockNode {
            statements: vec![StatementNode::Other, StatementNode::Expr(ExprKindNode::If)],
        }),
    };
    assert!(!is_first_statement_if(match &clause.else_block_or_if {
        BlockOrIfNode::Block(b) => b,
        BlockOrIfNode::If => unreachable!(),
    }));
    let mut diags: Vec<PluginDiagnostic> = Vec::new();
    check_collapsible_else_if(&clause, &mut diags);
    assert!(diags.is_empty());
}

#[test]
fn double_parens_detector_flags_two_layers() {
    let e = ExprParens::Paren(Box::new(ExprParens::Paren(Box::new(ExprParens::Inner(
        "x".to_string(),
    )))));
    let mut diags: Vec<PluginDiagnostic> = Vec::new();
    check_double_parens(9, &e, &mut diags);
    assert_eq!(diags.len(), 1);
    assert_eq!(diags[0].message, DOUBLE_PARENS);
}

#[test]
fn double_parens_detector_skips_single_layer() {
    let e = ExprParens::Paren(Box::new(ExprParens::Inner("x".to_string())));
    let mut diags: Vec<PluginDiagnostic> = Vec::new();
    check_double_parens(9, &e, &mut diags);
    assert!(diags.is_empty());
}

#[test]
fn double_parens_fix_output_not_reflagged() {
    // idempotence: the fix keeps only the innermost, unparenthesized
    // expression, which the detector does not flag
    let fixed = ExprParens::Inner("x".to_string());
    let mut diags: Vec<PluginDiagnostic> = Vec::new();
    check_double_parens(9, &fixed, &mut diags);
    assert!(diags.is_empty());
}

#[test]
fn break_detector_flags_unit_break() {
    let b = BreakStatementNode {
        stable_ptr: 4,
        node_text: "break ();".to_string(),
        value: BreakValueKind::Unit,
    };
    let mut diags: Vec<PluginDiagnostic> = Vec::new();
    check_break(&b, &mut diags);
    assert_eq!(diags.len(), 1);
    assert_eq!(diags[0].message, BREAK_UNIT);
}

#[test]
fn break_detector_skips_valued_break() {
    let b = BreakStatementNode {
        stable_ptr: 4,
        node_text: "break (5);".to_string(),
        value: BreakValueKind::Other,
    };
    let mut diags: Vec<PluginDiagnostic> = Vec::new();
    check_break(&b, &mut diags);
    assert!(diags.is_empty());
    let b2 = BreakStatementNode {
        stable_ptr: 4,
        node_text: "break;".to_string(),
        value: BreakValueKind::NoValue,
    };
    check_break(&b2, &mut diags);
    assert!(diags.is_empty());
}

fn side(text: &str, cmp: Option<(CmpOp, &str, &str)>) -> CmpSide {
    CmpSide {
        text: text.to_string(),
        cmp: cmp.map(|(op, l, r)| CmpDetail {
            op,
            lhs_text: l.to_string(),
            rhs_text: r.to_string(),
        }),
    }
}

#[test]
fn bool_comparison_detector_flags_literal() {
    let n = BinaryExprNode {
        stable_ptr: 5,
        node_text: "x == true".to_string(),
        op: BinOpKind::Cmp(CmpOp::Eq),
        lhs: side("x", None),
        rhs: side("true", None),
    };
    let mut diags: Vec<PluginDiagnostic> = Vec::new();
    check_bool_comparison(&n, &mut diags);
    assert_eq!(diags.len(), 1);
    assert_eq!(diags[0].message, BOOL_COMPARISON);
}

#[test]
fn bool_comparison_detector_skips_ordinary_comparison() {
    let n = BinaryExprNode {
        stable_ptr: 5,
        node_text: "x == y".to_string(),
        op: BinOpKind::Cmp(CmpOp::Eq),
        lhs: side("x", None),
        rhs: side("y", None),
    };
    let mut diags: Vec<PluginDiagnostic> = Vec::new();
    check_bool_comparison(&n, &mut diags);
    assert!(diags.is_empty());
}

fn double(l: CmpOp, r: CmpOp, mid: LogicalOp) -> BinaryExprNode {
    BinaryExprNode {
        stable_ptr: 6,
        node_text: "a ? b".to_string(),
        op: BinOpKind::Logic(mid),
        lhs: side("a ? b", Some((l, "a", "b"))),
        rhs: side("a ? b", Some((r, "a", "b"))),
    }
}

#[test]
fn double_comparison_detector_simplifiable() {
    let mut diags: Vec<PluginDiagnostic> = Vec::new();
    check_double_comparison(&double(CmpOp::Lt, CmpOp::Eq, LogicalOp::OrOr), &mut diags);
    assert_eq!(diags.len(), 1);
    assert_eq!(diags[0].message, SIMPLIFIABLE_COMPARISON);
}

#[test]
fn double_comparison_detector_contradictory() {
    let mut diags: Vec<PluginDiagnostic> = Vec::new();
    check_double_comparison(&double(CmpOp::Lt, CmpOp::Gt, LogicalOp::AndAnd), &mut diags);
    assert_eq!(diags.len(), 1);
    assert_eq!(diags[0].message, CONTRADICTORY_COMPARISON);
}

#[test]
fn double_comparison_detector_redundant() {
    let mut diags: Vec<PluginDiagnostic> = Vec::new();
    check_double_comparison(&double(CmpOp::Le, CmpOp::Lt, LogicalOp::OrOr), &mut diags);
    assert_eq!(diags.len(), 1);
    assert_eq!(diags[0].message, REDUNDANT_COMPARISON);
}

#[test]
fn double_comparison_detector_needs_same_operands() {
    let n = BinaryExprNode {
        stable_ptr: 6,
        node_text: "a < b || c == d".to_string(),
        op: BinOpKind::Logic(LogicalOp::OrOr),
        lhs: side("a < b", Some((CmpOp::Lt, "a", "b"))),
        rhs: side("c == d", Some((CmpOp::Eq, "c", "d"))),
    };
    let mut diags: Vec<PluginDiagnostic> = Vec::new();
    check_double_comparison(&n, &mut diags);
    assert!(diags.is_empty());
}

#[test]
fn simplified_operator_table() {
    assert_eq!(
        determine_simplified_operator(CmpOp::Lt, CmpOp::Eq, LogicalOp::OrOr),
        Some(CmpOp::Le)
    );
    assert_eq!(
        determine_simplified_operator(CmpOp::Eq, CmpOp::Gt, LogicalOp::OrOr),
        Some(CmpOp::Ge)
    );
    assert_eq!(
        determine_simplified_operator(CmpOp::Ge, CmpOp::Le, LogicalOp::AndAnd),
        Some(CmpOp::Eq)
    );
    assert_eq!(determine_simplified_operator(CmpOp::Lt, CmpOp::Gt, LogicalOp::AndAnd), None);
    assert_eq!(operator_to_replace(CmpOp::Le), "<=");
}

fn destruct(p1: PatternNode, u1: bool, p2: PatternNode, u2: bool) -> MatchExprNode {
    MatchExprNode {
        stable_ptr: 8,
        node_text: "match v { ... }".to_string(),
        scrutinee_text: "v".to_string(),
        arms: vec![
            MatchArmNode { pattern: p1, body_text: "a".to_string(), body_is_unit: u1 },
            MatchArmNode { pattern: p2, body_text: "b".to_string(), body_is_unit: u2 },
        ],
    }
}

fn enum_pat(t: &str) -> PatternNode {
    PatternNode::Enum { text: t.to_string(), trivia: String::new() }
}

#[test]
fn single_match_detector_flags_enum_and_wildcard() {
    let m = destruct(enum_pat("Some(v)"), false, PatternNode::Underscore, true);
    let mut diags: Vec<PluginDiagnostic> = Vec::new();
    check_single_match(&m, &mut diags);
    assert_eq!(diags.len(), 1);
    assert_eq!(diags[0].message, DESTRUCT_MATCH);
}

#[test]
fn single_match_detector_needs_idle_wildcard_arm() {
    let m = destruct(enum_pat("Some(v)"), false, PatternNode::Underscore, false);
    let mut diags: Vec<PluginDiagnostic> = Vec::new();
    check_single_match(&m, &mut diags);
    assert!(diags.is_empty());
}

#[test]
fn single_match_detector_flags_two_enums_one_idle() {
    let m = destruct(enum_pat("Some(v)"), false, enum_pat("None"), true);
    let mut diags: Vec<PluginDiagnostic> = Vec::new();
    check_single_match(&m, &mut diags);
    assert_eq!(diags.len(), 1);
}

#[test]
fn single_match_detector_skips_other_patterns() {
    let m = destruct(PatternNode::Other, false, PatternNode::Underscore, true);
    let mut diags: Vec<PluginDiagnostic> = Vec::new();
    check_single_match(&m, &mut diags);
    assert!(diags.is_empty());
}

fn param(ptr: u64, name: &str) -> ParamNode {
    ParamNode { stable_ptr: ptr, name: name.to_string() }
}

#[test]
fn duplicate_underscore_detector_flags_pair() {
    let params = vec![param(1, "value"), param(2, "_value")];
    let mut diags: Vec<PluginDiagnostic> = Vec::new();
    check_duplicate_underscore_args(&params, &mut diags);
    assert_eq!(diags.len(), 1);
    assert_eq!(diags[0].message, DUPLICATE_UNDERSCORE_ARGS);
    assert_eq!(diags[0].stable_ptr, 2);
}

#[test]
fn duplicate_underscore_detector_skips_distinct_names() {
    let params = vec![param(1, "left"), param(2, "_right")];
    let mut diags: Vec<PluginDiagnostic> = Vec::new();
    check_duplicate_underscore_args(&params, &mut diags);
    assert!(diags.is_empty());
}

#[test]
fn analyzer_walks_whole_module() {
    let module = ModuleModel {
        items: vec![
            ModuleItemModel::FreeFunction {
                params: vec![param(1, "x"), param(2, "_x")],
                body_matches: vec![destruct(
                    enum_pat("Some(v)"),
                    false,
                    PatternNode::Underscore,
                    true,
                )],
                descendants: vec![
                    SyntaxNodeModel::BreakStatement(BreakStatementNode {
                        stable_ptr: 4,
                        node_text: "break ();".to_string(),
                        value: BreakValueKind::Unit,
                    }),
                    SyntaxNodeModel::ElseClause(else_clause_with_if_first()),
                    SyntaxNodeModel::Other,
                ],
            },
            ModuleItemModel::Other,
            ModuleItemModel::Constant {
                descendants: vec![SyntaxNodeModel::Parenthesized {
                    stable_ptr: 9,
                    expr: ExprParens::Paren(Box::new(ExprParens::Paren(Box::new(
                        ExprParens::Inner("x".to_string()),
                    )))),
                }],
            },
        ],
    };
    let diags = CairoLint.diagnostics(&module);
    let messages: Vec<&str> = diags.iter().map(|d| d.message.as_str()).collect();
    assert_eq!(
        messages,
        vec![
            DUPLICATE_UNDERSCORE_ARGS,
            DESTRUCT_MATCH,
            BREAK_UNIT,
            COLLAPSIBLE_ELSE_IF,
            DOUBLE_PARENS,
        ]
    );
}
