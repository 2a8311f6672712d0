//! Plain-data views of the host compiler's syntax and semantic nodes.
//!
//! The host owns the real syntax tree and semantic model; every value here
//! holds, as plain data, exactly what the lint logic reads from a node: the
//! structural shape the detectors match on, and the literal text the fix
//! routines rewrite. The adapter that walks the host's tree fills these in.

use vstd::prelude::*;

verus! {

/// Severity of a reported diagnostic.
#[derive(Clone, Copy, PartialEq, Eq, Debug, Structural)]
pub enum Severity {
    Error,
    Warning,
}

/// A diagnostic anchored to a source node: the anchor's stable id, the
/// category-identifying message, and a severity.
#[derive(Clone, Debug)]
pub struct PluginDiagnostic {
    pub stable_ptr: u64,
    pub message: String,
    pub severity: Severity,
}

/// Mathematical view of a [`PluginDiagnostic`].
pub struct SpecDiagnostic {
    pub stable_ptr: u64,
    pub message: Seq<char>,
    pub severity: Severity,
}

impl View for PluginDiagnostic {
    type V = SpecDiagnostic;

    open spec fn view(&self) -> SpecDiagnostic {
        SpecDiagnostic {
            stable_ptr: self.stable_ptr,
            message: self.message@,
            severity: self.severity,
        }
    }
}

/// The views of a list of diagnostics.
pub open spec fn diag_views(s: Seq<PluginDiagnostic>) -> Seq<SpecDiagnostic> {
    s.map_values(|d: PluginDiagnostic| d@)
}

/// What kind of expression a statement holds, as far as the lints care.
#[derive(Clone, Copy, PartialEq, Eq, Debug, Structural)]
pub enum ExprKindNode {
    If,
    Other,
}

/// A statement of a block: an expression statement (with the kind of its
/// expression) or anything else.
#[derive(Clone, Copy, PartialEq, Eq, Debug, Structural)]
pub enum StatementNode {
    Expr(ExprKindNode),
    Other,
}

/// A block expression: its statements.
#[derive(Clone, Debug)]
pub struct ExprBlockNode {
    pub statements: Vec<StatementNode>,
}

/// What follows an `else`: directly another `if`, or a block.
#[derive(Clone, Debug)]
pub enum BlockOrIfNode {
    If,
    Block(ExprBlockNode),
}

/// An else clause: its anchor and what it holds.
#[derive(Clone, Debug)]
pub struct ElseClauseNode {
    pub stable_ptr: u64,
    pub else_block_or_if: BlockOrIfNode,
}

/// A parenthesized-expression tree: each `Paren` layer is one pair of
/// parentheses; `Inner` is the first non-parenthesized expression, carrying
/// its trivia-free text.
#[derive(Debug)]
pub enum ExprParens {
    Paren(Box<ExprParens>),
    Inner(String),
}

/// A comparison operator.
#[derive(Clone, Copy, PartialEq, Eq, Debug, Structural)]
pub enum CmpOp {
    Lt,
    Gt,
    Le,
    Ge,
    Eq,
    Ne,
}

/// A logical connective.
#[derive(Clone, Copy, PartialEq, Eq, Debug, Structural)]
pub enum LogicalOp {
    AndAnd,
    OrOr,
}

/// The operator of a binary expression, as far as the lints care.
#[derive(Clone, Copy, PartialEq, Eq, Debug, Structural)]
pub enum BinOpKind {
    Cmp(CmpOp),
    Logic(LogicalOp),
    Other,
}

/// One side of a binary expression, when that side is itself a comparison:
/// its operator and the trivia-free texts of its operands.
#[derive(Clone, Debug)]
pub struct CmpDetail {
    pub op: CmpOp,
    pub lhs_text: String,
    pub rhs_text: String,
}

/// One side of a binary expression: its text, and its own comparison
/// structure if it is a comparison.
#[derive(Clone, Debug)]
pub struct CmpSide {
    pub text: String,
    pub cmp: Option<CmpDetail>,
}

/// A binary expression, as read by the comparison lints.
#[derive(Clone, Debug)]
pub struct BinaryExprNode {
    pub stable_ptr: u64,
    pub node_text: String,
    pub op: BinOpKind,
    pub lhs: CmpSide,
    pub rhs: CmpSide,
}

/// A match-arm pattern: a wildcard, an enum or struct pattern (with its
/// trivia-free text and the text of the trivia directly above it), or
/// anything else.
#[derive(Clone, Debug)]
pub enum PatternNode {
    Underscore,
    Enum { text: String, trivia: String },
    Struct { text: String, trivia: String },
    Other,
}

/// One arm of a match: its first pattern, the text of its body expression,
/// and whether that body is the unit expression.
#[derive(Clone, Debug)]
pub struct MatchArmNode {
    pub pattern: PatternNode,
    pub body_text: String,
    pub body_is_unit: bool,
}

/// A match expression: its anchor, its full text, the trivia-free text of
/// the scrutinee, and its arms.
#[derive(Clone, Debug)]
pub struct MatchExprNode {
    pub stable_ptr: u64,
    pub node_text: String,
    pub scrutinee_text: String,
    pub arms: Vec<MatchArmNode>,
}

/// What a break statement carries.
#[derive(Clone, Copy, PartialEq, Eq, Debug, Structural)]
pub enum BreakValueKind {
    NoValue,
    Unit,
    Other,
}

/// A break statement: its anchor, its full text, and what it carries.
#[derive(Clone, Debug)]
pub struct BreakStatementNode {
    pub stable_ptr: u64,
    pub node_text: String,
    pub value: BreakValueKind,
}

/// A function parameter: its anchor and its name.
#[derive(Clone, Debug)]
pub struct ParamNode {
    pub stable_ptr: u64,
    pub name: String,
}

/// A syntax node of a kind some detector dispatches on.
#[derive(Debug)]
pub enum SyntaxNodeModel {
    Parenthesized { stable_ptr: u64, expr: ExprParens },
    BreakStatement(BreakStatementNode),
    Binary(BinaryExprNode),
    ElseClause(ElseClauseNode),
    Other,
}

/// A module item, carrying what the analysis pass reads from it.
#[derive(Debug)]
pub enum ModuleItemModel {
    Constant { descendants: Vec<SyntaxNodeModel> },
    FreeFunction {
        params: Vec<ParamNode>,
        body_matches: Vec<MatchExprNode>,
        descendants: Vec<SyntaxNodeModel>,
    },
    Impl { body_matches: Vec<MatchExprNode>, descendants: Vec<SyntaxNodeModel> },
    Other,
}

/// A module: its items, in order.
#[derive(Debug)]
pub struct ModuleModel {
    pub items: Vec<ModuleItemModel>,
}

/// The per-category payload a fix routine needs, resolved from a
/// diagnostic's anchor by the host adapter.
#[derive(Debug)]
pub enum FixNode {
    DoubleParens { node_text: String, expr: ExprParens },
    DestructMatch(MatchExprNode),
    DoubleComparison(BinaryExprNode),
    BreakUnit { node_text: String },
    BoolComparison(BinaryExprNode),
    CollapsibleIfElse { node_text: String },
    Other,
}

/// A semantic diagnostic, as far as fixing cares: the kind the host
/// reported, with the data each fix path reads.
#[derive(Debug)]
pub enum SemanticDiagnosticModel {
    UnusedVariable { name_text: String },
    Plugin { message: String, node: FixNode },
    UnusedImport,
    Other,
}

} // verus!
