//! Fix synthesis: turning a classified diagnostic into literal replacement
//! text.
//!
//! Every routine here is a bounded structural substitution on the texts the
//! host adapter hands over; none of them re-runs detection. The dispatcher
//! [`Fixer::fix_plugin_diagnostic`] classifies a diagnostic's message and
//! delegates to the category's routine; categories without a routine yield
//! no fix, which is a normal outcome, not an error. A routine invoked on a
//! node that does not have the shape its detector guarantees is a contract
//! violation between detection and fixing: every such shape stands in a
//! `requires`, and a caller that cannot meet it must fail loudly rather
//! than emit wrong text.

use vstd::prelude::*;
use vstd::string::StringExecFns;

use crate::lints::bool_comparison::{generate_fixed_text_for_comparison, spec_bool_fix,
    spec_is_bool_literal};
use crate::lints::double_comparison::{determine_simplified_operator, operator_to_replace,
    spec_fix_double_comparison};
use crate::lints::double_parens::spec_innermost_text;
use crate::lints::single_match::{is_enum, is_struct, is_underscore, spec_destruct_pair_ok,
    spec_is_underscore};
use crate::node::{BinOpKind, BinaryExprNode, CmpOp, ExprParens, FixNode, MatchArmNode,
    MatchExprNode, PatternNode, SemanticDiagnosticModel};
use crate::plugin::{diagnostic_kind_from_message, spec_classify, CairoLintKind};
use crate::text::{append_chars, chars_to_string, contains_pat, leading_ws, leading_ws_chars,
    lemma_replace_all_absent, occurs_at, replace_all, replace_all_chars, starts_with,
    str_to_chars, trim_chars, trim_ws};
use crate::transform::{spec_transform_if_else, transform_text};

verus! {

/// A half-open range of source offsets.
#[derive(Clone, Copy, PartialEq, Eq, Debug, Structural)]
pub struct TextSpan {
    pub start: u64,
    pub end: u64,
}

/// A fix for a diagnostic: the span of code to be replaced and the
/// suggested replacement.
#[derive(Clone, Debug)]
pub struct Fix {
    pub span: TextSpan,
    pub suggestion: String,
}

/// The fix synthesizer: a stateless service object whose methods are the
/// per-category fix routines.
#[derive(Debug, Default)]
pub struct Fixer;

/// The literal `break ();`.
pub open spec fn break_unit_pat() -> Seq<char> {
    seq!['b', 'r', 'e', 'a', 'k', ' ', '(', ')', ';']
}

/// The literal `break;`.
pub open spec fn break_semi() -> Seq<char> {
    seq!['b', 'r', 'e', 'a', 'k', ';']
}

/// The break-unit fix: every occurrence of the literal `break ();` in the
/// statement's text replaced by `break;`. Text without that occurrence —
/// `break (5);` among it — is left unchanged.
pub open spec fn spec_fix_break_unit(t: Seq<char>) -> Seq<char> {
    replace_all(t, break_unit_pat(), break_semi())
}

/// Induction behind the break-unit idempotence laws. Replacement leaves no
/// occurrence of `break ();`, because `break;` neither contains the pattern
/// nor supplies, at any offset, a prefix of it; and wherever the result
/// begins with a proper tail of the pattern, the input already did.
proof fn lemma_break_replace(t: Seq<char>)
    ensures
        forall|i: int|
            !occurs_at(replace_all(t, break_unit_pat(), break_semi()), break_unit_pat(), i),
        forall|k: int|
            1 <= k <= 8 && starts_with(
                replace_all(t, break_unit_pat(), break_semi()),
                break_unit_pat().skip(k),
            ) ==> starts_with(t, break_unit_pat().skip(k)),
    decreases t.len(),
{
    let p = break_unit_pat();
    let r = break_semi();
    let res = replace_all(t, p, r);
    if t.len() < p.len() {
        assert(res == t);
    } else if t.take(p.len() as int) == p {
        lemma_break_replace(t.skip(p.len() as int));
        let x = replace_all(t.skip(p.len() as int), p, r);
        assert(res == r + x);
        assert forall|i: int| !occurs_at(res, p, i) by {
            if occurs_at(res, p, i) {
                if i >= 6 {
                    assert(x.subrange(i - 6, i + 3) =~= res.subrange(i, i + 9));
                    assert(occurs_at(x, p, i - 6));
                } else if i == 0 {
                    assert(res.subrange(0, 9)[5] == p[5]);
                    assert(res[5] == r[5]);
                } else {
                    assert(res.subrange(i, i + 9)[0] == p[0]);
                    assert(res[i] == r[i]);
                }
            }
        }
        assert forall|k: int|
            1 <= k <= 8 && starts_with(res, p.skip(k)) implies starts_with(t, p.skip(k)) by {
            assert(res.take(9 - k)[0] == p.skip(k)[0]);
            assert(res[0] == r[0]);
        }
    } else {
        lemma_break_replace(t.skip(1));
        let x = replace_all(t.skip(1), p, r);
        assert(res == seq![t[0]] + x);
        assert forall|i: int| !occurs_at(res, p, i) by {
            if occurs_at(res, p, i) {
                if i >= 1 {
                    assert(x.subrange(i - 1, i + 8) =~= res.subrange(i, i + 9));
                    assert(occurs_at(x, p, i - 1));
                } else {
                    assert(res.subrange(0, 9)[0] == p[0]);
                    assert(res[0] == t[0]);
                    assert(x.take(8) =~= res.subrange(0, 9).skip(1));
                    assert(starts_with(x, p.skip(1)));
                    assert(starts_with(t.skip(1), p.skip(1)));
                    assert(t.take(9) =~= seq![t[0]] + t.skip(1).take(8));
                    assert(p =~= seq![p[0]] + p.skip(1));
                    assert(t.take(9) == p);
                }
            }
        }
        assert forall|k: int|
            1 <= k <= 8 && starts_with(res, p.skip(k)) implies starts_with(t, p.skip(k)) by {
            assert(res.take(9 - k)[0] == p.skip(k)[0]);
            assert(res[0] == t[0]);
            if k == 8 {
                assert(t.take(1) =~= seq![t[0]]);
                assert(p.skip(8) =~= seq![p[8]]);
            } else {
                assert(x.take(8 - k) =~= res.take(9 - k).skip(1));
                assert(res.take(9 - k).skip(1) =~= p.skip(k).skip(1));
                assert(p.skip(k).skip(1) =~= p.skip(k + 1));
                assert(starts_with(x, p.skip(k + 1)));
                assert(starts_with(t.skip(1), p.skip(k + 1)));
                assert(t.take(9 - k) =~= seq![t[0]] + t.skip(1).take(8 - k));
                assert(p.skip(k) =~= seq![p[k]] + p.skip(k + 1));
            }
        }
    }
}

/// After the break-unit fix no occurrence of `break ();` remains, so
/// re-running detection on the fixed text finds nothing of this category.
pub proof fn lemma_break_unit_fix_leaves_no_occurrence(t: Seq<char>)
    ensures
        !contains_pat(spec_fix_break_unit(t), break_unit_pat()),
{
    lemma_break_replace(t);
}

/// Idempotence of the break-unit fix: fixing already-fixed text changes
/// nothing.
pub proof fn lemma_break_unit_fix_idempotent(t: Seq<char>)
    ensures
        spec_fix_break_unit(spec_fix_break_unit(t)) == spec_fix_break_unit(t),
{
    lemma_break_replace(t);
    lemma_replace_all_absent(spec_fix_break_unit(t), break_unit_pat(), break_semi());
}

/// The double-parentheses fix: the node's leading whitespace, then the
/// trivia-free text of the innermost expression.
pub open spec fn spec_fix_double_parens(node_text: Seq<char>, e: ExprParens) -> Seq<char> {
    leading_ws(node_text) + spec_innermost_text(e)
}

/// Whether the first arm is the one the `if let` rewrite keeps.
pub open spec fn spec_destruct_choice_first(m: MatchExprNode) -> bool {
    if spec_is_underscore(m.arms@[0].pattern) {
        false
    } else if spec_is_underscore(m.arms@[1].pattern) {
        true
    } else {
        m.arms@[1].body_is_unit
    }
}

/// The trivia-free text of an enum or struct pattern.
pub open spec fn spec_pattern_text(p: PatternNode) -> Seq<char> {
    match p {
        PatternNode::Enum { text, trivia } => text@,
        PatternNode::Struct { text, trivia } => text@,
        _ => Seq::empty(),
    }
}

/// The trivia directly above an enum or struct pattern.
pub open spec fn spec_pattern_trivia(p: PatternNode) -> Seq<char> {
    match p {
        PatternNode::Enum { text, trivia } => trivia@,
        PatternNode::Struct { text, trivia } => trivia@,
        _ => Seq::empty(),
    }
}

/// The destructuring-match fix: `if let <pattern> = <scrutinee> { <body> }`
/// at the match's own indentation, with any trivia that stood above the
/// kept pattern re-attached on its own line above.
pub open spec fn spec_fix_destruct_match(m: MatchExprNode) -> Seq<char> {
    if spec_destruct_choice_first(m) {
        spec_fix_destruct_match_arm(m, m.arms@[0])
    } else {
        spec_fix_destruct_match_arm(m, m.arms@[1])
    }
}

/// The shape the destructuring-match fixer demands of its node: the shape
/// its detector guarantees.
pub open spec fn spec_destruct_fix_shape(m: MatchExprNode) -> bool {
    m.arms@.len() >= 2 && spec_destruct_pair_ok(m.arms@[0].pattern, m.arms@[1].pattern)
}

/// The shape the boolean-comparison fixer demands of its node.
pub open spec fn spec_bool_fix_shape(b: BinaryExprNode) -> bool {
    &&& (b.op == BinOpKind::Cmp(CmpOp::Eq) || b.op == BinOpKind::Cmp(CmpOp::Ne))
    &&& (spec_is_bool_literal(b.lhs.text@) || spec_is_bool_literal(b.rhs.text@))
}

/// Which categories own a fix routine.
pub open spec fn spec_kind_has_fixer(k: CairoLintKind) -> bool {
    ||| k == CairoLintKind::DoubleParens
    ||| k == CairoLintKind::DestructMatch
    ||| k == CairoLintKind::DoubleComparison
    ||| k == CairoLintKind::BreakUnit
    ||| k == CairoLintKind::BoolComparison
    ||| k == CairoLintKind::CollapsibleIfElse
}

/// Whether the resolved node payload is the one the category's fix routine
/// reads.
pub open spec fn spec_node_matches_kind(k: CairoLintKind, n: FixNode) -> bool {
    match k {
        CairoLintKind::DoubleParens => n matches FixNode::DoubleParens { .. },
        CairoLintKind::DestructMatch => n matches FixNode::DestructMatch(_),
        CairoLintKind::DoubleComparison => n matches FixNode::DoubleComparison(_),
        CairoLintKind::BreakUnit => n matches FixNode::BreakUnit { .. },
        CairoLintKind::BoolComparison => n matches FixNode::BoolComparison(_),
        CairoLintKind::CollapsibleIfElse => n matches FixNode::CollapsibleIfElse { .. },
        _ => true,
    }
}

/// The shape each payload must have, as the category's detector
/// guarantees it.
pub open spec fn spec_fix_node_valid(n: FixNode) -> bool {
    match n {
        FixNode::DestructMatch(m) => spec_destruct_fix_shape(m),
        FixNode::BoolComparison(b) => spec_bool_fix_shape(b),
        _ => true,
    }
}

/// The replacement text each category's routine computes for its payload.
pub open spec fn spec_plugin_fix(n: FixNode) -> Seq<char> {
    match n {
        FixNode::DoubleParens { node_text, expr } => spec_fix_double_parens(node_text@, expr),
        FixNode::DestructMatch(m) => spec_fix_destruct_match(m),
        FixNode::DoubleComparison(b) => spec_fix_double_comparison(b),
        FixNode::BreakUnit { node_text } => spec_fix_break_unit(node_text@),
        FixNode::BoolComparison(b) => spec_bool_fix(b.lhs.text@, b.rhs.text@, b.op->Cmp_0),
        FixNode::CollapsibleIfElse { node_text } => spec_transform_if_else(node_text@),
        FixNode::Other => Seq::empty(),
    }
}

/// The trivia-free text of the innermost expression of a parenthesized
/// tree.
fn innermost_chars(e: &ExprParens) -> (r: Vec<char>)
    ensures
        r@ == spec_innermost_text(*e),
    decreases *e,
{
    match e {
        ExprParens::Paren(inner) => innermost_chars(&**inner),
        ExprParens::Inner(t) => str_to_chars(t.as_str()),
    }
}

impl Fixer {
    /// Prefixes an unused variable's name with an underscore.
    pub fn fix_unused_variable(&self, name_text: &str) -> (r: String)
        ensures
            r@ == "_"@ + name_text@,
    {
        let mut r = String::from_str("_");
        r.append(name_text);
        r
    }

    /// Rewrites a destructuring match into an `if let` expression.
    pub fn fix_destruct_match(&self, node: &MatchExprNode) -> (r: String)
        requires
            spec_destruct_fix_shape(*node),
        ensures
            r@ == spec_fix_destruct_match(*node),
    {
        let choose_first: bool = if is_underscore(&node.arms[0].pattern) {
            false
        } else if is_underscore(&node.arms[1].pattern) {
            true
        } else {
            node.arms[1].body_is_unit
        };
        let arm = if choose_first {
            &node.arms[0]
        } else {
            &node.arms[1]
        };
        let nv = str_to_chars(node.node_text.as_str());
        let indent = leading_ws_chars(&nv);
        let mut out: Vec<char> = Vec::new();
        match &arm.pattern {
            PatternNode::Enum { text, trivia } => {
                self.build_if_let(&mut out, &indent, text, trivia, node, arm);
            },
            PatternNode::Struct { text, trivia } => {
                self.build_if_let(&mut out, &indent, text, trivia, node, arm);
            },
            PatternNode::Underscore => {
                proof {
                    assert(false);
                }
            },
            PatternNode::Other => {
                proof {
                    assert(false);
                }
            },
        }
        proof {
            assert(out@ == spec_fix_destruct_match(*node));
        }
        let r = chars_to_string(&out);
        r
    }

    /// Assembles the `if let` line for [`Fixer::fix_destruct_match`].
    fn build_if_let(
        &self,
        out: &mut Vec<char>,
        indent: &Vec<char>,
        text: &String,
        trivia: &String,
        node: &MatchExprNode,
        arm: &MatchArmNode,
    )
        requires
            old(out)@ == Seq::<char>::empty(),
            indent@ == leading_ws(node.node_text@),
            text@ == spec_pattern_text(arm.pattern),
            trivia@ == spec_pattern_trivia(arm.pattern),
        ensures
            final(out)@ == spec_fix_destruct_match_arm(*node, *arm),
    {
        let tv = str_to_chars(trivia.as_str());
        let trimmed = trim_chars(&tv);
        if trimmed.len() > 0 {
            append_chars(out, indent);
            append_chars(out, &trimmed);
            out.push('\n');
        }
        append_chars(out, indent);
        let lit1 = str_to_chars("if let ");
        append_chars(out, &lit1);
        let ptv = str_to_chars(text.as_str());
        append_chars(out, &ptv);
        let lit2 = str_to_chars(" = ");
        append_chars(out, &lit2);
        let sv = str_to_chars(node.scrutinee_text.as_str());
        append_chars(out, &sv);
        let lit3 = str_to_chars(" { ");
        append_chars(out, &lit3);
        let bv = str_to_chars(arm.body_text.as_str());
        append_chars(out, &bv);
        let lit4 = str_to_chars(" }");
        append_chars(out, &lit4);
        proof {
            assert(out@ =~= spec_fix_destruct_match_arm(*node, *arm));
        }
    }

    /// Replaces `break ();` with `break;` inside the statement's text.
    pub fn fix_break_unit(&self, node_text: &str) -> (r: String)
        ensures
            r@ == spec_fix_break_unit(node_text@),
    {
        let v = str_to_chars(node_text);
        let pat: Vec<char> = vec!['b', 'r', 'e', 'a', 'k', ' ', '(', ')', ';'];
        let rep: Vec<char> = vec!['b', 'r', 'e', 'a', 'k', ';'];
        proof {
            assert(pat@ =~= break_unit_pat());
            assert(rep@ =~= break_semi());
        }
        let w = replace_all_chars(&v, &pat, &rep);
        chars_to_string(&w)
    }

    /// Rewrites a comparison with a boolean literal by the truth table of
    /// [`spec_bool_fix`].
    pub fn fix_bool_comparison(&self, node: &BinaryExprNode) -> (r: String)
        requires
            spec_bool_fix_shape(*node),
        ensures
            r@ == spec_bool_fix(node.lhs.text@, node.rhs.text@, node.op->Cmp_0),
    {
        let op = match node.op {
            BinOpKind::Cmp(c) => c,
            _ => {
                proof {
                    assert(false);
                }
                CmpOp::Eq
            },
        };
        generate_fixed_text_for_comparison(node.lhs.text.as_str(), node.rhs.text.as_str(), op)
    }

    /// Strips every redundant layer of parentheses, keeping the node's
    /// leading whitespace.
    pub fn fix_double_parens(&self, node_text: &str, expr: &ExprParens) -> (r: String)
        ensures
            r@ == spec_fix_double_parens(node_text@, *expr),
    {
        let v = str_to_chars(node_text);
        let mut out = leading_ws_chars(&v);
        let inner = innermost_chars(expr);
        append_chars(&mut out, &inner);
        chars_to_string(&out)
    }

    /// Flattens the `else { if ... }` construct in the clause's text into
    /// `else if`.
    pub fn fix_collapsible_if_else(&self, node_text: &str) -> (r: String)
        ensures
            r@ == spec_transform_if_else(node_text@),
    {
        self.transform_if_else(String::from_str(node_text))
    }

    /// The structural rewriter behind [`Fixer::fix_collapsible_if_else`]:
    /// one left-to-right pass, specified by
    /// [`crate::transform::spec_transform_if_else`].
    pub fn transform_if_else(&self, text: String) -> (r: String)
        ensures
            r@ == spec_transform_if_else(text@),
    {
        transform_text(text.as_str())
    }

    /// Fuses a simplifiable double comparison into a single comparison;
    /// anything else is returned unchanged.
    pub fn fix_double_comparison(&self, node: &BinaryExprNode) -> (r: String)
        ensures
            r@ == spec_fix_double_comparison(*node),
    {
        let mid = match node.op {
            BinOpKind::Logic(m) => Some(m),
            _ => None,
        };
        if mid.is_some() && node.lhs.cmp.is_some() && node.rhs.cmp.is_some() {
            let l = node.lhs.cmp.as_ref().unwrap().op;
            let r = node.rhs.cmp.as_ref().unwrap().op;
            match determine_simplified_operator(l, r, mid.unwrap()) {
                Some(simplified) => {
                    let lv = str_to_chars(node.lhs.text.as_str());
                    let pat = str_to_chars(operator_to_replace(l));
                    let rep = str_to_chars(operator_to_replace(simplified));
                    let w = replace_all_chars(&lv, &pat, &rep);
                    chars_to_string(&w)
                },
                None => String::from_str(node.node_text.as_str()),
            }
        } else {
            String::from_str(node.node_text.as_str())
        }
    }

    /// The fix dispatcher: classifies the diagnostic's message and hands
    /// the resolved node to the category's routine. Categories without a
    /// routine — `Unknown` among them — yield no fix.
    pub fn fix_plugin_diagnostic(&self, message: &str, node: &FixNode) -> (r: Option<String>)
        requires
            spec_kind_has_fixer(spec_classify(message@)) ==> spec_node_matches_kind(
                spec_classify(message@),
                *node,
            ) && spec_fix_node_valid(*node),
        ensures
            match r {
                Some(s) => spec_kind_has_fixer(spec_classify(message@)) && s@ == spec_plugin_fix(
                    *node,
                ),
                None => !spec_kind_has_fixer(spec_classify(message@)),
            },
    {
        let kind = diagnostic_kind_from_message(message);
        match kind {
            CairoLintKind::DoubleParens => match node {
                FixNode::DoubleParens { node_text, expr } => Some(
                    self.fix_double_parens(node_text.as_str(), expr),
                ),
                _ => {
                    proof {
                        assert(false);
                    }
                    None
                },
            },
            CairoLintKind::DestructMatch => match node {
                FixNode::DestructMatch(m) => Some(self.fix_destruct_match(m)),
                _ => {
                    proof {
                        assert(false);
                    }
                    None
                },
            },
            CairoLintKind::DoubleComparison => match node {
                FixNode::DoubleComparison(b) => Some(self.fix_double_comparison(b)),
                _ => {
                    proof {
                        assert(false);
                    }
                    None
                },
            },
            CairoLintKind::BreakUnit => match node {
                FixNode::BreakUnit { node_text } => Some(self.fix_break_unit(node_text.as_str())),
                _ => {
                    proof {
                        assert(false);
                    }
                    None
                },
            },
            CairoLintKind::BoolComparison => match node {
                FixNode::BoolComparison(b) => Some(self.fix_bool_comparison(b)),
                _ => {
                    proof {
                        assert(false);
                    }
                    None
                },
            },
            CairoLintKind::CollapsibleIfElse => match node {
                FixNode::CollapsibleIfElse { node_text } => Some(
                    self.fix_collapsible_if_else(node_text.as_str()),
                ),
                _ => {
                    proof {
                        assert(false);
                    }
                    None
                },
            },
            _ => None,
        }
    }
}

/// The replacement the `if let` rewrite builds from the kept arm.
pub open spec fn spec_fix_destruct_match_arm(m: MatchExprNode, arm: MatchArmNode) -> Seq<char> {
    let indent = leading_ws(m.node_text@);
    let trivia = trim_ws(spec_pattern_trivia(arm.pattern));
    let head = if trivia.len() == 0 {
        Seq::<char>::empty()
    } else {
        indent + trivia + seq!['\n']
    };
    head + indent + "if let "@ + spec_pattern_text(arm.pattern) + " = "@ + m.scrutinee_text@
        + " { "@ + arm.body_text@ + " }"@
}

/// What the plugin-diagnostic path of [`fix_semantic_diagnostic`] demands:
/// exactly the dispatcher's own contract.
pub open spec fn spec_semantic_fix_ok(d: SemanticDiagnosticModel) -> bool {
    match d {
        SemanticDiagnosticModel::Plugin { message, node } => spec_kind_has_fixer(
            spec_classify(message@),
        ) ==> spec_node_matches_kind(spec_classify(message@), node) && spec_fix_node_valid(node),
        _ => true,
    }
}

/// The entry point for fixing a semantic diagnostic: an unused variable is
/// prefixed with an underscore, a plugin diagnostic is dispatched by its
/// message, unused imports are handled earlier in the pipeline, and
/// everything else has no fix.
pub fn fix_semantic_diagnostic(diag: &SemanticDiagnosticModel) -> (r: Option<String>)
    requires
        spec_semantic_fix_ok(*diag),
    ensures
        match *diag {
            SemanticDiagnosticModel::UnusedVariable { name_text } => r is Some && r->0@ == "_"@
                + name_text@,
            SemanticDiagnosticModel::Plugin { message, node } => match r {
                Some(s) => spec_kind_has_fixer(spec_classify(message@)) && s@ == spec_plugin_fix(
                    node,
                ),
                None => !spec_kind_has_fixer(spec_classify(message@)),
            },
            SemanticDiagnosticModel::UnusedImport => r is None,
            SemanticDiagnosticModel::Other => r is None,
        },
{
    let fixer = Fixer;
    match diag {
        SemanticDiagnosticModel::UnusedVariable { name_text } => Some(
            fixer.fix_unused_variable(name_text.as_str()),
        ),
        SemanticDiagnosticModel::Plugin { message, node } => fixer.fix_plugin_diagnostic(
            message.as_str(),
            node,
        ),
        SemanticDiagnosticModel::UnusedImport => None,
        SemanticDiagnosticModel::Other => None,
    }
}

} // verus!
