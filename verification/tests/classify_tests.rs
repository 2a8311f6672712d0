use cairo_lint_core::lints::bool_comparison::BOOL_COMPARISON;
use cairo_lint_core::lints::breaks::BREAK_UNIT;
use cairo_lint_core::lints::collapsible_if_else::COLLAPSIBLE_ELSE_IF;
use cairo_lint_core::lints::double_comparison::{
    CONTRADICTORY_COMPARISON, REDUNDANT_COMPARISON, SIMPLIFIABLE_COMPARISON,
};
use cairo_lint_core::lints::double_parens::DOUBLE_PARENS;
use cairo_lint_core::lints::duplicate_underscore_args::DUPLICATE_UNDERSCORE_ARGS;
use cairo_lint_core::lints::equatable_if_let::EQUATABLE_IF_LET;
use cairo_lint_core::lints::loops::LOOP_MATCH_POP_FRONT;
use cairo_lint_core::lints::single_match::{DESTRUCT_MATCH, MATCH_FOR_EQUALITY};
use cairo_lint_core::plugin::{diagnostic_kind_from_message, CairoLintKind};

#[test]
fn every_category_constant_classifies_to_its_kind() {
    assert_eq!(diagnostic_kind_from_message(DESTRUCT_MATCH), CairoLintKind::DestructMatch);
    assert_eq!(
        diagnostic_kind_from_message(MATCH_FOR_EQUALITY),
        CairoLintKind::MatchForEquality
    );
    assert_eq!(diagnostic_kind_from_message(DOUBLE_PARENS), CairoLintKind::DoubleParens);
    assert_eq!(
        diagnostic_kind_from_message(SIMPLIFIABLE_COMPARISON),
        CairoLintKind::DoubleComparison
    );
    assert_eq!(
        diagnostic_kind_from_message(REDUNDANT_COMPARISON),
        CairoLintKind::DoubleComparison
    );
    assert_eq!(
        diagnostic_kind_from_message(CONTRADICTORY_COMPARISON),
        CairoLintKind::DoubleComparison
    );
    assert_eq!(diagnostic_kind_from_message(BREAK_UNIT), CairoLintKind::BreakUnit);
    assert_eq!(diagnostic_kind_from_message(EQUATABLE_IF_LET), CairoLintKind::EquatableIfLet);
    assert_eq!(diagnostic_kind_from_message(BOOL_COMPARISON), CairoLintKind::BoolComparison);
    assert_eq!(
        diagnostic_kind_from_message(COLLAPSIBLE_ELSE_IF),
        CairoLintKind::CollapsibleIfElse
    );
    assert_eq!(
        diagnostic_kind_from_message(DUPLICATE_UNDERSCORE_ARGS),
        CairoLintKind::DuplicateUnderscoreArgs
    );
    assert_eq!(
        diagnostic_kind_from_message(LOOP_MATCH_POP_FRONT),
        CairoLintKind::LoopMatchPopFront
    );
}

#[test]
fn unmatched_message_is_unknown() {
    assert_eq!(diagnostic_kind_from_message(""), CairoLintKind::Unknown);
    assert_eq!(
        diagnostic_kind_from_message("some other diagnostic text"),
        CairoLintKind::Unknown
    );
}

#[test]
fn classification_is_stable_under_repeated_calls() {
    for _ in 0..3 {
        assert_eq!(
            diagnostic_kind_from_message(DOUBLE_PARENS),
            diagnostic_kind_from_message(DOUBLE_PARENS)
        );
    }
    let first = diagnostic_kind_from_message(BREAK_UNIT);
    let second = diagnostic_kind_from_message(BREAK_UNIT);
    assert_eq!(first, second);
}

#[test]
fn message_constants_are_pairwise_distinct() {
    let all = [
        DESTRUCT_MATCH,
        MATCH_FOR_EQUALITY,
        DOUBLE_PARENS,
        SIMPLIFIABLE_COMPARISON,
        REDUNDANT_COMPARISON,
        CONTRADICTORY_COMPARISON,
        BREAK_UNIT,
        EQUATABLE_IF_LET,
        BOOL_COMPARISON,
        COLLAPSIBLE_ELSE_IF,
        DUPLICATE_UNDERSCORE_ARGS,
        LOOP_MATCH_POP_FRONT,
    ];
    for i in 0..all.len() {
        for j in 0..all.len() {
            if i != j {
                assert_ne!(all[i], all[j]);
            }
        }
    }
}
