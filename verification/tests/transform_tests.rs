use cairo_lint_core::fix::Fixer;

fn transform(s: &str) -> String {
    Fixer.transform_if_else(s.to_string())
}

#[test]
fn collapses_else_if_chain() {
    let input = "if a {\n    x();\n} else {\n    if b {\n        y();\n    } else {\n        z();\n    }\n}";
    let expected = "if a {\n    x();\n} else if b {\n    y();\n} else {\n    z();\n}";
    assert_eq!(transform(input), expected);
}

#[test]
fn removes_dangling_empty_else() {
    let input = "else {\n        if b {\n            y();\n        }\n    }";
    let expected = "else if b {\n        y();\n    }";
    assert_eq!(transform(input), expected);
}

#[test]
fn ordinary_else_block_untouched() {
    let input = "if a {\n    x();\n} else {\n    y();\n}";
    assert_eq!(transform(input), input);
}

#[test]
fn text_without_else_untouched() {
    let input = "fn main() {\n    let x = 1;\n}";
    assert_eq!(transform(input), input);
}

#[test]
fn else_word_inside_identifier_untouched() {
    let input = "let elsewhere = 1;";
    assert_eq!(transform(input), input);
}

#[test]
fn transform_is_idempotent_on_fixed_output() {
    let input = "if a {\n    x();\n} else {\n    if b {\n        y();\n    } else {\n        z();\n    }\n}";
    let once = transform(input);
    let twice = transform(&once);
    assert_eq!(twice, once);
}

#[test]
fn collapses_nested_clause_at_deeper_indentation() {
    let input = "else {\n        if b {\n            y();\n        } else {\n            z();\n        }\n    }";
    let expected = "else if b {\n        y();\n    } else {\n        z();\n    }";
    assert_eq!(transform(input), expected);
}

#[test]
fn fix_collapsible_if_else_delegates_to_transform() {
    let input = "else {\n        if b {\n            y();\n        }\n    }";
    assert_eq!(Fixer.fix_collapsible_if_else(input), transform(input));
}
