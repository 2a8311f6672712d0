//! The structural rewriter that collapses `else { if ... }` into `else if`.
//!
//! The rewrite is a single left-to-right pass over the characters of the
//! original text, specified here as a recursive state machine ([`rw_run`])
//! with two modes:
//!
//! * **scanning** — text is copied through unchanged until the literal
//!   sequence `else`, optional whitespace, `{`, optional whitespace, `if`
//!   is found; the non-newline whitespace between `{` and `if` is recorded
//!   as the base if-indentation of the construct;
//! * **flattening** — `else if` has been emitted and braces are now
//!   relocated: the closing brace of the inner if's body becomes the single
//!   `} else {` boundary, a second `else` introduced by the flattening is
//!   absorbed, and each line's indentation is reduced by one level. The
//!   width of one level (the *delta*) is measured once, from the first line
//!   whose indentation exceeds the base if-indentation, and reused for the
//!   rest of the pass.
//!
//! A post-pass removes any ` else {` / delta-spaces / `}` block that became
//! empty purely as a by-product of the flattening.
//!
//! Inputs that mix tabs and spaces or indent inconsistently are not given a
//! meaningful result; the automaton stays total on them by clamping every
//! indentation subtraction at zero.

use vstd::prelude::*;

use crate::text::{
    chars_to_string, count_non_newline, ends_with, lemma_space_run_end, lemma_ws_run_end,
    non_newline_count, pop_trailing_ws, push_spaces, replace_all, replace_all_chars,
    scan_space_end, scan_ws_end, spaces, space_run_end, str_to_chars, strip_ws_end, ws_run_end,
};

verus! {

/// The mode of the rewriter: copying text through, or flattening one
/// `else { if ... }` construct.
pub enum RwMode {
    Scan,
    Flatten { if_indent: nat, open: int, inside_else: bool, extra_else: bool },
}

/// The whole state of the rewriter: mode, the measured indentation delta
/// (zero until measured), and the text emitted so far.
pub struct RwState {
    pub mode: RwMode,
    pub delta: nat,
    pub out: Seq<char>,
}

pub open spec fn else_chars() -> Seq<char> {
    seq!['e', 'l', 's', 'e']
}

pub open spec fn else_sp_chars() -> Seq<char> {
    seq!['e', 'l', 's', 'e', ' ']
}

pub open spec fn else_if_chars() -> Seq<char> {
    seq!['e', 'l', 's', 'e', ' ', 'i', 'f']
}

pub open spec fn brace_else_chars() -> Seq<char> {
    seq!['}', ' ', 'e', 'l', 's', 'e', ' ', '{']
}

/// Position of the `{` of a candidate `else` at `i`: the first
/// non-whitespace character after the four letters of `else`.
pub open spec fn else_brace_pos(s: Seq<char>, i: int) -> int {
    ws_run_end(s, i + 4)
}

/// Position of the candidate `if`: the first non-whitespace character
/// after the `{`.
pub open spec fn else_if_pos(s: Seq<char>, i: int) -> int {
    ws_run_end(s, else_brace_pos(s, i) + 1)
}

/// Whether the trigger sequence `else` ws `{` ws `if` starts at `i`.
pub open spec fn else_if_match(s: Seq<char>, i: int) -> bool {
    &&& 0 <= i
    &&& i + 4 <= s.len()
    &&& s.subrange(i, i + 4) == else_chars()
    &&& else_brace_pos(s, i) < s.len()
    &&& s[else_brace_pos(s, i)] == '{'
    &&& else_if_pos(s, i) + 2 <= s.len()
    &&& s[else_if_pos(s, i)] == 'i'
    &&& s[else_if_pos(s, i) + 1] == 'f'
}

/// First position after the matched trigger sequence.
pub open spec fn match_end(s: Seq<char>, i: int) -> int {
    else_if_pos(s, i) + 2
}

/// The base if-indentation of the construct: the non-newline whitespace
/// between the `{` and the `if`.
pub open spec fn match_indent(s: Seq<char>, i: int) -> nat {
    non_newline_count(s, else_brace_pos(s, i) + 1, else_if_pos(s, i))
}

/// One level of indentation removed, clamped at zero.
pub open spec fn reduce_indent(li: int, delta: nat) -> nat {
    if delta <= li {
        (li - delta) as nat
    } else {
        0nat
    }
}

/// Runs the rewriter over `s[i..]` starting from state `st`.
pub open spec fn rw_run(s: Seq<char>, i: int, st: RwState) -> RwState
    decreases s.len() - i when 0 <= i <= s.len() via rw_run_dec
{
    if i >= s.len() {
        st
    } else {
        match st.mode {
            RwMode::Scan => {
                if else_if_match(s, i) {
                    rw_run(
                        s,
                        match_end(s, i),
                        RwState {
                            mode: RwMode::Flatten {
                                if_indent: match_indent(s, i),
                                open: 0,
                                inside_else: false,
                                extra_else: false,
                            },
                            delta: st.delta,
                            out: st.out + else_if_chars(),
                        },
                    )
                } else {
                    rw_run(
                        s,
                        i + 1,
                        RwState { mode: RwMode::Scan, delta: st.delta, out: st.out.push(s[i]) },
                    )
                }
            },
            RwMode::Flatten { if_indent, open, inside_else, extra_else } => {
                let c = s[i];
                if c == '{' {
                    if inside_else {
                        if ends_with(st.out, else_sp_chars()) || ends_with(st.out, else_chars()) {
                            // a second `else` produced by the flattening:
                            // absorb it instead of emitting the brace
                            let keep = if ends_with(st.out, else_sp_chars()) {
                                st.out.len() - 5
                            } else {
                                st.out.len() - 4
                            };
                            rw_run(
                                s,
                                i + 1,
                                RwState {
                                    mode: RwMode::Flatten {
                                        if_indent,
                                        open,
                                        inside_else,
                                        extra_else: true,
                                    },
                                    delta: st.delta,
                                    out: strip_ws_end(st.out.take(keep as int)),
                                },
                            )
                        } else if i + 1 < s.len() && s[i + 1] == '}' {
                            // an immediately empty block: keep it bare
                            rw_run(
                                s,
                                i + 2,
                                RwState {
                                    mode: st.mode,
                                    delta: st.delta,
                                    out: st.out + seq!['{', '}'],
                                },
                            )
                        } else {
                            rw_run(
                                s,
                                i + 1,
                                RwState {
                                    mode: RwMode::Flatten {
                                        if_indent,
                                        open: open + 1,
                                        inside_else,
                                        extra_else,
                                    },
                                    delta: st.delta,
                                    out: st.out.push('{'),
                                },
                            )
                        }
                    } else {
                        rw_run(
                            s,
                            i + 1,
                            RwState {
                                mode: RwMode::Flatten {
                                    if_indent,
                                    open: open + 1,
                                    inside_else,
                                    extra_else,
                                },
                                delta: st.delta,
                                out: st.out.push('{'),
                            },
                        )
                    }
                } else if c == '}' {
                    if open == 1 && !inside_else {
                        // the closing brace of the inner if's body becomes
                        // the single else boundary, one level shallower
                        let keep = if st.delta <= st.out.len() {
                            st.out.len() - st.delta
                        } else {
                            0
                        };
                        rw_run(
                            s,
                            i + 1,
                            RwState {
                                mode: RwMode::Flatten {
                                    if_indent,
                                    open: 0,
                                    inside_else: true,
                                    extra_else,
                                },
                                delta: st.delta,
                                out: st.out.take(keep as int) + brace_else_chars(),
                            },
                        )
                    } else if open == 1 && inside_else {
                        // closing brace of a block whose opening brace was
                        // counted inside the else clause: swallowed
                        rw_run(
                            s,
                            i + 1,
                            RwState {
                                mode: RwMode::Flatten {
                                    if_indent,
                                    open: 0,
                                    inside_else,
                                    extra_else,
                                },
                                delta: st.delta,
                                out: st.out,
                            },
                        )
                    } else if open == 0 {
                        // the new final closing brace of the whole construct
                        rw_run(
                            s,
                            i + 1,
                            RwState {
                                mode: RwMode::Flatten {
                                    if_indent,
                                    open: -1,
                                    inside_else,
                                    extra_else,
                                },
                                delta: st.delta,
                                out: st.out.push('}'),
                            },
                        )
                    } else {
                        // nesting this automaton does not handle: trim and
                        // stop flattening this construct
                        rw_run(
                            s,
                            i + 1,
                            RwState { mode: RwMode::Scan, delta: st.delta, out: strip_ws_end(st.out) },
                        )
                    }
                } else if c == '\n' {
                    let le = space_run_end(s, i + 1);
                    let li = le - (i + 1);
                    let delta2 = if st.delta == 0 && li > if_indent {
                        (li - if_indent) as nat
                    } else {
                        st.delta
                    };
                    if li > if_indent {
                        rw_run(
                            s,
                            le,
                            RwState {
                                mode: st.mode,
                                delta: delta2,
                                out: st.out.push('\n') + spaces(reduce_indent(li, delta2)),
                            },
                        )
                    } else if inside_else && le < s.len() && s[le] == '}' && extra_else {
                        // closing out the level absorbed with the extra else
                        rw_run(
                            s,
                            le,
                            RwState {
                                mode: RwMode::Flatten {
                                    if_indent,
                                    open,
                                    inside_else,
                                    extra_else: false,
                                },
                                delta: delta2,
                                out: st.out.push('\n') + spaces(reduce_indent(li, delta2)),
                            },
                        )
                    } else {
                        rw_run(
                            s,
                            le,
                            RwState {
                                mode: st.mode,
                                delta: delta2,
                                out: st.out.push('\n') + spaces(li as nat),
                            },
                        )
                    }
                } else {
                    rw_run(
                        s,
                        i + 1,
                        RwState { mode: st.mode, delta: st.delta, out: st.out.push(c) },
                    )
                }
            },
        }
    }
}

#[via_fn]
proof fn rw_run_dec(s: Seq<char>, i: int, st: RwState) {
    if 0 <= i < s.len() {
        if i + 4 <= s.len() {
            lemma_ws_run_end(s, i + 4);
            if else_brace_pos(s, i) + 1 <= s.len() {
                lemma_ws_run_end(s, else_brace_pos(s, i) + 1);
            }
        }
        lemma_space_run_end(s, i + 1);
    }
}

/// The initial state of the rewriter.
pub open spec fn rw_init() -> RwState {
    RwState { mode: RwMode::Scan, delta: 0, out: Seq::empty() }
}

/// The post-pass pattern: an else clause left empty by the flattening.
pub open spec fn rw_empty_else(delta: nat) -> Seq<char> {
    seq![' ', 'e', 'l', 's', 'e', ' ', '{', '\n'] + spaces(delta) + seq!['}']
}

/// The full rewrite: run the automaton over the whole text, then delete
/// every else clause the flattening emptied.
pub open spec fn spec_transform_if_else(text: Seq<char>) -> Seq<char> {
    let fin = rw_run(text, 0, rw_init());
    replace_all(fin.out, rw_empty_else(fin.delta), Seq::empty())
}

/// Packs the executable rewriter variables into the specification state.
pub open spec fn st_of(
    flatten: bool,
    if_indent: usize,
    open: i128,
    inside_else: bool,
    extra_else: bool,
    delta: usize,
    out: Seq<char>,
) -> RwState {
    RwState {
        mode: if flatten {
            RwMode::Flatten {
                if_indent: if_indent as nat,
                open: open as int,
                inside_else,
                extra_else,
            }
        } else {
            RwMode::Scan
        },
        delta: delta as nat,
        out,
    }
}

/// Looks for the trigger sequence at `i`; returns the position after the
/// `if` and the base if-indentation when it is there.
fn try_else_if_match(v: &Vec<char>, i: usize) -> (r: Option<(usize, usize)>)
    requires
        i < v.len(),
    ensures
        match r {
            Some(p) => else_if_match(v@, i as int) && p.0 == match_end(v@, i as int) && p.1
                == match_indent(v@, i as int) && i < p.0 <= v@.len() && p.1 <= v@.len(),
            None => !else_if_match(v@, i as int),
        },
{
    if v.len() - i < 4 {
        return None;
    }
    if !(v[i] == 'e' && v[i + 1] == 'l' && v[i + 2] == 's' && v[i + 3] == 'e') {
        proof {
            if v@.subrange(i as int, i as int + 4) == else_chars() {
                assert(v@.subrange(i as int, i as int + 4)[0] == v@[i as int]);
                assert(v@.subrange(i as int, i as int + 4)[1] == v@[i as int + 1]);
                assert(v@.subrange(i as int, i as int + 4)[2] == v@[i as int + 2]);
                assert(v@.subrange(i as int, i as int + 4)[3] == v@[i as int + 3]);
            }
        }
        return None;
    }
    proof {
        assert(v@.subrange(i as int, i as int + 4) =~= else_chars());
    }
    let j = scan_ws_end(v, i + 4);
    if j == v.len() || v[j] != '{' {
        return None;
    }
    let k = scan_ws_end(v, j + 1);
    if v.len() - k < 2 {
        return None;
    }
    if !(v[k] == 'i' && v[k + 1] == 'f') {
        return None;
    }
    let ind = count_non_newline(v, j + 1, k);
    Some((k + 2, ind))
}

/// Appends `else if` to `out`.
fn push_else_if(out: &mut Vec<char>)
    ensures
        final(out)@ == old(out)@ + else_if_chars(),
{
    out.push('e');
    out.push('l');
    out.push('s');
    out.push('e');
    out.push(' ');
    out.push('i');
    out.push('f');
    proof {
        assert(out@ =~= old(out)@ + else_if_chars());
    }
}

/// Appends `} else {` to `out`.
fn push_brace_else(out: &mut Vec<char>)
    ensures
        final(out)@ == old(out)@ + brace_else_chars(),
{
    out.push('}');
    out.push(' ');
    out.push('e');
    out.push('l');
    out.push('s');
    out.push('e');
    out.push(' ');
    out.push('{');
    proof {
        assert(out@ =~= old(out)@ + brace_else_chars());
    }
}

/// Executable rewriter over a character vector.
pub fn transform_chars(v: &Vec<char>) -> (r: Vec<char>)
    ensures
        r@ == spec_transform_if_else(v@),
{
    let pat_else: Vec<char> = vec!['e', 'l', 's', 'e'];
    let pat_else_sp: Vec<char> = vec!['e', 'l', 's', 'e', ' '];
    proof {
        assert(pat_else@ =~= else_chars());
        assert(pat_else_sp@ =~= else_sp_chars());
    }
    let mut out: Vec<char> = Vec::new();
    let mut i: usize = 0;
    let mut flatten: bool = false;
    let mut if_indent: usize = 0;
    let mut open: i128 = 0;
    let mut inside_else: bool = false;
    let mut extra_else: bool = false;
    let mut delta: usize = 0;
    proof {
        assert(out@ =~= Seq::<char>::empty());
        assert(st_of(false, 0, 0, false, false, 0, out@) == rw_init());
    }
    while i < v.len()
        invariant
            0 <= i <= v.len(),
            flatten ==> -1 <= open <= i,
            delta <= v.len(),
            if_indent <= v.len(),
            rw_run(v@, 0, rw_init()) == rw_run(
                v@,
                i as int,
                st_of(flatten, if_indent, open, inside_else, extra_else, delta, out@),
            ),
            pat_else@ == else_chars(),
            pat_else_sp@ == else_sp_chars(),
        decreases v.len() - i,
    {
        let ghost i0 = i as int;
        let ghost st0 = st_of(flatten, if_indent, open, inside_else, extra_else, delta, out@);
        if !flatten {
            match try_else_if_match(v, i) {
                Some((e, ind)) => {
                    push_else_if(&mut out);
                    i = e;
                    flatten = true;
                    if_indent = ind;
                    open = 0;
                    inside_else = false;
                    extra_else = false;
                    proof {
                        assert(rw_run(v@, i0, st0) == rw_run(
                            v@,
                            i as int,
                            st_of(
                                flatten,
                                if_indent,
                                open,
                                inside_else,
                                extra_else,
                                delta,
                                out@,
                            ),
                        ));
                    }
                },
                None => {
                    out.push(v[i]);
                    i = i + 1;
                    proof {
                        assert(rw_run(v@, i0, st0) == rw_run(
                            v@,
                            i as int,
                            st_of(
                                flatten,
                                if_indent,
                                open,
                                inside_else,
                                extra_else,
                                delta,
                                out@,
                            ),
                        ));
                    }
                },
            }
        } else {
            let c = v[i];
            if c == '{' {
                if inside_else {
                    let tail_sp = crate::text::vec_ends_with(&out, &pat_else_sp);
                    let tail_bare = if tail_sp {
                        false
                    } else {
                        crate::text::vec_ends_with(&out, &pat_else)
                    };
                    if tail_sp || tail_bare {
                        let keep: usize = if tail_sp {
                            out.len() - 5
                        } else {
                            out.len() - 4
                        };
                        out.truncate(keep);
                        pop_trailing_ws(&mut out);
                        extra_else = true;
                        i = i + 1;
                        proof {
                            assert(rw_run(v@, i0, st0) == rw_run(
                                v@,
                                i as int,
                                st_of(
                                    flatten,
                                    if_indent,
                                    open,
                                    inside_else,
                                    extra_else,
                                    delta,
                                    out@,
                                ),
                            ));
                        }
                    } else if i + 1 < v.len() && v[i + 1] == '}' {
                        out.push('{');
                        out.push('}');
                        i = i + 2;
                        proof {
                            assert(out@ =~= st0.out + seq!['{', '}']);
                            assert(rw_run(v@, i0, st0) == rw_run(
                                v@,
                                i as int,
                                st_of(
                                    flatten,
                                    if_indent,
                                    open,
                                    inside_else,
                                    extra_else,
                                    delta,
                                    out@,
                                ),
                            ));
                        }
                    } else {
                        out.push('{');
                        open = open + 1;
                        i = i + 1;
                        proof {
                            assert(rw_run(v@, i0, st0) == rw_run(
                                v@,
                                i as int,
                                st_of(
                                    flatten,
                                    if_indent,
                                    open,
                                    inside_else,
                                    extra_else,
                                    delta,
                                    out@,
                                ),
                            ));
                        }
                    }
                } else {
                    out.push('{');
                    open = open + 1;
                    i = i + 1;
                    proof {
                        assert(rw_run(v@, i0, st0) == rw_run(
                            v@,
                            i as int,
                            st_of(
                                flatten,
                                if_indent,
                                open,
                                inside_else,
                                extra_else,
                                delta,
                                out@,
                            ),
                        ));
                    }
                }
            } else if c == '}' {
                if open == 1 && !inside_else {
                    let keep: usize = if delta <= out.len() {
                        out.len() - delta
                    } else {
                        0
                    };
                    out.truncate(keep);
                    push_brace_else(&mut out);
                    open = 0;
                    inside_else = true;
                    i = i + 1;
                    proof {
                        assert(rw_run(v@, i0, st0) == rw_run(
                            v@,
                            i as int,
                            st_of(
                                flatten,
                                if_indent,
                                open,
                                inside_else,
                                extra_else,
                                delta,
                                out@,
                            ),
                        ));
                    }
                } else if open == 1 && inside_else {
                    open = 0;
                    i = i + 1;
                    proof {
                        assert(rw_run(v@, i0, st0) == rw_run(
                            v@,
                            i as int,
                            st_of(
                                flatten,
                                if_indent,
                                open,
                                inside_else,
                                extra_else,
                                delta,
                                out@,
                            ),
                        ));
                    }
                } else if open == 0 {
                    out.push('}');
                    open = -1;
                    i = i + 1;
                    proof {
                        assert(rw_run(v@, i0, st0) == rw_run(
                            v@,
                            i as int,
                            st_of(
                                flatten,
                                if_indent,
                                open,
                                inside_else,
                                extra_else,
                                delta,
                                out@,
                            ),
                        ));
                    }
                } else {
                    pop_trailing_ws(&mut out);
                    flatten = false;
                    i = i + 1;
                    proof {
                        assert(rw_run(v@, i0, st0) == rw_run(
                            v@,
                            i as int,
                            st_of(
                                flatten,
                                if_indent,
                                open,
                                inside_else,
                                extra_else,
                                delta,
                                out@,
                            ),
                        ));
                    }
                }
            } else if c == '\n' {
                let le = scan_space_end(v, i + 1);
                let li: usize = le - (i + 1);
                if delta == 0 && li > if_indent {
                    delta = li - if_indent;
                }
                out.push('\n');
                if li > if_indent {
                    let emit: usize = if delta <= li {
                        li - delta
                    } else {
                        0
                    };
                    push_spaces(&mut out, emit);
                    proof {
                        assert(out@ =~= st0.out.push('\n') + spaces(
                            reduce_indent(li as int, delta as nat),
                        ));
                    }
                } else if inside_else && le < v.len() && v[le] == '}' && extra_else {
                    let emit: usize = if delta <= li {
                        li - delta
                    } else {
                        0
                    };
                    push_spaces(&mut out, emit);
                    extra_else = false;
                    proof {
                        assert(out@ =~= st0.out.push('\n') + spaces(
                            reduce_indent(li as int, delta as nat),
                        ));
                    }
                } else {
                    push_spaces(&mut out, li);
                    proof {
                        assert(out@ =~= st0.out.push('\n') + spaces(li as nat));
                    }
                }
                i = le;
                proof {
                    assert(rw_run(v@, i0, st0) == rw_run(
                        v@,
                        i as int,
                        st_of(flatten, if_indent, open, inside_else, extra_else, delta, out@),
                    ));
                }
            } else {
                out.push(c);
                i = i + 1;
                proof {
                    assert(rw_run(v@, i0, st0) == rw_run(
                        v@,
                        i as int,
                        st_of(flatten, if_indent, open, inside_else, extra_else, delta, out@),
                    ));
                }
            }
        }
    }
    proof {
        assert(rw_run(
            v@,
            i as int,
            st_of(flatten, if_indent, open, inside_else, extra_else, delta, out@),
        ) == st_of(flatten, if_indent, open, inside_else, extra_else, delta, out@));
    }
    let mut pat: Vec<char> = vec![' ', 'e', 'l', 's', 'e', ' ', '{', '\n'];
    push_spaces(&mut pat, delta);
    pat.push('}');
    proof {
        assert(pat@ =~= rw_empty_else(delta as nat));
    }
    let empty: Vec<char> = Vec::new();
    proof {
        assert(empty@ =~= Seq::<char>::empty());
    }
    replace_all_chars(&out, &pat, &empty)
}

/// The full rewrite on a string, executable form of
/// [`spec_transform_if_else`].
pub fn transform_text(text: &str) -> (r: String)
    ensures
        r@ == spec_transform_if_else(text@),
{
    let v = str_to_chars(text);
    let w = transform_chars(&v);
    chars_to_string(&w)
}

} // verus!
