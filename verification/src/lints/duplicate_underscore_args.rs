//! Duplicate underscore parameters: two parameters of one signature whose
//! names are the same apart from a leading underscore.

use vstd::prelude::*;
use vstd::string::StringExecFns;

use crate::node::{diag_views, ParamNode, PluginDiagnostic, Severity, SpecDiagnostic};
use crate::text::{chars_eq, str_to_chars};

verus! {

pub const DUPLICATE_UNDERSCORE_ARGS: &'static str =
    "duplicate parameter names differing only by a leading underscore";

/// The message constant, as a character sequence.
pub open spec fn duplicate_underscore_args_msg() -> Seq<char> {
    "duplicate parameter names differing only by a leading underscore"@
}

/// A parameter name with one leading underscore removed.
pub open spec fn spec_stem(n: Seq<char>) -> Seq<char> {
    if n.len() > 0 && n[0] == '_' {
        n.skip(1)
    } else {
        n
    }
}

/// Whether the parameter at `j` clashes with an earlier one: same name
/// apart from a leading underscore.
pub open spec fn spec_param_clashes(params: Seq<ParamNode>, j: int) -> bool {
    exists|i: int|
        0 <= i < j && #[trigger] spec_stem(params[i].name@) == spec_stem(params[j].name@)
}

/// What the detector emits for the parameter at `j`.
pub open spec fn spec_dup_param_diags(params: Seq<ParamNode>, j: int) -> Seq<SpecDiagnostic> {
    if spec_param_clashes(params, j) {
        seq![
            SpecDiagnostic {
                stable_ptr: params[j].stable_ptr,
                message: duplicate_underscore_args_msg(),
                severity: Severity::Warning,
            },
        ]
    } else {
        Seq::empty()
    }
}

/// What the detector emits for the first `j` parameters, in order.
pub open spec fn spec_dup_args_upto(params: Seq<ParamNode>, j: int) -> Seq<SpecDiagnostic>
    decreases j,
{
    if j <= 0 {
        Seq::empty()
    } else {
        spec_dup_args_upto(params, j - 1) + spec_dup_param_diags(params, j - 1)
    }
}

/// What the detector emits for a whole parameter list.
pub open spec fn spec_check_duplicate_underscore_args(params: Seq<ParamNode>) -> Seq<
    SpecDiagnostic,
> {
    spec_dup_args_upto(params, params.len() as int)
}

/// The parameter name with one leading underscore removed.
fn stem_chars(name: &str) -> (v: Vec<char>)
    ensures
        v@ == spec_stem(name@),
{
    let w = str_to_chars(name);
    if w.len() > 0 && w[0] == '_' {
        let mut v: Vec<char> = Vec::new();
        let mut j: usize = 1;
        while j < w.len()
            invariant
                1 <= j <= w@.len(),
                v@ == w@.subrange(1, j as int),
            decreases w.len() - j,
        {
            v.push(w[j]);
            j = j + 1;
            proof {
                assert(v@ =~= w@.subrange(1, j as int));
            }
        }
        proof {
            assert(v@ =~= w@.skip(1));
        }
        v
    } else {
        w
    }
}

/// The detector: flags every parameter whose name repeats an earlier
/// parameter's name apart from a leading underscore.
pub fn check_duplicate_underscore_args(
    params: &Vec<ParamNode>,
    diagnostics: &mut Vec<PluginDiagnostic>,
)
    ensures
        diag_views(final(diagnostics)@) == diag_views(old(diagnostics)@)
            + spec_check_duplicate_underscore_args(params@),
{
    let mut stems: Vec<Vec<char>> = Vec::new();
    let mut j: usize = 0;
    proof {
        assert(diag_views(diagnostics@) =~= diag_views(old(diagnostics)@) + spec_dup_args_upto(
            params@,
            0,
        ));
    }
    while j < params.len()
        invariant
            0 <= j <= params@.len(),
            stems@.len() == j,
            forall|k: int| 0 <= k < j ==> #[trigger] stems@[k]@ == spec_stem(params@[k].name@),
            diag_views(diagnostics@) == diag_views(old(diagnostics)@) + spec_dup_args_upto(
                params@,
                j as int,
            ),
        decreases params.len() - j,
    {
        let s = stem_chars(params[j].name.as_str());
        let mut clash: bool = false;
        let mut i: usize = 0;
        while i < j
            invariant
                0 <= i <= j < params@.len(),
                stems@.len() == j,
                s@ == spec_stem(params@[j as int].name@),
                forall|k: int| 0 <= k < j ==> #[trigger] stems@[k]@ == spec_stem(params@[k].name@),
                clash ==> spec_param_clashes(params@, j as int),
                !clash ==> forall|k: int|
                    0 <= k < i ==> #[trigger] spec_stem(params@[k].name@) != spec_stem(
                        params@[j as int].name@,
                    ),
            decreases j - i,
        {
            if chars_eq(&stems[i], &s) {
                clash = true;
                proof {
                    assert(spec_stem(params@[i as int].name@) == spec_stem(
                        params@[j as int].name@,
                    ));
                    assert(spec_param_clashes(params@, j as int));
                }
            }
            i = i + 1;
        }
        if clash {
            let ghost before = diagnostics@;
            let d = PluginDiagnostic {
                stable_ptr: params[j].stable_ptr,
                message: String::from_str(DUPLICATE_UNDERSCORE_ARGS),
                severity: Severity::Warning,
            };
            let ghost dv = d@;
            diagnostics.push(d);
            proof {
                assert(diag_views(diagnostics@) =~= diag_views(before).push(dv));
                assert(spec_dup_param_diags(params@, j as int) =~= seq![dv]);
            }
        }
        proof {
            if !clash {
                assert(!spec_param_clashes(params@, j as int)) by {
                    if spec_param_clashes(params@, j as int) {
                        let i0 = choose|i0: int|
                            0 <= i0 < j && #[trigger] spec_stem(params@[i0].name@) == spec_stem(
                                params@[j as int].name@,
                            );
                        assert(spec_stem(params@[i0].name@) != spec_stem(
                            params@[j as int].name@,
                        ));
                    }
                };
            }
            assert(diag_views(diagnostics@) =~= diag_views(old(diagnostics)@)
                + spec_dup_args_upto(params@, j as int + 1));
        }
        stems.push(s);
        j = j + 1;
    }
}

} // verus!
