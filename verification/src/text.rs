//! Character-level text utilities shared by the fix routines: whitespace
//! classification, scanning, trimming, and literal substring replacement.

use vstd::prelude::*;
use vstd::string::StrSliceExecFns;

verus! {

/// Whitespace in the sense of `char::is_whitespace`: the Unicode
/// `White_Space` code points.
pub open spec fn is_ws(c: char) -> bool {
    ||| c == ' '
    ||| c == '\t'
    ||| c == '\n'
    ||| c == '\u{0b}'
    ||| c == '\u{0c}'
    ||| c == '\r'
    ||| c == '\u{85}'
    ||| c == '\u{a0}'
    ||| c == '\u{1680}'
    ||| c == '\u{2000}'
    ||| c == '\u{2001}'
    ||| c == '\u{2002}'
    ||| c == '\u{2003}'
    ||| c == '\u{2004}'
    ||| c == '\u{2005}'
    ||| c == '\u{2006}'
    ||| c == '\u{2007}'
    ||| c == '\u{2008}'
    ||| c == '\u{2009}'
    ||| c == '\u{200a}'
    ||| c == '\u{2028}'
    ||| c == '\u{2029}'
    ||| c == '\u{202f}'
    ||| c == '\u{205f}'
    ||| c == '\u{3000}'
}

/// Executable test for [`is_ws`].
pub fn ws_char(c: char) -> (r: bool)
    ensures
        r == is_ws(c),
{
    c == ' ' || c == '\t' || c == '\n' || c == '\u{0b}' || c == '\u{0c}' || c == '\r'
        || c == '\u{85}' || c == '\u{a0}' || c == '\u{1680}' || c == '\u{2000}'
        || c == '\u{2001}' || c == '\u{2002}' || c == '\u{2003}' || c == '\u{2004}'
        || c == '\u{2005}' || c == '\u{2006}' || c == '\u{2007}' || c == '\u{2008}'
        || c == '\u{2009}' || c == '\u{200a}' || c == '\u{2028}' || c == '\u{2029}'
        || c == '\u{202f}' || c == '\u{205f}' || c == '\u{3000}'
}

/// The characters of a string slice, as a vector.
pub fn str_to_chars(s: &str) -> (v: Vec<char>)
    ensures
        v@ == s@,
{
    let n: usize = s.unicode_len();
    let mut v: Vec<char> = Vec::new();
    let mut i: usize = 0;
    while i < n
        invariant
            n == s@.len(),
            0 <= i <= n,
            v@ == s@.take(i as int),
        decreases n - i,
    {
        let c = s.get_char(i);
        v.push(c);
        i = i + 1;
        proof {
            assert(v@ =~= s@.take(i as int));
        }
    }
    proof {
        assert(v@ =~= s@);
    }
    v
}

/// Relies on `<String as FromIterator<char>>::from_iter` (through
/// `Iterator::collect`): collecting characters yields the string made of
/// exactly those characters, in order.
#[verifier::external_body]
pub fn chars_to_string(v: &Vec<char>) -> (s: String)
    ensures
        s@ == v@,
{
    v.iter().collect()
}

/// Whether the strings are made of the same characters.
pub fn str_eq(a: &str, b: &str) -> (r: bool)
    ensures
        r == (a@ == b@),
{
    let va = str_to_chars(a);
    let vb = str_to_chars(b);
    chars_eq(&va, &vb)
}

/// Whether the two vectors hold the same characters.
pub fn chars_eq(a: &Vec<char>, b: &Vec<char>) -> (r: bool)
    ensures
        r == (a@ == b@),
{
    if a.len() != b.len() {
        return false;
    }
    let mut i: usize = 0;
    while i < a.len()
        invariant
            a.len() == b.len(),
            0 <= i <= a.len(),
            forall|k: int| 0 <= k < i ==> a@[k] == b@[k],
        decreases a.len() - i,
    {
        if a[i] != b[i] {
            return false;
        }
        i = i + 1;
    }
    proof {
        assert(a@ =~= b@);
    }
    true
}

/// Whether `pat` occurs in `t` starting at index `i`.
pub open spec fn occurs_at(t: Seq<char>, pat: Seq<char>, i: int) -> bool {
    0 <= i && i + pat.len() <= t.len() && t.subrange(i, i + pat.len()) == pat
}

/// Executable test for [`occurs_at`].
pub fn chars_match_at(t: &Vec<char>, pat: &Vec<char>, i: usize) -> (r: bool)
    requires
        i + pat.len() <= t.len(),
    ensures
        r == occurs_at(t@, pat@, i as int),
{
    let mut k: usize = 0;
    while k < pat.len()
        invariant
            i + pat.len() <= t.len(),
            0 <= k <= pat.len(),
            forall|m: int| 0 <= m < k ==> t@[i + m] == pat@[m],
        decreases pat.len() - k,
    {
        if t[i + k] != pat[k] {
            proof {
                assert(t@.subrange(i as int, i + pat@.len())[k as int] == t@[i + k]);
            }
            return false;
        }
        k = k + 1;
    }
    proof {
        assert(t@.subrange(i as int, i + pat@.len()) =~= pat@);
    }
    true
}

/// Whether `pat` occurs anywhere in `t`.
pub open spec fn contains_pat(t: Seq<char>, pat: Seq<char>) -> bool {
    exists|i: int| occurs_at(t, pat, i)
}

/// Whether `t` begins with `p`.
pub open spec fn starts_with(t: Seq<char>, p: Seq<char>) -> bool {
    p.len() <= t.len() && t.take(p.len() as int) == p
}

/// `t` with every occurrence of `pat` replaced by `rep`, scanning left to
/// right without rescanning replaced text — the behaviour of
/// `str::replace`. An empty pattern replaces nothing.
pub open spec fn replace_all(t: Seq<char>, pat: Seq<char>, rep: Seq<char>) -> Seq<char>
    decreases t.len(),
{
    if pat.len() == 0 || t.len() < pat.len() {
        t
    } else if t.take(pat.len() as int) == pat {
        rep + replace_all(t.skip(pat.len() as int), pat, rep)
    } else {
        seq![t[0]] + replace_all(t.skip(1), pat, rep)
    }
}

/// Executable [`replace_all`] on character vectors.
pub fn replace_all_chars(t: &Vec<char>, pat: &Vec<char>, rep: &Vec<char>) -> (r: Vec<char>)
    ensures
        r@ == replace_all(t@, pat@, rep@),
{
    if pat.len() == 0 {
        let mut out: Vec<char> = Vec::new();
        let mut i: usize = 0;
        while i < t.len()
            invariant
                0 <= i <= t.len(),
                out@ == t@.take(i as int),
            decreases t.len() - i,
        {
            out.push(t[i]);
            i = i + 1;
            proof {
                assert(out@ =~= t@.take(i as int));
            }
        }
        proof {
            assert(out@ =~= t@);
        }
        return out;
    }
    let mut out: Vec<char> = Vec::new();
    let mut i: usize = 0;
    proof {
        assert(t@.skip(0) =~= t@);
        assert(out@ + replace_all(t@, pat@, rep@) =~= replace_all(t@, pat@, rep@));
    }
    while i < t.len()
        invariant
            0 <= i <= t.len(),
            pat.len() > 0,
            replace_all(t@, pat@, rep@) == out@ + replace_all(t@.skip(i as int), pat@, rep@),
        decreases t.len() - i,
    {
        let ghost rest = t@.skip(i as int);
        if t.len() - i >= pat.len() && chars_match_at(t, pat, i) {
            proof {
                assert(rest.take(pat@.len() as int) =~= t@.subrange(
                    i as int,
                    i + pat@.len(),
                ));
                assert(rest.skip(pat@.len() as int) =~= t@.skip(i + pat@.len()));
            }
            let ghost out0 = out@;
            let mut k: usize = 0;
            while k < rep.len()
                invariant
                    0 <= k <= rep.len(),
                    out@ == out0 + rep@.take(k as int),
                decreases rep.len() - k,
            {
                out.push(rep[k]);
                k = k + 1;
                proof {
                    assert(out@ =~= out0 + rep@.take(k as int));
                }
            }
            proof {
                assert(out@ =~= out0 + rep@);
                assert((out0 + rep@) + replace_all(t@.skip(i + pat@.len() as int), pat@, rep@)
                    =~= out0 + (rep@ + replace_all(t@.skip(i + pat@.len() as int), pat@, rep@)));
            }
            i = i + pat.len();
        } else {
            proof {
                if rest.len() >= pat@.len() {
                    assert(rest.take(pat@.len() as int) =~= t@.subrange(
                        i as int,
                        i + pat@.len(),
                    ));
                }
                assert(rest.skip(1) =~= t@.skip(i + 1));
                assert((out@ + seq![t@[i as int]]) + replace_all(t@.skip(i + 1), pat@, rep@)
                    =~= out@ + (seq![t@[i as int]] + replace_all(t@.skip(i + 1), pat@, rep@)));
            }
            out.push(t[i]);
            i = i + 1;
        }
    }
    proof {
        assert(t@.skip(i as int) =~= Seq::<char>::empty());
        assert(replace_all(Seq::<char>::empty(), pat@, rep@) == Seq::<char>::empty());
        assert(out@ + Seq::<char>::empty() =~= out@);
    }
    out
}

/// Where the pattern does not occur, replacement changes nothing.
pub proof fn lemma_replace_all_absent(t: Seq<char>, pat: Seq<char>, rep: Seq<char>)
    requires
        pat.len() > 0,
        forall|i: int| !occurs_at(t, pat, i),
    ensures
        replace_all(t, pat, rep) == t,
    decreases t.len(),
{
    if t.len() < pat.len() {
    } else if t.take(pat.len() as int) == pat {
        assert(t.subrange(0, pat.len() as int) =~= t.take(pat.len() as int));
        assert(occurs_at(t, pat, 0));
    } else {
        assert forall|i: int| !occurs_at(t.skip(1), pat, i) by {
            if occurs_at(t.skip(1), pat, i) {
                assert(t.subrange(i + 1, i + 1 + pat.len()) =~= t.skip(1).subrange(
                    i,
                    i + pat.len(),
                ));
                assert(occurs_at(t, pat, i + 1));
            }
        }
        lemma_replace_all_absent(t.skip(1), pat, rep);
        assert(seq![t[0]] + t.skip(1) =~= t);
    }
}

/// The first index at or after `i` that does not hold whitespace (or the
/// length of `s` if the rest is whitespace).
pub open spec fn ws_run_end(s: Seq<char>, i: int) -> int
    decreases s.len() - i when i <= s.len()
{
    if 0 <= i < s.len() && is_ws(s[i]) {
        ws_run_end(s, i + 1)
    } else {
        i
    }
}

pub proof fn lemma_ws_run_end(s: Seq<char>, i: int)
    requires
        0 <= i <= s.len(),
    ensures
        i <= ws_run_end(s, i) <= s.len(),
    decreases s.len() - i,
{
    if i < s.len() && is_ws(s[i]) {
        lemma_ws_run_end(s, i + 1);
    }
}

/// Executable scan to [`ws_run_end`].
pub fn scan_ws_end(v: &Vec<char>, i: usize) -> (j: usize)
    requires
        i <= v.len(),
    ensures
        j == ws_run_end(v@, i as int),
        i <= j <= v.len(),
{
    let mut j: usize = i;
    while j < v.len() && ws_char(v[j])
        invariant
            i <= j <= v.len(),
            ws_run_end(v@, i as int) == ws_run_end(v@, j as int),
        decreases v.len() - j,
    {
        j = j + 1;
    }
    j
}

/// The first index at or after `i` that does not hold a space character.
pub open spec fn space_run_end(s: Seq<char>, i: int) -> int
    decreases s.len() - i when i <= s.len()
{
    if 0 <= i < s.len() && s[i] == ' ' {
        space_run_end(s, i + 1)
    } else {
        i
    }
}

pub proof fn lemma_space_run_end(s: Seq<char>, i: int)
    requires
        0 <= i <= s.len(),
    ensures
        i <= space_run_end(s, i) <= s.len(),
    decreases s.len() - i,
{
    if i < s.len() && s[i] == ' ' {
        lemma_space_run_end(s, i + 1);
    }
}

/// Executable scan to [`space_run_end`].
pub fn scan_space_end(v: &Vec<char>, i: usize) -> (j: usize)
    requires
        i <= v.len(),
    ensures
        j == space_run_end(v@, i as int),
        i <= j <= v.len(),
{
    let mut j: usize = i;
    while j < v.len() && v[j] == ' '
        invariant
            i <= j <= v.len(),
            space_run_end(v@, i as int) == space_run_end(v@, j as int),
        decreases v.len() - j,
    {
        j = j + 1;
    }
    j
}

/// How many characters in `s[a..b]` are not a newline.
pub open spec fn non_newline_count(s: Seq<char>, a: int, b: int) -> nat
    decreases b - a when a <= b
{
    if a < b && 0 <= a < s.len() {
        (if s[a] != '\n' {
            1nat
        } else {
            0nat
        }) + non_newline_count(s, a + 1, b)
    } else {
        0nat
    }
}

pub proof fn lemma_non_newline_count(s: Seq<char>, a: int, b: int)
    requires
        a <= b,
    ensures
        non_newline_count(s, a, b) <= b - a,
    decreases b - a,
{
    if a < b && 0 <= a < s.len() {
        lemma_non_newline_count(s, a + 1, b);
    }
}

/// Executable count to [`non_newline_count`].
pub fn count_non_newline(v: &Vec<char>, a: usize, b: usize) -> (n: usize)
    requires
        a <= b <= v.len(),
    ensures
        n == non_newline_count(v@, a as int, b as int),
        n <= b - a,
{
    proof {
        lemma_non_newline_count(v@, a as int, b as int);
    }
    let mut n: usize = 0;
    let mut j: usize = a;
    while j < b
        invariant
            a <= j <= b <= v.len(),
            n <= j - a,
            n + non_newline_count(v@, j as int, b as int) == non_newline_count(
                v@,
                a as int,
                b as int,
            ),
        decreases b - j,
    {
        proof {
            lemma_non_newline_count(v@, j + 1, b as int);
        }
        if v[j] != '\n' {
            n = n + 1;
        }
        j = j + 1;
    }
    n
}

/// A run of `n` spaces.
pub open spec fn spaces(n: nat) -> Seq<char> {
    Seq::new(n, |i: int| ' ')
}

/// Appends `n` spaces to `out`.
pub fn push_spaces(out: &mut Vec<char>, n: usize)
    ensures
        final(out)@ == old(out)@ + spaces(n as nat),
{
    let mut k: usize = 0;
    while k < n
        invariant
            0 <= k <= n,
            out@ == old(out)@ + spaces(k as nat),
        decreases n - k,
    {
        out.push(' ');
        k = k + 1;
        proof {
            assert(out@ =~= old(out)@ + spaces(k as nat));
        }
    }
}

/// Whether `t` ends with `suf`.
pub open spec fn ends_with(t: Seq<char>, suf: Seq<char>) -> bool {
    t.len() >= suf.len() && t.skip(t.len() - suf.len()) == suf
}

/// Executable test for [`ends_with`].
pub fn vec_ends_with(t: &Vec<char>, suf: &Vec<char>) -> (r: bool)
    ensures
        r == ends_with(t@, suf@),
{
    if t.len() < suf.len() {
        return false;
    }
    let base: usize = t.len() - suf.len();
    let r = chars_match_at(t, suf, base);
    proof {
        assert(t@.subrange(base as int, base + suf@.len()) =~= t@.skip(t@.len() - suf@.len()));
    }
    r
}

/// `t` with trailing whitespace removed.
pub open spec fn strip_ws_end(t: Seq<char>) -> Seq<char>
    decreases t.len(),
{
    if t.len() > 0 && is_ws(t.last()) {
        strip_ws_end(t.drop_last())
    } else {
        t
    }
}

/// Removes trailing whitespace in place.
pub fn pop_trailing_ws(out: &mut Vec<char>)
    ensures
        final(out)@ == strip_ws_end(old(out)@),
{
    loop
        invariant
            strip_ws_end(out@) == strip_ws_end(old(out)@),
        decreases out@.len(),
    {
        let n = out.len();
        if n == 0 {
            return ;
        }
        let c = out[n - 1];
        if !ws_char(c) {
            return ;
        }
        proof {
            assert(out@.last() == c);
        }
        out.pop();
        proof {
            assert(out@ =~= old(out)@.take(out@.len() as int) || true);
        }
    }
}

/// `t` with leading and trailing whitespace removed.
pub open spec fn trim_ws(t: Seq<char>) -> Seq<char> {
    strip_ws_end(t.skip(ws_run_end(t, 0)))
}

/// Executable [`trim_ws`].
pub fn trim_chars(t: &Vec<char>) -> (r: Vec<char>)
    ensures
        r@ == trim_ws(t@),
{
    let start = scan_ws_end(t, 0);
    let mut r: Vec<char> = Vec::new();
    let mut j: usize = start;
    while j < t.len()
        invariant
            start <= j <= t.len(),
            r@ == t@.subrange(start as int, j as int),
        decreases t.len() - j,
    {
        r.push(t[j]);
        j = j + 1;
        proof {
            assert(r@ =~= t@.subrange(start as int, j as int));
        }
    }
    proof {
        assert(r@ =~= t@.skip(start as int));
    }
    pop_trailing_ws(&mut r);
    r
}

/// The leading whitespace of `t`.
pub open spec fn leading_ws(t: Seq<char>) -> Seq<char> {
    t.take(ws_run_end(t, 0))
}

/// Executable [`leading_ws`].
pub fn leading_ws_chars(t: &Vec<char>) -> (r: Vec<char>)
    ensures
        r@ == leading_ws(t@),
{
    let end = scan_ws_end(t, 0);
    let mut r: Vec<char> = Vec::new();
    let mut j: usize = 0;
    while j < end
        invariant
            0 <= j <= end <= t.len(),
            r@ == t@.take(j as int),
        decreases end - j,
    {
        r.push(t[j]);
        j = j + 1;
        proof {
            assert(r@ =~= t@.take(j as int));
        }
    }
    r
}


/// Appends all of `w` to `out`.
pub fn append_chars(out: &mut Vec<char>, w: &Vec<char>)
    ensures
        final(out)@ == old(out)@ + w@,
{
    let mut k: usize = 0;
    while k < w.len()
        invariant
            0 <= k <= w@.len(),
            out@ == old(out)@ + w@.take(k as int),
        decreases w.len() - k,
    {
        out.push(w[k]);
        k = k + 1;
        proof {
            assert(out@ =~= old(out)@ + w@.take(k as int));
        }
    }
    proof {
        assert(out@ =~= old(out)@ + w@);
    }
}

} // verus!
