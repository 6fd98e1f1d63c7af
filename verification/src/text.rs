//! Character and string utilities: the trusted bridges to std's Unicode
//! tables, and verified equality, substring and normalization routines
//! that the matcher, the router and the catalog build on.

use vstd::prelude::*;
use vstd::string::*;

verus! {

/// The character sequence that `str::to_lowercase` maps `s` to.  The mapping
/// is determined by the Unicode tables alone, so it is a function of `s`.
pub uninterp spec fn lower_of(s: Seq<char>) -> Seq<char>;

/// Relies on str::to_lowercase: the result depends only on the characters
/// of the input, through the Unicode lowercase mapping.
#[verifier::external_body]
pub(crate) fn to_lowercase_str(s: &str) -> (r: String)
    ensures
        r@ == lower_of(s@),
{
    s.to_lowercase()
}

/// Whether `c` has the Unicode `White_Space` property, as
/// `char::is_whitespace` decides it.
pub uninterp spec fn is_unicode_whitespace(c: char) -> bool;

/// Relies on char::is_whitespace: a pure lookup in the Unicode tables.
#[verifier::external_body]
pub(crate) fn char_is_whitespace(c: char) -> (r: bool)
    ensures
        r == is_unicode_whitespace(c),
{
    c.is_whitespace()
}

/// Whether `c` is alphanumeric in the Unicode sense, as
/// `char::is_alphanumeric` decides it.
pub uninterp spec fn is_unicode_alphanumeric(c: char) -> bool;

/// Relies on char::is_alphanumeric: a pure lookup in the Unicode tables.
#[verifier::external_body]
pub(crate) fn char_is_alphanumeric(c: char) -> (r: bool)
    ensures
        r == is_unicode_alphanumeric(c),
{
    c.is_alphanumeric()
}

/// Appends the single character `s@[i]` to `out`.
pub fn append_char_from(out: &mut String, s: &str, i: usize)
    requires
        i < s@.len(),
        i < usize::MAX,
    ensures
        final(out)@ == old(out)@ + seq![s@[i as int]],
{
    let piece = s.substring_char(i, i + 1);
    out.append(piece);
    proof {
        assert(old(out)@ + s@.subrange(i as int, i + 1) =~= old(out)@ + seq![s@[i as int]]);
    }
}

/// `needle` occurs in `hay` as a contiguous subsequence.
pub open spec fn contains_seq(hay: Seq<char>, needle: Seq<char>) -> bool {
    exists|i: int|
        0 <= i && i + needle.len() <= hay.len() && #[trigger] hay.subrange(i, i + needle.len())
            == needle
}

/// `p` is a prefix of `s`.
pub open spec fn prefix_seq(s: Seq<char>, p: Seq<char>) -> bool {
    p.len() <= s.len() && s.subrange(0, p.len() as int) == p
}

/// Whether `needle` stands in `hay` starting at character `at`.
fn match_at(hay: &str, needle: &str, at: usize, m: usize) -> (r: bool)
    requires
        m == needle@.len(),
        at + m <= hay@.len(),
        at + m <= usize::MAX,
    ensures
        r == (hay@.subrange(at as int, at + m) == needle@),
{
    let mut j: usize = 0;
    while j < m
        invariant
            m == needle@.len(),
            at + m <= hay@.len(),
            at + m <= usize::MAX,
            0 <= j <= m,
            forall|k: int| 0 <= k < j ==> hay@[at + k] == needle@[k],
        decreases m - j,
    {
        if hay.get_char(at + j) != needle.get_char(j) {
            assert(hay@.subrange(at as int, at + m)[j as int] != needle@[j as int]);
            return false;
        }
        j += 1;
    }
    proof {
        assert(hay@.subrange(at as int, at + m) =~= needle@);
    }
    true
}

/// Character-for-character string equality.
pub fn str_eq(a: &str, b: &str) -> (r: bool)
    ensures
        r == (a@ == b@),
{
    let n = a.unicode_len();
    let m = b.unicode_len();
    if n != m {
        return false;
    }
    let r = match_at(a, b, 0, m);
    proof {
        assert(a@.subrange(0, m as int) =~= a@);
    }
    r
}

/// Whether `needle` occurs anywhere in `hay` as a contiguous substring.
pub fn contains_str(hay: &str, needle: &str) -> (r: bool)
    ensures
        r == contains_seq(hay@, needle@),
{
    let n = hay.unicode_len();
    let m = needle.unicode_len();
    if m == 0 {
        proof {
            let i0: int = 0;
            assert(hay@.subrange(i0, i0 + needle@.len()) =~= needle@);
        }
        return true;
    }
    if m > n {
        return false;
    }
    let bound = n - m + 1;
    let mut i: usize = 0;
    while i < bound
        invariant
            n == hay@.len(),
            m == needle@.len(),
            1 <= m <= n,
            bound == n - m + 1,
            0 <= i <= bound,
            forall|j: int| 0 <= j < i ==> #[trigger] hay@.subrange(j, j + m) != needle@,
        decreases bound - i,
    {
        if match_at(hay, needle, i, m) {
            assert(contains_seq(hay@, needle@)) by {
                assert(hay@.subrange(i as int, i + m) == needle@);
            }
            return true;
        }
        i += 1;
    }
    false
}

/// Whether `p` is a prefix of `s`.
pub fn has_prefix(s: &str, p: &str) -> (r: bool)
    ensures
        r == prefix_seq(s@, p@),
{
    let n = s.unicode_len();
    let m = p.unicode_len();
    if m > n {
        return false;
    }
    match_at(s, p, 0, m)
}

/// The code point of `c` with an ASCII capital letter folded to its small
/// form; every other character is left as it is.
pub open spec fn folded_code(c: char) -> u32 {
    if 65 <= c as u32 <= 90 {
        (c as u32 + 32) as u32
    } else {
        c as u32
    }
}

/// `p` is a prefix of `s` when ASCII letters are compared without regard
/// to case.
pub open spec fn prefix_ci_seq(s: Seq<char>, p: Seq<char>) -> bool {
    p.len() <= s.len() && forall|j: int|
        0 <= j < p.len() ==> folded_code(s[j]) == folded_code(#[trigger] p[j])
}

fn exec_folded_code(c: char) -> (r: u32)
    ensures
        r == folded_code(c),
{
    let u = c as u32;
    if 65 <= u && u <= 90 {
        u + 32
    } else {
        u
    }
}

/// Whether `p` is a prefix of `s`, folding ASCII letter case on both sides.
pub fn has_prefix_ci(s: &str, p: &str) -> (r: bool)
    ensures
        r == prefix_ci_seq(s@, p@),
{
    let n = s.unicode_len();
    let m = p.unicode_len();
    if m > n {
        return false;
    }
    let mut j: usize = 0;
    while j < m
        invariant
            n == s@.len(),
            m == p@.len(),
            m <= n,
            0 <= j <= m,
            forall|k: int| 0 <= k < j ==> folded_code(s@[k]) == folded_code(#[trigger] p@[k]),
        decreases m - j,
    {
        if exec_folded_code(s.get_char(j)) != exec_folded_code(p.get_char(j)) {
            return false;
        }
        j += 1;
    }
    true
}

/// `s` with every occurrence of the character `c` removed.
pub open spec fn remove_char_spec(s: Seq<char>, c: char) -> Seq<char>
    decreases s.len(),
{
    if s.len() == 0 {
        Seq::empty()
    } else if s.last() == c {
        remove_char_spec(s.drop_last(), c)
    } else {
        remove_char_spec(s.drop_last(), c).push(s.last())
    }
}

/// Removes every occurrence of the character `c` from `s`.
pub fn remove_char(s: &str, c: char) -> (r: String)
    ensures
        r@ == remove_char_spec(s@, c),
{
    let n = s.unicode_len();
    let mut out = String::new();
    let mut i: usize = 0;
    while i < n
        invariant
            n == s@.len(),
            0 <= i <= n,
            out@ == remove_char_spec(s@.take(i as int), c),
        decreases n - i,
    {
        let ch = s.get_char(i);
        if ch != c {
            append_char_from(&mut out, s, i);
        }
        proof {
            assert(s@.take(i + 1).drop_last() =~= s@.take(i as int));
            assert(s@.take(i + 1).last() == s@[i as int]);
            if s@[i as int] != c {
                assert(remove_char_spec(s@.take(i as int), c).push(s@[i as int]) =~= remove_char_spec(
                    s@.take(i as int),
                    c,
                ) + seq![s@[i as int]]);
            }
        }
        i += 1;
    }
    proof {
        assert(s@.take(n as int) =~= s@);
    }
    out
}

/// `s` without its longest prefix of characters satisfying `p`.
pub open spec fn trim_start_if(s: Seq<char>, p: spec_fn(char) -> bool) -> Seq<char>
    decreases s.len(),
{
    if s.len() > 0 && p(s[0]) {
        trim_start_if(s.drop_first(), p)
    } else {
        s
    }
}

/// `s` without its longest suffix of characters satisfying `p`.
pub open spec fn trim_end_if(s: Seq<char>, p: spec_fn(char) -> bool) -> Seq<char>
    decreases s.len(),
{
    if s.len() > 0 && p(s.last()) {
        trim_end_if(s.drop_last(), p)
    } else {
        s
    }
}

proof fn lemma_trim_start_if(s: Seq<char>, p: spec_fn(char) -> bool, a: int)
    requires
        0 <= a <= s.len(),
        forall|k: int| 0 <= k < a ==> p(#[trigger] s[k]),
        a < s.len() ==> !p(s[a]),
    ensures
        trim_start_if(s, p) == s.subrange(a, s.len() as int),
    decreases a,
{
    if a == 0 {
        assert(s.subrange(0, s.len() as int) =~= s);
    } else {
        let t = s.drop_first();
        lemma_trim_start_if(t, p, a - 1);
        assert(t.subrange(a - 1, t.len() as int) =~= s.subrange(a, s.len() as int));
    }
}

proof fn lemma_trim_end_if(s: Seq<char>, p: spec_fn(char) -> bool, b: int)
    requires
        0 <= b <= s.len(),
        forall|k: int| b <= k < s.len() ==> p(#[trigger] s[k]),
        b > 0 ==> !p(s[b - 1]),
    ensures
        trim_end_if(s, p) == s.subrange(0, b),
    decreases s.len() - b,
{
    if b == s.len() {
        assert(s.subrange(0, b) =~= s);
    } else {
        let t = s.drop_last();
        lemma_trim_end_if(t, p, b);
        assert(t.subrange(0, b) =~= s.subrange(0, b));
    }
}

/// `s` with Unicode whitespace removed from both ends, as `str::trim`
/// leaves it.
pub open spec fn trim_spec(s: Seq<char>) -> Seq<char> {
    trim_end_if(
        trim_start_if(s, |c: char| is_unicode_whitespace(c)),
        |c: char| is_unicode_whitespace(c),
    )
}

/// Removes leading and trailing Unicode whitespace.
pub fn trim_str(s: &str) -> (r: String)
    ensures
        r@ == trim_spec(s@),
{
    let n = s.unicode_len();
    let mut a: usize = 0;
    while a < n && char_is_whitespace(s.get_char(a))
        invariant
            n == s@.len(),
            0 <= a <= n,
            forall|k: int| 0 <= k < a ==> is_unicode_whitespace(#[trigger] s@[k]),
        decreases n - a,
    {
        a += 1;
    }
    let mut b: usize = n;
    while b > a && char_is_whitespace(s.get_char(b - 1))
        invariant
            n == s@.len(),
            a <= b <= n,
            forall|k: int| b <= k < n ==> is_unicode_whitespace(#[trigger] s@[k]),
        decreases b,
    {
        b -= 1;
    }
    let piece = s.substring_char(a, b);
    proof {
        let ws = |c: char| is_unicode_whitespace(c);
        lemma_trim_start_if(s@, ws, a as int);
        let t = s@.subrange(a as int, n as int);
        lemma_trim_end_if(t, ws, b - a);
        assert(t.subrange(0, b - a) =~= s@.subrange(a as int, b as int));
    }
    String::from_str(piece)
}

/// `s` with each run of two or more spaces shortened to a single space.
pub open spec fn squeeze_spaces(s: Seq<char>) -> Seq<char>
    decreases s.len(),
{
    if s.len() == 0 {
        Seq::empty()
    } else if s.len() >= 2 && s[0] == ' ' && s[1] == ' ' {
        squeeze_spaces(s.drop_first())
    } else {
        seq![s[0]] + squeeze_spaces(s.drop_first())
    }
}

/// `s` with space runs squeezed and edge spaces dropped: what splitting on
/// spaces, dropping empty pieces and joining with single spaces leaves.
pub open spec fn collapse_spaces_spec(s: Seq<char>) -> Seq<char> {
    squeeze_spaces(trim_end_if(trim_start_if(s, |c: char| c == ' '), |c: char| c == ' '))
}

fn squeeze_spaces_exec(s: &str) -> (r: String)
    ensures
        r@ == squeeze_spaces(s@),
{
    let n = s.unicode_len();
    let mut out = String::new();
    let mut i: usize = 0;
    proof {
        assert(s@.skip(0) =~= s@);
        assert(out@ + squeeze_spaces(s@) =~= squeeze_spaces(s@));
    }
    while i < n
        invariant
            n == s@.len(),
            0 <= i <= n,
            squeeze_spaces(s@) == out@ + squeeze_spaces(s@.skip(i as int)),
        decreases n - i,
    {
        let c = s.get_char(i);
        let skip_this = c == ' ' && i + 1 < n && s.get_char(i + 1) == ' ';
        proof {
            let rest = s@.skip(i as int);
            assert(rest.drop_first() =~= s@.skip(i + 1));
            assert(rest[0] == s@[i as int]);
            if rest.len() >= 2 {
                assert(rest[1] == s@[i + 1]);
            }
        }
        if !skip_this {
            let ghost before = out@;
            append_char_from(&mut out, s, i);
            proof {
                assert(out@ + squeeze_spaces(s@.skip(i + 1)) =~= before + squeeze_spaces(
                    s@.skip(i as int),
                ));
            }
        }
        i += 1;
    }
    proof {
        assert(s@.skip(n as int) =~= Seq::<char>::empty());
        assert(out@ =~= squeeze_spaces(s@));
    }
    out
}

/// Collapses space runs to single spaces and drops edge spaces.
pub fn collapse_spaces(s: &str) -> (r: String)
    ensures
        r@ == collapse_spaces_spec(s@),
{
    let n = s.unicode_len();
    let mut a: usize = 0;
    while a < n && s.get_char(a) == ' '
        invariant
            n == s@.len(),
            0 <= a <= n,
            forall|k: int| 0 <= k < a ==> #[trigger] s@[k] == ' ',
        decreases n - a,
    {
        a += 1;
    }
    let mut b: usize = n;
    while b > a && s.get_char(b - 1) == ' '
        invariant
            n == s@.len(),
            a <= b <= n,
            forall|k: int| b <= k < n ==> #[trigger] s@[k] == ' ',
        decreases b,
    {
        b -= 1;
    }
    let piece = s.substring_char(a, b);
    proof {
        let sp = |c: char| c == ' ';
        lemma_trim_start_if(s@, sp, a as int);
        let t = s@.subrange(a as int, n as int);
        lemma_trim_end_if(t, sp, b - a);
        assert(t.subrange(0, b - a) =~= s@.subrange(a as int, b as int));
    }
    squeeze_spaces_exec(piece)
}

/// The index of the first occurrence of `c` in `s`, or `s.len()` when `c`
/// does not occur.
pub open spec fn index_of_char(s: Seq<char>, c: char) -> int
    decreases s.len(),
{
    if s.len() == 0 {
        0
    } else if s[0] == c {
        0
    } else {
        1 + index_of_char(s.drop_first(), c)
    }
}

proof fn lemma_index_of_char(s: Seq<char>, c: char, i: int)
    requires
        0 <= i <= s.len(),
        forall|k: int| 0 <= k < i ==> #[trigger] s[k] != c,
        i < s.len() ==> s[i] == c,
    ensures
        index_of_char(s, c) == i,
    decreases i,
{
    if i == 0 {
        if s.len() > 0 {
        }
    } else {
        let t = s.drop_first();
        lemma_index_of_char(t, c, i - 1);
    }
}

/// `s` cut off just before the first occurrence of `c`; all of `s` when
/// `c` does not occur.
pub open spec fn truncate_at_spec(s: Seq<char>, c: char) -> Seq<char> {
    s.subrange(0, index_of_char(s, c))
}

/// Cuts `s` off just before the first occurrence of `c`.
pub fn truncate_at(s: &str, c: char) -> (r: String)
    ensures
        r@ == truncate_at_spec(s@, c),
{
    let n = s.unicode_len();
    let mut i: usize = 0;
    while i < n && s.get_char(i) != c
        invariant
            n == s@.len(),
            0 <= i <= n,
            forall|k: int| 0 <= k < i ==> #[trigger] s@[k] != c,
        decreases n - i,
    {
        i += 1;
    }
    proof {
        lemma_index_of_char(s@, c, i as int);
    }
    let piece = s.substring_char(0, i);
    String::from_str(piece)
}

/// The inline marker that opens a bold span in corpus prompts.
pub open spec fn open_marker() -> Seq<char> {
    seq!['[', 'B', ']']
}

/// The inline marker that closes a bold span in corpus prompts.
pub open spec fn close_marker() -> Seq<char> {
    seq!['[', '/', 'B', ']']
}

/// `s` with every bold marker replaced by `rep`, scanning left to right.
pub open spec fn replace_markers_spec(s: Seq<char>, rep: Seq<char>) -> Seq<char>
    decreases s.len(),
{
    if s.len() == 0 {
        Seq::empty()
    } else if s.len() >= 3 && s.subrange(0, 3) == open_marker() {
        rep + replace_markers_spec(s.skip(3), rep)
    } else if s.len() >= 4 && s.subrange(0, 4) == close_marker() {
        rep + replace_markers_spec(s.skip(4), rep)
    } else {
        seq![s[0]] + replace_markers_spec(s.skip(1), rep)
    }
}

/// Replaces every `[B]` and `[/B]` marker in `s` with `rep`.
pub fn replace_markers(s: &str, rep: &str) -> (r: String)
    ensures
        r@ == replace_markers_spec(s@, rep@),
{
    let n = s.unicode_len();
    let mut out = String::new();
    let mut i: usize = 0;
    proof {
        assert(s@.skip(0) =~= s@);
        assert(out@ + replace_markers_spec(s@, rep@) =~= replace_markers_spec(s@, rep@));
    }
    while i < n
        invariant
            n == s@.len(),
            0 <= i <= n,
            replace_markers_spec(s@, rep@) == out@ + replace_markers_spec(s@.skip(i as int), rep@),
        decreases n - i,
    {
        let is_open = n - i >= 3 && s.get_char(i) == '[' && s.get_char(i + 1) == 'B'
            && s.get_char(i + 2) == ']';
        let is_close = !is_open && n - i >= 4 && s.get_char(i) == '[' && s.get_char(i + 1) == '/'
            && s.get_char(i + 2) == 'B' && s.get_char(i + 3) == ']';
        proof {
            let rest = s@.skip(i as int);
            if rest.len() >= 3 {
                assert(rest.subrange(0, 3)[0] == s@[i as int]);
                assert(rest.subrange(0, 3)[1] == s@[i + 1]);
                assert(rest.subrange(0, 3)[2] == s@[i + 2]);
                if is_open {
                    assert(rest.subrange(0, 3) =~= open_marker());
                }
            }
            if rest.len() >= 4 {
                assert(rest.subrange(0, 4)[0] == s@[i as int]);
                assert(rest.subrange(0, 4)[1] == s@[i + 1]);
                assert(rest.subrange(0, 4)[2] == s@[i + 2]);
                assert(rest.subrange(0, 4)[3] == s@[i + 3]);
                if is_close {
                    assert(rest.subrange(0, 4) =~= close_marker());
                }
            }
            assert(rest[0] == s@[i as int]);
        }
        if is_open {
            let ghost before = out@;
            out.append(rep);
            proof {
                assert(s@.skip(i as int).skip(3) =~= s@.skip(i + 3));
                assert(out@ + replace_markers_spec(s@.skip(i + 3), rep@) =~= before
                    + replace_markers_spec(s@.skip(i as int), rep@));
            }
            i += 3;
        } else if is_close {
            let ghost before = out@;
            out.append(rep);
            proof {
                assert(s@.skip(i as int).skip(4) =~= s@.skip(i + 4));
                assert(out@ + replace_markers_spec(s@.skip(i + 4), rep@) =~= before
                    + replace_markers_spec(s@.skip(i as int), rep@));
            }
            i += 4;
        } else {
            let ghost before = out@;
            append_char_from(&mut out, s, i);
            proof {
                assert(s@.skip(i as int).skip(1) =~= s@.skip(i + 1));
                assert(out@ + replace_markers_spec(s@.skip(i + 1), rep@) =~= before
                    + replace_markers_spec(s@.skip(i as int), rep@));
            }
            i += 1;
        }
    }
    proof {
        assert(s@.skip(n as int) =~= Seq::<char>::empty());
        assert(out@ =~= replace_markers_spec(s@, rep@));
    }
    out
}

/// An inbound message as the engine reads it: trimmed, spaces removed,
/// lowercased.
pub open spec fn normalize_spec(t: Seq<char>) -> Seq<char> {
    lower_of(remove_char_spec(trim_spec(t), ' '))
}

/// Normalizes inbound message text before routing and answer matching.
pub fn normalize_text(t: &str) -> (r: String)
    ensures
        r@ == normalize_spec(t@),
{
    let trimmed = trim_str(t);
    let despaced = remove_char(trimmed.as_str(), ' ');
    to_lowercase_str(despaced.as_str())
}

/// `s` with every character that is neither alphanumeric nor a space
/// removed.
pub open spec fn keep_alnum_space_spec(s: Seq<char>) -> Seq<char>
    decreases s.len(),
{
    if s.len() == 0 {
        Seq::empty()
    } else if is_unicode_alphanumeric(s.last()) || s.last() == ' ' {
        keep_alnum_space_spec(s.drop_last()).push(s.last())
    } else {
        keep_alnum_space_spec(s.drop_last())
    }
}

/// Keeps only alphanumeric characters and spaces.
pub fn keep_alnum_space(s: &str) -> (r: String)
    ensures
        r@ == keep_alnum_space_spec(s@),
{
    let n = s.unicode_len();
    let mut out = String::new();
    let mut i: usize = 0;
    while i < n
        invariant
            n == s@.len(),
            0 <= i <= n,
            out@ == keep_alnum_space_spec(s@.take(i as int)),
        decreases n - i,
    {
        let ch = s.get_char(i);
        if char_is_alphanumeric(ch) || ch == ' ' {
            append_char_from(&mut out, s, i);
        }
        proof {
            assert(s@.take(i + 1).drop_last() =~= s@.take(i as int));
            assert(s@.take(i + 1).last() == s@[i as int]);
            if is_unicode_alphanumeric(s@[i as int]) || s@[i as int] == ' ' {
                assert(keep_alnum_space_spec(s@.take(i as int)).push(s@[i as int])
                    =~= keep_alnum_space_spec(s@.take(i as int)) + seq![s@[i as int]]);
            }
        }
        i += 1;
    }
    proof {
        assert(s@.take(n as int) =~= s@);
    }
    out
}

} // verus!
