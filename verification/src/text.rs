//! Character and string helpers: ASCII lower-casing and case-insensitive
//! comparison against a fixed tag, used to normalize format extensions.

use vstd::prelude::*;

verus! {

/// True when `c` is an ASCII upper-case letter.
pub open spec fn is_upper(c: char) -> bool {
    'A' <= c && c <= 'Z'
}

/// The ASCII lower-case counterpart of `c`; other characters are unchanged.
pub open spec fn lower_char(c: char) -> char {
    if is_upper(c) {
        ((c as u8) + 32) as char
    } else {
        c
    }
}

/// `s` with every ASCII upper-case letter replaced by its lower-case form.
pub open spec fn lower(s: Seq<char>) -> Seq<char> {
    s.map_values(|c: char| lower_char(c))
}

/// The views of a list of strings.
pub open spec fn views_of(s: Seq<String>) -> Seq<Seq<char>> {
    s.map_values(|x: String| x@)
}

/// Lower-cases one character.
pub fn lower_char_x(c: char) -> (r: char)
    ensures
        r == lower_char(c),
{
    if 'A' <= c && c <= 'Z' {
        (((c as u8) + 32) as char)
    } else {
        c
    }
}

/// True when `sub` occurs in `s` as a contiguous run.
pub open spec fn contains_seq(s: Seq<char>, sub: Seq<char>) -> bool {
    exists|k: int| 0 <= k <= s.len() - sub.len() && #[trigger] s.subrange(k, k + sub.len()) == sub
}

/// Decides whether `sub` matches `s` at position `k`.
fn match_at(s: &str, sub: &str, k: usize) -> (r: bool)
    requires
        k + sub@.len() <= s@.len(),
    ensures
        r == (s@.subrange(k as int, k as int + sub@.len()) == sub@),
{
    let n = s.unicode_len();
    let m = sub.unicode_len();
    for j in 0..m
        invariant
            n == s@.len(),
            m == sub@.len(),
            k + m <= s@.len(),
            forall|l: int| 0 <= l < j ==> s@[k + l] == sub@[l],
    {
        if s.get_char(k + j) != sub.get_char(j) {
            assert(s@.subrange(k as int, k as int + m)[j as int] != sub@[j as int]);
            return false;
        }
    }
    assert(s@.subrange(k as int, k as int + m as int) =~= sub@);
    true
}

/// Decides whether `sub` occurs in `s`, at any position.
pub fn str_contains(s: &str, sub: &str) -> (r: bool)
    ensures
        r == contains_seq(s@, sub@),
{
    let n = s.unicode_len();
    let m = sub.unicode_len();
    if m > n {
        assert(!contains_seq(s@, sub@));
        return false;
    }
    if m == 0 {
        proof {
            let k: int = 0;
            assert(s@.subrange(k, k + sub@.len()) =~= sub@);
        }
        return true;
    }
    for k in 0..(n - m) + 1
        invariant
            n == s@.len(),
            m == sub@.len(),
            0 < m <= n,
            forall|k2: int| 0 <= k2 < k ==> #[trigger] s@.subrange(k2, k2 + m as int) != sub@,
    {
        if match_at(s, sub, k) {
            return true;
        }
    }
    false
}

/// The text after the last slash of `p`: the whole of `p` when it has no
/// slash, and empty when `p` ends with one.
pub open spec fn base_name(p: Seq<char>) -> Seq<char>
    decreases p.len(),
{
    if p.len() == 0 {
        p
    } else if p.last() == '/' {
        Seq::empty()
    } else {
        base_name(p.drop_last()).push(p.last())
    }
}

/// When no slash stands at or after `start`, and `start` is the start of
/// `p` or follows a slash, the base name of `p` is its tail from `start`.
proof fn lemma_base_name_split(p: Seq<char>, start: int)
    requires
        0 <= start <= p.len(),
        start == 0 || p[start - 1] == '/',
        forall|j: int| start <= j < p.len() ==> p[j] != '/',
    ensures
        base_name(p) == p.subrange(start, p.len() as int),
    decreases p.len(),
{
    if p.len() == 0 {
        assert(base_name(p) =~= p.subrange(start, p.len() as int));
    } else if p.last() == '/' {
        assert(start == p.len());
        assert(base_name(p) =~= p.subrange(start, p.len() as int));
    } else {
        assert(start < p.len());
        lemma_base_name_split(p.drop_last(), start);
        assert(p.drop_last().subrange(start, p.len() - 1) =~= p.subrange(start, p.len() - 1));
        assert(base_name(p) =~= p.subrange(start, p.len() as int));
    }
}

/// Decides whether the base name of `p` (its text after the last slash)
/// equals `name`; `name` must hold no slash.
pub fn base_name_is(p: &str, name: &str) -> (r: bool)
    requires
        forall|j: int| 0 <= j < name@.len() ==> name@[j] != '/',
    ensures
        r == (base_name(p@) == name@),
{
    let n = p.unicode_len();
    let m = name.unicode_len();
    let mut start: usize = 0;
    for i in 0..n
        invariant
            n == p@.len(),
            start <= i,
            start == 0 || p@[start - 1] == '/',
            forall|j: int| start <= j < i ==> p@[j] != '/',
    {
        if p.get_char(i) == '/' {
            start = i + 1;
        }
    }
    proof {
        lemma_base_name_split(p@, start as int);
    }
    if n - start != m {
        assert(base_name(p@).len() != name@.len());
        return false;
    }
    let r = match_at(p, name, start);
    assert(p@.subrange(start as int, start as int + m) =~= p@.subrange(start as int, n as int));
    r
}

/// True when `s` ends with the suffix `suf`.
pub open spec fn ends_with(s: Seq<char>, suf: Seq<char>) -> bool {
    s.len() >= suf.len() && s.subrange(s.len() - suf.len(), s.len() as int) == suf
}

/// Decides whether `s` ends with the suffix `suf`.
pub fn str_ends_with(s: &str, suf: &str) -> (r: bool)
    ensures
        r == ends_with(s@, suf@),
{
    let n = s.unicode_len();
    let m = suf.unicode_len();
    if m > n {
        return false;
    }
    for i in 0..m
        invariant
            n == s@.len(),
            m == suf@.len(),
            m <= n,
            forall|j: int| 0 <= j < i ==> s@[n - m + j] == suf@[j],
    {
        let c = s.get_char(n - m + i);
        let d = suf.get_char(i);
        if c != d {
            assert(s@.subrange(n as int - m, n as int)[i as int] != suf@[i as int]);
            return false;
        }
    }
    assert(s@.subrange(n as int - m, n as int) =~= suf@);
    true
}

/// Relies on String::push: appends one character to the string.
#[verifier::external_body]
pub(crate) fn push_char(s: &mut String, c: char)
    ensures
        final(s)@ == old(s)@.push(c),
{
    s.push(c);
}

/// Builds the lower-cased copy of `s`.
pub fn lower_str(s: &str) -> (r: String)
    ensures
        r@ == lower(s@),
{
    let n = s.unicode_len();
    let mut out = String::new();
    for i in 0..n
        invariant
            n == s@.len(),
            out@ == lower(s@).take(i as int),
    {
        let c = lower_char_x(s.get_char(i));
        push_char(&mut out, c);
        proof {
            assert(out@ =~= lower(s@).take(i as int + 1));
        }
    }
    assert(out@ =~= lower(s@));
    out
}

/// True exactly when `s`, lower-cased, equals `tag` as written.
pub fn eq_lower(s: &str, tag: &str) -> (r: bool)
    ensures
        r == (lower(s@) == tag@),
{
    let n = s.unicode_len();
    let m = tag.unicode_len();
    if n != m {
        assert(lower(s@).len() == s@.len());
        return false;
    }
    for i in 0..n
        invariant
            n == s@.len(),
            n == tag@.len(),
            forall|j: int| 0 <= j < i ==> lower(s@)[j] == tag@[j],
    {
        let c = lower_char_x(s.get_char(i));
        let d = tag.get_char(i);
        if c != d {
            assert(lower(s@)[i as int] != tag@[i as int]);
            return false;
        }
    }
    assert(lower(s@) =~= tag@);
    true
}

} // verus!
