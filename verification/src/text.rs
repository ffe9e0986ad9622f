//! Character-level helpers on strings, stated over their `Seq<char>` views.

use vstd::prelude::*;

verus! {

/// `s` ends with `suffix`.
pub open spec fn has_suffix(s: Seq<char>, suffix: Seq<char>) -> bool {
    suffix.len() <= s.len() && s.subrange(s.len() - suffix.len(), s.len() as int) == suffix
}

/// `pattern` occurs somewhere in `s` as a contiguous run of characters.
pub open spec fn has_infix(s: Seq<char>, pattern: Seq<char>) -> bool {
    exists|i: int|
        0 <= i && i + pattern.len() <= s.len() && #[trigger] s.subrange(i, i + pattern.len())
            == pattern
}

/// The characters of `s`, in order.
pub fn chars_of(s: &str) -> (r: Vec<char>)
    ensures
        r@ == s@,
{
    let mut r: Vec<char> = Vec::new();
    for c in it: s.chars()
        invariant
            r@ == it.seq().take(it.index() as int),
    {
        r.push(c);
    }
    r
}


/// Whether `a` and `b` hold the same characters.
pub fn str_equal(a: &str, b: &str) -> (r: bool)
    ensures
        r == (a@ == b@),
{
    let x = chars_of(a);
    let y = chars_of(b);
    if x.len() != y.len() {
        return false;
    }
    let mut i: usize = 0;
    while i < x.len()
        invariant
            x@ == a@,
            y@ == b@,
            x.len() == y.len(),
            i <= x.len(),
            forall|j: int| 0 <= j < i ==> x@[j] == y@[j],
        decreases x.len() - i,
    {
        if x[i] != y[i] {
            return false;
        }
        i = i + 1;
    }
    assert(x@ =~= y@);
    true
}

/// Whether `pattern` matches `s` at character position `at`.
fn matches_at(s: &Vec<char>, pattern: &Vec<char>, at: usize) -> (r: bool)
    requires
        at + pattern.len() <= s.len(),
    ensures
        r == (s@.subrange(at as int, at + pattern.len()) == pattern@),
{
    let mut j: usize = 0;
    while j < pattern.len()
        invariant
            at + pattern.len() <= s.len(),
            j <= pattern.len(),
            forall|k: int| 0 <= k < j ==> s@[at + k] == pattern@[k],
        decreases pattern.len() - j,
    {
        if s[at + j] != pattern[j] {
            assert(s@.subrange(at as int, at + pattern.len())[j as int] != pattern@[j as int]);
            return false;
        }
        j = j + 1;
    }
    assert(s@.subrange(at as int, at + pattern.len()) =~= pattern@);
    true
}

/// Whether `s` ends with `suffix` (`str::ends_with`).
pub fn ends_with(s: &str, suffix: &str) -> (r: bool)
    ensures
        r == has_suffix(s@, suffix@),
{
    let x = chars_of(s);
    let y = chars_of(suffix);
    if y.len() > x.len() {
        return false;
    }
    matches_at(&x, &y, x.len() - y.len())
}

/// Whether `pattern` occurs in `s` (`str::contains` with a string pattern).
pub fn contains(s: &str, pattern: &str) -> (r: bool)
    ensures
        r == has_infix(s@, pattern@),
{
    let x = chars_of(s);
    let y = chars_of(pattern);
    if y.len() > x.len() {
        return false;
    }
    let last = x.len() - y.len();
    let mut i: usize = 0;
    loop
        invariant
            x@ == s@,
            y@ == pattern@,
            i <= last,
            last + y.len() == x.len(),
            forall|k: int| 0 <= k < i ==> #[trigger] x@.subrange(k, k + y@.len()) != y@,
        decreases last - i,
    {
        if matches_at(&x, &y, i) {
            return true;
        }
        if i == last {
            assert forall|k: int| 0 <= k && k + y@.len() <= x@.len() implies #[trigger] x@.subrange(
                k,
                k + y@.len(),
            ) != y@ by {
                assert(k <= last);
            }
            return false;
        }
        i = i + 1;
    }
}

/// The view of an optional string.
pub open spec fn opt_view(s: Option<String>) -> Option<Seq<char>> {
    match s {
        Some(t) => Some(t@),
        None => None,
    }
}

/// The position of the last `.` in `s` before position `end`, or -1 where
/// there is none.
pub open spec fn last_dot_before(s: Seq<char>, end: int) -> int
    decreases end,
{
    if end <= 0 {
        -1
    } else if s[end - 1] == '.' {
        end - 1
    } else {
        last_dot_before(s, end - 1)
    }
}

/// The extension of a file name, as `Path::extension` documents it: the text
/// after the last `.`; none where the name has no `.`, or where its only `.`
/// is its first character.
pub open spec fn file_extension(name: Seq<char>) -> Option<Seq<char>> {
    let dot = last_dot_before(name, name.len() as int);
    if dot <= 0 {
        None
    } else {
        Some(name.subrange(dot + 1, name.len() as int))
    }
}

/// The extension of a file name (see [`file_extension`]).
pub fn extension_of(file_name: &str) -> (r: Option<String>)
    ensures
        opt_view(r) == file_extension(file_name@),
{
    let cs = chars_of(file_name);
    let mut i: usize = cs.len();
    while i > 0
        invariant
            cs@ == file_name@,
            i <= cs.len(),
            last_dot_before(cs@, cs.len() as int) == last_dot_before(cs@, i as int),
        ensures
            cs@ == file_name@,
            i <= cs.len(),
            last_dot_before(cs@, cs.len() as int) == i - 1,
        decreases i,
    {
        if cs[i - 1] == '.' {
            break;
        }
        i = i - 1;
    }
    if i <= 1 {
        return None;
    }
    let n = file_name.unicode_len();
    Some(file_name.substring_char(i, n).to_owned())
}

/// What `str::to_lowercase` returns for a string: the Unicode lowercase mapping
/// of each of its characters (some characters map to several).
pub uninterp spec fn unicode_lowercase(s: Seq<char>) -> Seq<char>;

/// Calls `str::to_lowercase`. Its result is named [`unicode_lowercase`] of the
/// input; nothing else is claimed of it.
#[verifier::external_body]
pub(crate) fn to_lowercase(s: &str) -> (r: String)
    ensures
        r@ == unicode_lowercase(s@),
{
    s.to_lowercase()
}

} // verus!
