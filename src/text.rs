//! Character-level helpers on URLs and header names.
use vstd::prelude::*;
use vstd::string::StrSliceExecFns;

verus! {

/// `s` begins with `prefix`.
pub open spec fn has_prefix(s: Seq<char>, prefix: Seq<char>) -> bool {
    prefix.len() <= s.len() && s.subrange(0, prefix.len() as int) == prefix
}

/// Whether `s` begins with `prefix`.
pub fn starts_with(s: &str, prefix: &str) -> (r: bool)
    ensures
        r == has_prefix(s@, prefix@),
{
    let n = s.unicode_len();
    let m = prefix.unicode_len();
    if m > n {
        return false;
    }
    let mut i: usize = 0;
    while i < m
        invariant
            m == prefix@.len(),
            n == s@.len(),
            m <= n,
            i <= m,
            forall|k: int| 0 <= k < i ==> s@[k] == prefix@[k],
        decreases m - i,
    {
        if s.get_char(i) != prefix.get_char(i) {
            assert(s@.subrange(0, m as int)[i as int] != prefix@[i as int]);
            return false;
        }
        i = i + 1;
    }
    assert(s@.subrange(0, m as int) =~= prefix@);
    true
}

/// The code of `c` with ASCII upper-case letters mapped to lower case.
pub open spec fn lower_code(c: char) -> int {
    if 65 <= (c as u32) <= 90 {
        (c as u32) + 32
    } else {
        c as u32 as int
    }
}

/// `a` and `b` are equal up to ASCII case.
pub open spec fn eq_ignore_case(a: Seq<char>, b: Seq<char>) -> bool {
    a.len() == b.len() && forall|k: int| 0 <= k < a.len() ==> lower_code(a[k]) == lower_code(b[k])
}

fn lower_char_code(c: char) -> (r: u32)
    ensures
        r as int == lower_code(c),
{
    let x = c as u32;
    if 65 <= x && x <= 90 {
        x + 32
    } else {
        x
    }
}

/// Whether `a` and `b` are equal up to ASCII case.
pub fn eq_ignore_ascii_case(a: &str, b: &str) -> (r: bool)
    ensures
        r == eq_ignore_case(a@, b@),
{
    let n = a.unicode_len();
    if n != b.unicode_len() {
        return false;
    }
    let mut i: usize = 0;
    while i < n
        invariant
            n == a@.len(),
            n == b@.len(),
            i <= n,
            forall|k: int| 0 <= k < i ==> lower_code(a@[k]) == lower_code(b@[k]),
        decreases n - i,
    {
        if lower_char_code(a.get_char(i)) != lower_char_code(b.get_char(i)) {
            return false;
        }
        i = i + 1;
    }
    true
}

/// `s` with every trailing `/` removed.
pub open spec fn strip_trailing_slashes(s: Seq<char>) -> Seq<char>
    decreases s.len(),
{
    if s.len() > 0 && s.last() == '/' {
        strip_trailing_slashes(s.drop_last())
    } else {
        s
    }
}

/// `s` with every trailing `/` removed.
pub fn trim_trailing_slashes(s: &str) -> (r: &str)
    ensures
        r@ == strip_trailing_slashes(s@),
{
    let mut j: usize = s.unicode_len();
    assert(s@.subrange(0, j as int) =~= s@);
    while j > 0 && s.get_char(j - 1) == '/'
        invariant
            j <= s@.len(),
            strip_trailing_slashes(s@) == strip_trailing_slashes(s@.subrange(0, j as int)),
        decreases j,
    {
        assert(s@.subrange(0, j as int).drop_last() =~= s@.subrange(0, j - 1));
        j = j - 1;
    }
    s.substring_char(0, j)
}

/// A character that ends the host part of a URL's authority.
pub open spec fn ends_host(c: char) -> bool {
    c == ':' || c == '/' || c == '?' || c == '#'
}

/// The index of the first character at or after `i` that ends the host,
/// or the length of `s` when there is none.
pub open spec fn host_end(s: Seq<char>, i: int) -> int
    decreases s.len() - i,
{
    if i < 0 || i >= s.len() {
        s.len() as int
    } else if ends_host(s[i]) {
        i
    } else {
        host_end(s, i + 1)
    }
}

/// The host of a URL whose authority starts at index `start`.
pub open spec fn host_at(s: Seq<char>, start: int) -> Seq<char> {
    s.subrange(start, host_end(s, start))
}

proof fn lemma_host_end_bounds(s: Seq<char>, i: int)
    requires
        0 <= i <= s.len(),
    ensures
        i <= host_end(s, i) <= s.len(),
    decreases s.len() - i,
{
    if i < s.len() && !ends_host(s[i]) {
        lemma_host_end_bounds(s, i + 1);
    }
}

/// The host of `s` when its authority starts at index `start`.
pub fn host_from(s: &str, start: usize) -> (r: &str)
    requires
        start <= s@.len(),
    ensures
        r@ == host_at(s@, start as int),
{
    let n = s.unicode_len();
    let mut j: usize = start;
    while j < n && !is_host_end_char(s.get_char(j))
        invariant
            n == s@.len(),
            start <= j <= n,
            host_end(s@, start as int) == host_end(s@, j as int),
        decreases n - j,
    {
        j = j + 1;
    }
    s.substring_char(start, j)
}

fn is_host_end_char(c: char) -> (r: bool)
    ensures
        r == ends_host(c),
{
    c == ':' || c == '/' || c == '?' || c == '#'
}

} // verus!
