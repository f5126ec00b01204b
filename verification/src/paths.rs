//! Path names as character strings with `/` as the separator: base name,
//! stem and parent-directory name, as the discovery and title rules use
//! them. Paths reaching this crate come from a directory walk and are in
//! the plain `dir/sub/file` shape, without repeated or trailing separators.

use vstd::prelude::*;

verus! {

/// Rightmost position of `c` in `s`, if any.
pub open spec fn rfind_char(s: Seq<char>, c: char) -> Option<int>
    decreases s.len(),
{
    if s.len() == 0 {
        None
    } else if s.last() == c {
        Some(s.len() - 1)
    } else {
        rfind_char(s.drop_last(), c)
    }
}

proof fn lemma_rfind_char(s: Seq<char>, c: char, i: int)
    requires
        0 <= i <= s.len(),
        forall|j: int| i <= j < s.len() ==> s[j] != c,
        i > 0 ==> s[i - 1] == c,
    ensures
        i > 0 ==> rfind_char(s, c) == Some(i - 1),
        i == 0 ==> rfind_char(s, c) is None,
    decreases s.len(),
{
    if s.len() == 0 {
    } else if i == s.len() {
    } else {
        assert(s.drop_last() =~= s.subrange(0, s.len() - 1));
        lemma_rfind_char(s.drop_last(), c, i);
    }
}

/// Scan from the right for the last occurrence of `c`.
pub fn rfind(s: &str, c: char) -> (r: Option<usize>)
    ensures
        match r {
            Some(i) => i < s@.len() && rfind_char(s@, c) == Some(i as int),
            None => rfind_char(s@, c) is None,
        },
{
    let n = s.unicode_len();
    let mut i: usize = n;
    while i > 0
        invariant
            n == s@.len(),
            0 <= i <= n,
            forall|j: int| i <= j < n ==> s@[j] != c,
        decreases i,
    {
        if s.get_char(i - 1) == c {
            proof {
                lemma_rfind_char(s@, c, i as int);
            }
            return Some(i - 1);
        }
        i = i - 1;
    }
    proof {
        lemma_rfind_char(s@, c, 0);
    }
    None
}

/// The final component of a path: everything after the last `/`, or the
/// whole string when there is none.
pub open spec fn base_name(s: Seq<char>) -> Seq<char> {
    match rfind_char(s, '/') {
        Some(i) => s.subrange(i + 1, s.len() as int),
        None => s,
    }
}

/// What comes before the last `/`, when a separator is present.
pub open spec fn dir_part(s: Seq<char>) -> Option<Seq<char>> {
    match rfind_char(s, '/') {
        Some(i) => Some(s.subrange(0, i)),
        None => None,
    }
}

/// The name of the directory holding the path: the final component of its
/// directory part.
pub open spec fn parent_name(s: Seq<char>) -> Option<Seq<char>> {
    match dir_part(s) {
        Some(d) => Some(base_name(d)),
        None => None,
    }
}

/// The base name without its extension, following the `file_stem` rule:
/// cut at the last dot, unless that dot is the leading character.
pub open spec fn stem_of(name: Seq<char>) -> Seq<char> {
    match rfind_char(name, '.') {
        Some(p) => if p > 0 {
            name.subrange(0, p)
        } else {
            name
        },
        None => name,
    }
}

/// Extract the final component of a path.
pub fn base_name_str(s: &str) -> (r: String)
    ensures
        r@ == base_name(s@),
{
    let n = s.unicode_len();
    match rfind(s, '/') {
        Some(i) => {
            let t = s.substring_char(i + 1, n);
            t.to_owned()
        },
        None => s.to_owned(),
    }
}

/// Extract the name of the directory holding the path.
pub fn parent_name_str(s: &str) -> (r: Option<String>)
    ensures
        match r {
            Some(p) => parent_name(s@) == Some(p@),
            None => parent_name(s@) is None,
        },
{
    match rfind(s, '/') {
        Some(i) => {
            let d = s.substring_char(0, i);
            Some(base_name_str(d))
        },
        None => None,
    }
}

/// Strip the extension off a base name.
pub fn stem_str(name: &str) -> (r: String)
    ensures
        r@ == stem_of(name@),
{
    match rfind(name, '.') {
        Some(p) => {
            if p > 0 {
                let t = name.substring_char(0, p);
                t.to_owned()
            } else {
                name.to_owned()
            }
        },
        None => name.to_owned(),
    }
}

/// Whether `suffix` ends `s`.
pub open spec fn ends_with(s: Seq<char>, suffix: Seq<char>) -> bool {
    s.len() >= suffix.len() && s.subrange(s.len() - suffix.len(), s.len() as int) == suffix
}

/// Check a suffix character by character.
pub fn ends_with_str(s: &str, suffix: &str) -> (r: bool)
    ensures
        r == ends_with(s@, suffix@),
{
    let n = s.unicode_len();
    let m = suffix.unicode_len();
    if n < m {
        return false;
    }
    let tail = s.substring_char(n - m, n);
    crate::text::str_eq(tail, suffix)
}

} // verus!
