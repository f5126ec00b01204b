//! Title inference: the first heading line of a file's text, or a default
//! built from the file or directory name with any leading date stamp
//! stripped and, in clean-title mode, underscores turned into spaces.

use vstd::prelude::*;
use crate::category::Category;
use crate::paths::base_name;
use crate::paths::base_name_str;
use crate::paths::parent_name;
use crate::paths::parent_name_str;
use crate::paths::stem_of;
use crate::paths::stem_str;
use crate::text::char_is_space;
use crate::text::clean_underscores;
use crate::text::is_space;
use crate::text::trim_str;
use crate::text::trimmed;
use crate::text::underscores_to_spaces;
use crate::timestamp::date_prefix_check;
use crate::timestamp::has_date_prefix;

verus! {

/// The views of a vector of text lines.
pub open spec fn lines_view(lines: Seq<String>) -> Seq<Seq<char>> {
    lines.map_values(|l: String| l@)
}

/// A line that opens with a heading marker.
pub open spec fn is_heading_line(l: Seq<char>) -> bool {
    l.len() > 0 && l[0] == '#'
}

/// How many `#` markers open the line.
pub open spec fn leading_hashes(l: Seq<char>) -> int
    decreases l.len(),
{
    if l.len() == 0 {
        0
    } else if l[0] != '#' {
        0
    } else {
        1 + leading_hashes(l.drop_first())
    }
}

/// The heading text: everything after the markers, trimmed.
pub open spec fn heading_text(l: Seq<char>) -> Seq<char> {
    trimmed(l.subrange(leading_hashes(l), l.len() as int))
}

/// Index of the first heading line at or after `from`.
pub open spec fn first_heading_from(ls: Seq<Seq<char>>, from: int) -> Option<int>
    decreases ls.len() - from,
{
    if from < 0 || from >= ls.len() {
        None
    } else if is_heading_line(ls[from]) {
        Some(from)
    } else {
        first_heading_from(ls, from + 1)
    }
}

/// Index of the first heading line, if any.
pub open spec fn first_heading(ls: Seq<Seq<char>>) -> Option<int> {
    first_heading_from(ls, 0)
}

/// What heading extraction yields: the first heading's text, or the given
/// default when no line is a heading.
pub open spec fn heading_or(ls: Seq<Seq<char>>, default: Seq<char>) -> Seq<char> {
    match first_heading(ls) {
        Some(i) => heading_text(ls[i]),
        None => default,
    }
}

proof fn lemma_first_heading_from(ls: Seq<Seq<char>>, from: int, i: int)
    requires
        0 <= from <= i <= ls.len(),
        forall|j: int| from <= j < i ==> !is_heading_line(ls[j]),
        i < ls.len() ==> is_heading_line(ls[i]),
    ensures
        i < ls.len() ==> first_heading_from(ls, from) == Some(i),
        i == ls.len() ==> first_heading_from(ls, from) is None,
    decreases i - from,
{
    if from < i {
        lemma_first_heading_from(ls, from + 1, i);
    }
}

proof fn lemma_leading_hashes_index(l: Seq<char>, i: int)
    requires
        0 <= i <= l.len(),
        forall|j: int| 0 <= j < i ==> l[j] == '#',
        i < l.len() ==> l[i] != '#',
    ensures
        leading_hashes(l) == i,
    decreases l.len(),
{
    if l.len() == 0 {
    } else if i == 0 {
    } else {
        lemma_leading_hashes_index(l.drop_first(), i - 1);
    }
}

/// Take the markers and surrounding whitespace off a heading line.
fn heading_text_str(line: &str) -> (r: String)
    requires
        is_heading_line(line@),
    ensures
        r@ == heading_text(line@),
{
    let n = line.unicode_len();
    let mut k: usize = 0;
    while k < n && line.get_char(k) == '#'
        invariant
            n == line@.len(),
            0 <= k <= n,
            forall|j: int| 0 <= j < k ==> line@[j] == '#',
        decreases n - k,
    {
        k = k + 1;
    }
    proof {
        lemma_leading_hashes_index(line@, k as int);
    }
    let rest = line.substring_char(k, n);
    trim_str(rest)
}

/// Scan the lines of a file for its first heading; fall back on `default`
/// when none is found. Only the first heading line counts.
pub fn extract_first_heading(lines: &Vec<String>, default: &str) -> (r: String)
    ensures
        r@ == heading_or(lines_view(lines@), default@),
{
    let n = lines.len();
    let mut i: usize = 0;
    while i < n
        invariant
            n == lines@.len(),
            0 <= i <= n,
            forall|j: int| 0 <= j < i ==> !is_heading_line(lines_view(lines@)[j]),
        decreases n - i,
    {
        let line = lines[i].as_str();
        if line.unicode_len() > 0 && line.get_char(0) == '#' {
            proof {
                lemma_first_heading_from(lines_view(lines@), 0, i as int);
            }
            return heading_text_str(line);
        }
        i = i + 1;
    }
    proof {
        lemma_first_heading_from(lines_view(lines@), 0, n as int);
    }
    default.to_owned()
}

/// Title extraction sees only the first heading line: whatever heading-free
/// lines precede it and whatever lines follow it, the title is that line's
/// text, markers and surrounding whitespace stripped, and the default plays
/// no part.
pub proof fn lemma_heading_ignores_surroundings(
    pre: Seq<Seq<char>>,
    h: Seq<char>,
    post: Seq<Seq<char>>,
    d: Seq<char>,
)
    requires
        forall|j: int| 0 <= j < pre.len() ==> !is_heading_line(#[trigger] pre[j]),
        is_heading_line(h),
    ensures
        heading_or(pre + seq![h] + post, d) == heading_text(h),
{
    let ls = pre + seq![h] + post;
    assert(ls[pre.len() as int] == h);
    assert(forall|j: int| 0 <= j < pre.len() ==> ls[j] == pre[j]);
    lemma_first_heading_from(ls, 0, pre.len() as int);
}

/// A character the date-stamp stripper also eats right after the stamp.
pub open spec fn sep_char(c: char) -> bool {
    c == '-' || c == '_' || is_space(c)
}

/// Where the stripped name restarts: the first non-separator position at
/// or after the stamp, or position 10 when separators run to the end.
pub open spec fn strip_idx(s: Seq<char>, i: int) -> int
    decreases s.len() - i,
{
    if i < 10 || i >= s.len() {
        10
    } else if !sep_char(s[i]) {
        i
    } else {
        strip_idx(s, i + 1)
    }
}

/// A name with its leading date stamp removed, along with the separators
/// directly following the stamp; a name without a stamp stays whole.
pub open spec fn date_stripped(s: Seq<char>) -> Seq<char> {
    if has_date_prefix(s) {
        s.subrange(strip_idx(s, 10), s.len() as int)
    } else {
        s
    }
}

fn char_is_sep(c: char) -> (r: bool)
    ensures
        r == sep_char(c),
{
    c == '-' || c == '_' || char_is_space(c)
}

proof fn lemma_strip_idx(s: Seq<char>, i: int)
    requires
        10 <= i <= s.len(),
        forall|j: int| 10 <= j < i ==> sep_char(s[j]),
        i < s.len() ==> !sep_char(s[i]),
    ensures
        strip_idx(s, 10) == if i < s.len() {
            i
        } else {
            10
        },
    decreases i,
{
    if i == 10 {
    } else {
        lemma_strip_idx_step(s, 10, i);
    }
}

proof fn lemma_strip_idx_step(s: Seq<char>, from: int, i: int)
    requires
        10 <= from <= i <= s.len(),
        forall|j: int| from <= j < i ==> sep_char(s[j]),
        i < s.len() ==> !sep_char(s[i]),
    ensures
        strip_idx(s, from) == if i < s.len() {
            i
        } else {
            10
        },
    decreases i - from,
{
    if from < i {
        lemma_strip_idx_step(s, from + 1, i);
    }
}

/// Strip a leading `YYYY-MM-DD` stamp and the separators after it off a
/// file or directory name.
pub fn remove_rfc3339_date(filename: &str) -> (r: String)
    ensures
        r@ == date_stripped(filename@),
{
    if !date_prefix_check(filename) {
        return filename.to_owned();
    }
    let n = filename.unicode_len();
    let mut i: usize = 10;
    while i < n && char_is_sep(filename.get_char(i))
        invariant
            n == filename@.len(),
            n >= 10,
            10 <= i <= n,
            forall|j: int| 10 <= j < i ==> sep_char(filename@[j]),
        decreases n - i,
    {
        i = i + 1;
    }
    proof {
        lemma_strip_idx(filename@, i as int);
    }
    if i < n {
        let t = filename.substring_char(i, n);
        t.to_owned()
    } else {
        let t = filename.substring_char(10, n);
        t.to_owned()
    }
}

/// The name a default title is built from: the file's base name without
/// extension for `Flat` articles, the parent directory's name for `Tree`
/// ones.
pub open spec fn raw_default_name(path: Seq<char>, cat: Category) -> Seq<char> {
    match cat {
        Category::Flat => stem_of(base_name(path)),
        Category::Tree => parent_name(path)->Some_0,
    }
}

/// The default title of an article: its raw default name, date-stripped,
/// with clean-title substitution when enabled. Explicit headings never go
/// through this.
pub open spec fn default_title(path: Seq<char>, cat: Category, clean: bool) -> Seq<char> {
    if clean {
        underscores_to_spaces(date_stripped(raw_default_name(path, cat)))
    } else {
        date_stripped(raw_default_name(path, cat))
    }
}

/// Compute an article's default title from its path.
pub fn default_title_str(path: &str, cat: Category, clean: bool) -> (r: String)
    requires
        cat is Tree ==> parent_name(path@) is Some,
    ensures
        r@ == default_title(path@, cat, clean),
{
    let raw: String = match cat {
        Category::Flat => {
            let b = base_name_str(path);
            stem_str(b.as_str())
        },
        Category::Tree => parent_name_str(path).unwrap(),
    };
    let stripped = remove_rfc3339_date(raw.as_str());
    if clean {
        clean_underscores(stripped.as_str())
    } else {
        stripped
    }
}

/// The feed title's ultimate fallback: the site directory's own name, with
/// clean-title substitution when enabled.
pub open spec fn feed_default_title(dir: Seq<char>, clean: bool) -> Seq<char> {
    if clean {
        underscores_to_spaces(base_name(dir))
    } else {
        base_name(dir)
    }
}

/// The feed's title when no override is configured: the first heading of
/// the site's readable index file when one exists (`index_lines` then
/// holds its text), the directory's own name otherwise.
pub fn get_feed_title(dir: &str, clean: bool, index_lines: Option<&Vec<String>>) -> (r: String)
    ensures
        r@ == match index_lines {
            Some(lines) => heading_or(lines_view(lines@), feed_default_title(dir@, clean)),
            None => feed_default_title(dir@, clean),
        },
{
    let b = base_name_str(dir);
    let default: String = if clean {
        clean_underscores(b.as_str())
    } else {
        b
    };
    match index_lines {
        Some(lines) => extract_first_heading(lines, default.as_str()),
        None => default,
    }
}

} // verus!
