//! Article discovery. The walk of a category directory arrives as a list
//! of file entries (path, regular-file bit, world-readable bit); this
//! module keeps exactly the entries that qualify as articles for the
//! category's kind and drops everything that is not a world-readable
//! regular file.

use vstd::prelude::*;
use crate::category::Category;
use crate::paths::base_name;
use crate::paths::base_name_str;
use crate::paths::dir_part;
use crate::paths::ends_with;
use crate::paths::ends_with_str;
use crate::paths::rfind;
use crate::text::contains_char;
use crate::text::seq_contains_char;
use crate::text::str_eq;

verus! {

/// One file met during the walk of a category directory, with the two
/// facts about it that discovery filters on.
pub struct FsEntry {
    pub path: String,
    pub is_regular: bool,
    pub world_readable: bool,
}

/// A discovered article: its path and the kind of the category it was
/// found in, which later decides the title and time defaulting rules.
pub struct Pair(pub String, pub Category);

/// The directory of a category inside the site root.
pub open spec fn cat_dir(root: Seq<char>, name: Seq<char>) -> Seq<char> {
    root + "/"@ + name
}

/// The reserved index file names. An index file is a `Flat` category's
/// landing page but a `Tree` category's article marker.
pub open spec fn is_index_name(b: Seq<char>) -> bool {
    b == "index.gmi"@ || b == "index.gemini"@
}

/// A name carrying one of the two recognized content extensions, which
/// are synonyms everywhere.
pub open spec fn content_name(b: Seq<char>) -> bool {
    ends_with(b, ".gmi"@) || ends_with(b, ".gemini"@)
}

/// What `pathdiff::diff_paths` makes of a path relative to a base
/// directory, both written with `/` as the separator.
pub uninterp spec fn rel_of(path: Seq<char>, base: Seq<char>) -> Option<Seq<char>>;

/// A `.` or `..` path segment.
pub open spec fn dot_segment(t: Seq<char>) -> bool {
    (t.len() == 1 && t[0] == '.') || (t.len() == 2 && t[0] == '.' && t[1] == '.')
}

/// The character span `[i, j)` is one `/`-separated segment of `s`.
pub open spec fn is_segment(s: Seq<char>, i: int, j: int) -> bool {
    &&& 0 <= i <= j <= s.len()
    &&& (i == 0 || s[i - 1] == '/')
    &&& (j == s.len() || s[j] == '/')
    &&& forall|k: int| i <= k < j ==> s[k] != '/'
}

/// A relative path in plain form: nonempty, no leading, trailing or
/// doubled separator, and no `.` or `..` segment. Walks hand paths over
/// in this shape.
pub open spec fn plain_rel(s: Seq<char>) -> bool {
    &&& s.len() > 0
    &&& s[0] != '/'
    &&& s[s.len() - 1] != '/'
    &&& forall|i: int| 0 < i < s.len() ==> !(s[i - 1] == '/' && #[trigger] s[i] == '/')
    &&& forall|i: int, j: int| is_segment(s, i, j) ==> !dot_segment(s.subrange(i, j))
}

/// `path` is `base` plus a separator plus a plain relative tail.
pub open spec fn plainly_under(path: Seq<char>, base: Seq<char>) -> bool {
    &&& base.len() > 0
    &&& path.len() > base.len() + 1
    &&& path.subrange(0, base.len() as int) == base
    &&& path[base.len() as int] == '/'
    &&& plain_rel(path.skip(base.len() + 1 as int))
}

/// Relies on pathdiff::diff_paths: the result depends on the two path
/// strings alone, and when `path` is `base` plus a separator plus a plain
/// relative tail, the difference is exactly that tail, because the
/// component walk consumes the shared prefix and rejoins the rest.
#[verifier::external_body]
fn rel_path(path: &str, base: &str) -> (r: Option<String>)
    ensures
        crate::urls::opt_text(r) == rel_of(path@, base@),
        plainly_under(path@, base@) ==> crate::urls::opt_text(r) == Some(
            path@.skip(base@.len() + 1 as int),
        ),
{
    match pathdiff::diff_paths(std::path::Path::new(path), std::path::Path::new(base)) {
        Some(p) => p.to_str().map(|s| s.to_string()),
        None => None,
    }
}

/// The tail of `path` below a directory sits in a deeper subdirectory.
pub open spec fn nested_under(path: Seq<char>, base: Seq<char>) -> bool {
    match rel_of(path, base) {
        Some(r) => seq_contains_char(r, '/'),
        None => false,
    }
}

/// Whether a walked entry qualifies as an article of a category rooted at
/// `catdir`. `Flat` keeps content files sitting directly in the category
/// directory, index files excluded; `Tree` keeps index files strictly
/// below it. Only world-readable regular files ever qualify.
pub open spec fn selected(e: FsEntry, typ: Category, catdir: Seq<char>) -> bool {
    &&& e.world_readable
    &&& e.is_regular
    &&& match typ {
        Category::Flat => {
            &&& dir_part(e.path@) == Some(catdir)
            &&& content_name(base_name(e.path@))
            &&& !is_index_name(base_name(e.path@))
        },
        Category::Tree => {
            &&& is_index_name(base_name(e.path@))
            &&& nested_under(e.path@, catdir)
        },
    }
}

/// The articles a walk yields, in walk order.
pub open spec fn collect_spec(listing: Seq<FsEntry>, typ: Category, catdir: Seq<char>) -> Seq<
    Pair,
>
    decreases listing.len(),
{
    if listing.len() == 0 {
        Seq::empty()
    } else {
        let rest = collect_spec(listing.drop_last(), typ, catdir);
        if selected(listing.last(), typ, catdir) {
            rest.push(Pair(listing.last().path, typ))
        } else {
            rest
        }
    }
}

/// Collect the articles of one category out of the walk of its
/// directory.
pub fn collect_articles(name: &str, typ: Category, root: &str, listing: &Vec<FsEntry>) -> (r: Vec<
    Pair,
>)
    ensures
        r@ == collect_spec(listing@, typ, cat_dir(root@, name@)),
        typ is Tree ==> forall|j: int|
            0 <= j < listing@.len() && plainly_under(
                #[trigger] listing@[j].path@,
                cat_dir(root@, name@),
            ) ==> rel_of(listing@[j].path@, cat_dir(root@, name@)) == Some(
                listing@[j].path@.skip(cat_dir(root@, name@).len() + 1 as int),
            ),
{
    let mut catdir = root.to_owned();
    catdir.append("/");
    catdir.append(name);
    let ghost cd = cat_dir(root@, name@);
    let mut out: Vec<Pair> = Vec::new();
    let mut j: usize = 0;
    while j < listing.len()
        invariant
            0 <= j <= listing@.len(),
            catdir@ == cd,
            cd == cat_dir(root@, name@),
            out@ == collect_spec(listing@.subrange(0, j as int), typ, cd),
            typ is Tree ==> forall|j2: int|
                0 <= j2 < j && plainly_under(#[trigger] listing@[j2].path@, cd) ==> rel_of(
                    listing@[j2].path@,
                    cd,
                ) == Some(listing@[j2].path@.skip(cd.len() + 1 as int)),
        decreases listing@.len() - j,
    {
        let e = &listing[j];
        let keep: bool = match typ {
            Category::Flat => {
                let base = base_name_str(e.path.as_str());
                let in_dir = match rfind(e.path.as_str(), '/') {
                    Some(i) => str_eq(e.path.as_str().substring_char(0, i), catdir.as_str()),
                    None => false,
                };
                e.world_readable && e.is_regular && in_dir && (ends_with_str(
                    base.as_str(),
                    ".gmi",
                ) || ends_with_str(base.as_str(), ".gemini")) && !(str_eq(base.as_str(), "index.gmi")
                    || str_eq(base.as_str(), "index.gemini"))
            },
            Category::Tree => {
                let rel = rel_path(e.path.as_str(), catdir.as_str());
                let nested = match rel {
                    Some(t) => contains_char(t.as_str(), '/'),
                    None => false,
                };
                let base = base_name_str(e.path.as_str());
                let is_index = str_eq(base.as_str(), "index.gmi") || str_eq(
                    base.as_str(),
                    "index.gemini",
                );
                e.world_readable && e.is_regular && is_index && nested
            },
        };
        if keep {
            out.push(Pair(e.path.clone(), typ));
        }
        proof {
            assert(listing@.subrange(0, j + 1).drop_last() =~= listing@.subrange(0, j as int));
            assert(listing@.subrange(0, j + 1).last() == listing@[j as int]);
        }
        j = j + 1;
    }
    proof {
        assert(listing@.subrange(0, listing@.len() as int) =~= listing@);
    }
    out
}

/// The merged discovery of every configured category, in configuration
/// order, each category's articles in walk order.
pub open spec fn collect_all_spec(
    cats: Seq<crate::category::CatEntry>,
    root: Seq<char>,
    listings: Seq<Seq<FsEntry>>,
) -> Seq<Pair>
    decreases cats.len(),
{
    if cats.len() == 0 {
        Seq::empty()
    } else {
        collect_all_spec(cats.drop_last(), root, listings.drop_last()) + collect_spec(
            listings.last(),
            cats.last().kind,
            cat_dir(root, cats.last().name@),
        )
    }
}

/// Merge the discovery of all configured categories; `listings[i]` is the
/// walk of the directory of `cats[i]`.
pub fn collect_all_articles(
    cats: &Vec<crate::category::CatEntry>,
    root: &str,
    listings: &Vec<Vec<FsEntry>>,
) -> (r: Vec<Pair>)
    requires
        listings@.len() == cats@.len(),
    ensures
        r@ == collect_all_spec(cats@, root@, listings@.map_values(|l: Vec<FsEntry>| l@)),
{
    let ghost ls = listings@.map_values(|l: Vec<FsEntry>| l@);
    let mut out: Vec<Pair> = Vec::new();
    let mut i: usize = 0;
    while i < cats.len()
        invariant
            listings@.len() == cats@.len(),
            0 <= i <= cats@.len(),
            ls == listings@.map_values(|l: Vec<FsEntry>| l@),
            out@ == collect_all_spec(cats@.subrange(0, i as int), root@, ls.subrange(0, i as int)),
        decreases cats@.len() - i,
    {
        let mut part = collect_articles(cats[i].name.as_str(), cats[i].kind, root, &listings[i]);
        proof {
            assert(cats@.subrange(0, i + 1).drop_last() =~= cats@.subrange(0, i as int));
            assert(ls.subrange(0, i + 1).drop_last() =~= ls.subrange(0, i as int));
            assert(cats@.subrange(0, i + 1).last() == cats@[i as int]);
            assert(ls.subrange(0, i + 1).last() == listings@[i as int]@);
        }
        out.append(&mut part);
        i = i + 1;
    }
    proof {
        assert(cats@.subrange(0, cats@.len() as int) =~= cats@);
        assert(ls.subrange(0, ls.len() as int) =~= ls);
    }
    out
}

/// A `Flat` category's discovery never yields a reserved index file name.
pub proof fn lemma_flat_never_index(e: FsEntry, catdir: Seq<char>)
    requires
        selected(e, Category::Flat, catdir),
    ensures
        !is_index_name(base_name(e.path@)),
{
}

/// A `Tree` category's discovery yields only index files whose path below
/// the category directory holds a separator, so never the category's own
/// top-level index file.
pub proof fn lemma_tree_only_nested(e: FsEntry, catdir: Seq<char>, tail: Seq<char>)
    requires
        selected(e, Category::Tree, catdir),
        rel_of(e.path@, catdir) == Some(tail),
    ensures
        is_index_name(base_name(e.path@)),
        seq_contains_char(tail, '/'),
{
}

/// The readability filter is absolute: whatever the category kind, a
/// candidate that is not a world-readable regular file never qualifies.
pub proof fn lemma_readability_filter(e: FsEntry, typ: Category, catdir: Seq<char>)
    requires
        selected(e, typ, catdir),
    ensures
        e.world_readable,
        e.is_regular,
{
}

/// The mode-bit reading of world readability: the `other-read` bit of a
/// Unix permission mode.
pub fn mode_is_world_readable(mode: u32) -> (r: bool)
    ensures
        r == ((mode & 4) != 0),
{
    (mode & 4) != 0
}

} // verus!
