//! Categories: the two kinds of article layout a configured directory can
//! have, the `dir:kind` option syntax, and the mapping from directory name
//! to kind that the rest of the pipeline consumes.

use vstd::prelude::*;
use vstd::pervasive::VecAdditionalExecFns;
use crate::text::find_char_from;
use crate::text::find_char;
use crate::text::str_eq;

verus! {

/// How a category directory holds its articles: `Flat` keeps content files
/// directly inside it, `Tree` keeps one article per subdirectory behind an
/// index file.
#[derive(PartialEq, Eq, Structural, Copy, Clone, Debug)]
pub enum Category {
    Flat,
    Tree,
}

/// One configured category: directory name and kind.
pub struct CatEntry {
    pub name: String,
    pub kind: Category,
}

/// Position of the first `:` in `s`, if any.
pub open spec fn first_colon(s: Seq<char>) -> Option<int> {
    find_char_from(s, ':', 0)
}

/// `s` splits at `:` into exactly two parts.
pub open spec fn exactly_one_colon(s: Seq<char>) -> bool {
    match first_colon(s) {
        Some(i) => find_char_from(s, ':', i + 1) is None,
        None => false,
    }
}

/// The text before the first `:`: the directory name of a `dir:kind` option.
pub open spec fn name_part(s: Seq<char>) -> Seq<char>
    recommends
        first_colon(s) is Some,
{
    s.subrange(0, first_colon(s)->Some_0)
}

/// The text between the first `:` and the second one or the end: the kind
/// field of a `dir:kind` option.
pub open spec fn kind_part(s: Seq<char>) -> Seq<char>
    recommends
        first_colon(s) is Some,
{
    let i = first_colon(s)->Some_0;
    match find_char_from(s, ':', i + 1) {
        Some(j) => s.subrange(i + 1, j),
        None => s.subrange(i + 1, s.len() as int),
    }
}

/// The two spellings a kind field may have.
pub open spec fn valid_kind(t: Seq<char>) -> bool {
    t == "flat"@ || t == "tree"@
}

/// The kind a valid kind field names.
pub open spec fn kind_of(t: Seq<char>) -> Category {
    if t == "flat"@ {
        Category::Flat
    } else {
        Category::Tree
    }
}

impl Category {
    /// Read a kind field. Accepts exactly `flat` and `tree`.
    pub fn from_str(s: &str) -> (r: Result<Category, String>)
        ensures
            s@ == "flat"@ ==> r == Ok::<Category, String>(Category::Flat),
            s@ == "tree"@ ==> r == Ok::<Category, String>(Category::Tree),
            match r {
                Ok(c) => valid_kind(s@) && c == kind_of(s@),
                Err(e) => !valid_kind(s@) && e@ == "Invalid category "@ + s@,
            },
    {
        proof {
            reveal_strlit("flat");
            reveal_strlit("tree");
            assert("flat"@[0] == 'f' && "tree"@[0] == 't');
            assert("flat"@ != "tree"@);
        }
        if str_eq(s, "flat") {
            Ok(Category::Flat)
        } else if str_eq(s, "tree") {
            Ok(Category::Tree)
        } else {
            let mut e = "Invalid category ".to_owned();
            e.append(s);
            Err(e)
        }
    }
}

/// Check that a category option is well formed: exactly one `:`, and a
/// kind field that names one of the two kinds.
pub fn is_category(val: &str) -> (r: Result<(), String>)
    ensures
        match r {
            Ok(()) => exactly_one_colon(val@) && valid_kind(kind_part(val@)),
            Err(e) => if !exactly_one_colon(val@) {
                e@ == "Bad category specification: "@ + val@
            } else {
                !valid_kind(kind_part(val@)) && e@ == "Not a valid category: "@ + kind_part(val@)
            },
        },
{
    let n = val.unicode_len();
    let split_ok = match find_char(val, ':', 0) {
        Some(i) => find_char(val, ':', i + 1).is_none(),
        None => false,
    };
    if !split_ok {
        let mut e = "Bad category specification: ".to_owned();
        e.append(val);
        return Err(e);
    }
    let i = find_char(val, ':', 0).unwrap();
    let tail = val.substring_char(i + 1, n);
    if str_eq(tail, "flat") || str_eq(tail, "tree") {
        Ok(())
    } else {
        let mut e = "Not a valid category: ".to_owned();
        e.append(tail);
        Err(e)
    }
}

/// The category mapping that a sequence of `dir:kind` options builds, later
/// options overriding earlier ones with the same directory name.
pub open spec fn cats_map(values: Seq<Seq<char>>) -> Map<Seq<char>, Category>
    decreases values.len(),
{
    if values.len() == 0 {
        Map::empty()
    } else {
        cats_map(values.drop_last()).insert(
            name_part(values.last()),
            kind_of(kind_part(values.last())),
        )
    }
}

/// The mapping a list of entries stands for.
pub open spec fn list_map(l: Seq<CatEntry>) -> Map<Seq<char>, Category>
    decreases l.len(),
{
    if l.len() == 0 {
        Map::empty()
    } else {
        list_map(l.drop_last()).insert(l.last().name@, l.last().kind)
    }
}

/// Pairwise distinct directory names.
pub open spec fn unique_names(l: Seq<CatEntry>) -> bool {
    forall|i: int, j: int| 0 <= i < j < l.len() ==> l[i].name@ != l[j].name@
}

proof fn lemma_list_map_dom(l: Seq<CatEntry>, k: Seq<char>)
    ensures
        list_map(l).contains_key(k) == (exists|i: int| 0 <= i < l.len() && l[i].name@ == k),
    decreases l.len(),
{
    if l.len() > 0 {
        lemma_list_map_dom(l.drop_last(), k);
        if l.last().name@ == k {
            assert(l[l.len() - 1].name@ == k);
        } else {
            if exists|i: int| 0 <= i < l.len() && l[i].name@ == k {
                let i = choose|i: int| 0 <= i < l.len() && l[i].name@ == k;
                assert(l.drop_last()[i] == l[i]);
            }
        }
    }
}

proof fn lemma_list_map_update(l: Seq<CatEntry>, i: int, e: CatEntry)
    requires
        0 <= i < l.len(),
        unique_names(l),
        e.name@ == l[i].name@,
    ensures
        list_map(l.update(i, e)) =~= list_map(l).insert(e.name@, e.kind),
    decreases l.len(),
{
    if i == l.len() - 1 {
        assert(l.update(i, e).drop_last() =~= l.drop_last());
    } else {
        assert(l.update(i, e).drop_last() =~= l.drop_last().update(i, e));
        assert(l.update(i, e).last() == l.last());
        lemma_list_map_update(l.drop_last(), i, e);
        assert(l.last().name@ != e.name@);
    }
}

/// Index of the entry carrying `name`, if one is present.
fn find_name(l: &Vec<CatEntry>, name: &str) -> (r: Option<usize>)
    ensures
        match r {
            Some(t) => t < l@.len() && l@[t as int].name@ == name@,
            None => forall|u: int| 0 <= u < l@.len() ==> l@[u].name@ != name@,
        },
{
    let mut t: usize = 0;
    while t < l.len()
        invariant
            0 <= t <= l@.len(),
            forall|u: int| 0 <= u < t ==> l@[u].name@ != name@,
        decreases l@.len() - t,
    {
        if str_eq(l[t].name.as_str(), name) {
            return Some(t);
        }
        t = t + 1;
    }
    None
}

/// Build the category mapping from the raw option values. Every value must
/// hold a `:`; values with an unknown kind field are rejected with the
/// first offender's message.
pub fn parse_categories(values: &Vec<String>) -> (r: Result<Vec<CatEntry>, String>)
    requires
        forall|k: int| 0 <= k < values@.len() ==> first_colon(#[trigger] values@[k]@) is Some,
    ensures
        match r {
            Ok(l) => {
                &&& forall|k: int|
                    0 <= k < values@.len() ==> valid_kind(kind_part(#[trigger] values@[k]@))
                &&& unique_names(l@)
                &&& list_map(l@) == cats_map(values@.map_values(|v: String| v@))
            },
            Err(e) => exists|k: int|
                {
                    &&& 0 <= k < values@.len()
                    &&& !valid_kind(kind_part(#[trigger] values@[k]@))
                    &&& e@ == "Invalid category "@ + kind_part(values@[k]@)
                    &&& forall|j: int| 0 <= j < k ==> valid_kind(kind_part(#[trigger] values@[j]@))
                },
        },
{
    let ghost vals = values@.map_values(|v: String| v@);
    let mut out: Vec<CatEntry> = Vec::new();
    let mut k: usize = 0;
    while k < values.len()
        invariant
            0 <= k <= values@.len(),
            vals == values@.map_values(|v: String| v@),
            forall|k2: int| 0 <= k2 < values@.len() ==> first_colon(#[trigger] values@[k2]@) is Some,
            forall|j: int| 0 <= j < k ==> valid_kind(kind_part(#[trigger] values@[j]@)),
            unique_names(out@),
            list_map(out@) == cats_map(vals.subrange(0, k as int)),
        decreases values@.len() - k,
    {
        let value = &values[k];
        let n = value.as_str().unicode_len();
        let i = find_char(value.as_str(), ':', 0).unwrap();
        let name = value.as_str().substring_char(0, i);
        let kind_text = match find_char(value.as_str(), ':', i + 1) {
            Some(j) => value.as_str().substring_char(i + 1, j),
            None => value.as_str().substring_char(i + 1, n),
        };
        let kind = match Category::from_str(kind_text) {
            Ok(c) => c,
            Err(e) => {
                return Err(e);
            },
        };
        let found = find_name(&out, name);
        match found {
            Some(t) => {
                proof {
                    lemma_list_map_update(
                        out@,
                        t as int,
                        CatEntry { name: out@[t as int].name, kind },
                    );
                }
                let newname = out[t].name.clone();
                out.set(t, CatEntry { name: newname, kind });
            },
            None => {
                let owned = name.to_owned();
                proof {
                    lemma_list_map_dom(out@, name@);
                    assert(out@.push(CatEntry { name: owned, kind }).drop_last() =~= out@);
                }
                out.push(CatEntry { name: owned, kind });
            },
        }
        proof {
            assert(vals.subrange(0, k + 1).drop_last() =~= vals.subrange(0, k as int));
            assert(vals.subrange(0, k + 1).last() == values@[k as int]@);
        }
        k = k + 1;
    }
    proof {
        assert(vals.subrange(0, values@.len() as int) =~= vals);
    }
    Ok(out)
}

} // verus!
