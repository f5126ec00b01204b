//! Selection and ranking: merge-order input entries are sorted by resolved
//! update time, most recent first, and cut down to the requested count. An
//! empty merge is signalled apart from an empty selection, so that no
//! document is written for it.

use vstd::prelude::*;
use crate::feed::ArticleEntry;

verus! {

broadcast use vstd::seq_lib::group_to_multiset_ensures;

/// Most recent first.
pub open spec fn sorted_desc(s: Seq<ArticleEntry>) -> bool {
    forall|i: int, j: int| 0 <= i < j < s.len() ==> s[i].updated >= s[j].updated
}

/// The requested count, capped by what is there.
pub open spec fn rank_len(n: int, have: int) -> int {
    if n < have {
        n
    } else {
        have
    }
}

/// Index of an entry no other one beats.
fn find_latest(pool: &Vec<ArticleEntry>) -> (r: usize)
    requires
        pool@.len() > 0,
    ensures
        r < pool@.len(),
        forall|t: int| 0 <= t < pool@.len() ==> pool@[r as int].updated >= pool@[t].updated,
{
    let mut best: usize = 0;
    let mut k: usize = 1;
    while k < pool.len()
        invariant
            0 <= best < k <= pool@.len(),
            forall|t: int| 0 <= t < k ==> pool@[best as int].updated >= pool@[t].updated,
        decreases pool@.len() - k,
    {
        if pool[k].updated > pool[best].updated {
            best = k;
        }
        k = k + 1;
    }
    best
}

/// Order the merged entries by update time, most recent first, and keep
/// the first `n`; entries sharing a time keep no particular order. `None`
/// signals that nothing was there to rank, as opposed to a selection that
/// an `n` of zero emptied.
pub fn select_entries(entries: Vec<ArticleEntry>, n: usize) -> (r: Option<Vec<ArticleEntry>>)
    ensures
        (r is None) == (entries@.len() == 0),
        r matches Some(sel) ==> {
            &&& sel@.len() == rank_len(n as int, entries@.len() as int)
            &&& sorted_desc(sel@)
            &&& exists|s: Seq<ArticleEntry>|
                {
                    &&& #[trigger] s.to_multiset() == entries@.to_multiset()
                    &&& sorted_desc(s)
                    &&& sel@ == s.subrange(0, rank_len(n as int, entries@.len() as int))
                }
        },
{
    if entries.len() == 0 {
        return None;
    }
    let ghost orig = entries@;
    let mut pool = entries;
    let mut out: Vec<ArticleEntry> = Vec::new();
    while pool.len() > 0
        invariant
            out@.to_multiset().add(pool@.to_multiset()) =~= orig.to_multiset(),
            sorted_desc(out@),
            forall|i: int, t: int|
                0 <= i < out@.len() && 0 <= t < pool@.len() ==> out@[i].updated
                    >= pool@[t].updated,
        decreases pool@.len(),
    {
        let best = find_latest(&pool);
        let ghost before = pool@;
        let x = pool.remove(best);
        proof {
            assert(out@.push(x).to_multiset() =~= out@.to_multiset().insert(x));
            assert(before.remove(best as int).to_multiset() =~= before.to_multiset().remove(x));
            assert(out@.to_multiset().insert(x).add(before.to_multiset().remove(x))
                =~= out@.to_multiset().add(before.to_multiset()));
            assert forall|t: int| 0 <= t < pool@.len() implies x.updated
                >= pool@[t].updated by {
                if t < best {
                    assert(pool@[t] == before[t]);
                } else {
                    assert(pool@[t] == before[t + 1]);
                }
            }
        }
        out.push(x);
    }
    proof {
        assert(out@.to_multiset() =~= orig.to_multiset());
    }
    let ghost full = out@;
    out.truncate(n);
    proof {
        assert(full.to_multiset().len() == full.len());
        assert(orig.to_multiset().len() == orig.len());
        if n >= full.len() {
            assert(out@ =~= full.subrange(0, rank_len(n as int, orig.len() as int)));
        }
        assert(full.to_multiset() == orig.to_multiset() && sorted_desc(full) && out@
            == full.subrange(0, rank_len(n as int, orig.len() as int)));
    }
    Some(out)
}

/// The limit keeps the most recent entries: in an ordered ranking, every
/// entry inside the cut is at least as recent as every entry past it, and
/// the kept and dropped parts together are the whole ranking.
pub proof fn lemma_limit_keeps_most_recent(s: Seq<ArticleEntry>, k: int)
    requires
        sorted_desc(s),
        0 <= k <= s.len(),
    ensures
        forall|i: int, j: int| 0 <= i < k <= j < s.len() ==> s[i].updated >= s[j].updated,
        s.subrange(0, k) + s.skip(k) =~= s,
{
}

} // verus!
