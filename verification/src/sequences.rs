//! Facts about sequences and their filters.

use vstd::prelude::*;

verus! {

/// What a filter keeps was there, and satisfies it.
pub proof fn lemma_filter_from<T>(s: Seq<T>, keep: spec_fn(T) -> bool, k: int)
    requires
        0 <= k < s.filter(keep).len(),
    ensures
        exists|i: int| 0 <= i < s.len() && #[trigger] s[i] == s.filter(keep)[k] && keep(s[i]),
    decreases s.len(),
{
    reveal(Seq::filter);
    let front = s.drop_last();
    let f = front.filter(keep);
    if k < f.len() {
        lemma_filter_from(front, keep, k);
        let i = choose|i: int|
            0 <= i < front.len() && #[trigger] front[i] == f[k] && keep(front[i]);
        assert(s[i] == s.filter(keep)[k]);
    } else {
        assert(s[s.len() - 1] == s.filter(keep)[k]);
    }
}

/// What satisfies a filter is kept.
pub proof fn lemma_filter_has<T>(s: Seq<T>, keep: spec_fn(T) -> bool, i: int)
    requires
        0 <= i < s.len(),
        keep(s[i]),
    ensures
        exists|k: int| 0 <= k < s.filter(keep).len() && #[trigger] s.filter(keep)[k] == s[i],
    decreases s.len(),
{
    reveal(Seq::filter);
    let front = s.drop_last();
    let all = s.filter(keep);
    if i < front.len() {
        lemma_filter_has(front, keep, i);
        let k = choose|k: int|
            0 <= k < front.filter(keep).len() && #[trigger] front.filter(keep)[k] == front[i];
        assert(all[k] == s[i]);
    } else {
        assert(all[all.len() - 1] == s[i]);
    }
}

/// Every earlier item stands in this relation to every later one.
pub open spec fn pairwise<T>(s: Seq<T>, related: spec_fn(T, T) -> bool) -> bool {
    forall|i: int, j: int|
        0 <= i < j < s.len() ==> #[trigger] related(s[i], s[j])
}

/// A filter keeps what holds of every two items.
pub proof fn lemma_filter_pairwise<T>(
    s: Seq<T>,
    keep: spec_fn(T) -> bool,
    related: spec_fn(T, T) -> bool,
)
    requires
        pairwise(s, related),
    ensures
        pairwise(s.filter(keep), related),
    decreases s.len(),
{
    reveal(Seq::filter);
    if s.len() > 0 {
        let front = s.drop_last();
        let f = front.filter(keep);
        let all = s.filter(keep);
        assert forall|i: int, j: int| 0 <= i < j < front.len() implies #[trigger] related(
            front[i],
            front[j],
        ) by {
            assert(related(s[i], s[j]));
        }
        lemma_filter_pairwise(front, keep, related);
        assert forall|k: int, m: int| 0 <= k < m < all.len() implies #[trigger] related(
            all[k],
            all[m],
        ) by {
            assert(f[k] == all[k]);
            if m < f.len() {
                assert(f[m] == all[m]);
                assert(related(f[k], f[m]));
            } else {
                lemma_filter_from(front, keep, k);
                let i = choose|i: int|
                    0 <= i < front.len() && #[trigger] front[i] == f[k] && keep(front[i]);
                assert(related(s[i], s[s.len() - 1]));
            }
        }
    }
}

/// Removing an item keeps what holds of every two.
pub proof fn lemma_remove_pairwise<T>(s: Seq<T>, at: int, related: spec_fn(T, T) -> bool)
    requires
        0 <= at < s.len(),
        pairwise(s, related),
    ensures
        pairwise(s.remove(at), related),
{
    let r = s.remove(at);
    assert forall|k: int, m: int| 0 <= k < m < r.len() implies #[trigger] related(r[k], r[m]) by {
        let i = if k < at {
            k
        } else {
            k + 1
        };
        let j = if m < at {
            m
        } else {
            m + 1
        };
        assert(related(s[i], s[j]));
    }
}

} // verus!
