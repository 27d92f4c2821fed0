//! Tables keyed by a pair of CIDs: the local session and its peer.

use crate::sequences;
use std::collections::VecDeque;
use vstd::prelude::*;

verus! {

/// A table keyed by a pair of CIDs, in the order in which the keys first came.
pub struct PairTable<V> {
    entries: VecDeque<((u64, u64), V)>,
}

/// No key occurs twice.
pub open spec fn distinct_keys<V>(entries: Seq<((u64, u64), V)>) -> bool {
    sequences::pairwise(entries, other_key())
}

/// The two entries have different keys.
pub open spec fn other_key<V>() -> spec_fn(((u64, u64), V), ((u64, u64), V)) -> bool {
    |a: ((u64, u64), V), b: ((u64, u64), V)| a.0 != b.0
}

/// Some entry has this key.
pub open spec fn has_key<V>(entries: Seq<((u64, u64), V)>, key: (u64, u64)) -> bool {
    exists|i: int| 0 <= i < entries.len() && (#[trigger] entries[i]).0 == key
}

impl<V> View for PairTable<V> {
    type V = Seq<((u64, u64), V)>;

    closed spec fn view(&self) -> Seq<((u64, u64), V)> {
        self.entries@
    }
}

impl<V> PairTable<V> {
    /// No key occurs twice.
    pub open spec fn well_formed(self) -> bool {
        distinct_keys(self@)
    }

    /// A table without entries.
    pub fn new() -> (table: Self)
        ensures
            table@ == Seq::<((u64, u64), V)>::empty(),
            table.well_formed(),
    {
        PairTable { entries: VecDeque::new() }
    }

    /// How many entries there are.
    pub fn len(&self) -> (n: usize)
        ensures
            n == self@.len(),
    {
        self.entries.len()
    }

    fn position(&self, a: u64, b: u64) -> (at: Option<usize>)
        ensures
            match at {
                Some(i) => i < self@.len() && self@[i as int].0 == (a, b),
                None => !has_key(self@, (a, b)),
            },
    {
        let mut i: usize = 0;
        while i < self.entries.len()
            invariant
                i <= self.entries@.len(),
                self@ == self.entries@,
                forall|j: int| 0 <= j < i ==> (#[trigger] self@[j]).0 != (a, b),
            decreases self.entries@.len() - i,
        {
            let entry = &self.entries[i];
            if entry.0.0 == a && entry.0.1 == b {
                return Some(i);
            }
            i = i + 1;
        }
        None
    }

    /// Whether the pair is a key.
    pub fn contains_key(&self, a: u64, b: u64) -> (found: bool)
        ensures
            found == has_key(self@, (a, b)),
    {
        match self.position(a, b) {
            Some(_) => true,
            None => false,
        }
    }

    /// What the table holds for the pair.
    pub fn get(&self, a: u64, b: u64) -> (value: Option<&V>)
        requires
            self.well_formed(),
        ensures
            match value {
                Some(v) => exists|i: int|
                    0 <= i < self@.len() && #[trigger] self@[i] == ((a, b), *v),
                None => !has_key(self@, (a, b)),
            },
    {
        match self.position(a, b) {
            Some(i) => {
                let entry = &self.entries[i];
                assert(self@[i as int] == ((a, b), entry.1));
                Some(&entry.1)
            },
            None => None,
        }
    }

    /// Let the table hold `value` for the pair, in place of what it held. A new pair comes last.
    pub fn insert(&mut self, a: u64, b: u64, value: V)
        requires
            old(self).well_formed(),
        ensures
            final(self).well_formed(),
            if has_key(old(self)@, (a, b)) {
                exists|i: int|
                    0 <= i < old(self)@.len() && (#[trigger] old(self)@[i]).0 == (a, b)
                        && final(self)@ == old(self)@.update(i, ((a, b), value))
            } else {
                final(self)@ == old(self)@.push(((a, b), value))
            },
    {
        match self.position(a, b) {
            Some(i) => {
                assert(old(self)@[i as int].0 == (a, b));
                let _ = self.entries.remove(i);
                self.entries.insert(i, ((a, b), value));
                assert(self@ =~= old(self)@.update(i as int, ((a, b), value)));
                proof {
                    let before = old(self)@;
                    let related = other_key::<V>();
                    assert forall|k: int, m: int| 0 <= k < m < self@.len() implies #[trigger] related(
                        self@[k],
                        self@[m],
                    ) by {
                        assert(related(before[k], before[m]));
                    }
                }
            },
            None => {
                self.entries.push_back(((a, b), value));
                assert(self@ =~= old(self)@.push(((a, b), value)));
                proof {
                    let before = old(self)@;
                    let related = other_key::<V>();
                    assert forall|k: int, m: int| 0 <= k < m < self@.len() implies #[trigger] related(
                        self@[k],
                        self@[m],
                    ) by {
                        if m < before.len() {
                            assert(related(before[k], before[m]));
                        } else {
                            assert(before[k].0 != (a, b));
                        }
                    }
                }
            },
        }
    }

    /// Take out every entry that a teardown invalidates, and say how many there were.
    pub fn prune(&mut self, cid: u64, peer_cid: Option<u64>) -> (pruned: usize)
        requires
            old(self).well_formed(),
        ensures
            final(self).well_formed(),
            final(self)@ == spared(old(self)@, cid, peer_cid),
            pruned == old(self)@.len() - final(self)@.len(),
    {
        let n: usize = self.entries.len();
        let mut i: usize = 0;
        let mut pruned: usize = 0;
        let ghost all = self@;
        let ghost keep = |entry: ((u64, u64), V)| !touches(entry.0, cid, peer_cid);
        proof {
            reveal(Seq::filter);
            assert(all.take(0).filter(keep) =~= Seq::<((u64, u64), V)>::empty());
            assert(self.entries@ =~= all.skip(0) + all.take(0).filter(keep));
        }
        while i < n
            invariant
                i <= n == all.len(),
                pruned <= i,
                keep == (|entry: ((u64, u64), V)| !touches(entry.0, cid, peer_cid)),
                self.entries@ == all.skip(i as int) + all.take(i as int).filter(keep),
                all.take(i as int).filter(keep).len() == i - pruned,
            decreases n - i,
        {
            assert(all.take(i + 1).drop_last() =~= all.take(i as int));
            proof {
                reveal(Seq::filter);
            }
            let ghost before = self.entries@;
            assert(before[0] == all[i as int]);
            match self.entries.pop_front() {
                Some(entry) => {
                    let (a, b) = entry.0;
                    if touches_pair(a, b, cid, peer_cid) {
                        pruned = pruned + 1;
                        assert(self.entries@ =~= all.skip(i + 1) + all.take(i + 1).filter(keep));
                    } else {
                        self.entries.push_back(entry);
                        assert(self.entries@ =~= all.skip(i + 1) + all.take(i + 1).filter(keep));
                    }
                },
                None => {
                    assert(false);
                },
            }
            i = i + 1;
        }
        proof {
            assert(all.take(n as int) =~= all);
            assert(self@ =~= all.filter(keep));
            sequences::lemma_filter_pairwise(all, keep, other_key());
        }
        pruned
    }
}

/// A teardown of `cid` (of the session where `peer_cid` is `None`, else of the connection with
/// that peer alone) invalidates what is kept for `key`.
pub open spec fn touches(key: (u64, u64), cid: u64, peer_cid: Option<u64>) -> bool {
    match peer_cid {
        None => key.0 == cid || key.1 == cid,
        Some(peer) => key == (cid, peer) || key == (peer, cid),
    }
}

fn touches_pair(a: u64, b: u64, cid: u64, peer_cid: Option<u64>) -> (r: bool)
    ensures
        r == touches((a, b), cid, peer_cid),
{
    match peer_cid {
        None => a == cid || b == cid,
        Some(peer) => (a == cid && b == peer) || (a == peer && b == cid),
    }
}

/// The entries that a teardown leaves alone, in their order.
pub open spec fn spared<V>(
    entries: Seq<((u64, u64), V)>,
    cid: u64,
    peer_cid: Option<u64>,
) -> Seq<((u64, u64), V)> {
    entries.filter(|entry: ((u64, u64), V)| !touches(entry.0, cid, peer_cid))
}

/// What a prune leaves is exactly what it does not touch: an entry survives if and only if its
/// key is untouched.
pub proof fn law_prune_is_exact<V>(
    entries: Seq<((u64, u64), V)>,
    cid: u64,
    peer_cid: Option<u64>,
    key: (u64, u64),
)
    requires
        distinct_keys(entries),
    ensures
        has_key(spared(entries, cid, peer_cid), key) <==> has_key(entries, key) && !touches(
            key,
            cid,
            peer_cid,
        ),
{
    let keep = |entry: ((u64, u64), V)| !touches(entry.0, cid, peer_cid);
    let left = entries.filter(keep);
    if has_key(left, key) {
        let k = choose|k: int| 0 <= k < left.len() && (#[trigger] left[k]).0 == key;
        sequences::lemma_filter_from(entries, keep, k);
        let i = choose|i: int|
            0 <= i < entries.len() && #[trigger] entries[i] == left[k] && keep(entries[i]);
        assert(entries[i].0 == key);
    }
    if has_key(entries, key) && !touches(key, cid, peer_cid) {
        let i = choose|i: int| 0 <= i < entries.len() && (#[trigger] entries[i]).0 == key;
        sequences::lemma_filter_has(entries, keep, i);
        let k = choose|k: int| 0 <= k < left.len() && #[trigger] left[k] == entries[i];
        assert(left[k].0 == key);
    }
}

/// After the teardown of the connection between two sessions, nothing is kept for the two, in
/// neither order, and it is all the same which of them is named first.
pub proof fn law_nothing_is_kept_for_a_torn_down_pair<V>(
    entries: Seq<((u64, u64), V)>,
    cid: u64,
    peer: u64,
)
    ensures
        forall|i: int|
            0 <= i < spared(entries, cid, Some(peer)).len() ==> (#[trigger] spared(
                entries,
                cid,
                Some(peer),
            )[i]).0 != (cid, peer) && spared(entries, cid, Some(peer))[i].0 != (peer, cid),
        spared(entries, cid, Some(peer)) == spared(entries, peer, Some(cid)),
{
    let keep = |entry: ((u64, u64), V)| !touches(entry.0, cid, Some(peer));
    let left = spared(entries, cid, Some(peer));
    assert forall|i: int| 0 <= i < left.len() implies (#[trigger] left[i]).0 != (cid, peer)
        && left[i].0 != (peer, cid) by {
        sequences::lemma_filter_from(entries, keep, i);
    }
    let other = |entry: ((u64, u64), V)| !touches(entry.0, peer, Some(cid));
    assert(keep =~= other);
}

/// After the teardown of a session, nothing is kept in which it is either of the two.
pub proof fn law_nothing_is_kept_for_a_torn_down_session<V>(
    entries: Seq<((u64, u64), V)>,
    cid: u64,
)
    ensures
        forall|i: int|
            0 <= i < spared(entries, cid, None).len() ==> (#[trigger] spared(
                entries,
                cid,
                None,
            )[i]).0.0 != cid && spared(entries, cid, None)[i].0.1 != cid,
{
    let keep = |entry: ((u64, u64), V)| !touches(entry.0, cid, None);
    let left = spared(entries, cid, None);
    assert forall|i: int| 0 <= i < left.len() implies (#[trigger] left[i]).0.0 != cid
        && left[i].0.1 != cid by {
        sequences::lemma_filter_from(entries, keep, i);
    }
}

/// A teardown judges each entry by its own key alone, and keeps or drops it whole, in its place:
/// what it leaves of two rows of entries is what it leaves of the one and then of the other.
pub proof fn law_each_entry_is_judged_by_its_own_key<V>(
    a: Seq<((u64, u64), V)>,
    b: Seq<((u64, u64), V)>,
    entry: ((u64, u64), V),
    cid: u64,
    peer_cid: Option<u64>,
)
    ensures
        spared(a + b, cid, peer_cid) == spared(a, cid, peer_cid) + spared(b, cid, peer_cid),
        spared(seq![entry], cid, peer_cid) == if match peer_cid {
            None => entry.0.0 == cid || entry.0.1 == cid,
            Some(peer) => (entry.0.0 == cid && entry.0.1 == peer) || (entry.0.0 == peer
                && entry.0.1 == cid),
        } {
            Seq::<((u64, u64), V)>::empty()
        } else {
            seq![entry]
        },
        spared(Seq::<((u64, u64), V)>::empty(), cid, peer_cid).len() == 0,
{
    let keep = |entry: ((u64, u64), V)| !touches(entry.0, cid, peer_cid);
    Seq::filter_distributes_over_add(a, b, keep);
    reveal(Seq::filter);
    let one = seq![entry];
    assert(one.drop_last() =~= Seq::<((u64, u64), V)>::empty());
    assert(one.last() == entry);
    assert(one.drop_last().filter(keep) =~= Seq::<((u64, u64), V)>::empty());
    assert(spared(one, cid, peer_cid) =~= if keep(entry) {
        one
    } else {
        Seq::<((u64, u64), V)>::empty()
    });
}

/// A table has a key where some entry has it, and has no key twice.
pub proof fn law_keys<V>(entries: Seq<((u64, u64), V)>, key: (u64, u64))
    ensures
        has_key(entries, key) <==> exists|i: int|
            0 <= i < entries.len() && (#[trigger] entries[i]).0 == key,
        distinct_keys(entries) <==> forall|i: int, j: int|
            0 <= i < entries.len() && 0 <= j < entries.len() && i != j ==> (
            #[trigger] entries[i]).0 != (#[trigger] entries[j]).0,
{
    let related = other_key::<V>();
    if distinct_keys(entries) {
        assert forall|i: int, j: int|
            0 <= i < entries.len() && 0 <= j < entries.len() && i != j implies (
        #[trigger] entries[i]).0 != (#[trigger] entries[j]).0 by {
            if i < j {
                assert(related(entries[i], entries[j]));
            } else {
                assert(related(entries[j], entries[i]));
            }
        }
    }
    if forall|i: int, j: int|
        0 <= i < entries.len() && 0 <= j < entries.len() && i != j ==> (
        #[trigger] entries[i]).0 != (#[trigger] entries[j]).0 {
        assert forall|i: int, j: int| 0 <= i < j < entries.len() implies #[trigger] related(
            entries[i],
            entries[j],
        ) by {
            assert(entries[i].0 != entries[j].0);
        }
    }
}

/// What is put in for a pair is what is found for it, what was there for the pair is gone, and
/// every other pair is where it was.
pub proof fn law_what_is_put_in_is_found<V>(a: u64, b: u64, value: V, other: (u64, u64))
    ensures
        forall|table: &mut PairTable<V>| #[trigger]
            call_ensures(PairTable::<V>::insert, (table, a, b, value), ()) && table.well_formed()
                ==> {
                &&& final(table)@.contains(((a, b), value))
                &&& has_key(final(table)@, (a, b))
                &&& other != (a, b) ==> has_key(final(table)@, other) == has_key(table@, other)
            },
{
    assert forall|table: &mut PairTable<V>| #[trigger]
        call_ensures(PairTable::<V>::insert, (table, a, b, value), ())
            && table.well_formed() implies {
        &&& final(table)@.contains(((a, b), value))
        &&& has_key(final(table)@, (a, b))
        &&& other != (a, b) ==> has_key(final(table)@, other) == has_key(table@, other)
    } by {
        let before = table@;
        let after = final(table)@;
        if has_key(before, (a, b)) {
            let i = choose|i: int|
                0 <= i < before.len() && (#[trigger] before[i]).0 == (a, b) && after
                    == before.update(i, ((a, b), value));
            assert(after[i] == ((a, b), value));
            if has_key(before, other) && other != (a, b) {
                let j = choose|j: int| 0 <= j < before.len() && (#[trigger] before[j]).0 == other;
                assert(after[j].0 == other);
            }
            if has_key(after, other) && other != (a, b) {
                let j = choose|j: int| 0 <= j < after.len() && (#[trigger] after[j]).0 == other;
                assert(before[j].0 == other);
            }
        } else {
            assert(after[before.len() as int] == ((a, b), value));
            if has_key(before, other) {
                let j = choose|j: int| 0 <= j < before.len() && (#[trigger] before[j]).0 == other;
                assert(after[j].0 == other);
            }
            if has_key(after, other) && other != (a, b) {
                let j = choose|j: int| 0 <= j < after.len() && (#[trigger] after[j]).0 == other;
                assert(before[j].0 == other);
            }
        }
    }
}

/// The value that is found for a pair is the one that its entry has, and one is found exactly where
/// there is such an entry.
pub proof fn law_what_is_found<V>(
    table: PairTable<V>,
    a: u64,
    b: u64,
    value: Option<&V>,
    found: bool,
)
    requires
        table.well_formed(),
        call_ensures(PairTable::<V>::get, (&table, a, b), value),
        call_ensures(PairTable::<V>::contains_key, (&table, a, b), found),
    ensures
        found <==> exists|i: int| 0 <= i < table@.len() && (#[trigger] table@[i]).0 == (a, b),
        value is Some <==> found,
        value is Some ==> table@.contains(((a, b), *value->0)),
{
    if value is Some {
        let i = choose|i: int| 0 <= i < table@.len() && #[trigger] table@[i] == ((a, b), *value->0);
        assert(table@[i].0 == (a, b));
    }
}

} // verus!
