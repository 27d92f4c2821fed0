//! Pruning of what the kernel keeps by CID.
//!
//! Three tables are keyed by a pair of CIDs and outlive the session they describe: the two of
//! pending peer signals and the cache of usernames. A CID is permanent for its account, so an
//! entry left behind could later be matched against a request that its sender long abandoned.
//!
//! A CID can appear on either side of the key: as the local session for requests addressed to
//! it, and as the peer for requests it sent to others. Both are dead once the session is gone.

use crate::kernel::pair_table;
use crate::kernel::pair_table::PairTable;
use vstd::prelude::*;

verus! {

/// What a single prune removed.
#[derive(Debug, PartialEq, Eq)]
pub struct PrunedCidState {
    pub pending_connects: usize,
    pub pending_registrations: usize,
    pub cached_usernames: usize,
}

impl Default for PrunedCidState {
    fn default() -> (r: Self)
        ensures
            r == (PrunedCidState {
                pending_connects: 0,
                pending_registrations: 0,
                cached_usernames: 0,
            }),
    {
        PrunedCidState { pending_connects: 0, pending_registrations: 0, cached_usernames: 0 }
    }
}

impl PrunedCidState {
    /// How many entries were removed in all.
    pub open spec fn sum(self) -> nat {
        (self.pending_connects + self.pending_registrations + self.cached_usernames) as nat
    }

    /// How many entries were removed in all.
    pub fn total(&self) -> (total: usize)
        requires
            self.sum() <= usize::MAX,
        ensures
            total == self.sum(),
    {
        self.pending_connects + self.pending_registrations + self.cached_usernames
    }
}

/// What the kernel keeps by pairs of CIDs. `S` is a peer's signal as it came.
pub struct CidScopedState<S> {
    /// Requests of peers to connect that await the user's answer.
    pub pending_peer_connect_signals: PairTable<S>,
    /// Requests of peers to register that await the user's answer.
    pub pending_peer_registrations: PairTable<S>,
    /// The usernames of peers, as their registrations gave them.
    pub peer_username_cache: PairTable<String>,
}

impl<S> CidScopedState<S> {
    /// No table has a key twice.
    pub open spec fn well_formed(self) -> bool {
        &&& self.pending_peer_connect_signals.well_formed()
        &&& self.pending_peer_registrations.well_formed()
        &&& self.peer_username_cache.well_formed()
    }

    /// Empty tables.
    pub fn new() -> (state: Self)
        ensures
            state.well_formed(),
            state.pending_peer_connect_signals@.len() == 0,
            state.pending_peer_registrations@.len() == 0,
            state.peer_username_cache@.len() == 0,
    {
        CidScopedState {
            pending_peer_connect_signals: PairTable::new(),
            pending_peer_registrations: PairTable::new(),
            peer_username_cache: PairTable::new(),
        }
    }

    /// Drop the entries that a teardown has just invalidated.
    ///
    /// `peer_cid == None` is the teardown of a session: everything that mentions `cid` on either
    /// side of the key is dead. `Some(peer)` is the teardown of one peer connection, where the
    /// session survives: only that pair goes, in both orders.
    pub fn prune_cid_scoped_state(&mut self, cid: u64, peer_cid: Option<u64>) -> (pruned:
        PrunedCidState)
        requires
            old(self).well_formed(),
        ensures
            final(self).well_formed(),
            final(self).pending_peer_connect_signals@ == pair_table::spared(
                old(self).pending_peer_connect_signals@,
                cid,
                peer_cid,
            ),
            final(self).pending_peer_registrations@ == pair_table::spared(
                old(self).pending_peer_registrations@,
                cid,
                peer_cid,
            ),
            final(self).peer_username_cache@ == pair_table::spared(
                old(self).peer_username_cache@,
                cid,
                peer_cid,
            ),
            pruned.pending_connects == old(self).pending_peer_connect_signals@.len() - final(self).pending_peer_connect_signals@.len(),
            pruned.pending_registrations == old(self).pending_peer_registrations@.len() - final(self).pending_peer_registrations@.len(),
            pruned.cached_usernames == old(self).peer_username_cache@.len() - final(self).peer_username_cache@.len(),
    {
        let pending_connects = self.pending_peer_connect_signals.prune(cid, peer_cid);
        let pending_registrations = self.pending_peer_registrations.prune(cid, peer_cid);
        let cached_usernames = self.peer_username_cache.prune(cid, peer_cid);
        PrunedCidState { pending_connects, pending_registrations, cached_usernames }
    }
}

/// Nothing that mentions a session survives its teardown, and nothing else goes.
pub proof fn law_nothing_survives_a_teardown<V>(
    entries: Seq<((u64, u64), V)>,
    cid: u64,
    key: (u64, u64),
)
    requires
        pair_table::distinct_keys(entries),
    ensures
        key.0 == cid || key.1 == cid ==> !pair_table::has_key(
            pair_table::spared(entries, cid, None),
            key,
        ),
        key.0 != cid && key.1 != cid ==> pair_table::has_key(
            pair_table::spared(entries, cid, None),
            key,
        ) == pair_table::has_key(entries, key),
{
    pair_table::law_prune_is_exact(entries, cid, None, key);
}

/// The teardown of one peer connection spares every other pair, even of the same session.
pub proof fn law_peer_teardown_spares_other_pairs<V>(
    entries: Seq<((u64, u64), V)>,
    cid: u64,
    peer: u64,
    key: (u64, u64),
)
    requires
        pair_table::distinct_keys(entries),
        key != (cid, peer),
        key != (peer, cid),
    ensures
        pair_table::has_key(pair_table::spared(entries, cid, Some(peer)), key)
            == pair_table::has_key(entries, key),
{
    pair_table::law_prune_is_exact(entries, cid, Some(peer), key);
}

/// Whatever is kept by pairs, the teardown of the connection between two sessions leaves nothing
/// for the two in any of the three tables, in neither order.
pub proof fn law_a_torn_down_pair_is_in_no_table<S>(
    before: CidScopedState<S>,
    after: CidScopedState<S>,
    cid: u64,
    peer: u64,
)
    requires
        after.pending_peer_connect_signals@ == pair_table::spared(
            before.pending_peer_connect_signals@,
            cid,
            Some(peer),
        ),
        after.pending_peer_registrations@ == pair_table::spared(
            before.pending_peer_registrations@,
            cid,
            Some(peer),
        ),
        after.peer_username_cache@ == pair_table::spared(
            before.peer_username_cache@,
            cid,
            Some(peer),
        ),
    ensures
        !pair_table::has_key(after.pending_peer_connect_signals@, (cid, peer)),
        !pair_table::has_key(after.pending_peer_connect_signals@, (peer, cid)),
        !pair_table::has_key(after.pending_peer_registrations@, (cid, peer)),
        !pair_table::has_key(after.pending_peer_registrations@, (peer, cid)),
        !pair_table::has_key(after.peer_username_cache@, (cid, peer)),
        !pair_table::has_key(after.peer_username_cache@, (peer, cid)),
{
    pair_table::law_nothing_is_kept_for_a_torn_down_pair(
        before.pending_peer_connect_signals@,
        cid,
        peer,
    );
    pair_table::law_nothing_is_kept_for_a_torn_down_pair(
        before.pending_peer_registrations@,
        cid,
        peer,
    );
    pair_table::law_nothing_is_kept_for_a_torn_down_pair(before.peer_username_cache@, cid, peer);
}

/// The total counts what went from each of the three tables, once.
pub proof fn law_total_counts_every_table(pruned: PrunedCidState)
    ensures
        pruned.sum() == pruned.pending_connects as int + pruned.pending_registrations as int
            + pruned.cached_usernames as int,
{
}

/// After the teardown of the connection between two sessions no table has the pair, in either
/// order; after that of a session no table has a pair with it. Every other pair is where it was,
/// and what is counted is what went.
pub proof fn law_a_teardown_leaves_nothing_behind<S>(cid: u64, peer: u64, other: (u64, u64))
    ensures
        forall|state: &mut CidScopedState<S>, pruned: PrunedCidState| #[trigger]
            call_ensures(
                CidScopedState::<S>::prune_cid_scoped_state,
                (state, cid, Some(peer)),
                pruned,
            ) ==> {
                let after = *final(state);
                &&& !pair_table::has_key(after.pending_peer_connect_signals@, (cid, peer))
                &&& !pair_table::has_key(after.pending_peer_connect_signals@, (peer, cid))
                &&& !pair_table::has_key(after.pending_peer_registrations@, (cid, peer))
                &&& !pair_table::has_key(after.pending_peer_registrations@, (peer, cid))
                &&& !pair_table::has_key(after.peer_username_cache@, (cid, peer))
                &&& !pair_table::has_key(after.peer_username_cache@, (peer, cid))
            },
        forall|state: &mut CidScopedState<S>, pruned: PrunedCidState| #[trigger]
            call_ensures(
                CidScopedState::<S>::prune_cid_scoped_state,
                (state, cid, None),
                pruned,
            ) && (other.0 == cid || other.1 == cid) ==> {
                let after = *final(state);
                &&& !pair_table::has_key(after.pending_peer_connect_signals@, other)
                &&& !pair_table::has_key(after.pending_peer_registrations@, other)
                &&& !pair_table::has_key(after.peer_username_cache@, other)
            },
        forall|state: &mut CidScopedState<S>, pruned: PrunedCidState| #[trigger]
            call_ensures(
                CidScopedState::<S>::prune_cid_scoped_state,
                (state, cid, Some(peer)),
                pruned,
            ) && state.well_formed() && other != (cid, peer) && other != (peer, cid) ==> {
                let after = *final(state);
                &&& pair_table::has_key(after.pending_peer_connect_signals@, other)
                    == pair_table::has_key(state.pending_peer_connect_signals@, other)
                &&& pair_table::has_key(after.pending_peer_registrations@, other)
                    == pair_table::has_key(state.pending_peer_registrations@, other)
                &&& pair_table::has_key(after.peer_username_cache@, other) == pair_table::has_key(
                    state.peer_username_cache@,
                    other,
                )
            },
{
    assert forall|state: &mut CidScopedState<S>, pruned: PrunedCidState| #[trigger]
        call_ensures(
            CidScopedState::<S>::prune_cid_scoped_state,
            (state, cid, Some(peer)),
            pruned,
        ) implies {
        let after = *final(state);
        &&& !pair_table::has_key(after.pending_peer_connect_signals@, (cid, peer))
        &&& !pair_table::has_key(after.pending_peer_connect_signals@, (peer, cid))
        &&& !pair_table::has_key(after.pending_peer_registrations@, (cid, peer))
        &&& !pair_table::has_key(after.pending_peer_registrations@, (peer, cid))
        &&& !pair_table::has_key(after.peer_username_cache@, (cid, peer))
        &&& !pair_table::has_key(after.peer_username_cache@, (peer, cid))
    } by {
        law_a_torn_down_pair_is_in_no_table(*state, *final(state), cid, peer);
    }
    assert forall|state: &mut CidScopedState<S>, pruned: PrunedCidState| #[trigger]
        call_ensures(
            CidScopedState::<S>::prune_cid_scoped_state,
            (state, cid, None),
            pruned,
        ) && (other.0 == cid || other.1 == cid) implies {
        let after = *final(state);
        &&& !pair_table::has_key(after.pending_peer_connect_signals@, other)
        &&& !pair_table::has_key(after.pending_peer_registrations@, other)
        &&& !pair_table::has_key(after.peer_username_cache@, other)
    } by {
        pair_table::law_nothing_is_kept_for_a_torn_down_session(
            state.pending_peer_connect_signals@,
            cid,
        );
        pair_table::law_nothing_is_kept_for_a_torn_down_session(
            state.pending_peer_registrations@,
            cid,
        );
        pair_table::law_nothing_is_kept_for_a_torn_down_session(state.peer_username_cache@, cid);
    }
    assert forall|state: &mut CidScopedState<S>, pruned: PrunedCidState| #[trigger]
        call_ensures(
            CidScopedState::<S>::prune_cid_scoped_state,
            (state, cid, Some(peer)),
            pruned,
        ) && state.well_formed() && other != (cid, peer) && other != (peer, cid) implies {
        let after = *final(state);
        &&& pair_table::has_key(after.pending_peer_connect_signals@, other)
            == pair_table::has_key(state.pending_peer_connect_signals@, other)
        &&& pair_table::has_key(after.pending_peer_registrations@, other) == pair_table::has_key(
            state.pending_peer_registrations@,
            other,
        )
        &&& pair_table::has_key(after.peer_username_cache@, other) == pair_table::has_key(
            state.peer_username_cache@,
            other,
        )
    } by {
        law_peer_teardown_spares_other_pairs(
            state.pending_peer_connect_signals@,
            cid,
            peer,
            other,
        );
        law_peer_teardown_spares_other_pairs(state.pending_peer_registrations@, cid, peer, other);
        law_peer_teardown_spares_other_pairs(state.peer_username_cache@, cid, peer, other);
    }
}

} // verus!
