//! The tables of the messenger: which CIDs have a handle or a backend, and what waits for a CID
//! that has no handle yet. Each is a `dashmap::DashMap`, owned by one messenger and changed only
//! through it.

use crate::messenger::wire::InternalMessage;
use dashmap::DashMap;
use vstd::prelude::*;

verus! {

/// The map of the `dashmap` crate.
#[verifier::external_type_specification]
#[verifier::external_body]
#[verifier::reject_recursive_types(K)]
#[verifier::reject_recursive_types(V)]
#[verifier::reject_recursive_types(S)]
pub struct ExDashMap<K, V, S>(dashmap::DashMap<K, V, S>);

/// The keys of a table of CIDs.
pub uninterp spec fn cids(table: DashMap<u64, ()>) -> Set<u64>;

/// The messages that wait for each CID, the oldest first.
pub uninterp spec fn queues(table: DashMap<u64, Vec<InternalMessage>>) -> Map<
    u64,
    Seq<InternalMessage>,
>;

/// `DashMap::new`: a table without keys.
#[verifier::external_body]
pub(crate) fn new_cids() -> (table: DashMap<u64, ()>)
    ensures
        cids(table) == Set::<u64>::empty(),
{
    DashMap::new()
}

/// `DashMap::insert`: the key is in the table, and the other keys are as they were.
#[verifier::external_body]
pub(crate) fn add_cid(table: &mut DashMap<u64, ()>, cid: u64)
    ensures
        cids(*final(table)) == cids(*old(table)).insert(cid),
{
    table.insert(cid, ());
}

/// `DashMap::remove`: the key is not in the table, and the other keys are as they were.
#[verifier::external_body]
pub(crate) fn remove_cid(table: &mut DashMap<u64, ()>, cid: u64)
    ensures
        cids(*final(table)) == cids(*old(table)).remove(cid),
{
    table.remove(&cid);
}

/// `DashMap::contains_key`: whether the key is in the table.
#[verifier::external_body]
pub(crate) fn has_cid(table: &DashMap<u64, ()>, cid: u64) -> (found: bool)
    ensures
        found == cids(*table).contains(cid),
{
    table.contains_key(&cid)
}

/// `DashMap::iter`: every key once, in an order that is not said.
#[verifier::external_body]
pub(crate) fn list_cids(table: &DashMap<u64, ()>) -> (list: Vec<u64>)
    ensures
        list@.no_duplicates(),
        list@.to_set() == cids(*table),
{
    table.iter().map(|entry| *entry.key()).collect()
}

/// `DashMap::new`: a table in which nothing waits.
#[verifier::external_body]
pub(crate) fn new_queues() -> (table: DashMap<u64, Vec<InternalMessage>>)
    ensures
        queues(table).dom() == Set::<u64>::empty(),
{
    DashMap::new()
}

/// `DashMap::insert`: the CID has this queue, and the other queues are as they were.
#[verifier::external_body]
pub(crate) fn put_queue(
    table: &mut DashMap<u64, Vec<InternalMessage>>,
    cid: u64,
    queue: Vec<InternalMessage>,
)
    ensures
        queues(*final(table)) == queues(*old(table)).insert(cid, queue@),
{
    table.insert(cid, queue);
}

/// `DashMap::remove`: the queue of the CID, if it has one, is taken out of the table and handed
/// over; the other queues are as they were.
#[verifier::external_body]
pub(crate) fn take_queue(table: &mut DashMap<u64, Vec<InternalMessage>>, cid: u64) -> (queue:
    Option<Vec<InternalMessage>>)
    ensures
        queues(*final(table)) == queues(*old(table)).remove(cid),
        match queue {
            Some(messages) => queues(*old(table)).contains_key(cid) && messages@ == queues(
                *old(table),
            )[cid],
            None => !queues(*old(table)).contains_key(cid),
        },
{
    table.remove(&cid).map(|entry| entry.1)
}

/// The identifiers in a table of requests.
pub uninterp spec fn awaited(table: DashMap<u128, ()>) -> Set<u128>;

/// `DashMap::new`: a table without requests.
#[verifier::external_body]
pub(crate) fn new_awaited() -> (table: DashMap<u128, ()>)
    ensures
        awaited(table) == Set::<u128>::empty(),
{
    DashMap::new()
}

/// `DashMap::insert`: the identifier is in the table, and the others are as they were.
#[verifier::external_body]
pub(crate) fn add_awaited(table: &mut DashMap<u128, ()>, id: u128)
    ensures
        awaited(*final(table)) == awaited(*old(table)).insert(id),
{
    table.insert(id, ());
}

/// `DashMap::remove`: whether the identifier was in the table; it is not any more, and the others
/// are as they were.
#[verifier::external_body]
pub(crate) fn remove_awaited(table: &mut DashMap<u128, ()>, id: u128) -> (found: bool)
    ensures
        awaited(*final(table)) == awaited(*old(table)).remove(id),
        found == awaited(*old(table)).contains(id),
{
    table.remove(&id).is_some()
}

} // verus!
