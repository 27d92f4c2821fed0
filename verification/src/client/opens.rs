//! Which clients have a messenger, and which are getting one.

use crate::messenger::tables;
use crate::messenger::tables::{add_cid, has_cid, new_cids};
use dashmap::DashMap;
use dashmap::DashSet;
use vstd::prelude::*;

verus! {

/// The set of the `dashmap` crate.
#[verifier::external_type_specification]
#[verifier::external_body]
#[verifier::reject_recursive_types(K)]
#[verifier::reject_recursive_types(S)]
pub struct ExDashSet<K, S>(dashmap::DashSet<K, S>);

/// The CIDs in a set.
pub uninterp spec fn members(set: DashSet<u64>) -> Set<u64>;

/// `DashSet::new`: an empty set.
#[verifier::external_body]
fn new_set() -> (set: DashSet<u64>)
    ensures
        members(set) == Set::<u64>::empty(),
{
    DashSet::new()
}

/// `DashSet::insert`: the CID is in the set, the others are as they were, and the result tells
/// whether it was new.
#[verifier::external_body]
fn add_member(set: &mut DashSet<u64>, cid: u64) -> (new: bool)
    ensures
        members(*final(set)) == members(*old(set)).insert(cid),
        new == !members(*old(set)).contains(cid),
{
    set.insert(cid)
}

/// `DashSet::remove`: the CID is not in the set, and the others are as they were.
#[verifier::external_body]
fn remove_member(set: &mut DashSet<u64>, cid: u64)
    ensures
        members(*final(set)) == members(*old(set)).remove(cid),
{
    set.remove(&cid);
}

/// `DashSet::contains`: whether the CID is in the set.
#[verifier::external_body]
fn has_member(set: &DashSet<u64>, cid: u64) -> (found: bool)
    ensures
        found == members(*set).contains(cid),
{
    set.contains(&cid)
}

/// What to do about a messenger.
#[derive(Debug, Clone, Copy, PartialEq, Eq, Structural)]
pub enum OpenStep {
    /// There is one.
    AlreadyOpen,
    /// Somebody else is opening it.
    BeingOpened,
    /// Open it; nobody else will meanwhile.
    Open,
}

/// What to do about the messenger of a CID, given which are open and which are being opened.
pub open spec fn open_step(open: Set<u64>, pending: Set<u64>, cid: u64) -> OpenStep {
    if open.contains(cid) {
        OpenStep::AlreadyOpen
    } else if pending.contains(cid) {
        OpenStep::BeingOpened
    } else {
        OpenStep::Open
    }
}

/// How waiting for somebody else's open goes.
#[derive(Debug, Clone, Copy, PartialEq, Eq, Structural)]
pub enum Waited {
    /// The messenger is there.
    Ready,
    /// The other has failed: open it ourselves.
    Abandoned,
    /// Look again.
    Pending,
}

/// The messengers of a client, by CID.
pub struct Opens {
    connections: DashMap<u64, ()>,
    pending: DashSet<u64>,
}

impl Opens {
    /// The CIDs that have a messenger.
    pub closed spec fn open(self) -> Set<u64> {
        tables::cids(self.connections)
    }

    /// The CIDs whose messenger is being opened.
    pub closed spec fn pending(self) -> Set<u64> {
        members(self.pending)
    }

    /// No messengers.
    pub fn new() -> (opens: Self)
        ensures
            opens.open() == Set::<u64>::empty(),
            opens.pending() == Set::<u64>::empty(),
    {
        Opens { connections: new_cids(), pending: new_set() }
    }

    /// Whether a CID has a messenger.
    pub fn is_open(&self, cid: u64) -> (r: bool)
        ensures
            r == self.open().contains(cid),
    {
        has_cid(&self.connections, cid)
    }

    /// What to do about the messenger of a CID. Whoever is told to open it is the only one until
    /// the open has finished.
    pub fn begin(&mut self, cid: u64) -> (step: OpenStep)
        ensures
            step == open_step(old(self).open(), old(self).pending(), cid),
            final(self).open() == old(self).open(),
            final(self).pending() == if step == OpenStep::Open {
                old(self).pending().insert(cid)
            } else {
                old(self).pending()
            },
    {
        if has_cid(&self.connections, cid) {
            return OpenStep::AlreadyOpen;
        }
        if add_member(&mut self.pending, cid) {
            OpenStep::Open
        } else {
            assert(self.pending() =~= old(self).pending());
            OpenStep::BeingOpened
        }
    }

    /// An open has finished. A failed one can be tried again.
    pub fn finish(&mut self, cid: u64, opened: bool)
        ensures
            final(self).open() == if opened {
                old(self).open().insert(cid)
            } else {
                old(self).open()
            },
            final(self).pending() == old(self).pending().remove(cid),
    {
        if opened {
            add_cid(&mut self.connections, cid);
        }
        remove_member(&mut self.pending, cid);
    }

    /// How waiting for somebody else's open goes.
    pub fn waited(&self, cid: u64) -> (waited: Waited)
        ensures
            waited == if self.open().contains(cid) {
                Waited::Ready
            } else if self.pending().contains(cid) {
                Waited::Pending
            } else {
                Waited::Abandoned
            },
    {
        if has_cid(&self.connections, cid) {
            Waited::Ready
        } else if has_member(&self.pending, cid) {
            Waited::Pending
        } else {
            Waited::Abandoned
        }
    }
}

/// Two callers never open the same messenger at once: after one is told to open it, everybody who
/// asks is told that it is being opened, until the first has finished. Then it is open, or, where
/// the open has failed, the next one to ask may try. Nothing changes for other CIDs.
pub proof fn law_one_opens_at_a_time(open: Set<u64>, pending: Set<u64>, cid: u64, other: u64)
    requires
        open_step(open, pending, cid) == OpenStep::Open,
        other != cid,
    ensures
        open_step(open, pending.insert(cid), cid) == OpenStep::BeingOpened,
        open_step(open.insert(cid), pending.insert(cid).remove(cid), cid) == OpenStep::AlreadyOpen,
        open_step(open, pending.insert(cid).remove(cid), cid) == OpenStep::Open,
        open_step(open, pending.insert(cid), other) == open_step(open, pending, other),
        open_step(open.insert(cid), pending.insert(cid).remove(cid), other) == open_step(
            open,
            pending,
            other,
        ),
{
}

/// What to do about a messenger: nothing where there is one, wait where somebody is opening it,
/// and else open it.
pub proof fn law_who_opens(open: Set<u64>, pending: Set<u64>, cid: u64)
    ensures
        open_step(open, pending, cid) is AlreadyOpen <==> open.contains(cid),
        open_step(open, pending, cid) is BeingOpened <==> !open.contains(cid) && pending.contains(
            cid,
        ),
        open_step(open, pending, cid) is Open <==> !open.contains(cid) && !pending.contains(cid),
{
}

/// Whoever is told to open a messenger is the only one until the open has finished; then it is open
/// where it succeeded, and may be tried again where it failed. No other CID is touched.
pub proof fn law_an_open_is_begun_and_finished(cid: u64, opened: bool, other: u64)
    ensures
        forall|opens: &mut Opens, step: OpenStep| #[trigger]
            call_ensures(Opens::begin, (opens, cid), step) ==> {
                &&& step is AlreadyOpen <==> opens.open().contains(cid)
                &&& step is Open <==> !opens.open().contains(cid) && !opens.pending().contains(cid)
                &&& step is Open ==> final(opens).pending().contains(cid)
                &&& final(opens).open() == opens.open()
                &&& other != cid ==> final(opens).pending().contains(other)
                    == opens.pending().contains(other)
            },
        forall|opens: &mut Opens| #[trigger]
            call_ensures(Opens::finish, (opens, cid, opened), ()) ==> {
                &&& !final(opens).pending().contains(cid)
                &&& opened ==> final(opens).open().contains(cid)
                &&& !opened ==> final(opens).open() == opens.open()
                &&& other != cid ==> final(opens).open().contains(other) == opens.open().contains(
                    other,
                ) && final(opens).pending().contains(other) == opens.pending().contains(other)
            },
{
}

} // verus!
