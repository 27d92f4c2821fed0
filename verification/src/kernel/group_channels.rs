//! The message groups of a session.
//!
//! A group's send half keeps accepting sends after the session has left the group, so the entry
//! of a group that was left must not pass for a membership. Every channel has a ticket, and a
//! departure is recorded under the ticket: the channel itself, and every handle that was cloned
//! from it, are departed from then on. Lookups hide departed entries, and changes remove them, so
//! that they do not pile up for the life of the session.

use crate::sequences;
use crate::types::ids::MessageGroupKey;
use std::collections::HashSet;
use vstd::prelude::*;
use vstd::string::StringExecFns;

verus! {

broadcast use vstd::std_specs::hash::group_hash_axioms;

/// A group channel: what the session believes that it is a member of. `S` is the send half.
pub struct ActiveGroupChannel<S> {
    pub key: MessageGroupKey,
    pub cid: u64,
    pub ticket: u64,
    pub tx: S,
}

/// The group channels of one session.
pub struct GroupChannels<S> {
    entries: Vec<ActiveGroupChannel<S>>,
    departed: HashSet<u64>,
    next_ticket: u64,
}

/// The group channels of one session, as a mathematical value.
#[verifier::ext_equal]
pub struct GroupsView<S> {
    pub entries: Seq<ActiveGroupChannel<S>>,
    pub departed: Set<u64>,
    pub next_ticket: nat,
}

impl<S> View for GroupChannels<S> {
    type V = GroupsView<S>;

    closed spec fn view(&self) -> GroupsView<S> {
        GroupsView {
            entries: self.entries@,
            departed: self.departed@,
            next_ticket: self.next_ticket as nat,
        }
    }
}

impl<S> GroupsView<S> {
    /// No group has two entries, no ticket was given twice, and no ticket is recorded as departed
    /// that was not given.
    pub open spec fn well_formed(self) -> bool {
        &&& sequences::pairwise(self.entries, all_apart())
        &&& forall|i: int|
            0 <= i < self.entries.len() ==> (#[trigger] self.entries[i]).ticket < self.next_ticket
        &&& forall|ticket: u64| #[trigger]
            self.departed.contains(ticket) ==> ticket < self.next_ticket
    }

    /// There is an entry for the group.
    pub open spec fn has_entry(self, key: MessageGroupKey) -> bool {
        exists|i: int| 0 <= i < self.entries.len() && (#[trigger] self.entries[i]).key == key
    }

    /// The session is a member of the group: there is an entry for it, and it is not departed.
    pub open spec fn member(self, key: MessageGroupKey) -> bool {
        exists|i: int|
            0 <= i < self.entries.len() && (#[trigger] self.entries[i]).key == key
                && !self.departed.contains(self.entries[i].ticket)
    }

    /// The entries that are not departed, in their order.
    pub open spec fn live(self) -> Seq<ActiveGroupChannel<S>> {
        self.entries.filter(
            |entry: ActiveGroupChannel<S>| !self.departed.contains(entry.ticket),
        )
    }
}

/// `list` without its entry for `key`.
pub open spec fn without<S>(
    list: Seq<ActiveGroupChannel<S>>,
    key: MessageGroupKey,
) -> Seq<ActiveGroupChannel<S>> {
    list.filter(|entry: ActiveGroupChannel<S>| entry.key != key)
}

/// The two entries are of different groups, and have different tickets.
pub open spec fn apart<S>(a: ActiveGroupChannel<S>, b: ActiveGroupChannel<S>) -> bool {
    a.key != b.key && a.ticket != b.ticket
}

/// `apart`, as a relation.
pub open spec fn all_apart<S>() -> spec_fn(ActiveGroupChannel<S>, ActiveGroupChannel<S>) -> bool {
    |a: ActiveGroupChannel<S>, b: ActiveGroupChannel<S>| apart(a, b)
}

/// A group has one entry at most.
proof fn lemma_one_entry<S>(groups: GroupsView<S>, i: int, j: int)
    requires
        groups.well_formed(),
        0 <= i < groups.entries.len(),
        0 <= j < groups.entries.len(),
        i != j,
    ensures
        apart(groups.entries[i], groups.entries[j]),
{
    let related = all_apart();
    if i < j {
        assert(related(groups.entries[i], groups.entries[j]));
    } else {
        assert(related(groups.entries[j], groups.entries[i]));
    }
}

/// Without an entry for `key`, nothing is left out.
proof fn lemma_without_none<S>(list: Seq<ActiveGroupChannel<S>>, key: MessageGroupKey)
    requires
        forall|j: int| 0 <= j < list.len() ==> (#[trigger] list[j]).key != key,
    ensures
        without(list, key) == list,
    decreases list.len(),
{
    reveal(Seq::filter);
    if list.len() > 0 {
        lemma_without_none(list.drop_last(), key);
        assert(list[list.len() - 1].key != key);
        assert(without(list, key) =~= list);
    }
}

/// With one entry for `key`, that one is left out.
proof fn lemma_without_one<S>(list: Seq<ActiveGroupChannel<S>>, key: MessageGroupKey, i: int)
    requires
        0 <= i < list.len(),
        list[i].key == key,
        forall|j: int| 0 <= j < list.len() && (#[trigger] list[j]).key == key ==> j == i,
    ensures
        without(list, key) == list.remove(i),
    decreases list.len(),
{
    reveal(Seq::filter);
    let front = list.drop_last();
    if i == list.len() - 1 {
        lemma_without_none(front, key);
        assert(list.remove(i) =~= front);
    } else {
        lemma_without_one(front, key, i);
        assert(list[list.len() - 1].key != key);
        assert(list.remove(i) =~= front.remove(i).push(list.last()));
    }
}

impl<S> GroupChannels<S> {
    /// No groups.
    pub fn new() -> (groups: Self)
        ensures
            groups@ == (GroupsView::<S> {
                entries: Seq::empty(),
                departed: Set::empty(),
                next_ticket: 0,
            }),
            groups@.well_formed(),
    {
        GroupChannels { entries: Vec::new(), departed: HashSet::new(), next_ticket: 0 }
    }

    /// Forget every channel, as when the link that they belonged to is dead. Tickets stay given: a
    /// departure that is reported late concerns none of the channels to come.
    pub fn clear(&mut self)
        ensures
            final(self)@ == (GroupsView { entries: Seq::empty(), ..old(self)@ }),
            old(self)@.well_formed() ==> final(self)@.well_formed(),
    {
        self.entries = Vec::new();
        assert(self@ =~= (GroupsView { entries: Seq::empty(), ..old(self)@ }));
    }

    fn position(&self, key: MessageGroupKey) -> (at: Option<usize>)
        requires
            self@.well_formed(),
        ensures
            match at {
                Some(i) => i < self@.entries.len() && self@.entries[i as int].key == key,
                None => !self@.has_entry(key),
            },
    {
        let mut i: usize = 0;
        while i < self.entries.len()
            invariant
                i <= self.entries@.len(),
                self@.entries == self.entries@,
                forall|j: int| 0 <= j < i ==> (#[trigger] self@.entries[j]).key != key,
            decreases self.entries@.len() - i,
        {
            if self.entries[i].key == key {
                return Some(i);
            }
            i = i + 1;
        }
        None
    }

    /// Whether a channel of this table has, or had, this ticket.
    pub fn issued(&self, ticket: u64) -> (r: bool)
        ensures
            r == (ticket < self@.next_ticket),
    {
        ticket < self.next_ticket
    }

    /// Whether the channel with this ticket is departed.
    pub fn departed(&self, ticket: u64) -> (gone: bool)
        ensures
            gone == self@.departed.contains(ticket),
    {
        self.departed.contains(&ticket)
    }

    /// Keep only the entries that are not departed and are not for `key`.
    fn sweep(&mut self, key: MessageGroupKey)
        requires
            old(self)@.well_formed(),
        ensures
            final(self)@.entries == without(old(self)@.live(), key),
            final(self)@.departed == old(self)@.departed,
            final(self)@.next_ticket == old(self)@.next_ticket,
    {
        let ghost all = self.entries@;
        let ghost gone = self.departed@;
        let ghost live = |entry: ActiveGroupChannel<S>| !gone.contains(entry.ticket);
        let ghost other = |entry: ActiveGroupChannel<S>| entry.key != key;
        let n: usize = self.entries.len();
        let mut i: usize = 0;
        proof {
            reveal(Seq::filter);
            assert(all.take(0).filter(live).filter(other) =~= Seq::<
                ActiveGroupChannel<S>,
            >::empty());
            assert(self.entries@ =~= all.skip(0) + all.take(0).filter(live).filter(other));
        }
        while i < n
            invariant
                i <= n == all.len(),
                live == (|entry: ActiveGroupChannel<S>| !gone.contains(entry.ticket)),
                other == (|entry: ActiveGroupChannel<S>| entry.key != key),
                self.departed@ == gone,
                self@.next_ticket == old(self)@.next_ticket,
                self.entries@ == all.skip(i as int) + all.take(i as int).filter(live).filter(other),
            decreases n - i,
        {
            assert(all.take(i + 1).drop_last() =~= all.take(i as int));
            let ghost kept = all.take(i as int).filter(live);
            proof {
                reveal(Seq::filter);
                if live(all[i as int]) {
                    assert(all.take(i + 1).filter(live) =~= kept.push(all[i as int]));
                    assert(kept.push(all[i as int]).drop_last() =~= kept);
                }
            }
            let ghost before = self.entries@;
            assert(before[0] == all[i as int]);
            let entry = self.entries.remove(0);
            if !self.departed.contains(&entry.ticket) && entry.key != key {
                self.entries.push(entry);
            }
            assert(self.entries@ =~= all.skip(i + 1) + all.take(i + 1).filter(live).filter(other));
            i = i + 1;
        }
        proof {
            assert(all.take(n as int) =~= all);
            assert(self.entries@ =~= all.filter(live).filter(other));
        }
    }

    /// The session has joined a group. Entries of groups that were left go first, so that a
    /// session that keeps joining groups does not accumulate them. The ticket of the new channel
    /// is handed out.
    pub fn insert(&mut self, key: MessageGroupKey, cid: u64, tx: S) -> (ticket: u64)
        requires
            old(self)@.well_formed(),
            old(self)@.next_ticket < u64::MAX,
        ensures
            final(self)@.well_formed(),
            ticket == old(self)@.next_ticket,
            final(self)@.entries == without(old(self)@.live(), key).push(
                ActiveGroupChannel { key, cid, ticket, tx },
            ),
            final(self)@.departed == old(self)@.departed,
            final(self)@.next_ticket == old(self)@.next_ticket + 1,
            final(self)@.member(key),
    {
        let ticket: u64 = self.next_ticket;
        self.sweep(key);
        let ghost kept = self.entries@;
        proof {
            let before = old(self)@;
            let live = |entry: ActiveGroupChannel<S>| !before.departed.contains(entry.ticket);
            let other = |entry: ActiveGroupChannel<S>| entry.key != key;
            let related = all_apart();
            sequences::lemma_filter_pairwise(before.entries, live, related);
            sequences::lemma_filter_pairwise(before.live(), other, related);
            assert forall|k: int| 0 <= k < kept.len() implies (#[trigger] kept[k]).key != key
                && kept[k].ticket < before.next_ticket by {
                sequences::lemma_filter_from(before.live(), other, k);
                let i = choose|i: int|
                    0 <= i < before.live().len() && #[trigger] before.live()[i] == kept[k]
                        && other(before.live()[i]);
                sequences::lemma_filter_from(before.entries, live, i);
                let j = choose|j: int|
                    0 <= j < before.entries.len() && #[trigger] before.entries[j]
                        == before.live()[i] && live(before.entries[j]);
                assert(before.entries[j].ticket < before.next_ticket);
            }
            let added = ActiveGroupChannel { key, cid, ticket, tx };
            let all = kept.push(added);
            assert forall|k: int, m: int| 0 <= k < m < all.len() implies #[trigger] related(
                all[k],
                all[m],
            ) by {
                if m < kept.len() {
                    assert(related(kept[k], kept[m]));
                } else {
                    assert(kept[k].key != key);
                }
            }
        }
        self.entries.push(ActiveGroupChannel { key, cid, ticket, tx });
        self.next_ticket = ticket + 1;
        assert(self@.entries[kept.len() as int].key == key);
        ticket
    }

    /// The channel of a group that the session is a member of.
    pub fn get(&self, key: MessageGroupKey) -> (channel: Option<&ActiveGroupChannel<S>>)
        requires
            self@.well_formed(),
        ensures
            match channel {
                Some(entry) => self@.member(key) && entry.key == key && !self@.departed.contains(
                    entry.ticket,
                ) && exists|i: int|
                    0 <= i < self@.entries.len() && #[trigger] self@.entries[i] == *entry,
                None => !self@.member(key),
            },
    {
        match self.position(key) {
            Some(i) => {
                let entry = &self.entries[i];
                assert(self@.entries[i as int] == *entry);
                if self.departed.contains(&entry.ticket) {
                    assert forall|j: int|
                        0 <= j < self@.entries.len() && (#[trigger] self@.entries[j]).key
                            == key implies j == i by {
                        if j != i {
                            lemma_one_entry(self@, i as int, j);
                        }
                    }
                    None
                } else {
                    Some(entry)
                }
            },
            None => None,
        }
    }

    /// The ticket of a group's channel, departed or not, so that a task which does not hold the
    /// table can report a departure.
    pub fn departure_flag(&self, key: MessageGroupKey) -> (ticket: Option<u64>)
        requires
            self@.well_formed(),
        ensures
            match ticket {
                Some(t) => exists|i: int|
                    0 <= i < self@.entries.len() && (#[trigger] self@.entries[i]).key == key
                        && self@.entries[i].ticket == t,
                None => !self@.has_entry(key),
            },
    {
        match self.position(key) {
            Some(i) => {
                assert(self@.entries[i as int].key == key);
                Some(self.entries[i].ticket)
            },
            None => None,
        }
    }

    /// The channel with this ticket is departed from now on: the session left its group or ended
    /// it, and the departure was accepted.
    pub fn depart(&mut self, ticket: u64)
        requires
            old(self)@.well_formed(),
            ticket < old(self)@.next_ticket,
        ensures
            final(self)@.well_formed(),
            final(self)@ == (GroupsView { departed: old(self)@.departed.insert(ticket), ..old(
                self)@ }),
    {
        self.departed.insert(ticket);
        assert(self@ =~= (GroupsView { departed: old(self)@.departed.insert(ticket), ..old(self)@ }));
    }

    /// The session is no longer in the group, on the word of the server: it was removed, or
    /// somebody else ended the group. Whether it was a member before.
    pub fn mark_departed(&mut self, key: MessageGroupKey) -> (was_member: bool)
        requires
            old(self)@.well_formed(),
        ensures
            final(self)@.well_formed(),
            was_member == old(self)@.member(key),
            !final(self)@.member(key),
            final(self)@.entries == old(self)@.entries,
            final(self)@.next_ticket == old(self)@.next_ticket,
            !was_member ==> final(self)@.departed == old(self)@.departed,
            was_member ==> exists|i: int|
                0 <= i < old(self)@.entries.len() && (#[trigger] old(self)@.entries[i]).key == key
                    && final(self)@.departed == old(self)@.departed.insert(
                    old(self)@.entries[i].ticket,
                ),
    {
        match self.position(key) {
            Some(i) => {
                let ticket: u64 = self.entries[i].ticket;
                assert(self@.entries[i as int].key == key);
                assert(self@.entries[i as int].ticket == ticket);
                assert forall|j: int|
                    0 <= j < self@.entries.len() && (#[trigger] self@.entries[j]).key
                        == key implies j == i by {
                    if j != i {
                        lemma_one_entry(self@, i as int, j);
                    }
                }
                if self.departed.contains(&ticket) {
                    return false;
                }
                self.depart(ticket);
                true
            },
            None => false,
        }
    }

    /// The channel of a group, to be changed; a departed entry is removed rather than hidden.
    pub fn get_mut(&mut self, key: MessageGroupKey) -> (channel: Option<&mut ActiveGroupChannel<S>>)
        requires
            old(self)@.well_formed(),
        ensures
            channel is Some == old(self)@.member(key),
            match channel {
                Some(entry) => exists|i: int|
                    0 <= i < old(self)@.entries.len() && (#[trigger] old(self)@.entries[i]).key
                        == key && *entry == old(self)@.entries[i] && final(self)@ == (GroupsView {
                        entries: old(self)@.entries.update(i, *final(entry)),
                        ..old(self)@
                    }),
                None => final(self)@ == (GroupsView {
                    entries: without(old(self)@.entries, key),
                    ..old(self)@
                }) && final(self)@.well_formed(),
            },
    {
        let ghost before = self@.entries;
        match self.position(key) {
            Some(i) => {
                let ticket: u64 = self.entries[i].ticket;
                assert(before[i as int].key == key);
                assert forall|j: int|
                    0 <= j < before.len() && (#[trigger] before[j]).key == key implies j == i by {
                    if j != i {
                        lemma_one_entry(self@, i as int, j);
                    }
                }
                if self.departed.contains(&ticket) {
                    let _ = self.entries.remove(i);
                    proof {
                        lemma_without_one(before, key, i as int);
                        sequences::lemma_remove_pairwise(before, i as int, all_apart());
                    }
                    let ghost after = self@.entries;
                    assert(after =~= before.remove(i as int));
                    assert forall|k: int| 0 <= k < after.len() implies (#[trigger] after[k]).ticket
                        < self@.next_ticket by {
                        let j = if k < i {
                            k
                        } else {
                            k + 1
                        };
                        assert(after[k] == before[j]);
                    }
                    return None;
                }
                Some(&mut self.entries[i])
            },
            None => {
                proof {
                    lemma_without_none(before, key);
                }
                None
            },
        }
    }

    /// Refuse an operation on a channel that is departed; `operation` says what was tried.
    pub fn reject_if_departed(&self, ticket: u64, operation: &str) -> (allowed: Result<(), String>)
        ensures
            match allowed {
                Ok(_) => !self@.departed.contains(ticket),
                Err(text) => self@.departed.contains(ticket) && text@ == "Cannot "@ + operation@
                    + ": this session has left the group"@,
            },
    {
        if self.departed.contains(&ticket) {
            Err(
                "Cannot ".to_owned().concat(operation).concat(
                    ": this session has left the group",
                ),
            )
        } else {
            Ok(())
        }
    }

    /// Whether a message may go out on a channel.
    pub fn send_message(&self, ticket: u64) -> (allowed: Result<(), String>)
        ensures
            allowed is Ok == !self@.departed.contains(ticket),
            allowed matches Err(text) ==> text@ == "Cannot "@ + "message group"@
                + ": this session has left the group"@,
    {
        self.reject_if_departed(ticket, "message group")
    }

    /// Whether a peer may be invited on a channel.
    pub fn invite(&self, ticket: u64) -> (allowed: Result<(), String>)
        ensures
            allowed is Ok == !self@.departed.contains(ticket),
            allowed matches Err(text) ==> text@ == "Cannot "@ + "invite to group"@
                + ": this session has left the group"@,
    {
        self.reject_if_departed(ticket, "invite to group")
    }

    /// Whether a peer may be removed on a channel.
    pub fn kick(&self, ticket: u64) -> (allowed: Result<(), String>)
        ensures
            allowed is Ok == !self@.departed.contains(ticket),
            allowed matches Err(text) ==> text@ == "Cannot "@ + "kick from group"@
                + ": this session has left the group"@,
    {
        self.reject_if_departed(ticket, "kick from group")
    }

    /// The session has asked to leave the group of a channel. Only a request that was accepted
    /// makes the channel departed: one that failed leaves a live membership as it is.
    pub fn leave<E>(&mut self, ticket: u64, accepted: Result<(), E>) -> (left: Result<(), E>)
        requires
            old(self)@.well_formed(),
            ticket < old(self)@.next_ticket,
        ensures
            left == accepted,
            final(self)@.well_formed(),
            final(self)@ == if accepted is Ok {
                GroupsView { departed: old(self)@.departed.insert(ticket), ..old(self)@ }
            } else {
                old(self)@
            },
    {
        if accepted.is_ok() {
            self.depart(ticket);
        }
        accepted
    }

    /// The session has asked to end the group of a channel, which only its owner may: a request
    /// that was refused leaves the membership as it is.
    pub fn end<E>(&mut self, ticket: u64, accepted: Result<(), E>) -> (ended: Result<(), E>)
        requires
            old(self)@.well_formed(),
            ticket < old(self)@.next_ticket,
        ensures
            ended == accepted,
            final(self)@.well_formed(),
            final(self)@ == if accepted is Ok {
                GroupsView { departed: old(self)@.departed.insert(ticket), ..old(self)@ }
            } else {
                old(self)@
            },
    {
        if accepted.is_ok() {
            self.depart(ticket);
        }
        accepted
    }
}

/// A group that the session has left never passes for a membership: once the ticket of its
/// channel is departed, whoever reported it, the group is none of the session's, until a new
/// channel is inserted.
pub proof fn law_departed_groups_are_no_membership<S>(
    groups: GroupsView<S>,
    key: MessageGroupKey,
    i: int,
)
    requires
        groups.well_formed(),
        0 <= i < groups.entries.len(),
        groups.entries[i].key == key,
    ensures
        !(GroupsView { departed: groups.departed.insert(groups.entries[i].ticket), ..groups }).member(
            key,
        ),
        forall|other: MessageGroupKey|
            other != key ==> #[trigger] (GroupsView {
                departed: groups.departed.insert(groups.entries[i].ticket),
                ..groups
            }).member(other) == groups.member(other),
{
    let after = GroupsView {
        departed: groups.departed.insert(groups.entries[i].ticket),
        ..groups
    };
    assert forall|j: int| 0 <= j < groups.entries.len() && j != i implies (
    #[trigger] groups.entries[j]).key != key && groups.entries[j].ticket
        != groups.entries[i].ticket by {
        lemma_one_entry(groups, i, j);
    }
    assert forall|other: MessageGroupKey| other != key implies #[trigger] after.member(other)
        == groups.member(other) by {
        if groups.member(other) {
            let j = choose|j: int|
                0 <= j < groups.entries.len() && (#[trigger] groups.entries[j]).key == other
                    && !groups.departed.contains(groups.entries[j].ticket);
            assert(after.entries[j].key == other);
        }
    }
}

/// A session is a member of a group exactly where its table has a channel for the group that is
/// not departed, wherever in the table it stands.
pub proof fn law_membership_is_a_live_channel<S>(groups: GroupsView<S>, key: MessageGroupKey)
    ensures
        groups.member(key) <==> exists|i: int|
            0 <= i < groups.entries.len() && (#[trigger] groups.entries[i]).key == key
                && !groups.departed.contains(groups.entries[i].ticket),
        groups.has_entry(key) <==> exists|i: int|
            0 <= i < groups.entries.len() && (#[trigger] groups.entries[i]).key == key,
        groups.entries.len() == 0 ==> !groups.member(key) && !groups.has_entry(key),
{
}

/// A sound table has one channel for a group at most, no ticket twice, and no ticket, live or
/// departed, that is still to be given.
pub proof fn law_one_channel_for_a_group<S>(groups: GroupsView<S>, i: int, j: int, ticket: u64)
    requires
        groups.well_formed(),
        0 <= i < groups.entries.len(),
        0 <= j < groups.entries.len(),
    ensures
        i != j ==> groups.entries[i].key != groups.entries[j].key && groups.entries[i].ticket
            != groups.entries[j].ticket,
        groups.entries[i].ticket < groups.next_ticket,
        groups.departed.contains(ticket) ==> ticket < groups.next_ticket,
{
    if i != j {
        lemma_one_entry(groups, i, j);
    }
}

/// The live entries are those that are not departed, each judged by its own ticket and kept in
/// its place.
pub proof fn law_live_entries<S>(
    a: GroupsView<S>,
    b: Seq<ActiveGroupChannel<S>>,
    entry: ActiveGroupChannel<S>,
)
    ensures
        (GroupsView { entries: a.entries + b, ..a }).live() == a.live() + (GroupsView {
            entries: b,
            ..a
        }).live(),
        (GroupsView { entries: seq![entry], ..a }).live() == if a.departed.contains(entry.ticket) {
            Seq::empty()
        } else {
            seq![entry]
        },
{
    let live = |entry: ActiveGroupChannel<S>| !a.departed.contains(entry.ticket);
    let both = GroupsView { entries: a.entries + b, ..a };
    let second = GroupsView { entries: b, ..a };
    let one = GroupsView { entries: seq![entry], ..a };
    assert((|entry: ActiveGroupChannel<S>| !both.departed.contains(entry.ticket)) =~= live);
    assert((|entry: ActiveGroupChannel<S>| !second.departed.contains(entry.ticket)) =~= live);
    assert((|entry: ActiveGroupChannel<S>| !one.departed.contains(entry.ticket)) =~= live);
    Seq::filter_distributes_over_add(a.entries, b, live);
    lemma_filter_one(entry, live);
}

/// To leave a group's entry out leaves every other entry in its place.
pub proof fn law_without_one_group<S>(
    a: Seq<ActiveGroupChannel<S>>,
    b: Seq<ActiveGroupChannel<S>>,
    entry: ActiveGroupChannel<S>,
    key: MessageGroupKey,
)
    ensures
        without(a + b, key) == without(a, key) + without(b, key),
        without(seq![entry], key) == if entry.key == key {
            Seq::empty()
        } else {
            seq![entry]
        },
{
    let other = |entry: ActiveGroupChannel<S>| entry.key != key;
    Seq::filter_distributes_over_add(a, b, other);
    lemma_filter_one(entry, other);
}

proof fn lemma_filter_one<S>(
    entry: ActiveGroupChannel<S>,
    keep: spec_fn(ActiveGroupChannel<S>) -> bool,
)
    ensures
        seq![entry].filter(keep) == if keep(entry) {
            seq![entry]
        } else {
            Seq::empty()
        },
{
    reveal(Seq::filter);
    let one = seq![entry];
    assert(one.drop_last() =~= Seq::<ActiveGroupChannel<S>>::empty());
    assert(one.last() == entry);
    assert(one.drop_last().filter(keep) =~= Seq::<ActiveGroupChannel<S>>::empty());
    assert(one.filter(keep) =~= if keep(entry) {
        one
    } else {
        Seq::<ActiveGroupChannel<S>>::empty()
    });
}

/// To join a group makes the session a member of it and changes no other membership; entries of
/// groups that were left go.
pub proof fn law_joining_a_group<S>(
    before: GroupsView<S>,
    after: GroupsView<S>,
    added: ActiveGroupChannel<S>,
    other: MessageGroupKey,
)
    requires
        before.well_formed(),
        added.ticket == before.next_ticket,
        after.entries == without(before.live(), added.key).push(added),
        after.departed == before.departed,
    ensures
        after.member(added.key),
        other != added.key ==> after.member(other) == before.member(other),
        forall|k: int|
            0 <= k < after.entries.len() ==> !after.departed.contains(
                (#[trigger] after.entries[k]).ticket,
            ),
{
    let kept = without(before.live(), added.key);
    let live = |entry: ActiveGroupChannel<S>| !before.departed.contains(entry.ticket);
    let others = |entry: ActiveGroupChannel<S>| entry.key != added.key;
    assert(after.entries[kept.len() as int] == added);
    assert(!before.departed.contains(added.ticket));
    assert forall|k: int| 0 <= k < after.entries.len() implies !after.departed.contains(
        (#[trigger] after.entries[k]).ticket,
    ) && (k < kept.len() ==> exists|i: int|
        0 <= i < before.entries.len() && #[trigger] before.entries[i] == after.entries[k]) by {
        if k < kept.len() {
            sequences::lemma_filter_from(before.live(), others, k);
            let i = choose|i: int|
                0 <= i < before.live().len() && #[trigger] before.live()[i] == kept[k] && others(
                    before.live()[i],
                );
            sequences::lemma_filter_from(before.entries, live, i);
        }
    }
    if other != added.key && before.member(other) {
        let i = choose|i: int|
            0 <= i < before.entries.len() && (#[trigger] before.entries[i]).key == other
                && !before.departed.contains(before.entries[i].ticket);
        sequences::lemma_filter_has(before.entries, live, i);
        let k = choose|k: int|
            0 <= k < before.live().len() && #[trigger] before.live()[k] == before.entries[i];
        sequences::lemma_filter_has(before.live(), others, k);
        let m = choose|m: int| 0 <= m < kept.len() && #[trigger] kept[m] == before.live()[k];
        assert(after.entries[m] == before.entries[i]);
    }
    if other != added.key && after.member(other) {
        let k = choose|k: int|
            0 <= k < after.entries.len() && (#[trigger] after.entries[k]).key == other
                && !after.departed.contains(after.entries[k].ticket);
        assert(k < kept.len());
        let i = choose|i: int|
            0 <= i < before.entries.len() && #[trigger] before.entries[i] == after.entries[k];
        assert(before.entries[i].key == other);
    }
}

/// A channel is found exactly for a group that the session is a member of, and it is that group's.
pub proof fn law_a_channel_is_found_for_a_member<S>(
    groups: GroupChannels<S>,
    key: MessageGroupKey,
    channel: Option<&ActiveGroupChannel<S>>,
)
    requires
        groups@.well_formed(),
        call_ensures(GroupChannels::<S>::get, (&groups, key), channel),
    ensures
        channel is Some <==> exists|i: int|
            0 <= i < groups@.entries.len() && (#[trigger] groups@.entries[i]).key == key
                && !groups@.departed.contains(groups@.entries[i].ticket),
        channel is Some ==> channel->0.key == key && !groups@.departed.contains(channel->0.ticket),
{
}

/// Nothing is sent, nobody invited and nobody removed on a channel that is departed, and all of it
/// on one that is not.
pub proof fn law_a_departed_channel_is_closed<S>(
    groups: GroupChannels<S>,
    ticket: u64,
    sent: Result<(), String>,
    invited: Result<(), String>,
    kicked: Result<(), String>,
    gone: bool,
)
    requires
        call_ensures(GroupChannels::<S>::send_message, (&groups, ticket), sent),
        call_ensures(GroupChannels::<S>::invite, (&groups, ticket), invited),
        call_ensures(GroupChannels::<S>::kick, (&groups, ticket), kicked),
        call_ensures(GroupChannels::<S>::departed, (&groups, ticket), gone),
    ensures
        sent is Ok <==> !gone,
        invited is Ok <==> !gone,
        kicked is Ok <==> !gone,
        gone <==> groups@.departed.contains(ticket),
{
}

/// To join a group makes the session a member of it under a ticket that no channel had, and of no
/// other group more or less than before.
pub proof fn law_insert_joins_one_group<S>(key: MessageGroupKey, cid: u64, tx: S)
    ensures
        forall|groups: &mut GroupChannels<S>, ticket: u64, other: MessageGroupKey|
            #![trigger call_ensures(GroupChannels::<S>::insert, (groups, key, cid, tx), ticket), final(groups)@.member(other)]
            call_ensures(GroupChannels::<S>::insert, (groups, key, cid, tx), ticket)
                && groups@.well_formed() ==> {
                &&& final(groups)@.member(key)
                &&& other != key ==> final(groups)@.member(other) == groups@.member(other)
                &&& !groups@.departed.contains(ticket)
                &&& forall|i: int|
                    0 <= i < groups@.entries.len() ==> (#[trigger] groups@.entries[i]).ticket
                        != ticket
            },
{
    assert forall|groups: &mut GroupChannels<S>, ticket: u64, other: MessageGroupKey|
        #![trigger call_ensures(GroupChannels::<S>::insert, (groups, key, cid, tx), ticket), final(groups)@.member(other)]
        call_ensures(GroupChannels::<S>::insert, (groups, key, cid, tx), ticket)
            && groups@.well_formed() implies {
        &&& final(groups)@.member(key)
        &&& other != key ==> final(groups)@.member(other) == groups@.member(other)
        &&& !groups@.departed.contains(ticket)
        &&& forall|i: int|
            0 <= i < groups@.entries.len() ==> (#[trigger] groups@.entries[i]).ticket != ticket
    } by {
        law_joining_a_group(
            groups@,
            final(groups)@,
            ActiveGroupChannel { key, cid, ticket, tx },
            other,
        );
    }
}

/// A departure is final for the channel that it concerns, and concerns no other: it is recorded
/// where the request was accepted and not where it failed, and the answer is the one that came.
pub proof fn law_only_an_accepted_departure_counts<S, E>(
    ticket: u64,
    accepted: Result<(), E>,
    other: u64,
)
    ensures
        forall|groups: &mut GroupChannels<S>, left: Result<(), E>| #[trigger]
            call_ensures(GroupChannels::<S>::leave::<E>, (groups, ticket, accepted), left) ==> {
                &&& left == accepted
                &&& final(groups)@.departed.contains(other) <==> groups@.departed.contains(other)
                    || (accepted is Ok && other == ticket)
                &&& final(groups)@.entries == groups@.entries
            },
        forall|groups: &mut GroupChannels<S>, ended: Result<(), E>| #[trigger]
            call_ensures(GroupChannels::<S>::end::<E>, (groups, ticket, accepted), ended) ==> {
                &&& ended == accepted
                &&& final(groups)@.departed.contains(other) <==> groups@.departed.contains(other)
                    || (accepted is Ok && other == ticket)
                &&& final(groups)@.entries == groups@.entries
            },
{
}

/// After the server's word that the session is out of a group, it is a member of it no longer, and
/// of every other group as before.
pub proof fn law_the_servers_word_ends_one_membership<S>(key: MessageGroupKey)
    ensures
        forall|groups: &mut GroupChannels<S>, was_member: bool, other: MessageGroupKey|
            #![trigger call_ensures(GroupChannels::<S>::mark_departed, (groups, key), was_member), final(groups)@.member(other)]
            call_ensures(GroupChannels::<S>::mark_departed, (groups, key), was_member)
                && groups@.well_formed() ==> {
                &&& was_member == groups@.member(key)
                &&& !final(groups)@.member(key)
                &&& other != key ==> final(groups)@.member(other) == groups@.member(other)
            },
{
    assert forall|groups: &mut GroupChannels<S>, was_member: bool, other: MessageGroupKey|
        #![trigger call_ensures(GroupChannels::<S>::mark_departed, (groups, key), was_member), final(groups)@.member(other)]
        call_ensures(GroupChannels::<S>::mark_departed, (groups, key), was_member)
            && groups@.well_formed() implies {
        &&& was_member == groups@.member(key)
        &&& !final(groups)@.member(key)
        &&& other != key ==> final(groups)@.member(other) == groups@.member(other)
    } by {
        let before = groups@;
        let after = final(groups)@;
        if was_member {
            let i = choose|i: int|
                0 <= i < before.entries.len() && (#[trigger] before.entries[i]).key == key
                    && after.departed == before.departed.insert(before.entries[i].ticket);
            law_departed_groups_are_no_membership(before, key, i);
            assert(after =~= (GroupsView {
                departed: before.departed.insert(before.entries[i].ticket),
                ..before
            }));
        } else {
            assert(after =~= before);
        }
    }
}

/// To forget every channel leaves no membership.
pub proof fn law_clear_leaves_no_membership<S>()
    ensures
        forall|groups: &mut GroupChannels<S>, key: MessageGroupKey|
            #![trigger call_ensures(GroupChannels::<S>::clear, (groups,), ()), final(groups)@.member(key)]
            call_ensures(GroupChannels::<S>::clear, (groups,), ()) ==> !final(groups)@.member(key)
                && final(groups)@.next_ticket == groups@.next_ticket && final(groups)@.departed
                == groups@.departed,
{
}

} // verus!
