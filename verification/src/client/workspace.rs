//! The state of a client: whether it is connected, which connection is the live one, and what has
//! come in and not been taken yet.

use crate::client::connection_lifecycle;
use crate::client::connection_lifecycle::{
    refuse_init, should_report_death, teardown_before_connect,
};
use crate::client::opens;
use crate::client::opens::{OpenStep, Opens, Waited};
use crate::client::queue;
use crate::client::queue::{drain_queued, Inbox};
use crate::types::response::InternalServiceResponse;
use std::collections::VecDeque;
use vstd::prelude::*;
use vstd::string::StringExecFns;

verus! {

/// A live connection. `T` is where its messages come from.
pub struct Workspace<T> {
    /// The source of messages, while nobody is listening to it.
    pub stream: Option<T>,
    /// Messages rescued from a source that was replaced while somebody was listening to it.
    pub pending: VecDeque<InternalServiceResponse>,
    pub opens: Opens,
}

/// The client.
pub struct Client<T> {
    pub workspace: Option<Workspace<T>>,
    /// Whether there is a way to send.
    pub sink: bool,
    /// The number of the live connection. Closing a connection raises it.
    pub generation: u64,
}

/// What the next message is.
#[derive(Debug, PartialEq, Eq)]
pub enum NextMessage<T> {
    /// One that was rescued.
    Rescued(InternalServiceResponse),
    /// Listen to this, and bring it back.
    Listen(T),
    Failed(String),
}

/// What became of a source that was brought back.
#[derive(Debug, Clone, Copy, PartialEq, Eq, Structural)]
pub enum Restored {
    /// It is where it was.
    PutBack,
    /// Another took its place; this many messages were rescued from it.
    Rescued(usize),
    /// There is no connection any more; this many messages were lost with it.
    Lost(usize),
}

/// What a connection had not delivered when it was closed.
#[derive(Debug, Clone, Copy, PartialEq, Eq, Structural)]
pub struct Undelivered {
    pub queued: usize,
    pub pending: usize,
}

impl<T> Client<T> {
    /// A client that is not connected.
    pub fn new() -> (client: Self)
        ensures
            client.workspace is None,
            !client.sink,
            client.generation == 0,
    {
        Client { workspace: None, sink: false, generation: 0 }
    }

    /// Whether there is a live connection.
    pub fn is_initialized(&self) -> (r: bool)
        ensures
            r == self.workspace is Some,
    {
        self.workspace.is_some()
    }

    /// A connection attempt has succeeded.
    pub fn finish_init(&mut self, stream: T)
        ensures
            final(self).workspace matches Some(workspace) && workspace.stream == Some(stream)
                && workspace.pending@.len() == 0 && workspace.opens.open() =~= Set::empty()
                && workspace.opens.pending() =~= Set::empty(),
            final(self).sink == old(self).sink,
            final(self).generation == old(self).generation,
    {
        self.workspace = Some(
            Workspace { stream: Some(stream), pending: VecDeque::new(), opens: Opens::new() },
        );
    }

    /// Whether a communication task that has ended should report that the connection died: only
    /// the one of the live connection, and not one that was closed on purpose.
    pub fn report_death(&self, task_generation: u64) -> (report: bool)
        ensures
            report == connection_lifecycle::death_reported(task_generation, self.generation),
    {
        should_report_death(task_generation, self.generation)
    }

    /// What to do about the messenger of a CID; `None` where the client is not connected.
    pub fn begin_open(&mut self, cid: u64) -> (step: Option<OpenStep>)
        ensures
            match old(self).workspace {
                None => step is None && *final(self) == *old(self),
                Some(before) => final(self).workspace matches Some(after) && after.stream
                    == before.stream && after.pending == before.pending && after.opens.open()
                    == before.opens.open() && step == Some(
                    opens::open_step(before.opens.open(), before.opens.pending(), cid),
                ) && after.opens.pending() == if step == Some(OpenStep::Open) {
                    before.opens.pending().insert(cid)
                } else {
                    before.opens.pending()
                },
            },
            final(self).sink == old(self).sink,
            final(self).generation == old(self).generation,
    {
        match self.workspace.take() {
            Some(found) => {
                let mut workspace = found;
                let step = workspace.opens.begin(cid);
                self.workspace = Some(workspace);
                Some(step)
            },
            None => {
                self.workspace = None;
                None
            },
        }
    }

    /// An open that was begun under `generation` has finished. It is of no concern to a later
    /// connection.
    pub fn finish_open(&mut self, generation: u64, cid: u64, opened: bool)
        ensures
            final(self).sink == old(self).sink,
            final(self).generation == old(self).generation,
            if old(self).workspace is Some && generation == old(self).generation {
                let before = old(self).workspace->0;
                &&& final(self).workspace matches Some(after)
                &&& after.stream == before.stream
                &&& after.pending == before.pending
                &&& after.opens.open() == (if opened {
                    before.opens.open().insert(cid)
                } else {
                    before.opens.open()
                })
                &&& after.opens.pending() == before.opens.pending().remove(cid)
            } else {
                final(self).workspace == old(self).workspace
            },
    {
        if generation != self.generation {
            return;
        }
        match self.workspace.take() {
            Some(found) => {
                let mut workspace = found;
                workspace.opens.finish(cid, opened);
                self.workspace = Some(workspace);
            },
            None => {
                self.workspace = None;
            },
        }
    }

    /// How waiting for somebody else's open goes; `None` where the client is not connected.
    pub fn waited(&self, cid: u64) -> (waited: Option<Waited>)
        ensures
            waited == match self.workspace {
                None => None,
                Some(workspace) => Some(
                    if workspace.opens.open().contains(cid) {
                        Waited::Ready
                    } else if workspace.opens.pending().contains(cid) {
                        Waited::Pending
                    } else {
                        Waited::Abandoned
                    },
                ),
            },
    {
        match &self.workspace {
            Some(workspace) => Some(workspace.opens.waited(cid)),
            None => None,
        }
    }

    /// The next message. Rescued ones go out before anything new is awaited. The source is handed
    /// out to one listener at a time.
    pub fn next_message(&mut self) -> (next: NextMessage<T>)
        ensures
            final(self).sink == old(self).sink,
            final(self).generation == old(self).generation,
            match old(self).workspace {
                None => {
                    &&& final(self).workspace is None
                    &&& next matches NextMessage::Failed(problem)
                    &&& problem@ == "Workspace not initialized"@
                },
                Some(before) => final(self).workspace matches Some(after) && after.opens
                    == before.opens && if before.pending@.len() > 0 {
                    &&& next == NextMessage::<T>::Rescued(before.pending@[0])
                    &&& after.pending@ == before.pending@.drop_first()
                    &&& after.stream == before.stream
                } else {
                    &&& after.pending@ == before.pending@
                    &&& after.stream is None
                    &&& match before.stream {
                        Some(stream) => next == NextMessage::Listen(stream),
                        None => next matches NextMessage::Failed(problem) && problem@
                            == "next_message is already being called by another process"@,
                    }
                },
            },
    {
        match self.workspace.take() {
            None => {
                self.workspace = None;
                NextMessage::Failed("Workspace not initialized".to_owned())
            },
            Some(found) => {
                let mut workspace = found;
                let next = match workspace.pending.pop_front() {
                    Some(response) => {
                        assert(workspace.pending@ =~= found.pending@.drop_first());
                        NextMessage::Rescued(response)
                    },
                    None => {
                        match workspace.stream.take() {
                            Some(stream) => NextMessage::Listen(stream),
                            None => NextMessage::Failed(
                                "next_message is already being called by another process".to_owned(),
                            ),
                        }
                    },
                };
                self.workspace = Some(workspace);
                next
            },
        }
    }
}

/// What closing a connection comes to.
pub struct Closed {
    pub undelivered: Undelivered,
    /// The source of messages, emptied, where nobody was listening to it.
    pub source: Option<Inbox<InternalServiceResponse>>,
}

/// What `before` was and `received` became of `after`: rescued messages stand behind those that
/// were rescued earlier.
pub open spec fn rescued_behind(
    before: Workspace<Inbox<InternalServiceResponse>>,
    received: Seq<InternalServiceResponse>,
    after: Workspace<Inbox<InternalServiceResponse>>,
) -> bool {
    &&& after.pending@ == before.pending@ + received
    &&& after.stream == before.stream
    &&& after.opens == before.opens
}

/// The source gave `received` until it had nothing more, and that many messages are lost.
pub open spec fn counted_as_lost(
    source: Inbox<InternalServiceResponse>,
    received: Seq<InternalServiceResponse>,
    left: Inbox<InternalServiceResponse>,
    restored: Restored,
) -> bool {
    &&& queue::emptied(source, received, left)
    &&& restored == Restored::Lost(received.len() as usize)
}

/// The source gave `received` until it had nothing more, and all of that is rescued.
pub open spec fn all_rescued(
    before: Workspace<Inbox<InternalServiceResponse>>,
    after: Workspace<Inbox<InternalServiceResponse>>,
    source: Inbox<InternalServiceResponse>,
    received: Seq<InternalServiceResponse>,
    left: Inbox<InternalServiceResponse>,
    restored: Restored,
) -> bool {
    &&& queue::emptied(source, received, left)
    &&& rescued_behind(before, received, after)
    &&& restored == Restored::Rescued(received.len() as usize)
}

/// `closed` accounts for everything that a connection had not delivered: what its source gave until
/// it had nothing more, where the connection had its source, and what was rescued earlier.
pub open spec fn accounted(
    before: Workspace<Inbox<InternalServiceResponse>>,
    closed: Closed,
) -> bool {
    &&& closed.undelivered.pending == before.pending@.len()
    &&& match before.stream {
        Some(source) => closed.source matches Some(left) && exists|
            received: Seq<InternalServiceResponse>,
        | #[trigger]
            queue::emptied(source, received, left) && closed.undelivered.queued == received.len(),
        None => closed.source is None && closed.undelivered.queued == 0,
    }
}

impl Client<Inbox<InternalServiceResponse>> {
    /// A listener brings the source of messages back. Meanwhile the connection may have been
    /// closed, or replaced by one with a source of its own. The source goes back only where its
    /// place is still empty; else it is emptied and handed out again, and what was queued in it is
    /// rescued, or, without a connection, lost and counted.
    pub fn restore_message_stream(&mut self, stream: Inbox<InternalServiceResponse>) -> (r: (
        Restored,
        Option<Inbox<InternalServiceResponse>>,
    ))
        ensures
            final(self).sink == old(self).sink,
            final(self).generation == old(self).generation,
            match old(self).workspace {
                None => {
                    &&& final(self).workspace is None
                    &&& r.1 is Some
                    &&& exists|received: Seq<InternalServiceResponse>| #[trigger]
                        counted_as_lost(stream, received, r.1->0, r.0)
                },
                Some(before) => final(self).workspace matches Some(after) && if before.stream is None {
                    &&& r.0 is PutBack
                    &&& r.1 is None
                    &&& after.stream == Some(stream)
                    &&& after.pending == before.pending
                    &&& after.opens == before.opens
                } else {
                    &&& r.1 is Some
                    &&& exists|received: Seq<InternalServiceResponse>| #[trigger]
                        all_rescued(before, after, stream, received, r.1->0, r.0)
                },
            },
    {
        match self.workspace.take() {
            None => {
                let mut left = stream;
                let mut discarded: VecDeque<InternalServiceResponse> = VecDeque::new();
                let lost = drain_queued(&mut left, &mut discarded);
                self.workspace = None;
                let r = (Restored::Lost(lost), Some(left));
                proof {
                    let received = choose|received: Seq<InternalServiceResponse>| #[trigger]
                        queue::emptied(stream, received, left) && lost == received.len();
                    assert(counted_as_lost(stream, received, r.1->0, r.0));
                }
                r
            },
            Some(found) => {
                let mut workspace = found;
                if workspace.stream.is_none() {
                    workspace.stream = Some(stream);
                    self.workspace = Some(workspace);
                    return (Restored::PutBack, None);
                }
                let mut left = stream;
                let moved = drain_queued(&mut left, &mut workspace.pending);
                self.workspace = Some(workspace);
                let r = (Restored::Rescued(moved), Some(left));
                proof {
                    let received = choose|received: Seq<InternalServiceResponse>| #[trigger]
                        queue::emptied(stream, received, left) && workspace.pending@
                            == found.pending@ + received && moved == received.len();
                    assert(all_rescued(
                        found,
                        self.workspace->0,
                        stream,
                        received,
                        r.1->0,
                        r.0,
                    ));
                }
                r
            },
        }
    }

    /// Prepare a connection attempt: refuse it, or tear the old connection down where a restart
    /// replaces one, and install the new way to send. What the old connection had not delivered is
    /// reported.
    pub fn init_inner(&mut self, restart: bool) -> (prepared: Result<Option<Closed>, String>)
        ensures
            if connection_lifecycle::init_refused(restart, old(self).workspace is Some) {
                &&& prepared matches Err(problem)
                &&& problem@
                    == "Already initialized. If required, call restart() instead followed by claiming any orphaned connections."@
                &&& *final(self) == *old(self)
            } else {
                &&& final(self).sink
                &&& final(self).workspace is None
                &&& match old(self).workspace {
                    Some(before) => {
                        &&& prepared matches Ok(Some(closed))
                        &&& accounted(before, closed)
                        &&& final(self).generation == connection_lifecycle::next_generation(
                            old(self).generation,
                        )
                    },
                    None => prepared == Ok::<Option<Closed>, String>(None)
                        && final(self).generation == old(self).generation,
                }
            },
    {
        let initialized = self.workspace.is_some();
        if refuse_init(restart, initialized) {
            return Err(
                "Already initialized. If required, call restart() instead followed by claiming any orphaned connections.".to_owned(),
            );
        }
        let mut torn_down: Option<Closed> = None;
        if teardown_before_connect(restart, initialized) {
            match self.close_connection() {
                Ok(closed) => {
                    torn_down = Some(closed);
                },
                Err(problem) => {
                    return Err(problem);
                },
            }
        }
        self.sink = true;
        Ok(torn_down)
    }

    /// Close the connection. What it had not delivered yet is counted, so that the loss is not
    /// silent, and its source is handed out, emptied.
    pub fn close_connection(&mut self) -> (r: Result<Closed, String>)
        ensures
            !final(self).sink,
            final(self).workspace is None,
            final(self).generation == connection_lifecycle::next_generation(old(self).generation),
            match old(self).workspace {
                Some(before) => r matches Ok(closed) && accounted(before, closed),
                None => r matches Err(problem) && problem@ == "Workspace not initialized"@,
            },
    {
        self.sink = false;
        self.generation = self.generation.wrapping_add(1);
        match self.workspace.take() {
            Some(found) => {
                let mut workspace = found;
                let pending: usize = workspace.pending.len();
                self.workspace = None;
                match workspace.stream.take() {
                    Some(source) => {
                        let mut left = source;
                        let mut discarded: VecDeque<InternalServiceResponse> = VecDeque::new();
                        let queued: usize = drain_queued(&mut left, &mut discarded);
                        let closed = Closed {
                            undelivered: Undelivered { queued, pending },
                            source: Some(left),
                        };
                        proof {
                            let received = choose|received: Seq<InternalServiceResponse>| #[trigger]
                                queue::emptied(source, received, left) && queued == received.len();
                            assert(queue::emptied(source, received, closed.source->0));
                            assert(accounted(found, closed));
                        }
                        Ok(closed)
                    },
                    None => Ok(
                        Closed { undelivered: Undelivered { queued: 0, pending }, source: None },
                    ),
                }
            },
            None => {
                self.workspace = None;
                Err("Workspace not initialized".to_owned())
            },
        }
    }
}

/// No message is lost in silence when a source was replaced. What it gives until it has nothing more
/// stands behind what was rescued before, in the order in which it came, and is counted.
pub proof fn law_a_replaced_source_loses_nothing(
    before: Workspace<Inbox<InternalServiceResponse>>,
    after: Workspace<Inbox<InternalServiceResponse>>,
    source: Inbox<InternalServiceResponse>,
    received: Seq<InternalServiceResponse>,
    left: Inbox<InternalServiceResponse>,
    restored: Restored,
)
    requires
        all_rescued(before, after, source, received, left, restored),
    ensures
        ({
            let already = queue::given(source.answers()).len();
            let gave = queue::given(left.answers()).skip(already as int);
            &&& after.pending@ == before.pending@ + gave
            &&& restored matches Restored::Rescued(n) && n == gave.len() && (n < usize::MAX
                ==> left.answers().last() is None)
        }),
{
    queue::law_an_emptied_channel_gave_what_was_received(source, received, left);
    let already = queue::given(source.answers());
    assert((already + received).skip(already.len() as int) =~= received);
}

/// No message is lost in silence when a source comes back to a connection that was closed. What it
/// gives until it has nothing more has nowhere to go, and is counted.
pub proof fn law_a_source_without_a_connection_is_counted(
    source: Inbox<InternalServiceResponse>,
    received: Seq<InternalServiceResponse>,
    left: Inbox<InternalServiceResponse>,
    restored: Restored,
)
    requires
        counted_as_lost(source, received, left, restored),
    ensures
        restored matches Restored::Lost(n) && n == queue::given(left.answers()).len()
            - queue::given(source.answers()).len() && (n < usize::MAX
            ==> left.answers().last() is None),
{
    queue::law_an_emptied_channel_gave_what_was_received(source, received, left);
}

/// No message is lost in silence when a connection is closed. The count of queued messages is the
/// number that its source gave until it had nothing more; the count of pending ones is the number
/// of those rescued earlier.
pub proof fn law_a_closed_connection_counts_its_loss(
    before: Workspace<Inbox<InternalServiceResponse>>,
    closed: Closed,
)
    requires
        accounted(before, closed),
    ensures
        closed.undelivered.pending == before.pending@.len(),
        before.stream is None ==> closed.undelivered.queued == 0,
        before.stream matches Some(source) ==> closed.source matches Some(left)
            && closed.undelivered.queued == queue::given(left.answers()).len() - queue::given(
            source.answers(),
        ).len() && (closed.undelivered.queued < usize::MAX ==> left.answers().last() is None),
{
    if before.stream is Some {
        let source = before.stream->0;
        let left = closed.source->0;
        let received = choose|received: Seq<InternalServiceResponse>| #[trigger]
            queue::emptied(source, received, left) && closed.undelivered.queued == received.len();
        queue::law_an_emptied_channel_gave_what_was_received(source, received, left);
    }
}

/// What is left of rescued messages after `n` of them were taken.
pub open spec fn left_after(
    pending: Seq<InternalServiceResponse>,
    n: nat,
) -> Seq<InternalServiceResponse>
    decreases n,
{
    if n == 0 {
        pending
    } else {
        left_after(pending, (n - 1) as nat).drop_first()
    }
}

/// Rescued messages come out in the order in which they were rescued: those of an earlier rescue
/// first, then those of the later one in the order in which they were queued.
pub proof fn law_rescued_messages_keep_their_order(
    before: Seq<InternalServiceResponse>,
    received: Seq<InternalServiceResponse>,
    n: nat,
)
    requires
        n < before.len() + received.len(),
    ensures
        left_after(before + received, n).len() > 0,
        left_after(before + received, n)[0] == if n < before.len() {
            before[n as int]
        } else {
            received[n - before.len()]
        },
{
    lemma_left_after(before + received, n);
}

proof fn lemma_left_after(pending: Seq<InternalServiceResponse>, n: nat)
    requires
        n <= pending.len(),
    ensures
        left_after(pending, n) == pending.skip(n as int),
    decreases n,
{
    if n == 0 {
        assert(pending.skip(0) =~= pending);
    } else {
        lemma_left_after(pending, (n - 1) as nat);
        assert(pending.skip(n - 1).drop_first() =~= pending.skip(n as int));
    }
}

/// A rescue puts what came behind what was rescued before, and touches neither the source that took
/// the place nor the messengers.
pub proof fn law_a_rescue_touches_nothing_else(
    before: Workspace<Inbox<InternalServiceResponse>>,
    received: Seq<InternalServiceResponse>,
    after: Workspace<Inbox<InternalServiceResponse>>,
)
    ensures
        rescued_behind(before, received, after) <==> after.pending@ == before.pending@ + received
            && after.stream == before.stream && after.opens == before.opens,
{
}

/// A death is reported exactly of the live connection.
pub proof fn law_whose_death_is_reported<T>(client: Client<T>, task_generation: u64, report: bool)
    requires
        call_ensures(Client::<T>::report_death, (&client, task_generation), report),
    ensures
        report <==> task_generation == client.generation,
{
}

/// Rescued messages go out before anything new is awaited, the oldest first and each once; the
/// source is handed out to one listener at a time.
pub proof fn law_the_next_message<T>()
    ensures
        forall|client: &mut Client<T>, next: NextMessage<T>| #[trigger]
            call_ensures(Client::<T>::next_message, (client,), next) ==> {
                &&& client.workspace is None <==> final(client).workspace is None
                &&& client.workspace is None ==> next is Failed
                &&& next is Rescued <==> client.workspace is Some
                    && client.workspace->0.pending@.len() > 0
                &&& next matches NextMessage::Rescued(message) ==> client.workspace->0.pending@
                    == seq![message] + final(client).workspace->0.pending@
                    && final(client).workspace->0.stream == client.workspace->0.stream
                &&& next matches NextMessage::Listen(stream) ==> client.workspace->0.stream == Some(
                    stream,
                ) && final(client).workspace->0.stream is None
                &&& client.workspace is Some && client.workspace->0.pending@.len() == 0
                    && client.workspace->0.stream is None ==> next is Failed
                &&& final(client).generation == client.generation
            },
{
    assert forall|client: &mut Client<T>, next: NextMessage<T>| #[trigger]
        call_ensures(Client::<T>::next_message, (client,), next) implies {
        &&& client.workspace is None <==> final(client).workspace is None
        &&& client.workspace is None ==> next is Failed
        &&& next is Rescued <==> client.workspace is Some && client.workspace->0.pending@.len() > 0
        &&& next matches NextMessage::Rescued(message) ==> client.workspace->0.pending@ == seq![
            message,
        ] + final(client).workspace->0.pending@ && final(client).workspace->0.stream
            == client.workspace->0.stream
        &&& next matches NextMessage::Listen(stream) ==> client.workspace->0.stream == Some(stream)
            && final(client).workspace->0.stream is None
        &&& client.workspace is Some && client.workspace->0.pending@.len() == 0
            && client.workspace->0.stream is None ==> next is Failed
        &&& final(client).generation == client.generation
    } by {
        if let NextMessage::Rescued(message) = next {
            assert(client.workspace->0.pending@ =~= seq![message]
                + final(client).workspace->0.pending@);
        }
    }
}

/// An open that has finished concerns the connection under which it was begun and no later one.
pub proof fn law_a_late_open_concerns_nobody<T>(generation: u64, cid: u64, opened: bool)
    ensures
        forall|client: &mut Client<T>| #[trigger]
            call_ensures(Client::<T>::finish_open, (client, generation, cid, opened), ()) ==> {
                &&& generation != client.generation ==> final(client).workspace
                    == client.workspace
                &&& generation == client.generation && client.workspace is Some && opened
                    ==> final(client).workspace is Some
                    && final(client).workspace->0.opens.open().contains(cid)
                &&& final(client).generation == client.generation
                &&& final(client).sink == client.sink
            },
{
}

/// A closed connection is not the live one any more, so its task reports no death, nothing can be
/// sent over it, and it has no messages to give; without a connection there is none to close.
pub proof fn law_after_a_connection_is_closed()
    ensures
        forall|
            client: &mut Client<Inbox<InternalServiceResponse>>,
            closed: Result<Closed, String>,
        | #[trigger]
            call_ensures(
                Client::<Inbox<InternalServiceResponse>>::close_connection,
                (client,),
                closed,
            ) ==> {
                &&& final(client).workspace is None
                &&& !final(client).sink
                &&& final(client).generation != client.generation
                &&& !connection_lifecycle::death_reported(
                    client.generation,
                    final(client).generation,
                )
                &&& closed is Ok <==> client.workspace is Some
            },
{
}

/// A connection attempt is refused only where one is live and no restart was asked for, and then
/// changes nothing; else the way to send is there and no old connection is left.
pub proof fn law_how_a_connection_attempt_begins(restart: bool)
    ensures
        forall|
            client: &mut Client<Inbox<InternalServiceResponse>>,
            prepared: Result<Option<Closed>, String>,
        | #[trigger]
            call_ensures(
                Client::<Inbox<InternalServiceResponse>>::init_inner,
                (client, restart),
                prepared,
            ) ==> {
                &&& prepared is Err <==> client.workspace is Some && !restart
                &&& prepared is Err ==> *final(client) == *client
                &&& prepared is Ok ==> final(client).sink && final(client).workspace is None
                &&& prepared matches Ok(closed) ==> (closed is Some <==> client.workspace is Some)
                &&& prepared is Ok && client.workspace is Some ==> final(client).generation
                    != client.generation
            },
{
}

} // verus!
