//! Messages that wait in a channel.
//!
//! Others may send into a channel at any time, so what it holds is nothing that a contract can speak
//! of. What it has answered is: an [`Inbox`] keeps a record of that.

use std::collections::VecDeque;
use tokio::sync::mpsc::UnboundedReceiver;
use vstd::prelude::*;

verus! {

/// The receiving half of an unbounded channel of the `tokio` crate.
#[verifier::external_type_specification]
#[verifier::external_body]
#[verifier::reject_recursive_types(T)]
pub struct ExUnboundedReceiver<T>(tokio::sync::mpsc::UnboundedReceiver<T>);

/// The receiving half of a channel, with a record of what it has answered.
#[verifier::reject_recursive_types(T)]
pub struct Inbox<T> {
    stream: UnboundedReceiver<T>,
    answers: Ghost<Seq<Option<T>>>,
}

impl<T> Inbox<T> {
    /// What the channel has answered so far, one entry each time it was asked: a message, or that
    /// none was there.
    pub closed spec fn answers(self) -> Seq<Option<T>> {
        self.answers@
    }

    /// The channel itself.
    pub closed spec fn stream(self) -> UnboundedReceiver<T> {
        self.stream
    }

    /// A channel that was not asked yet.
    pub fn new(stream: UnboundedReceiver<T>) -> (inbox: Self)
        ensures
            inbox.stream() == stream,
            inbox.answers() == Seq::<Option<T>>::empty(),
    {
        Inbox { stream, answers: Ghost(Seq::empty()) }
    }

    /// The channel, to be listened to.
    pub fn into_stream(self) -> (stream: UnboundedReceiver<T>)
        ensures
            stream == self.stream(),
    {
        self.stream
    }

    /// `UnboundedReceiver::try_recv`: the next message of the channel, if one is there now. The
    /// answer is recorded. Others may send at any time, so nothing is said of which message it is,
    /// nor of whether there is one.
    #[verifier::external_body]
    fn ask(&mut self) -> (message: Option<T>)
        ensures
            final(self).answers() == old(self).answers().push(message),
    {
        self.stream.try_recv().ok()
    }
}

/// The messages among some answers, in their order.
pub open spec fn given<T>(answers: Seq<Option<T>>) -> Seq<T>
    decreases answers.len(),
{
    if answers.len() == 0 {
        Seq::empty()
    } else {
        match answers.last() {
            Some(message) => given(answers.drop_last()).push(message),
            None => given(answers.drop_last()),
        }
    }
}

/// What a channel answers that gives `received` and then has nothing more. A machine's limit ends
/// the asking where one more message could not be counted.
pub open spec fn gave_until_empty<T>(received: Seq<T>) -> Seq<Option<T>> {
    let gave = received.map_values(|message: T| Some(message));
    if received.len() < usize::MAX {
        gave.push(None)
    } else {
        gave
    }
}

/// `before` was asked until it had nothing more, and gave `received`; `after` is what it is then.
pub open spec fn emptied<T>(before: Inbox<T>, received: Seq<T>, after: Inbox<T>) -> bool {
    &&& received.len() <= usize::MAX
    &&& after.answers() == before.answers() + gave_until_empty(received)
}

/// Put what came out of a channel, if anything did, to the end of `sink`, and say whether something
/// did.
pub fn take_queued<T>(message: Option<T>, sink: &mut VecDeque<T>) -> (taken: bool)
    ensures
        match message {
            Some(m) => taken && final(sink)@ == old(sink)@.push(m),
            None => !taken && final(sink)@ == old(sink)@,
        },
{
    match message {
        Some(m) => {
            sink.push_back(m);
            true
        },
        None => false,
    }
}

/// Move everything still queued in a channel to the end of `sink`, and say how much that was. The
/// channel is asked until it has nothing more, and everything it gives goes to the sink in the
/// order in which it came out, behind what was there.
///
/// A receiver that is dropped takes every message still queued in it along, with no error, so it
/// is emptied first.
pub fn drain_queued<T>(inbox: &mut Inbox<T>, sink: &mut VecDeque<T>) -> (moved: usize)
    ensures
        exists|received: Seq<T>| #[trigger]
            emptied(*old(inbox), received, *final(inbox)) && final(sink)@ == old(sink)@ + received
                && moved == received.len(),
{
    let mut moved: usize = 0;
    let ghost mut received: Seq<T> = Seq::empty();
    let ghost gave = |message: T| Some(message);
    assert(old(sink)@ + received =~= old(sink)@);
    assert(inbox.answers() + received.map_values(gave) =~= inbox.answers());
    while moved < usize::MAX
        invariant
            gave == (|message: T| Some(message)),
            sink@ == old(sink)@ + received,
            moved == received.len(),
            inbox.answers() == old(inbox).answers() + received.map_values(gave),
        decreases usize::MAX - moved,
    {
        let message = inbox.ask();
        let ghost came = message;
        if !take_queued(message, sink) {
            assert(inbox.answers() =~= old(inbox).answers() + gave_until_empty(received));
            assert(emptied(*old(inbox), received, *inbox));
            return moved;
        }
        proof {
            assert(sink@ =~= old(sink)@ + received.push(came->0));
            assert(received.push(came->0).map_values(gave) =~= received.map_values(gave).push(
                Some(came->0),
            ));
            assert(inbox.answers() =~= old(inbox).answers() + received.push(came->0).map_values(
                gave,
            ));
            received = received.push(came->0);
        }
        moved = moved + 1;
    }
    assert(emptied(*old(inbox), received, *inbox));
    moved
}

/// A channel that was emptied has given what it gave before, and then `received`. The last thing it
/// said is that nothing is there, unless the count was full.
pub proof fn law_an_emptied_channel_gave_what_was_received<T>(
    before: Inbox<T>,
    received: Seq<T>,
    after: Inbox<T>,
)
    requires
        emptied(before, received, after),
    ensures
        given(after.answers()) == given(before.answers()) + received,
        received.len() < usize::MAX ==> after.answers().len() > 0 && after.answers().last() is None,
{
    lemma_given(before.answers(), received);
    let all = before.answers() + received.map_values(|message: T| Some(message));
    if received.len() < usize::MAX {
        assert(after.answers() =~= all.push(None));
        assert(all.push(None).drop_last() =~= all);
    }
}

proof fn lemma_given<T>(answers: Seq<Option<T>>, received: Seq<T>)
    ensures
        given(answers + received.map_values(|message: T| Some(message))) == given(answers)
            + received,
    decreases received.len(),
{
    let gave = |message: T| Some(message);
    let all = answers + received.map_values(gave);
    if received.len() == 0 {
        assert(all =~= answers);
        assert(given(answers) + received =~= given(answers));
    } else {
        lemma_given(answers, received.drop_last());
        assert(all.drop_last() =~= answers + received.drop_last().map_values(gave));
        assert(given(answers) + received =~= (given(answers) + received.drop_last()).push(
            received.last(),
        ));
    }
}

/// What a channel has given is every message it answered with, in their order, and nothing else.
pub proof fn law_what_a_channel_has_given<T>(answers: Seq<Option<T>>, message: T)
    ensures
        given(Seq::<Option<T>>::empty()) == Seq::<T>::empty(),
        given(answers.push(Some(message))) == given(answers).push(message),
        given(answers.push(None)) == given(answers),
{
    assert(answers.push(Some(message)).drop_last() =~= answers);
    assert(answers.push(None).drop_last() =~= answers);
}

/// A channel that is emptied is asked once for each message that it gives, and once more, when it
/// says that there is none.
pub proof fn law_an_emptied_channel_was_asked_to_the_end<T>(
    before: Inbox<T>,
    received: Seq<T>,
    after: Inbox<T>,
)
    requires
        emptied(before, received, after),
        received.len() < usize::MAX,
    ensures
        after.answers().len() == before.answers().len() + received.len() + 1,
        after.answers().last() is None,
        forall|i: int|
            0 <= i < received.len() ==> after.answers()[before.answers().len() + i] == Some(
                #[trigger] received[i],
            ),
        forall|i: int|
            0 <= i < before.answers().len() ==> after.answers()[i] == #[trigger] before.answers()[i],
{
}

} // verus!
