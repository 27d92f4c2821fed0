//! The task that moves frames between the client and its socket.

use vstd::prelude::*;

verus! {

/// What the task has come to. `P` is a payload.
#[derive(Debug, PartialEq, Eq)]
pub enum TaskEvent<P> {
    /// The connection was closed on purpose.
    Shutdown,
    /// A payload is to go out; here is its text, if it has one.
    Outgoing(Option<String>),
    /// A frame could not be sent.
    SendFailed,
    /// A text frame has come in; here is its payload, or what is wrong with it.
    Text(Result<P, String>),
    /// A binary frame has come in.
    Binary,
    /// Nobody listens to what comes in any more.
    ReceiverGone,
    /// The socket and the client are both closed.
    Closed,
}

/// What the task does.
#[derive(Debug, PartialEq, Eq)]
pub enum TaskAction<P> {
    /// Go on.
    Continue,
    /// Send a text frame.
    Send(String),
    /// Hand on what has come in: a payload, or that it was not one.
    Forward(Result<P, String>),
    /// End.
    Stop,
}

/// What the task does about an event. Only text frames carry payloads; a binary frame is passed
/// over. A text frame without a payload is handed on as an error and ends nothing, while a payload
/// that has no text ends the task.
pub fn task_action<P>(event: TaskEvent<P>) -> (action: TaskAction<P>)
    ensures
        action == match event {
            TaskEvent::Outgoing(Some(text)) => TaskAction::Send(text),
            TaskEvent::Text(came) => TaskAction::Forward(came),
            TaskEvent::Binary => TaskAction::Continue,
            _ => TaskAction::Stop,
        },
{
    match event {
        TaskEvent::Shutdown => TaskAction::Stop,
        TaskEvent::Outgoing(Some(text)) => TaskAction::Send(text),
        TaskEvent::Outgoing(None) => TaskAction::Stop,
        TaskEvent::SendFailed => TaskAction::Stop,
        TaskEvent::Text(came) => TaskAction::Forward(came),
        TaskEvent::Binary => TaskAction::Continue,
        TaskEvent::ReceiverGone => TaskAction::Stop,
        TaskEvent::Closed => TaskAction::Stop,
    }
}

/// A connection that is handed out once. `S` is where frames go, `R` where they come from.
pub struct WasmWebSocketIO<S, R> {
    pub sink: Option<S>,
    pub stream: Option<R>,
}

impl<S, R> WasmWebSocketIO<S, R> {
    /// A connection that was not handed out yet.
    pub fn new(sink: S, stream: R) -> (io: Self)
        ensures
            io.sink == Some(sink),
            io.stream == Some(stream),
    {
        WasmWebSocketIO { sink: Some(sink), stream: Some(stream) }
    }

    /// The two halves of the connection, the first time.
    pub fn next_connection(&mut self) -> (halves: Option<(S, R)>)
        ensures
            final(self).sink is None,
            final(self).stream is None,
            halves == if old(self).sink is Some && old(self).stream is Some {
                Some((old(self).sink->0, old(self).stream->0))
            } else {
                None
            },
    {
        match (self.sink.take(), self.stream.take()) {
            (Some(sink), Some(stream)) => Some((sink, stream)),
            _ => None,
        }
    }
}

/// A payload goes out where it has a text, and what has come in is handed on, whether it is a
/// payload or not; a binary frame is passed over, and anything else ends the task.
pub proof fn law_what_the_task_does<P>(event: TaskEvent<P>, action: TaskAction<P>)
    requires
        call_ensures(task_action::<P>, (event,), action),
    ensures
        event matches TaskEvent::Outgoing(Some(text)) ==> action == TaskAction::<P>::Send(text),
        event matches TaskEvent::Text(came) ==> action == TaskAction::Forward(came),
        action is Continue <==> event is Binary,
        action is Stop <==> event is Shutdown || event is SendFailed || event is ReceiverGone
            || event is Closed || (event matches TaskEvent::Outgoing(text) && text is None),
{
}

} // verus!
