//! Messages off a WebSocket.

use vstd::prelude::*;

verus! {

/// What `std::str::from_utf8` says is wrong with bytes that are not valid UTF-8.
pub uninterp spec fn utf8_problem(bytes: Seq<u8>) -> Seq<char>;

/// `std::str::from_utf8`: the text that the bytes encode, where they are valid UTF-8; else the
/// error as text, which depends on the bytes alone.
#[verifier::external_body]
fn text_from_utf8(bytes: &Vec<u8>) -> (text: Result<String, String>)
    ensures
        match text {
            Ok(t) => vstd::utf8::valid_utf8(bytes@) && t@ == vstd::utf8::decode_utf8(bytes@),
            Err(problem) => !vstd::utf8::valid_utf8(bytes@) && problem@ == utf8_problem(bytes@),
        },
{
    match std::str::from_utf8(bytes.as_slice()) {
        Ok(text) => Ok(text.to_string()),
        Err(error) => Err(error.to_string()),
    }
}

/// One message off a WebSocket.
#[derive(Debug, PartialEq, Eq)]
pub enum SocketMessage {
    Text(String),
    Binary(Vec<u8>),
    Close,
    /// A ping, a pong or a bare frame.
    Control,
}

/// What to do next with a WebSocket.
#[derive(Debug, PartialEq, Eq)]
pub enum SocketStep<E> {
    /// This text is a payload in JSON.
    Parse(String),
    /// The bytes of the message are no text: report the message as invalid. This says why.
    NotText(String),
    /// The connection is closed.
    End,
    /// Nothing for the caller: read on.
    Again,
    /// The socket reports an error: pass it on.
    Failed(E),
}

/// What to do next after a message, an error or the end. A binary message is taken for a text in
/// UTF-8; a close is the end; control messages are skipped.
pub fn socket_step<E>(item: Option<Result<SocketMessage, E>>) -> (step: SocketStep<E>)
    ensures
        match item {
            Some(Ok(SocketMessage::Text(text))) => step == SocketStep::<E>::Parse(text),
            Some(Ok(SocketMessage::Binary(bytes))) => if vstd::utf8::valid_utf8(bytes@) {
                step matches SocketStep::Parse(text) && text@ == vstd::utf8::decode_utf8(bytes@)
            } else {
                step matches SocketStep::NotText(problem) && problem@ == utf8_problem(bytes@)
            },
            Some(Ok(SocketMessage::Close)) => step is End,
            Some(Ok(SocketMessage::Control)) => step is Again,
            Some(Err(error)) => step == SocketStep::Failed(error),
            None => step is End,
        },
{
    match item {
        Some(Ok(SocketMessage::Text(text))) => SocketStep::Parse(text),
        Some(Ok(SocketMessage::Binary(bytes))) => match text_from_utf8(&bytes) {
            Ok(text) => SocketStep::Parse(text),
            Err(problem) => SocketStep::NotText(problem),
        },
        Some(Ok(SocketMessage::Close)) => SocketStep::End,
        Some(Ok(SocketMessage::Control)) => SocketStep::Again,
        Some(Err(error)) => SocketStep::Failed(error),
        None => SocketStep::End,
    }
}

/// What a client that reads one message at a time gets: as above, but a control message is
/// nothing, rather than a reason to read on.
pub fn receive_step<E>(item: Option<Result<SocketMessage, E>>) -> (step: SocketStep<E>)
    ensures
        match item {
            Some(Ok(SocketMessage::Text(text))) => step == SocketStep::<E>::Parse(text),
            Some(Ok(SocketMessage::Binary(bytes))) => if vstd::utf8::valid_utf8(bytes@) {
                step matches SocketStep::Parse(text) && text@ == vstd::utf8::decode_utf8(bytes@)
            } else {
                step matches SocketStep::NotText(problem) && problem@ == utf8_problem(bytes@)
            },
            Some(Ok(SocketMessage::Close)) => step is End,
            Some(Ok(SocketMessage::Control)) => step is End,
            Some(Err(error)) => step == SocketStep::Failed(error),
            None => step is End,
        },
{
    match socket_step(item) {
        SocketStep::Again => SocketStep::End,
        step => step,
    }
}

/// The two ways of reading differ in one thing: a control message is passed over by the one that
/// reads on, and is the end for the one that reads a single message.
pub proof fn law_two_ways_of_reading<E>(
    item: Option<Result<SocketMessage, E>>,
    step: SocketStep<E>,
    single: SocketStep<E>,
)
    requires
        call_ensures(socket_step::<E>, (item,), step),
        call_ensures(receive_step::<E>, (item,), single),
    ensures
        step is Again <==> (item matches Some(Ok(message)) && message is Control),
        single !is Again,
        step is Again ==> single is End,
        step is End ==> single is End,
        step is Failed <==> item is Some && item->0 is Err,
        item matches Some(Err(error)) ==> step == SocketStep::Failed(error) && single
            == SocketStep::Failed(error),
        item matches Some(Ok(SocketMessage::Text(text))) ==> step == SocketStep::<E>::Parse(text)
            && single == SocketStep::<E>::Parse(text),
        item matches Some(Ok(SocketMessage::Binary(bytes))) ==> (step is Parse
            <==> vstd::utf8::valid_utf8(bytes@)),
        item matches Some(Ok(SocketMessage::Binary(bytes))) ==> (step is NotText
            <==> !vstd::utf8::valid_utf8(bytes@)),
{
}

} // verus!
