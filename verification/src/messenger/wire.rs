//! The messages that the delivery layers of two clients exchange, and their bytes.
//!
//! A delivery layer sends each message until the other side acknowledges it. What travels is an
//! envelope round the bytes of the user's message, or one of the layer's own signals.

use crate::types::payload::InternalServicePayload;
use vstd::bytes::{
    lemma_auto_spec_u32_to_from_le_bytes, lemma_auto_spec_u64_to_from_le_bytes,
    spec_u32_from_le_bytes, spec_u32_to_le_bytes, spec_u64_from_le_bytes, spec_u64_to_le_bytes,
};
use vstd::prelude::*;

verus! {

/// A message for the internal service rather than for another client goes to this CID.
pub const LOOPBACK_ONLY: u64 = 0;

/// One message under the care of the delivery layer.
#[derive(PartialEq, Eq)]
pub struct WrappedMessage {
    pub source_id: u64,
    pub destination_id: u64,
    pub message_id: u64,
    pub contents: InternalServicePayload,
}

impl WrappedMessage {
    /// The message made of these parts.
    pub fn construct_from_parts(
        source_id: u64,
        destination_id: u64,
        message_id: u64,
        contents: InternalServicePayload,
    ) -> (message: Self)
        ensures
            message == (WrappedMessage { source_id, destination_id, message_id, contents }),
    {
        WrappedMessage { source_id, destination_id, message_id, contents }
    }
}

/// What delivery layers say to each other.
#[derive(PartialEq, Eq)]
pub enum InternalMessage {
    /// The message with this number has arrived.
    Ack { from_id: u64, to_id: u64, message_id: u64 },
    Message(WrappedMessage),
    /// Whatever is waiting should be sent again.
    Poll { from_id: u64, to_id: u64 },
}

impl InternalMessage {
    /// The client that this comes from.
    pub open spec fn source(self) -> u64 {
        match self {
            InternalMessage::Ack { from_id, .. } => from_id,
            InternalMessage::Message(message) => message.source_id,
            InternalMessage::Poll { from_id, .. } => from_id,
        }
    }

    /// The client that this is for.
    pub open spec fn destination(self) -> u64 {
        match self {
            InternalMessage::Ack { to_id, .. } => to_id,
            InternalMessage::Message(message) => message.destination_id,
            InternalMessage::Poll { to_id, .. } => to_id,
        }
    }

    /// The client that this comes from.
    pub fn source_id(&self) -> (cid: u64)
        ensures
            cid == self.source(),
    {
        match self {
            InternalMessage::Ack { from_id, .. } => *from_id,
            InternalMessage::Message(message) => message.source_id,
            InternalMessage::Poll { from_id, .. } => *from_id,
        }
    }

    /// The client that this is for.
    pub fn destination_id(&self) -> (cid: u64)
        ensures
            cid == self.destination(),
    {
        match self {
            InternalMessage::Ack { to_id, .. } => *to_id,
            InternalMessage::Message(message) => message.destination_id,
            InternalMessage::Poll { to_id, .. } => *to_id,
        }
    }
}

/// What travels between two delivery layers.
#[derive(PartialEq, Eq)]
pub enum WireWrapper {
    /// The bytes of a user's message, with its place in the conversation.
    Message { source: u64, destination: u64, message_id: u64, contents: Vec<u8> },
    /// One of the layer's own signals.
    ISMAux { signal: InternalMessage },
}

/// The bytes of a user's message in its envelope: a tag, the three numbers, and the contents
/// behind their length, all little-endian.
pub open spec fn message_bytes(
    source: u64,
    destination: u64,
    message_id: u64,
    contents: Seq<u8>,
) -> Seq<u8> {
    spec_u32_to_le_bytes(0) + spec_u64_to_le_bytes(source) + spec_u64_to_le_bytes(destination)
        + spec_u64_to_le_bytes(message_id) + spec_u64_to_le_bytes(contents.len() as u64) + contents
}

/// The bytes of a signal that has a number: two tags and three numbers, little-endian.
pub open spec fn numbered_signal_bytes(kind: u32, from: u64, to: u64, number: u64) -> Seq<u8> {
    signal_bytes(kind, from, to) + spec_u64_to_le_bytes(number)
}

/// The bytes of a signal without a number: two tags and two numbers, little-endian.
pub open spec fn signal_bytes(kind: u32, from: u64, to: u64) -> Seq<u8> {
    spec_u32_to_le_bytes(1) + spec_u32_to_le_bytes(kind) + spec_u64_to_le_bytes(from)
        + spec_u64_to_le_bytes(to)
}

/// The number that four bytes from `at` on stand for.
pub open spec fn u32_at(bytes: Seq<u8>, at: int) -> u32 {
    spec_u32_from_le_bytes(bytes.subrange(at, at + 4))
}

/// The number that eight bytes from `at` on stand for.
pub open spec fn u64_at(bytes: Seq<u8>, at: int) -> u64 {
    spec_u64_from_le_bytes(bytes.subrange(at, at + 8))
}

/// The tag, the three numbers and the contents that the bytes begin with. Bytes behind the
/// contents do not count.
pub open spec fn message_fields(bytes: Seq<u8>) -> Option<(u32, u64, u64, u64, Seq<u8>)> {
    if bytes.len() < 36 || bytes.len() - 36 < u64_at(bytes, 28) {
        None
    } else {
        Some(
            (
                u32_at(bytes, 0),
                u64_at(bytes, 4),
                u64_at(bytes, 12),
                u64_at(bytes, 20),
                bytes.subrange(36, 36 + u64_at(bytes, 28)),
            ),
        )
    }
}

/// The two tags and the two numbers that the bytes begin with.
pub open spec fn signal_fields(bytes: Seq<u8>) -> Option<(u32, u32, u64, u64)> {
    if bytes.len() < 24 {
        None
    } else {
        Some((u32_at(bytes, 0), u32_at(bytes, 4), u64_at(bytes, 8), u64_at(bytes, 16)))
    }
}

/// The two tags and the three numbers that the bytes begin with.
pub open spec fn numbered_signal_fields(bytes: Seq<u8>) -> Option<(u32, u32, u64, u64, u64)> {
    if bytes.len() < 32 {
        None
    } else {
        Some(
            (
                u32_at(bytes, 0),
                u32_at(bytes, 4),
                u64_at(bytes, 8),
                u64_at(bytes, 16),
                u64_at(bytes, 24),
            ),
        )
    }
}

/// `bincode2::serialize` on a tag, three numbers and bytes. In its default configuration it
/// writes integers little-endian at their own width and a byte vector behind its length in
/// eight bytes, one field after the other, and it has no size limit that could make it fail.
#[verifier::external_body]
fn serialize_message(tag: u32, source: u64, destination: u64, message_id: u64, contents: &Vec<u8>) -> (bytes:
    Vec<u8>)
    ensures
        bytes@ == spec_u32_to_le_bytes(tag) + spec_u64_to_le_bytes(source) + spec_u64_to_le_bytes(
            destination,
        ) + spec_u64_to_le_bytes(message_id) + spec_u64_to_le_bytes(contents@.len() as u64)
            + contents@,
{
    bincode2::serialize(&(tag, source, destination, message_id, contents)).expect(
        "plain numbers and bytes serialize",
    )
}

/// `bincode2::serialize` on two tags and two numbers: the four integers one after the other,
/// little-endian, at their own width.
#[verifier::external_body]
fn serialize_signal(tag: u32, kind: u32, from: u64, to: u64) -> (bytes: Vec<u8>)
    ensures
        bytes@ == spec_u32_to_le_bytes(tag) + spec_u32_to_le_bytes(kind) + spec_u64_to_le_bytes(
            from,
        ) + spec_u64_to_le_bytes(to),
{
    bincode2::serialize(&(tag, kind, from, to)).expect("plain numbers serialize")
}

/// `bincode2::serialize` on two tags and three numbers: the five integers one after the other,
/// little-endian, at their own width.
#[verifier::external_body]
fn serialize_numbered_signal(tag: u32, kind: u32, from: u64, to: u64, number: u64) -> (bytes: Vec<
    u8,
>)
    ensures
        bytes@ == spec_u32_to_le_bytes(tag) + spec_u32_to_le_bytes(kind) + spec_u64_to_le_bytes(
            from,
        ) + spec_u64_to_le_bytes(to) + spec_u64_to_le_bytes(number),
{
    bincode2::serialize(&(tag, kind, from, to, number)).expect("plain numbers serialize")
}

/// `bincode2::deserialize` to a tag, three numbers and bytes. In its default configuration it
/// reads integers little-endian at their own width and a byte vector behind its length in eight
/// bytes; it fails only where the bytes end too early, and it ignores bytes behind the last
/// field. `None` stands for the failure.
#[verifier::external_body]
fn deserialize_message(bytes: &Vec<u8>) -> (fields: Option<(u32, u64, u64, u64, Vec<u8>)>)
    ensures
        match fields {
            Some((tag, source, destination, message_id, contents)) => message_fields(bytes@)
                == Some((tag, source, destination, message_id, contents@)),
            None => message_fields(bytes@) is None,
        },
{
    bincode2::deserialize::<(u32, u64, u64, u64, Vec<u8>)>(bytes.as_slice()).ok()
}

/// `bincode2::deserialize` to two tags and two numbers: it reads the four integers one after the
/// other, little-endian, fails only where the bytes end too early, and ignores what follows.
/// `None` stands for the failure.
#[verifier::external_body]
fn deserialize_signal(bytes: &Vec<u8>) -> (fields: Option<(u32, u32, u64, u64)>)
    ensures
        fields == signal_fields(bytes@),
{
    bincode2::deserialize::<(u32, u32, u64, u64)>(bytes.as_slice()).ok()
}

/// `bincode2::deserialize` to two tags and three numbers: it reads the five integers one after
/// the other, little-endian, fails only where the bytes end too early, and ignores what follows.
/// `None` stands for the failure.
#[verifier::external_body]
fn deserialize_numbered_signal(bytes: &Vec<u8>) -> (fields: Option<(u32, u32, u64, u64, u64)>)
    ensures
        fields == numbered_signal_fields(bytes@),
{
    bincode2::deserialize::<(u32, u32, u64, u64, u64)>(bytes.as_slice()).ok()
}

/// What some bytes turn out to be.
#[derive(PartialEq, Eq)]
pub enum Decoded {
    /// A user's message in its envelope.
    Message { source: u64, destination: u64, message_id: u64, contents: Vec<u8> },
    Ack { from_id: u64, to_id: u64, message_id: u64 },
    Poll { from_id: u64, to_id: u64 },
    /// A signal that carries a whole payload, whose bytes are still to be read.
    Envelope { source: u64, destination: u64, message_id: u64, payload: Vec<u8> },
    /// Nothing that a delivery layer wrote.
    Foreign,
}

/// What some bytes are, the contents and payloads as sequences.
pub enum DecodedView {
    Message { source: u64, destination: u64, message_id: u64, contents: Seq<u8> },
    Ack { from_id: u64, to_id: u64, message_id: u64 },
    Poll { from_id: u64, to_id: u64 },
    Envelope { source: u64, destination: u64, message_id: u64, payload: Seq<u8> },
    Foreign,
}

impl View for Decoded {
    type V = DecodedView;

    open spec fn view(&self) -> DecodedView {
        match *self {
            Decoded::Message { source, destination, message_id, contents } => {
                DecodedView::Message { source, destination, message_id, contents: contents@ }
            },
            Decoded::Ack { from_id, to_id, message_id } => {
                DecodedView::Ack { from_id, to_id, message_id }
            },
            Decoded::Poll { from_id, to_id } => DecodedView::Poll { from_id, to_id },
            Decoded::Envelope { source, destination, message_id, payload } => {
                DecodedView::Envelope { source, destination, message_id, payload: payload@ }
            },
            Decoded::Foreign => DecodedView::Foreign,
        }
    }
}

/// What `bytes` are: the first tag tells a message from a signal, the second tells the signals
/// apart, and anything else, or anything cut short, is foreign.
pub open spec fn decoded(bytes: Seq<u8>) -> DecodedView {
    match signal_fields(bytes) {
        Some((0, _, _, _)) => match message_fields(bytes) {
            Some((_, source, destination, message_id, contents)) => {
                DecodedView::Message { source, destination, message_id, contents }
            },
            None => DecodedView::Foreign,
        },
        Some((1, 0, _, _)) => match numbered_signal_fields(bytes) {
            Some((_, _, from_id, to_id, message_id)) => {
                DecodedView::Ack { from_id, to_id, message_id }
            },
            None => DecodedView::Foreign,
        },
        Some((1, 1, _, _)) => match numbered_signal_fields(bytes) {
            Some((_, _, source, destination, message_id)) => {
                DecodedView::Envelope {
                    source,
                    destination,
                    message_id,
                    payload: bytes.skip(32),
                }
            },
            None => DecodedView::Foreign,
        },
        Some((1, 2, from_id, to_id)) => DecodedView::Poll { from_id, to_id },
        _ => DecodedView::Foreign,
    }
}

/// The bytes behind the first `skip`.
fn bytes_behind(bytes: &Vec<u8>, skip: usize) -> (rest: Vec<u8>)
    requires
        skip <= bytes@.len(),
    ensures
        rest@ == bytes@.skip(skip as int),
{
    let mut rest: Vec<u8> = Vec::new();
    let mut i: usize = skip;
    while i < bytes.len()
        invariant
            skip <= i <= bytes.len(),
            rest@ == bytes@.subrange(skip as int, i as int),
        decreases bytes.len() - i,
    {
        rest.push(bytes[i]);
        i = i + 1;
    }
    assert(bytes@.subrange(skip as int, i as int) =~= bytes@.skip(skip as int));
    rest
}

/// What the bytes are.
pub fn decode(bytes: &Vec<u8>) -> (what: Decoded)
    ensures
        what@ == decoded(bytes@),
{
    match deserialize_signal(bytes) {
        Some((tag, kind, from_id, to_id)) => {
            if tag == 0 {
                match deserialize_message(bytes) {
                    Some((_, source, destination, message_id, contents)) => {
                        Decoded::Message { source, destination, message_id, contents }
                    },
                    None => Decoded::Foreign,
                }
            } else if tag == 1 && kind == 2 {
                Decoded::Poll { from_id, to_id }
            } else if tag == 1 && kind < 2 {
                match deserialize_numbered_signal(bytes) {
                    Some((_, _, from_id, to_id, message_id)) => {
                        if kind == 0 {
                            Decoded::Ack { from_id, to_id, message_id }
                        } else {
                            let payload = bytes_behind(bytes, 32);
                            Decoded::Envelope {
                                source: from_id,
                                destination: to_id,
                                message_id,
                                payload,
                            }
                        }
                    },
                    None => Decoded::Foreign,
                }
            } else {
                Decoded::Foreign
            }
        },
        None => Decoded::Foreign,
    }
}

/// The bytes of a user's message in its envelope.
pub fn encode_message(source: u64, destination: u64, message_id: u64, contents: &Vec<u8>) -> (bytes:
    Vec<u8>)
    ensures
        bytes@ == message_bytes(source, destination, message_id, contents@),
{
    serialize_message(0, source, destination, message_id, contents)
}

/// The bytes of an acknowledgement.
pub fn encode_ack(from_id: u64, to_id: u64, message_id: u64) -> (bytes: Vec<u8>)
    ensures
        bytes@ == numbered_signal_bytes(0, from_id, to_id, message_id),
{
    serialize_numbered_signal(1, 0, from_id, to_id, message_id)
}

/// The bytes of a poll.
pub fn encode_poll(from_id: u64, to_id: u64) -> (bytes: Vec<u8>)
    ensures
        bytes@ == signal_bytes(2, from_id, to_id),
{
    serialize_signal(1, 2, from_id, to_id)
}

/// The bytes of a signal that carries a whole payload, which is given by its bytes.
pub fn encode_envelope(source: u64, destination: u64, message_id: u64, payload: Vec<u8>) -> (bytes:
    Vec<u8>)
    ensures
        bytes@ == numbered_signal_bytes(1, source, destination, message_id) + payload@,
{
    let mut bytes = serialize_numbered_signal(1, 1, source, destination, message_id);
    let mut rest = payload;
    bytes.append(&mut rest);
    bytes
}

proof fn lemma_numbers_read_back()
    ensures
        forall|x: u32| #[trigger] spec_u32_to_le_bytes(x).len() == 4,
        forall|x: u32| spec_u32_from_le_bytes(#[trigger] spec_u32_to_le_bytes(x)) == x,
        forall|x: u64| #[trigger] spec_u64_to_le_bytes(x).len() == 8,
        forall|x: u64| spec_u64_from_le_bytes(#[trigger] spec_u64_to_le_bytes(x)) == x,
{
    lemma_auto_spec_u32_to_from_le_bytes();
    lemma_auto_spec_u64_to_from_le_bytes();
    assert forall|x: u32| spec_u32_from_le_bytes(#[trigger] spec_u32_to_le_bytes(x)) == x by {
        assert(spec_u32_to_le_bytes(x).len() == 4);
    }
}

/// What was put into an envelope comes out of it: decoding the bytes of a message gives back its
/// source, destination, number and contents.
pub proof fn law_message_round_trip(
    source: u64,
    destination: u64,
    message_id: u64,
    contents: Seq<u8>,
)
    requires
        contents.len() <= u64::MAX,
    ensures
        decoded(message_bytes(source, destination, message_id, contents)) == (
        DecodedView::Message { source, destination, message_id, contents }),
{
    lemma_numbers_read_back();
    let b = message_bytes(source, destination, message_id, contents);
    let n = contents.len() as u64;
    assert(b.subrange(0, 4) =~= spec_u32_to_le_bytes(0));
    assert(b.subrange(4, 12) =~= spec_u64_to_le_bytes(source));
    assert(b.subrange(12, 20) =~= spec_u64_to_le_bytes(destination));
    assert(b.subrange(20, 28) =~= spec_u64_to_le_bytes(message_id));
    assert(b.subrange(28, 36) =~= spec_u64_to_le_bytes(n));
    assert(b.subrange(36, 36 + n) =~= contents);
}

/// The signals come back as they were sent.
pub proof fn law_signal_round_trip(from: u64, to: u64, number: u64, payload: Seq<u8>)
    ensures
        decoded(numbered_signal_bytes(0, from, to, number)) == (DecodedView::Ack {
            from_id: from,
            to_id: to,
            message_id: number,
        }),
        decoded(signal_bytes(2, from, to)) == (DecodedView::Poll { from_id: from, to_id: to }),
        decoded(numbered_signal_bytes(1, from, to, number) + payload) == (DecodedView::Envelope {
            source: from,
            destination: to,
            message_id: number,
            payload,
        }),
{
    lemma_signal_fields(0, from, to, spec_u64_to_le_bytes(number));
    lemma_signal_fields(2, from, to, Seq::empty());
    assert(signal_bytes(2, from, to) + Seq::<u8>::empty() =~= signal_bytes(2, from, to));
    let tail = spec_u64_to_le_bytes(number) + payload;
    lemma_signal_fields(1, from, to, tail);
    let b = numbered_signal_bytes(1, from, to, number) + payload;
    assert(b =~= signal_bytes(1, from, to) + tail);
    lemma_numbers_read_back();
    assert(b.subrange(24, 32) =~= spec_u64_to_le_bytes(number));
    assert(b.skip(32) =~= payload);
    let a = numbered_signal_bytes(0, from, to, number);
    assert(a.subrange(24, 32) =~= spec_u64_to_le_bytes(number));
}

proof fn lemma_signal_fields(kind: u32, from: u64, to: u64, tail: Seq<u8>)
    ensures
        signal_fields(signal_bytes(kind, from, to) + tail) == Some((1u32, kind, from, to)),
        (signal_bytes(kind, from, to)).len() == 24,
{
    lemma_numbers_read_back();
    let b = signal_bytes(kind, from, to) + tail;
    assert(b.subrange(0, 4) =~= spec_u32_to_le_bytes(1));
    assert(b.subrange(4, 8) =~= spec_u32_to_le_bytes(kind));
    assert(b.subrange(8, 16) =~= spec_u64_to_le_bytes(from));
    assert(b.subrange(16, 24) =~= spec_u64_to_le_bytes(to));
}

/// A message of the delivery layers goes from the client that it names first to the one that it
/// names second, whatever kind it is.
pub proof fn law_from_whom_and_for_whom(message: InternalMessage)
    ensures
        match message {
            InternalMessage::Ack { from_id, to_id, .. } => message.source() == from_id
                && message.destination() == to_id,
            InternalMessage::Poll { from_id, to_id } => message.source() == from_id
                && message.destination() == to_id,
            InternalMessage::Message(wrapped) => message.source() == wrapped.source_id
                && message.destination() == wrapped.destination_id,
        },
{
}

/// Where everything stands in the bytes of a message: the tag 0 in four bytes, then the source,
/// the destination, the number and the length of the contents in eight bytes each, then the
/// contents, and nothing else. The numbers are little-endian.
pub proof fn law_layout_of_a_message(
    source: u64,
    destination: u64,
    message_id: u64,
    contents: Seq<u8>,
)
    ensures
        ({
            let bytes = message_bytes(source, destination, message_id, contents);
            &&& bytes.len() == 36 + contents.len()
            &&& bytes.subrange(0, 4) == spec_u32_to_le_bytes(0)
            &&& bytes.subrange(4, 12) == spec_u64_to_le_bytes(source)
            &&& bytes.subrange(12, 20) == spec_u64_to_le_bytes(destination)
            &&& bytes.subrange(20, 28) == spec_u64_to_le_bytes(message_id)
            &&& bytes.subrange(28, 36) == spec_u64_to_le_bytes(contents.len() as u64)
            &&& bytes.skip(36) == contents
        }),
{
    lemma_numbers_read_back();
    let bytes = message_bytes(source, destination, message_id, contents);
    assert(bytes.subrange(0, 4) =~= spec_u32_to_le_bytes(0));
    assert(bytes.subrange(4, 12) =~= spec_u64_to_le_bytes(source));
    assert(bytes.subrange(12, 20) =~= spec_u64_to_le_bytes(destination));
    assert(bytes.subrange(20, 28) =~= spec_u64_to_le_bytes(message_id));
    assert(bytes.subrange(28, 36) =~= spec_u64_to_le_bytes(contents.len() as u64));
    assert(bytes.skip(36) =~= contents);
}

/// Where everything stands in the bytes of a signal: the tag 1 and its kind in four bytes each,
/// then whom it is from and whom it is for in eight bytes each, and, where it has one, its number
/// in eight more. The numbers are little-endian.
pub proof fn law_layout_of_a_signal(kind: u32, from: u64, to: u64, number: u64)
    ensures
        ({
            let bytes = signal_bytes(kind, from, to);
            let numbered = numbered_signal_bytes(kind, from, to, number);
            &&& bytes.len() == 24
            &&& bytes.subrange(0, 4) == spec_u32_to_le_bytes(1)
            &&& bytes.subrange(4, 8) == spec_u32_to_le_bytes(kind)
            &&& bytes.subrange(8, 16) == spec_u64_to_le_bytes(from)
            &&& bytes.subrange(16, 24) == spec_u64_to_le_bytes(to)
            &&& numbered.len() == 32
            &&& numbered.take(24) == bytes
            &&& numbered.skip(24) == spec_u64_to_le_bytes(number)
        }),
{
    lemma_numbers_read_back();
    let bytes = signal_bytes(kind, from, to);
    let numbered = numbered_signal_bytes(kind, from, to, number);
    assert(bytes.subrange(0, 4) =~= spec_u32_to_le_bytes(1));
    assert(bytes.subrange(4, 8) =~= spec_u32_to_le_bytes(kind));
    assert(bytes.subrange(8, 16) =~= spec_u64_to_le_bytes(from));
    assert(bytes.subrange(16, 24) =~= spec_u64_to_le_bytes(to));
    assert(numbered.take(24) =~= bytes);
    assert(numbered.skip(24) =~= spec_u64_to_le_bytes(number));
}

/// What any bytes are read as, by their tags and by how many there are. Bytes that are cut short,
/// or whose tags nobody writes, are none of a delivery layer's.
pub proof fn law_what_bytes_are_read_as(bytes: Seq<u8>)
    ensures
        ({
            let tag = spec_u32_from_le_bytes(bytes.subrange(0, 4));
            let kind = spec_u32_from_le_bytes(bytes.subrange(4, 8));
            let length = spec_u64_from_le_bytes(bytes.subrange(28, 36));
            &&& bytes.len() < 24 ==> decoded(bytes) is Foreign
            &&& bytes.len() >= 24 && tag == 0 && (bytes.len() < 36 || bytes.len() < 36 + length)
                ==> decoded(bytes) is Foreign
            &&& bytes.len() >= 36 && tag == 0 && bytes.len() >= 36 + length ==> decoded(bytes) == (
            DecodedView::Message {
                source: spec_u64_from_le_bytes(bytes.subrange(4, 12)),
                destination: spec_u64_from_le_bytes(bytes.subrange(12, 20)),
                message_id: spec_u64_from_le_bytes(bytes.subrange(20, 28)),
                contents: bytes.subrange(36, 36 + length),
            })
            &&& bytes.len() >= 24 && tag == 1 && kind == 2 ==> decoded(bytes) == (
            DecodedView::Poll {
                from_id: spec_u64_from_le_bytes(bytes.subrange(8, 16)),
                to_id: spec_u64_from_le_bytes(bytes.subrange(16, 24)),
            })
            &&& 24 <= bytes.len() < 32 && tag == 1 && kind < 2 ==> decoded(bytes) is Foreign
            &&& bytes.len() >= 32 && tag == 1 && kind == 0 ==> decoded(bytes) == (
            DecodedView::Ack {
                from_id: spec_u64_from_le_bytes(bytes.subrange(8, 16)),
                to_id: spec_u64_from_le_bytes(bytes.subrange(16, 24)),
                message_id: spec_u64_from_le_bytes(bytes.subrange(24, 32)),
            })
            &&& bytes.len() >= 32 && tag == 1 && kind == 1 ==> decoded(bytes) == (
            DecodedView::Envelope {
                source: spec_u64_from_le_bytes(bytes.subrange(8, 16)),
                destination: spec_u64_from_le_bytes(bytes.subrange(16, 24)),
                message_id: spec_u64_from_le_bytes(bytes.subrange(24, 32)),
                payload: bytes.skip(32),
            })
            &&& bytes.len() >= 24 && (tag > 1 || (tag == 1 && kind > 2)) ==> decoded(bytes)
                is Foreign
        }),
{
}

/// What was decoded is seen as it is: the same kind, with the same numbers and bytes.
pub proof fn law_what_was_decoded_is_seen_as_it_is(what: Decoded)
    ensures
        match what {
            Decoded::Message { source, destination, message_id, contents } => what@ == (
            DecodedView::Message { source, destination, message_id, contents: contents@ }),
            Decoded::Ack { from_id, to_id, message_id } => what@ == (DecodedView::Ack {
                from_id,
                to_id,
                message_id,
            }),
            Decoded::Poll { from_id, to_id } => what@ == (DecodedView::Poll { from_id, to_id }),
            Decoded::Envelope { source, destination, message_id, payload } => what@ == (
            DecodedView::Envelope { source, destination, message_id, payload: payload@ }),
            Decoded::Foreign => what@ is Foreign,
        },
{
}

/// What is encoded is decoded as what it was: a message with its source, destination, number and
/// contents, and each signal with its numbers and its payload.
pub proof fn law_what_is_encoded_is_decoded(
    source: u64,
    destination: u64,
    message_id: u64,
    contents: Vec<u8>,
    message: (Vec<u8>, Decoded),
    ack: (Vec<u8>, Decoded),
    poll: (Vec<u8>, Decoded),
    envelope: (Vec<u8>, Decoded),
)
    requires
        contents@.len() <= u64::MAX,
        call_ensures(encode_message, (source, destination, message_id, &contents), message.0),
        call_ensures(decode, (&message.0,), message.1),
        call_ensures(encode_ack, (source, destination, message_id), ack.0),
        call_ensures(decode, (&ack.0,), ack.1),
        call_ensures(encode_poll, (source, destination), poll.0),
        call_ensures(decode, (&poll.0,), poll.1),
        call_ensures(encode_envelope, (source, destination, message_id, contents), envelope.0),
        call_ensures(decode, (&envelope.0,), envelope.1),
    ensures
        message.1 matches Decoded::Message { source: s, destination: d, message_id: m, contents: c }
            && s == source && d == destination && m == message_id && c@ == contents@,
        ack.1 == (Decoded::Ack { from_id: source, to_id: destination, message_id }),
        poll.1 == (Decoded::Poll { from_id: source, to_id: destination }),
        envelope.1 matches Decoded::Envelope {
            source: s,
            destination: d,
            message_id: m,
            payload: p,
        } && s == source && d == destination && m == message_id && p@ == contents@,
{
    law_message_round_trip(source, destination, message_id, contents@);
    law_signal_round_trip(source, destination, message_id, contents@);
    law_what_was_decoded_is_seen_as_it_is(message.1);
    law_what_was_decoded_is_seen_as_it_is(ack.1);
    law_what_was_decoded_is_seen_as_it_is(poll.1);
    law_what_was_decoded_is_seen_as_it_is(envelope.1);
}

} // verus!
