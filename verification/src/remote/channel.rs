//! One connection as seen from its single owner: what to write for each
//! request, and whom each incoming frame is for. The owner does the reading
//! and the writing; the decisions are made here.

use vstd::prelude::*;
use vstd::string::StringExecFns;
use crate::bytes::lemma_le_bytes_len;
use crate::bytes::Readable;
use crate::error::HazelcastClientError;
use crate::error::Violation;
use crate::message::Message;
use crate::message::MessageView;
use crate::remote::lemma_frame_round_trip;
use crate::remote::lemma_wire_frame_round_trip;
use crate::remote::Correlator;
use crate::remote::CorrelatorView;
use crate::remote::FrameCodec;
use crate::remote::HEADER_LENGTH;
use crate::remote::LENGTH_FIELD_LENGTH;

verus! {

/// What to do with a request.
pub enum Egress<T> {
    /// Write these bytes on the connection: the slot waits for the answer.
    Write(Vec<u8>),
    /// Hand the slot back with the reason: nothing is to be written.
    Refuse(T, HazelcastClientError),
}

/// What to do with a frame that came in.
pub enum Ingress<T> {
    /// Move the message into the slot that waited for it.
    Deliver(T, Message),
    /// No slot waits under the frame's correlation id: the message is
    /// dropped.
    Unmatched(u64, Message),
}

/// The text of the failure that is reported once the correlation ids of a
/// connection are used up.
pub open spec fn exhausted() -> Seq<char> {
    "correlation ids are exhausted"@
}

/// How the outcome of a request answers to the request and to the table
/// before and after it. A message too long for a frame is refused and
/// changes nothing; so is any message once the ids are used up; any other
/// message has its slot put down under the next id, and the bytes to write
/// are its frame with that id.
pub open spec fn egress_outcome<T>(
    before: CorrelatorView<T>,
    message: MessageView,
    responder: T,
    after: CorrelatorView<T>,
    egress: Egress<T>,
) -> bool {
    if !FrameCodec::fits(message) {
        &&& after == before
        &&& egress is Refuse
        &&& egress->Refuse_0 == responder
        &&& egress->Refuse_1 == HazelcastClientError::ProtocolViolation(Violation::LengthOverflow)
    } else if before.sequence == u64::MAX {
        &&& after == before
        &&& egress is Refuse
        &&& egress->Refuse_0 == responder
        &&& egress->Refuse_1 is CommunicationFailure
        &&& egress->Refuse_1->CommunicationFailure_0@ == exhausted()
    } else {
        &&& after == before.set(responder)
        &&& egress is Write
        &&& egress->Write_0@ == FrameCodec::wire_frame(message, after.sequence)
    }
}

/// Whom a message that came in is for.
pub enum Delivery<T> {
    /// The slot that waited under the message's correlation id.
    Deliver(T, MessageView),
    /// No one: nothing waited under that id.
    Unmatched(u64, MessageView),
}

/// What a frame that came in, without its length, does to the table, and
/// whom its message is for: the slot under its correlation id leaves the
/// table with the message. A frame that cannot be read is a violation.
pub open spec fn ingress_outcome<T>(before: CorrelatorView<T>, frame: Seq<u8>) -> Result<
    (CorrelatorView<T>, Delivery<T>),
    Violation,
> {
    match FrameCodec::parse(frame) {
        Err(violation) => Err(violation),
        Ok((message, correlation_id)) => Ok(
            (
                before.get(correlation_id),
                match before.waiting(correlation_id) {
                    Some(responder) => Delivery::Deliver(responder, message),
                    None => Delivery::Unmatched(correlation_id, message),
                },
            ),
        ),
    }
}

/// How what is handed out for a frame answers to whom its message is for.
pub open spec fn delivered<T>(ingress: Ingress<T>, delivery: Delivery<T>) -> bool {
    match delivery {
        Delivery::Deliver(responder, message) => {
            &&& ingress is Deliver
            &&& ingress->Deliver_0 == responder
            &&& ingress->Deliver_1@ == message
        },
        Delivery::Unmatched(correlation_id, message) => {
            &&& ingress is Unmatched
            &&& ingress->Unmatched_0 == correlation_id
            &&& ingress->Unmatched_1@ == message
        },
    }
}

/// The state of one connection: the slots that wait for their answers.
pub struct Channel<T> {
    correlator: Correlator<T>,
}

impl<T> View for Channel<T> {
    type V = CorrelatorView<T>;

    closed spec fn view(&self) -> CorrelatorView<T> {
        self.correlator@
    }
}

impl<T> Channel<T> {
    /// A connection on which nothing was sent yet.
    pub fn new() -> (channel: Channel<T>)
        ensures
            channel@.sequence == 0,
            channel@.correlations == Map::<u64, T>::empty(),
            channel@.well_formed(),
    {
        Channel { correlator: Correlator::new() }
    }

    /// A connection on which nothing was sent yet, and whose first
    /// correlation id follows `base`.
    pub fn starting_after(base: u64) -> (channel: Channel<T>)
        ensures
            channel@.sequence == base,
            channel@.correlations == Map::<u64, T>::empty(),
            channel@.well_formed(),
    {
        Channel { correlator: Correlator::starting_after(base) }
    }

    /// The last correlation id given out on this connection.
    pub fn sequence(&self) -> (sequence: u64)
        ensures
            sequence == self@.sequence,
    {
        self.correlator.sequence()
    }

    /// Takes a request and the slot for its answer. The next correlation id
    /// is given to the request, its frame is made, the slot is put down
    /// under that id, and only then the bytes are handed out to be written.
    /// A message too long for a frame is refused, and so is any message once
    /// the ids are used up; a refusal changes nothing.
    pub fn egress(&mut self, message: &Message, responder: T) -> (egress: Egress<T>)
        ensures
            old(self)@.well_formed() ==> final(self)@.well_formed(),
            egress_outcome(old(self)@, message@, responder, final(self)@, egress),
    {
        let sequence = self.correlator.sequence();
        if sequence == u64::MAX {
            if message.payload().len() > u32::MAX as usize - HEADER_LENGTH {
                return Egress::Refuse(
                    responder,
                    HazelcastClientError::ProtocolViolation(Violation::LengthOverflow),
                );
            }
            return Egress::Refuse(
                responder,
                HazelcastClientError::CommunicationFailure(
                    String::from_str("correlation ids are exhausted"),
                ),
            );
        }
        match FrameCodec::encode_frame(message, sequence + 1) {
            Ok(bytes) => {
                self.correlator.set(responder);
                Egress::Write(bytes)
            },
            Err(error) => Egress::Refuse(responder, error),
        }
    }

    /// Takes a frame that came in, without its length. Its header is read,
    /// never its payload; the slot under its correlation id, if one waits,
    /// leaves the table with the message. A frame that cannot be read
    /// changes nothing.
    pub fn ingress(&mut self, frame: &[u8]) -> (result: Result<Ingress<T>, HazelcastClientError>)
        ensures
            old(self)@.well_formed() ==> final(self)@.well_formed(),
            match ingress_outcome(old(self)@, frame@) {
                Ok(expected) => final(self)@ == expected.0 && result is Ok && delivered(
                    result->Ok_0,
                    expected.1,
                ),
                Err(violation) => final(self)@ == old(self)@ && result == Err::<
                    Ingress<T>,
                    HazelcastClientError,
                >(HazelcastClientError::ProtocolViolation(violation)),
            },
    {
        let mut readable = Readable::new(frame);
        let (message, correlation_id) = FrameCodec::decode(&mut readable)?;
        match self.correlator.get(&correlation_id) {
            Some(responder) => Ok(Ingress::Deliver(responder, message)),
            None => Ok(Ingress::Unmatched(correlation_id, message)),
        }
    }
}

/// The bytes that came in over a connection and were not taken as frames
/// yet.
pub struct Inbox {
    bytes: Vec<u8>,
}

impl View for Inbox {
    type V = Seq<u8>;

    closed spec fn view(&self) -> Seq<u8> {
        self.bytes@
    }
}

/// What taking a frame from the front of `bytes` gives: the frame without
/// its length and the bytes behind it, or nothing yet where bytes are still
/// to come.
pub open spec fn taken(bytes: Seq<u8>) -> Result<Option<(Seq<u8>, Seq<u8>)>, Violation> {
    match FrameCodec::scan(bytes) {
        Err(violation) => Err(violation),
        Ok(None) => Ok(None),
        Ok(Some(length)) => Ok(
            Some(
                (
                    bytes.subrange(LENGTH_FIELD_LENGTH as int, length as int),
                    bytes.skip(length as int),
                ),
            ),
        ),
    }
}

impl Inbox {
    /// An inbox into which nothing came yet.
    pub fn new() -> (inbox: Inbox)
        ensures
            inbox@ == Seq::<u8>::empty(),
    {
        Inbox { bytes: Vec::new() }
    }

    /// The number of bytes that wait.
    pub fn len(&self) -> (len: usize)
        ensures
            len == self@.len(),
    {
        self.bytes.len()
    }

    /// Puts the bytes that came in behind those that wait.
    pub fn feed(&mut self, bytes: &[u8])
        ensures
            final(self)@ == old(self)@ + bytes@,
    {
        self.bytes.extend_from_slice(bytes);
        assert(self@ =~= old(self)@ + bytes@);
    }

    /// Takes the frame at the front, without its length, where a whole frame
    /// waits. Where more bytes have to come first, and where the length at
    /// the front is no length of a frame, nothing is taken.
    pub fn take(&mut self) -> (result: Result<Option<Vec<u8>>, HazelcastClientError>)
        ensures
            match taken(old(self)@) {
                Err(violation) => final(self)@ == old(self)@ && result == Err::<
                    Option<Vec<u8>>,
                    HazelcastClientError,
                >(HazelcastClientError::ProtocolViolation(violation)),
                Ok(None) => final(self)@ == old(self)@ && result is Ok && result->Ok_0 is None,
                Ok(Some((frame, rest))) => {
                    &&& final(self)@ == rest
                    &&& result is Ok
                    &&& result->Ok_0 is Some
                    &&& result->Ok_0->Some_0@ == frame
                },
            },
    {
        let length = match FrameCodec::frame_length(self.bytes.as_slice()) {
            Err(error) => {
                return Err(error);
            },
            Ok(None) => {
                return Ok(None);
            },
            Ok(Some(length)) => length,
        };
        let mut framed = self.bytes.split_off(length);
        core::mem::swap(&mut self.bytes, &mut framed);
        let frame = framed.split_off(LENGTH_FIELD_LENGTH);
        assert(self@ =~= old(self)@.skip(length as int));
        assert(frame@ =~= old(self)@.subrange(LENGTH_FIELD_LENGTH as int, length as int));
        Ok(Some(frame))
    }
}

/// The frames that are written are the frames that are taken: from the
/// bytes of a frame on the wire, with whatever follows them, the frame is
/// taken without its length, what follows is left, and the frame reads as
/// the message and the correlation id it was made of.
pub proof fn lemma_frames_are_taken_as_written(
    message: MessageView,
    correlation_id: u64,
    rest: Seq<u8>,
)
    requires
        FrameCodec::fits(message),
    ensures
        taken(FrameCodec::wire_frame(message, correlation_id) + rest) == Ok::<
            Option<(Seq<u8>, Seq<u8>)>,
            Violation,
        >(Some((FrameCodec::frame(message, correlation_id), rest))),
        FrameCodec::parse(FrameCodec::frame(message, correlation_id)) == Ok::<
            (MessageView, u64),
            Violation,
        >((message, correlation_id)),
{
    let wire = FrameCodec::wire_frame(message, correlation_id);
    let frame = FrameCodec::frame(message, correlation_id);
    lemma_wire_frame_round_trip(message, correlation_id, rest);
    lemma_frame_round_trip(message, correlation_id);
    lemma_le_bytes_len((LENGTH_FIELD_LENGTH + frame.len()) as nat, 4);
    assert((wire + rest).subrange(LENGTH_FIELD_LENGTH as int, wire.len() as int) =~= frame);
    assert((wire + rest).skip(wire.len() as int) =~= rest);
}

} // verus!
