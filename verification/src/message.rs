//! The envelope in which a record travels: its message type, the partition
//! it is meant for, and the bytes of the record.

use vstd::prelude::*;
use crate::bytes::Readable;
use crate::bytes::Writeable;
use crate::codec::Reader;
use crate::error::answers;
use crate::error::ErrorView;
use crate::error::HazelcastClientError;
use crate::error::Violation;
use crate::messaging::error::Exception;
use crate::messaging::error::EXCEPTION;
use crate::messaging::Request;
use crate::messaging::Response;

verus! {

/// What a `Message` holds.
pub struct MessageView {
    pub message_type: u16,
    pub partition_id: i32,
    pub payload: Seq<u8>,
}

/// A record on its way: the payload is the body of the record, without any
/// header.
#[derive(Debug, PartialEq, Eq)]
pub struct Message {
    message_type: u16,
    partition_id: i32,
    payload: Vec<u8>,
}

impl View for Message {
    type V = MessageView;

    closed spec fn view(&self) -> MessageView {
        MessageView {
            message_type: self.message_type,
            partition_id: self.partition_id,
            payload: self.payload@,
        }
    }
}

/// The envelope of a request: its message type, any partition, and its
/// bytes.
pub open spec fn envelope<R: Request>(request: R::V) -> MessageView {
    MessageView { message_type: R::type_id(), partition_id: -1i32, payload: R::wire(request) }
}

/// The message that is owed for a request: its envelope where it fits the
/// wire, else the word that it does not.
pub open spec fn enveloped<R: Request>(request: R::V) -> Result<MessageView, ErrorView> {
    if R::fits(request) {
        Ok(envelope::<R>(request))
    } else {
        Err(ErrorView::ProtocolViolation(Violation::LengthOverflow))
    }
}

/// How a message that was made answers to the message that was owed.
pub open spec fn made(
    owed: Result<MessageView, ErrorView>,
    result: Result<Message, HazelcastClientError>,
) -> bool {
    match owed {
        Ok(message) => result is Ok && result->Ok_0@ == message,
        Err(error) => result is Err && result->Err_0.deep_view() == error,
    }
}

/// How a message reads to one who expects the response `R`: a message of
/// that type holds the response, one of the exception type holds the
/// server's exception, which is a failure of the server, and any other type
/// is a violation; so are bytes that the record cannot be read from. Bytes
/// behind the record are passed over.
pub open spec fn reply<R: Response>(message: MessageView) -> Result<R::V, ErrorView> {
    if message.message_type == R::type_id() {
        match R::parse(message.payload) {
            Ok((response, _)) => Ok(response),
            Err(violation) => Err(ErrorView::ProtocolViolation(violation)),
        }
    } else if message.message_type == EXCEPTION {
        match Exception::parse(message.payload) {
            Ok((exception, _)) => Err(ErrorView::ServerFailure(exception)),
            Err(violation) => Err(ErrorView::ProtocolViolation(violation)),
        }
    } else {
        Err(ErrorView::ProtocolViolation(Violation::UnexpectedMessageType))
    }
}

impl Message {
    pub fn new(message_type: u16, partition_id: i32, payload: Vec<u8>) -> (message: Message)
        ensures
            message@ == (MessageView { message_type, partition_id, payload: payload@ }),
    {
        Message { message_type, partition_id, payload }
    }

    pub fn message_type(&self) -> (message_type: u16)
        ensures
            message_type == self@.message_type,
    {
        self.message_type
    }

    pub fn partition_id(&self) -> (partition_id: i32)
        ensures
            partition_id == self@.partition_id,
    {
        self.partition_id
    }

    pub fn payload(&self) -> (payload: &[u8])
        ensures
            payload@ == self@.payload,
    {
        self.payload.as_slice()
    }

    /// Puts a request into its envelope, or refuses one that does not fit
    /// the wire.
    pub fn from<R: Request>(request: &R) -> (result: Result<Message, HazelcastClientError>)
        ensures
            made(enveloped::<R>(request.deep_view()), result),
    {
        let mut writeable = Writeable::new();
        match request.write_to(&mut writeable) {
            Ok(()) => {
                assert(writeable@ =~= R::wire(request.deep_view()));
                Ok(Message::new(R::message_type(), request.partition_id(), writeable.into_bytes()))
            },
            Err(error) => Err(error),
        }
    }

    /// Reads the message as the response `R`, or as the server's exception
    /// where it holds one.
    pub fn try_from<R: Response>(&self) -> (result: Result<R, HazelcastClientError>)
        ensures
            answers(reply::<R>(self@), result),
    {
        let mut readable = Readable::new(self.payload.as_slice());
        if self.message_type == R::message_type() {
            R::read_from(&mut readable)
        } else if self.message_type == EXCEPTION {
            let exception = Exception::read_from(&mut readable)?;
            Err(HazelcastClientError::ServerFailure(exception))
        } else {
            Err(HazelcastClientError::ProtocolViolation(Violation::UnexpectedMessageType))
        }
    }
}

} // verus!
