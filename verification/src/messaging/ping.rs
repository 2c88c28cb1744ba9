//! The liveness probe.

use vstd::prelude::*;
use crate::bytes::Readable;
use crate::bytes::Writeable;
use crate::codec::Codec;
use crate::codec::Reader;
use crate::codec::Writer;
use crate::error::HazelcastClientError;
use crate::error::Violation;
use crate::messaging::Request;
use crate::messaging::Response;

verus! {

/// The message type of a ping.
pub const PING_REQUEST: u16 = 0xF;

/// The message type of the answer to a ping.
pub const PING_RESPONSE: u16 = 0x64;

/// The request that asks a member whether it is alive. It has no fields.
#[derive(Clone, Copy, Debug, PartialEq, Eq)]
pub struct PingRequest {
}

impl DeepView for PingRequest {
    type V = ();

    closed spec fn deep_view(&self) -> () {
        ()
    }
}

impl Writer for PingRequest {
    open spec fn wire(value: ()) -> Seq<u8> {
        Seq::empty()
    }

    open spec fn fits(value: ()) -> bool {
        true
    }

    fn write_to(&self, writeable: &mut Writeable) -> (result: Result<(), HazelcastClientError>) {
        assert(writeable@ =~= old(writeable)@ + Seq::<u8>::empty());
        Ok(())
    }
}

impl Reader for PingRequest {
    open spec fn parse(bytes: Seq<u8>) -> Result<((), Seq<u8>), Violation> {
        Ok(((), bytes))
    }

    fn read_from(readable: &mut Readable) -> (result: Result<PingRequest, HazelcastClientError>) {
        Ok(PingRequest {})
    }
}

impl Codec for PingRequest {
    proof fn round_trip(value: (), rest: Seq<u8>) {
        assert(Seq::<u8>::empty() + rest =~= rest);
    }
}

impl PingRequest {
    pub fn new() -> (request: PingRequest) {
        PingRequest {}
    }
}

impl Request for PingRequest {
    open spec fn type_id() -> u16 {
        PING_REQUEST
    }

    fn message_type() -> (message_type: u16) {
        PING_REQUEST
    }

    fn partition_id(&self) -> (partition_id: i32) {
        -1
    }
}

/// The answer to a ping. It has no fields.
#[derive(Clone, Copy, Debug, PartialEq, Eq)]
pub struct PingResponse {
}

impl DeepView for PingResponse {
    type V = ();

    closed spec fn deep_view(&self) -> () {
        ()
    }
}

impl Writer for PingResponse {
    open spec fn wire(value: ()) -> Seq<u8> {
        Seq::empty()
    }

    open spec fn fits(value: ()) -> bool {
        true
    }

    fn write_to(&self, writeable: &mut Writeable) -> (result: Result<(), HazelcastClientError>) {
        assert(writeable@ =~= old(writeable)@ + Seq::<u8>::empty());
        Ok(())
    }
}

impl Reader for PingResponse {
    open spec fn parse(bytes: Seq<u8>) -> Result<((), Seq<u8>), Violation> {
        Ok(((), bytes))
    }

    fn read_from(readable: &mut Readable) -> (result: Result<PingResponse, HazelcastClientError>) {
        Ok(PingResponse {})
    }
}

impl Codec for PingResponse {
    proof fn round_trip(value: (), rest: Seq<u8>) {
        assert(Seq::<u8>::empty() + rest =~= rest);
    }
}

impl PingResponse {
    pub fn new() -> (response: PingResponse) {
        PingResponse {}
    }
}

impl Response for PingResponse {
    open spec fn type_id() -> u16 {
        PING_RESPONSE
    }

    fn message_type() -> (message_type: u16) {
        PING_RESPONSE
    }
}

} // verus!
