//! What goes over one connection: frames, and the table that matches each
//! response to the request it answers.

use std::collections::HashMap;
use vstd::prelude::*;
use vstd::slice::slice_to_vec;
use vstd::std_specs::hash::group_hash_axioms;
use crate::bytes::Readable;
use crate::bytes::Writeable;
use crate::bytes::le_bytes;
use crate::bytes::le_value;
use crate::bytes::lemma_le_bytes_len;
use crate::bytes::lemma_le_round_trip;
use crate::bytes::parse_slice;
use crate::bytes::radix;
use crate::bytes::to_unsigned;
use crate::codec::Codec;
use crate::codec::Reader;
use crate::codec::Writer;
use crate::error::HazelcastClientError;
use crate::error::Violation;
use crate::message::Message;
use crate::message::MessageView;

pub mod channel;
pub mod cluster;
pub mod member;
pub mod registry;

verus! {

broadcast use group_hash_axioms;

/// The version of the protocol that every frame names.
pub const PROTOCOL_VERSION: u8 = 1;

/// The flag of a frame that begins a message.
pub const BEGIN_MESSAGE: u8 = 0x80;

/// The flag of a frame that ends a message.
pub const END_MESSAGE: u8 = 0x40;

/// The flags of a frame that holds a whole message.
pub const UNFRAGMENTED_MESSAGE: u8 = 0xC0;

/// The bytes of the length that goes before a frame.
pub const LENGTH_FIELD_LENGTH: usize = 4;

/// The bytes of the fixed header, the length before it included.
pub const HEADER_LENGTH: usize = 22;

/// The three bytes that open a connection, before any frame.
pub fn protocol_sequence() -> (sequence: Vec<u8>)
    ensures
        sequence@ == seq![0x43u8, 0x42u8, 0x32u8],
{
    vec![0x43, 0x42, 0x32]
}

/// The flags of a whole message are those of its beginning and of its end.
pub proof fn lemma_unfragmented()
    ensures
        UNFRAGMENTED_MESSAGE == BEGIN_MESSAGE | END_MESSAGE,
{
    assert(0xC0u8 == 0x80u8 | 0x40u8) by (bit_vector);
}

/// The header fields that follow the length of a frame.
pub type Header = (u8, u8, u16, u64, i32, u16);

/// Turns messages into frames and frames into messages.
pub struct FrameCodec {}

impl FrameCodec {
    /// A frame without the length that goes before it: version, flags,
    /// message type, correlation id, partition id, data offset, payload.
    pub open spec fn frame(message: MessageView, correlation_id: u64) -> Seq<u8> {
        Header::wire(
            (
                PROTOCOL_VERSION,
                UNFRAGMENTED_MESSAGE,
                message.message_type,
                correlation_id,
                message.partition_id,
                HEADER_LENGTH as u16,
            ),
        ) + message.payload
    }

    /// What a frame without its length holds: the message and its
    /// correlation id. The bytes between the fixed header and the data
    /// offset are passed over; a data offset inside the fixed header is a
    /// violation.
    pub open spec fn parse(bytes: Seq<u8>) -> Result<(MessageView, u64), Violation> {
        match Header::parse(bytes) {
            Err(violation) => Err(violation),
            Ok((header, rest)) => {
                let (_, _, message_type, correlation_id, partition_id, data_offset) = header;
                if data_offset < HEADER_LENGTH {
                    Err(Violation::DataOffset)
                } else {
                    match parse_slice(rest, (data_offset - HEADER_LENGTH) as nat) {
                        Err(violation) => Err(violation),
                        Ok((_, payload)) => Ok(
                            (MessageView { message_type, partition_id, payload }, correlation_id),
                        ),
                    }
                }
            },
        }
    }

    /// A frame as it stands on the wire: its whole length on four bytes,
    /// then the rest.
    pub open spec fn wire_frame(message: MessageView, correlation_id: u64) -> Seq<u8> {
        let frame = Self::frame(message, correlation_id);
        le_bytes((LENGTH_FIELD_LENGTH + frame.len()) as nat, 4) + frame
    }

    /// Whether a message makes a frame whose length fits the four bytes
    /// before it.
    pub open spec fn fits(message: MessageView) -> bool {
        HEADER_LENGTH + message.payload.len() <= u32::MAX
    }

    /// What the front of a stream of bytes holds: the length of the frame
    /// that stands there, or nothing yet where bytes are still to come. A
    /// length shorter than the length field itself is a violation.
    pub open spec fn scan(buffer: Seq<u8>) -> Result<Option<nat>, Violation> {
        if buffer.len() < LENGTH_FIELD_LENGTH {
            Ok(None)
        } else {
            let length = le_value(buffer.take(LENGTH_FIELD_LENGTH as int));
            if length < LENGTH_FIELD_LENGTH {
                Err(Violation::Truncated)
            } else if buffer.len() < length {
                Ok(None)
            } else {
                Ok(Some(length))
            }
        }
    }

    /// Appends to `frame` the frame of `message`, without the length that
    /// goes before it.
    pub fn encode(frame: &mut Writeable, message: &Message, correlation_id: u64)
        ensures
            final(frame)@ == old(frame)@ + Self::frame(message@, correlation_id),
    {
        frame.write_u8(PROTOCOL_VERSION);
        frame.write_u8(UNFRAGMENTED_MESSAGE);
        frame.write_u16(message.message_type());
        frame.write_u64(correlation_id);
        frame.write_i32(message.partition_id());
        frame.write_u16(HEADER_LENGTH as u16);
        frame.write_slice(message.payload());
        assert(frame@ =~= old(frame)@ + Self::frame(message@, correlation_id));
    }

    /// Reads a frame without its length to its end.
    pub fn decode(frame: &mut Readable) -> (result: Result<(Message, u64), HazelcastClientError>)
        ensures
            match Self::parse(old(frame)@) {
                Ok((message, correlation_id)) => result is Ok && result->Ok_0.0@ == message
                    && result->Ok_0.1 == correlation_id,
                Err(violation) => result == Err::<(Message, u64), HazelcastClientError>(
                    HazelcastClientError::ProtocolViolation(violation),
                ),
            },
            final(frame)@.len() == 0,
    {
        let header = Header::read_from(frame);
        let (_, _, message_type, correlation_id, partition_id, data_offset) = match header {
            Ok(header) => header,
            Err(error) => {
                return Err(error);
            },
        };
        if (data_offset as usize) < HEADER_LENGTH {
            frame.drain();
            return Err(HazelcastClientError::ProtocolViolation(Violation::DataOffset));
        }
        frame.skip(data_offset as usize - HEADER_LENGTH)?;
        let payload = slice_to_vec(frame.read());
        Ok((Message::new(message_type, partition_id, payload), correlation_id))
    }

    /// The frame of `message` as it stands on the wire, or a refusal where
    /// its length does not fit the four bytes before it.
    pub fn encode_frame(message: &Message, correlation_id: u64) -> (result: Result<
        Vec<u8>,
        HazelcastClientError,
    >)
        ensures
            Self::fits(message@) ==> result is Ok && result->Ok_0@ == Self::wire_frame(
                message@,
                correlation_id,
            ),
            !Self::fits(message@) ==> result == Err::<Vec<u8>, HazelcastClientError>(
                HazelcastClientError::ProtocolViolation(Violation::LengthOverflow),
            ),
    {
        let payload = message.payload();
        if payload.len() > u32::MAX as usize - HEADER_LENGTH {
            return Err(HazelcastClientError::ProtocolViolation(Violation::LengthOverflow));
        }
        proof {
            Self::lemma_frame_len(message@, correlation_id);
        }
        let mut frame = Writeable::new();
        frame.write_u32((HEADER_LENGTH + payload.len()) as u32);
        Self::encode(&mut frame, message, correlation_id);
        assert(frame@ =~= Self::wire_frame(message@, correlation_id));
        Ok(frame.into_bytes())
    }

    /// Finds the frame at the front of `buffer`: `Some(length)` where the
    /// first `length` bytes are one frame, its length field included, and
    /// `None` where more bytes have to come first.
    pub fn frame_length(buffer: &[u8]) -> (result: Result<Option<usize>, HazelcastClientError>)
        ensures
            match Self::scan(buffer@) {
                Ok(Some(length)) => result is Ok && result->Ok_0 is Some && result->Ok_0->Some_0
                    == length && LENGTH_FIELD_LENGTH <= length <= buffer@.len(),
                Ok(None) => result == Ok::<Option<usize>, HazelcastClientError>(None),
                Err(violation) => result == Err::<Option<usize>, HazelcastClientError>(
                    HazelcastClientError::ProtocolViolation(violation),
                ),
            },
    {
        if buffer.len() < LENGTH_FIELD_LENGTH {
            return Ok(None);
        }
        let mut readable = Readable::new(buffer);
        let length = match readable.read_u32() {
            Ok(length) => length as usize,
            Err(error) => {
                return Err(error);
            },
        };
        proof {
            crate::bytes::lemma_le_value_bound(buffer@.take(4));
            reveal_with_fuel(radix, 5);
        }
        if length < LENGTH_FIELD_LENGTH {
            Err(HazelcastClientError::ProtocolViolation(Violation::Truncated))
        } else if buffer.len() < length {
            Ok(None)
        } else {
            Ok(Some(length))
        }
    }

    /// The header takes eighteen bytes behind the length.
    pub proof fn lemma_frame_len(message: MessageView, correlation_id: u64)
        ensures
            Self::frame(message, correlation_id).len() == HEADER_LENGTH - LENGTH_FIELD_LENGTH
                + message.payload.len(),
    {
        lemma_le_bytes_len(message.message_type as nat, 2);
        lemma_le_bytes_len(correlation_id as nat, 8);
        lemma_le_bytes_len(to_unsigned(message.partition_id as int, 4), 4);
        lemma_le_bytes_len(HEADER_LENGTH as nat, 2);
    }
}

/// A frame is read back as the message and the correlation id it was made
/// of.
pub proof fn lemma_frame_round_trip(message: MessageView, correlation_id: u64)
    ensures
        FrameCodec::parse(FrameCodec::frame(message, correlation_id)) == Ok::<
            (MessageView, u64),
            Violation,
        >((message, correlation_id)),
{
    let header = (
        PROTOCOL_VERSION,
        UNFRAGMENTED_MESSAGE,
        message.message_type,
        correlation_id,
        message.partition_id,
        HEADER_LENGTH as u16,
    );
    Header::round_trip(header, message.payload);
    assert(message.payload.skip(0) =~= message.payload);
}

/// The layout of a frame on the wire: the whole length on the first four
/// bytes, then version, flags, message type, correlation id, partition id
/// and a data offset of 22, and from byte 22 on the payload.
pub proof fn lemma_frame_layout(message: MessageView, correlation_id: u64)
    ensures
        ({
            let frame = FrameCodec::wire_frame(message, correlation_id);
            &&& frame.len() == HEADER_LENGTH + message.payload.len()
            &&& frame.subrange(0, 4) == le_bytes(frame.len(), 4)
            &&& frame[4] == PROTOCOL_VERSION
            &&& frame[5] == UNFRAGMENTED_MESSAGE
            &&& frame.subrange(6, 8) == le_bytes(message.message_type as nat, 2)
            &&& frame.subrange(8, 16) == le_bytes(correlation_id as nat, 8)
            &&& frame.subrange(16, 20) == le_bytes(to_unsigned(message.partition_id as int, 4), 4)
            &&& frame.subrange(20, 22) == seq![22u8, 0u8]
            &&& frame.skip(22) == message.payload
        }),
{
    let frame = FrameCodec::wire_frame(message, correlation_id);
    let body = FrameCodec::frame(message, correlation_id);
    FrameCodec::lemma_frame_len(message, correlation_id);
    lemma_le_bytes_len((LENGTH_FIELD_LENGTH + body.len()) as nat, 4);
    lemma_le_bytes_len(message.message_type as nat, 2);
    lemma_le_bytes_len(correlation_id as nat, 8);
    lemma_le_bytes_len(to_unsigned(message.partition_id as int, 4), 4);
    lemma_le_bytes_len(HEADER_LENGTH as nat, 2);
    reveal_with_fuel(le_bytes, 3);
    assert(le_bytes(HEADER_LENGTH as nat, 2) =~= seq![22u8, 0u8]);
    assert(frame.subrange(0, 4) =~= le_bytes(frame.len(), 4));
    assert(frame.subrange(6, 8) =~= le_bytes(message.message_type as nat, 2));
    assert(frame.subrange(8, 16) =~= le_bytes(correlation_id as nat, 8));
    assert(frame.subrange(16, 20) =~= le_bytes(to_unsigned(message.partition_id as int, 4), 4));
    assert(frame.subrange(20, 22) =~= seq![22u8, 0u8]);
    assert(frame.skip(22) =~= message.payload);
}

/// A frame on the wire, whatever follows it, is found at its whole length,
/// and what stands behind its length field is read back as the message and
/// the correlation id it was made of.
pub proof fn lemma_wire_frame_round_trip(message: MessageView, correlation_id: u64, rest: Seq<u8>)
    requires
        FrameCodec::fits(message),
    ensures
        ({
            let frame = FrameCodec::wire_frame(message, correlation_id);
            &&& FrameCodec::scan(frame + rest) == Ok::<Option<nat>, Violation>(Some(frame.len()))
            &&& FrameCodec::parse(
                (frame + rest).subrange(LENGTH_FIELD_LENGTH as int, frame.len() as int),
            ) == Ok::<(MessageView, u64), Violation>((message, correlation_id))
        }),
{
    let frame = FrameCodec::wire_frame(message, correlation_id);
    let body = FrameCodec::frame(message, correlation_id);
    let length = (LENGTH_FIELD_LENGTH + body.len()) as nat;
    FrameCodec::lemma_frame_len(message, correlation_id);
    reveal_with_fuel(radix, 5);
    lemma_le_round_trip(length, 4);
    assert((frame + rest).take(4) =~= le_bytes(length, 4));
    assert((frame + rest).subrange(4, frame.len() as int) =~= body);
    lemma_frame_round_trip(message, correlation_id);
}

/// What a `Correlator` holds: the last correlation id it gave out, and the
/// values that wait under the ids that were not asked for yet.
pub struct CorrelatorView<T> {
    pub sequence: u64,
    pub correlations: Map<u64, T>,
}

/// The table that matches responses to requests: each value is put down
/// under a fresh correlation id and handed out once, to the first who asks
/// for that id.
pub struct Correlator<T> {
    sequence: u64,
    correlations: HashMap<u64, T>,
}

impl<T> View for Correlator<T> {
    type V = CorrelatorView<T>;

    closed spec fn view(&self) -> CorrelatorView<T> {
        CorrelatorView { sequence: self.sequence, correlations: self.correlations@ }
    }
}

impl<T> CorrelatorView<T> {
    /// No value waits under an id that is still to be given out.
    pub open spec fn well_formed(self) -> bool {
        forall|id: u64| self.correlations.contains_key(id) ==> id <= self.sequence
    }

    /// The table with `value` newly put down: under the id behind the last
    /// one.
    pub open spec fn set(self, value: T) -> CorrelatorView<T> {
        let id = (self.sequence + 1) as u64;
        CorrelatorView { sequence: id, correlations: self.correlations.insert(id, value) }
    }

    /// The table with whatever waited under `id` taken out.
    pub open spec fn get(self, id: u64) -> CorrelatorView<T> {
        CorrelatorView { sequence: self.sequence, correlations: self.correlations.remove(id) }
    }

    /// What waits under `id`.
    pub open spec fn waiting(self, id: u64) -> Option<T> {
        if self.correlations.contains_key(id) {
            Some(self.correlations[id])
        } else {
            None
        }
    }
}

impl<T> Correlator<T> {
    /// An empty table that has given out no id yet.
    pub fn new() -> (correlator: Correlator<T>)
        ensures
            correlator@.sequence == 0,
            correlator@.correlations == Map::<u64, T>::empty(),
            correlator@.well_formed(),
    {
        Correlator { sequence: 0, correlations: HashMap::new() }
    }

    /// An empty table whose first id follows `base`.
    pub fn starting_after(base: u64) -> (correlator: Correlator<T>)
        ensures
            correlator@.sequence == base,
            correlator@.correlations == Map::<u64, T>::empty(),
            correlator@.well_formed(),
    {
        Correlator { sequence: base, correlations: HashMap::new() }
    }

    /// The last id given out.
    pub fn sequence(&self) -> (sequence: u64)
        ensures
            sequence == self@.sequence,
    {
        self.sequence
    }

    /// Puts `value` down under the next id and gives that id out. The ids
    /// of one table grow by one each time; the table is not meant to outlive
    /// its last id.
    pub fn set(&mut self, value: T) -> (id: u64)
        requires
            old(self)@.sequence < u64::MAX,
        ensures
            id == old(self)@.sequence + 1,
            final(self)@ == old(self)@.set(value),
            old(self)@.well_formed() ==> final(self)@.well_formed()
                && !old(self)@.correlations.contains_key(id),
    {
        let id = self.sequence + 1;
        proof {
            if self@.well_formed() {
                assert(!self@.correlations.contains_key(id));
            }
        }
        self.sequence = id;
        self.correlations.insert(id, value);
        id
    }

    /// Hands out what waits under `sequence` and forgets it, whether it is
    /// used or dropped.
    pub fn get(&mut self, sequence: &u64) -> (value: Option<T>)
        ensures
            value == old(self)@.waiting(*sequence),
            final(self)@ == old(self)@.get(*sequence),
            old(self)@.well_formed() ==> final(self)@.well_formed(),
    {
        self.correlations.remove(sequence)
    }
}

/// The table after `values` were put down one after another.
pub open spec fn set_all<T>(table: CorrelatorView<T>, values: Seq<T>) -> CorrelatorView<T>
    decreases values.len(),
{
    if values.len() == 0 {
        table
    } else {
        set_all(table, values.drop_last()).set(values.last())
    }
}

/// The table after `ids` were asked for one after another.
pub open spec fn get_all<T>(table: CorrelatorView<T>, ids: Seq<u64>) -> CorrelatorView<T>
    decreases ids.len(),
{
    if ids.len() == 0 {
        table
    } else {
        get_all(table, ids.drop_last()).get(ids.last())
    }
}

/// Putting values down gives them the ids that follow the last one, in
/// order, and touches nothing that waited before.
pub proof fn lemma_set_all<T>(table: CorrelatorView<T>, values: Seq<T>)
    requires
        table.well_formed(),
        table.sequence + values.len() <= u64::MAX,
    ensures
        set_all(table, values).well_formed(),
        set_all(table, values).sequence == table.sequence + values.len(),
        forall|i: int|
            0 <= i < values.len() ==> set_all(table, values).waiting(
                (table.sequence + 1 + i) as u64,
            ) == Some(#[trigger] values[i]),
        forall|id: u64|
            id <= table.sequence ==> #[trigger] set_all(table, values).waiting(id)
                == table.waiting(id),
    decreases values.len(),
{
    if values.len() > 0 {
        let front = values.drop_last();
        lemma_set_all(table, front);
        let before = set_all(table, front);
        let after = before.set(values.last());
        assert forall|i: int| 0 <= i < values.len() implies after.waiting(
            (table.sequence + 1 + i) as u64,
        ) == Some(#[trigger] values[i]) by {
            if i < front.len() {
                assert(front[i] == values[i]);
            }
        }
        assert forall|id: u64| id <= table.sequence implies #[trigger] after.waiting(id)
            == table.waiting(id) by {
            assert(before.waiting(id) == table.waiting(id));
        }
    }
}

/// Asking for ids leaves what waits under every other id as it was.
pub proof fn lemma_get_all<T>(table: CorrelatorView<T>, ids: Seq<u64>, id: u64)
    requires
        !ids.contains(id),
    ensures
        get_all(table, ids).waiting(id) == table.waiting(id),
    decreases ids.len(),
{
    if ids.len() > 0 {
        let front = ids.drop_last();
        assert(!front.contains(id)) by {
            if front.contains(id) {
                let at = choose|at: int| 0 <= at < front.len() && front[at] == id;
                assert(ids[at] == id);
            }
        }
        assert(ids.last() != id) by {
            assert(ids[ids.len() - 1] == ids.last());
        }
        lemma_get_all(table, front, id);
    }
}

/// Responses reach the requests they answer, in whatever order they
/// arrive. After a batch of values was put down, the value that was put
/// down as the `i`-th waits under the `i`-th id given out, whichever other
/// ids were asked for in the meantime and in whichever order; it is handed
/// out to the first who asks for that id, and to no one after.
pub proof fn lemma_correlation_matching<T>(
    table: CorrelatorView<T>,
    values: Seq<T>,
    earlier: Seq<u64>,
    i: int,
)
    requires
        table.well_formed(),
        table.sequence + values.len() <= u64::MAX,
        0 <= i < values.len(),
        !earlier.contains((table.sequence + 1 + i) as u64),
    ensures
        ({
            let id = (table.sequence + 1 + i) as u64;
            let arrived = get_all(set_all(table, values), earlier);
            &&& arrived.waiting(id) == Some(values[i])
            &&& arrived.get(id).waiting(id) == None::<T>
        }),
{
    let id = (table.sequence + 1 + i) as u64;
    lemma_set_all(table, values);
    lemma_get_all(set_all(table, values), earlier, id);
}

/// A response whose id was never given out, or was asked for before, finds
/// nothing waiting.
pub proof fn lemma_no_crosstalk<T>(table: CorrelatorView<T>, id: u64)
    requires
        table.well_formed(),
    ensures
        id > table.sequence ==> table.waiting(id) == None::<T>,
        table.get(id).waiting(id) == None::<T>,
{
}

} // verus!
