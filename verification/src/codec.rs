//! How values stand on the wire: fixed-width numbers, strings with their
//! length before them, optionals behind a null flag, sequences behind their
//! count.

use vstd::prelude::*;
use vstd::utf8::decode_utf8;
use vstd::utf8::encode_utf8;
use vstd::utf8::valid_utf8;
use vstd::utf8::encode_utf8_decode_utf8;
use vstd::utf8::encode_utf8_valid_utf8;
use vstd::string::StringSliceAdditionalSpecFns;
use core::str::Utf8Error;
use crate::bytes::Readable;
use crate::bytes::Writeable;
use crate::bytes::bool_byte;
use crate::bytes::le_bytes;
use crate::bytes::le_value;
use crate::bytes::lemma_le_bytes_len;
use crate::bytes::lemma_le_round_trip;
use crate::bytes::parse_bool;
use crate::bytes::parse_i32;
use crate::bytes::parse_i64;
use crate::bytes::parse_slice;
use crate::bytes::parse_u16;
use crate::bytes::parse_u32;
use crate::bytes::parse_u64;
use crate::bytes::parse_u8;
use crate::bytes::radix;
use crate::bytes::to_unsigned;
use crate::error::HazelcastClientError;
use crate::error::Violation;

verus! {

/// How the result of a write and the buffer behind it answer to the value
/// written: where the value fits the wire, its bytes were appended; where it
/// does not, the write was refused and the buffer is as it was.
pub open spec fn write_outcome(
    fits: bool,
    wire: Seq<u8>,
    before: Seq<u8>,
    result: Result<(), HazelcastClientError>,
    after: Seq<u8>,
) -> bool {
    if fits {
        result is Ok && after == before + wire
    } else {
        result == Err::<(), HazelcastClientError>(
            HazelcastClientError::ProtocolViolation(Violation::LengthOverflow),
        ) && after == before
    }
}

/// How the result of a read and the bytes left behind it answer to what the
/// format finds in the bytes that were there: a value with the view found
/// and the bytes behind it, or the violation and nothing left to read.
pub open spec fn decoded<T: DeepView>(
    found: Result<(T::V, Seq<u8>), Violation>,
    result: Result<T, HazelcastClientError>,
    left: Seq<u8>,
) -> bool {
    match found {
        Ok((value, rest)) => result is Ok && result->Ok_0.deep_view() == value && left == rest,
        Err(violation) => result == Err::<T, HazelcastClientError>(
            HazelcastClientError::ProtocolViolation(violation),
        ) && left.len() == 0,
    }
}

/// A value that can be written on the wire.
pub trait Writer: DeepView {
    /// The bytes that stand for `value`.
    spec fn wire(value: Self::V) -> Seq<u8>;

    /// Whether every length in `value` fits the 32 bits the wire has for it.
    spec fn fits(value: Self::V) -> bool;

    /// Appends the bytes of the value to `writeable`, or refuses a value
    /// that does not fit and leaves `writeable` as it was.
    fn write_to(&self, writeable: &mut Writeable) -> (result: Result<(), HazelcastClientError>)
        ensures
            write_outcome(
                Self::fits(self.deep_view()),
                Self::wire(self.deep_view()),
                old(writeable)@,
                result,
                final(writeable)@,
            ),
    ;
}

/// A value that can be read off the wire.
pub trait Reader: DeepView + Sized {
    /// What the format finds at the front of `bytes`: the value and the
    /// bytes behind it, or how the bytes break the format.
    spec fn parse(bytes: Seq<u8>) -> Result<(Self::V, Seq<u8>), Violation>;

    /// Reads one value off the front of `readable`. A failure is final: it
    /// leaves nothing to read.
    fn read_from(readable: &mut Readable) -> (result: Result<Self, HazelcastClientError>)
        ensures
            decoded(Self::parse(old(readable)@), result, final(readable)@),
    ;
}

/// A value that can be both written and read, and is read as it was written.
pub trait Codec: Writer + Reader {
    /// Reading the bytes of a value that fits the wire, whatever follows
    /// them, finds that value and leaves what follows.
    proof fn round_trip(value: Self::V, rest: Seq<u8>)
        requires
            Self::fits(value),
        ensures
            Self::parse(Self::wire(value) + rest) == Ok::<(Self::V, Seq<u8>), Violation>(
                (value, rest),
            ),
    ;
}

impl Writer for bool {
    open spec fn wire(value: bool) -> Seq<u8> {
        seq![bool_byte(value)]
    }

    open spec fn fits(value: bool) -> bool {
        true
    }

    fn write_to(&self, writeable: &mut Writeable) -> (result: Result<(), HazelcastClientError>) {
        writeable.write_bool(*self);
        assert(writeable@ =~= old(writeable)@ + seq![bool_byte(*self)]);
        Ok(())
    }
}

impl Reader for bool {
    open spec fn parse(bytes: Seq<u8>) -> Result<(bool, Seq<u8>), Violation> {
        parse_bool(bytes)
    }

    fn read_from(readable: &mut Readable) -> (result: Result<bool, HazelcastClientError>) {
        readable.read_bool()
    }
}

impl Codec for bool {
    proof fn round_trip(value: bool, rest: Seq<u8>) {
        assert((seq![bool_byte(value)] + rest).skip(1) =~= rest);
    }
}

impl Writer for u8 {
    open spec fn wire(value: u8) -> Seq<u8> {
        seq![value]
    }

    open spec fn fits(value: u8) -> bool {
        true
    }

    fn write_to(&self, writeable: &mut Writeable) -> (result: Result<(), HazelcastClientError>) {
        writeable.write_u8(*self);
        assert(writeable@ =~= old(writeable)@ + seq![*self]);
        Ok(())
    }
}

impl Reader for u8 {
    open spec fn parse(bytes: Seq<u8>) -> Result<(u8, Seq<u8>), Violation> {
        parse_u8(bytes)
    }

    fn read_from(readable: &mut Readable) -> (result: Result<u8, HazelcastClientError>) {
        readable.read_u8()
    }
}

impl Codec for u8 {
    proof fn round_trip(value: u8, rest: Seq<u8>) {
        reveal_with_fuel(le_value, 2);
        let wire = seq![value];
        assert((wire + rest).take(1) =~= wire);
        assert((wire + rest).skip(1) =~= rest);
        assert(wire.skip(1) =~= Seq::<u8>::empty());
    }
}

impl Writer for u16 {
    open spec fn wire(value: u16) -> Seq<u8> {
        le_bytes(value as nat, 2)
    }

    open spec fn fits(value: u16) -> bool {
        true
    }

    fn write_to(&self, writeable: &mut Writeable) -> (result: Result<(), HazelcastClientError>) {
        writeable.write_u16(*self);
        Ok(())
    }
}

impl Reader for u16 {
    open spec fn parse(bytes: Seq<u8>) -> Result<(u16, Seq<u8>), Violation> {
        parse_u16(bytes)
    }

    fn read_from(readable: &mut Readable) -> (result: Result<u16, HazelcastClientError>) {
        readable.read_u16()
    }
}

impl Codec for u16 {
    proof fn round_trip(value: u16, rest: Seq<u8>) {
        reveal_with_fuel(radix, 3);
        lemma_le_round_trip(value as nat, 2);
        let wire = le_bytes(value as nat, 2);
        assert((wire + rest).take(2) =~= wire);
        assert((wire + rest).skip(2) =~= rest);
    }
}

impl Writer for u32 {
    open spec fn wire(value: u32) -> Seq<u8> {
        le_bytes(value as nat, 4)
    }

    open spec fn fits(value: u32) -> bool {
        true
    }

    fn write_to(&self, writeable: &mut Writeable) -> (result: Result<(), HazelcastClientError>) {
        writeable.write_u32(*self);
        Ok(())
    }
}

impl Reader for u32 {
    open spec fn parse(bytes: Seq<u8>) -> Result<(u32, Seq<u8>), Violation> {
        parse_u32(bytes)
    }

    fn read_from(readable: &mut Readable) -> (result: Result<u32, HazelcastClientError>) {
        readable.read_u32()
    }
}

impl Codec for u32 {
    proof fn round_trip(value: u32, rest: Seq<u8>) {
        reveal_with_fuel(radix, 5);
        lemma_le_round_trip(value as nat, 4);
        let wire = le_bytes(value as nat, 4);
        assert((wire + rest).take(4) =~= wire);
        assert((wire + rest).skip(4) =~= rest);
    }
}

impl Writer for i32 {
    open spec fn wire(value: i32) -> Seq<u8> {
        le_bytes(to_unsigned(value as int, 4), 4)
    }

    open spec fn fits(value: i32) -> bool {
        true
    }

    fn write_to(&self, writeable: &mut Writeable) -> (result: Result<(), HazelcastClientError>) {
        writeable.write_i32(*self);
        Ok(())
    }
}

impl Reader for i32 {
    open spec fn parse(bytes: Seq<u8>) -> Result<(i32, Seq<u8>), Violation> {
        parse_i32(bytes)
    }

    fn read_from(readable: &mut Readable) -> (result: Result<i32, HazelcastClientError>) {
        readable.read_i32()
    }
}

impl Codec for i32 {
    proof fn round_trip(value: i32, rest: Seq<u8>) {
        reveal_with_fuel(radix, 5);
        let raw = to_unsigned(value as int, 4);
        lemma_le_round_trip(raw, 4);
        let wire = le_bytes(raw, 4);
        assert((wire + rest).take(4) =~= wire);
        assert((wire + rest).skip(4) =~= rest);
    }
}

impl Writer for u64 {
    open spec fn wire(value: u64) -> Seq<u8> {
        le_bytes(value as nat, 8)
    }

    open spec fn fits(value: u64) -> bool {
        true
    }

    fn write_to(&self, writeable: &mut Writeable) -> (result: Result<(), HazelcastClientError>) {
        writeable.write_u64(*self);
        Ok(())
    }
}

impl Reader for u64 {
    open spec fn parse(bytes: Seq<u8>) -> Result<(u64, Seq<u8>), Violation> {
        parse_u64(bytes)
    }

    fn read_from(readable: &mut Readable) -> (result: Result<u64, HazelcastClientError>) {
        readable.read_u64()
    }
}

impl Codec for u64 {
    proof fn round_trip(value: u64, rest: Seq<u8>) {
        reveal_with_fuel(radix, 9);
        lemma_le_round_trip(value as nat, 8);
        let wire = le_bytes(value as nat, 8);
        assert((wire + rest).take(8) =~= wire);
        assert((wire + rest).skip(8) =~= rest);
    }
}

impl Writer for i64 {
    open spec fn wire(value: i64) -> Seq<u8> {
        le_bytes(to_unsigned(value as int, 8), 8)
    }

    open spec fn fits(value: i64) -> bool {
        true
    }

    fn write_to(&self, writeable: &mut Writeable) -> (result: Result<(), HazelcastClientError>) {
        writeable.write_i64(*self);
        Ok(())
    }
}

impl Reader for i64 {
    open spec fn parse(bytes: Seq<u8>) -> Result<(i64, Seq<u8>), Violation> {
        parse_i64(bytes)
    }

    fn read_from(readable: &mut Readable) -> (result: Result<i64, HazelcastClientError>) {
        readable.read_i64()
    }
}

impl Codec for i64 {
    proof fn round_trip(value: i64, rest: Seq<u8>) {
        reveal_with_fuel(radix, 9);
        let raw = to_unsigned(value as int, 8);
        lemma_le_round_trip(raw, 8);
        let wire = le_bytes(raw, 8);
        assert((wire + rest).take(8) =~= wire);
        assert((wire + rest).skip(8) =~= rest);
    }
}

impl<T: Writer> Writer for Option<T> {
    open spec fn wire(value: Option<T::V>) -> Seq<u8> {
        match value {
            Some(inner) => seq![0u8] + T::wire(inner),
            None => seq![1u8],
        }
    }

    open spec fn fits(value: Option<T::V>) -> bool {
        match value {
            Some(inner) => T::fits(inner),
            None => true,
        }
    }

    fn write_to(&self, writeable: &mut Writeable) -> (result: Result<(), HazelcastClientError>) {
        match self {
            Some(inner) => {
                let mark = writeable.len();
                writeable.write_bool(false);
                match inner.write_to(writeable) {
                    Ok(()) => {
                        assert(writeable@ =~= old(writeable)@ + (seq![0u8] + T::wire(
                            inner.deep_view(),
                        )));
                        Ok(())
                    },
                    Err(error) => {
                        writeable.truncate(mark);
                        assert(writeable@ =~= old(writeable)@);
                        Err(error)
                    },
                }
            },
            None => {
                writeable.write_bool(true);
                assert(writeable@ =~= old(writeable)@ + seq![1u8]);
                Ok(())
            },
        }
    }
}

impl<T: Reader> Reader for Option<T> {
    open spec fn parse(bytes: Seq<u8>) -> Result<(Option<T::V>, Seq<u8>), Violation> {
        match parse_bool(bytes) {
            Err(violation) => Err(violation),
            Ok((absent, rest)) => if absent {
                Ok((None, rest))
            } else {
                match T::parse(rest) {
                    Err(violation) => Err(violation),
                    Ok((inner, rest)) => Ok((Some(inner), rest)),
                }
            },
        }
    }

    fn read_from(readable: &mut Readable) -> (result: Result<Option<T>, HazelcastClientError>) {
        if readable.read_bool()? {
            Ok(None)
        } else {
            Ok(Some(T::read_from(readable)?))
        }
    }
}

impl<T: Codec> Codec for Option<T> {
    proof fn round_trip(value: Option<T::V>, rest: Seq<u8>) {
        match value {
            Some(inner) => {
                T::round_trip(inner, rest);
                let bytes = seq![0u8] + T::wire(inner) + rest;
                assert(bytes.skip(1) =~= T::wire(inner) + rest);
            },
            None => {
                assert((seq![1u8] + rest).skip(1) =~= rest);
            },
        }
    }
}

/// The error of `core::str::from_utf8`. Nothing is read from it.
#[verifier::external_type_specification]
#[verifier::external_body]
pub struct ExUtf8Error(Utf8Error);

/// `core::str::from_utf8` accepts exactly the byte slices that are UTF-8,
/// and the string slice it hands back has the bytes it was given.
pub assume_specification[ core::str::from_utf8 ](v: &[u8]) -> (result: Result<&str, Utf8Error>)
    ensures
        result is Ok <==> valid_utf8(v@),
        result is Ok ==> result->Ok_0.spec_bytes() == v@,
;

/// The bytes that stand for a string: the count of its UTF-8 bytes on four
/// bytes, then those bytes.
pub open spec fn wire_string(value: Seq<char>) -> Seq<u8> {
    le_bytes(encode_utf8(value).len(), 4) + encode_utf8(value)
}

/// Whether the UTF-8 bytes of a string can be counted on 32 bits.
pub open spec fn fits_string(value: Seq<char>) -> bool {
    encode_utf8(value).len() <= u32::MAX
}

/// What reading a string finds in `bytes`.
pub open spec fn parse_string(bytes: Seq<u8>) -> Result<(Seq<char>, Seq<u8>), Violation> {
    match parse_u32(bytes) {
        Err(violation) => Err(violation),
        Ok((len, rest)) => match parse_slice(rest, len as nat) {
            Err(violation) => Err(violation),
            Ok((raw, rest)) => if valid_utf8(raw) {
                Ok((decode_utf8(raw), rest))
            } else {
                Err(Violation::InvalidUtf8)
            },
        },
    }
}

/// Reading the bytes of a string that fits the wire finds that string.
pub proof fn lemma_string_round_trip(value: Seq<char>, rest: Seq<u8>)
    requires
        fits_string(value),
    ensures
        parse_string(wire_string(value) + rest) == Ok::<(Seq<char>, Seq<u8>), Violation>(
            (value, rest),
        ),
{
    let raw = encode_utf8(value);
    let prefix = le_bytes(raw.len(), 4);
    reveal_with_fuel(radix, 5);
    lemma_le_round_trip(raw.len(), 4);
    let bytes = wire_string(value) + rest;
    assert(bytes.take(4) =~= prefix);
    assert(bytes.skip(4) =~= raw + rest);
    assert((raw + rest).take(raw.len() as int) =~= raw);
    assert((raw + rest).skip(raw.len() as int) =~= rest);
    encode_utf8_valid_utf8(value);
    encode_utf8_decode_utf8(value);
}

impl Writer for str {
    open spec fn wire(value: Seq<char>) -> Seq<u8> {
        wire_string(value)
    }

    open spec fn fits(value: Seq<char>) -> bool {
        fits_string(value)
    }

    fn write_to(&self, writeable: &mut Writeable) -> (result: Result<(), HazelcastClientError>) {
        let raw = self.as_bytes();
        let len = raw.len();
        assert(self.deep_view() == self@);
        assert(Self::fits(self@) == fits_string(self@));
        assert(Self::wire(self@) == wire_string(self@));
        if len > u32::MAX as usize {
            return Err(HazelcastClientError::ProtocolViolation(Violation::LengthOverflow));
        }
        writeable.write_u32(len as u32);
        writeable.write_slice(raw);
        assert(writeable@ =~= old(writeable)@ + wire_string(self@));
        Ok(())
    }
}

impl Writer for String {
    open spec fn wire(value: Seq<char>) -> Seq<u8> {
        wire_string(value)
    }

    open spec fn fits(value: Seq<char>) -> bool {
        fits_string(value)
    }

    fn write_to(&self, writeable: &mut Writeable) -> (result: Result<(), HazelcastClientError>) {
        self.as_str().write_to(writeable)
    }
}

impl Reader for String {
    open spec fn parse(bytes: Seq<u8>) -> Result<(Seq<char>, Seq<u8>), Violation> {
        parse_string(bytes)
    }

    fn read_from(readable: &mut Readable) -> (result: Result<String, HazelcastClientError>) {
        let len = readable.read_u32()?;
        let raw = readable.read_slice(len as usize)?;
        match core::str::from_utf8(raw) {
            Ok(text) => {
                proof {
                    encode_utf8_decode_utf8(text@);
                }
                Ok(text.to_owned())
            },
            Err(_) => {
                readable.drain();
                Err(HazelcastClientError::ProtocolViolation(Violation::InvalidUtf8))
            },
        }
    }
}

impl Codec for String {
    proof fn round_trip(value: Seq<char>, rest: Seq<u8>) {
        lemma_string_round_trip(value, rest);
    }
}

impl<T: Writer + ?Sized> Writer for &T {
    open spec fn wire(value: T::V) -> Seq<u8> {
        T::wire(value)
    }

    open spec fn fits(value: T::V) -> bool {
        T::fits(value)
    }

    fn write_to(&self, writeable: &mut Writeable) -> (result: Result<(), HazelcastClientError>) {
        (**self).write_to(writeable)
    }
}

/// The bytes of `items`, one after another.
pub open spec fn wire_items<T: Writer>(items: Seq<T::V>) -> Seq<u8>
    decreases items.len(),
{
    if items.len() == 0 {
        Seq::empty()
    } else {
        wire_items::<T>(items.drop_last()) + T::wire(items.last())
    }
}

/// Whether each of `items` fits the wire.
pub open spec fn fit_items<T: Writer>(items: Seq<T::V>) -> bool {
    forall|i: int| 0 <= i < items.len() ==> T::fits(#[trigger] items[i])
}

/// What reading `count` values one after another finds in `bytes`: the
/// values and the bytes behind the last of them, or the violation of the
/// first value that cannot be read.
pub open spec fn parse_items<T: Reader>(bytes: Seq<u8>, count: nat) -> Result<
    (Seq<T::V>, Seq<u8>),
    Violation,
>
    decreases count,
{
    if count == 0 {
        Ok((Seq::empty(), bytes))
    } else {
        match parse_items::<T>(bytes, (count - 1) as nat) {
            Err(violation) => Err(violation),
            Ok((items, rest)) => match T::parse(rest) {
                Err(violation) => Err(violation),
                Ok((last, rest)) => Ok((items.push(last), rest)),
            },
        }
    }
}

/// Once a value cannot be read, asking for more values fails the same way.
pub proof fn lemma_parse_items_fails<T: Reader>(bytes: Seq<u8>, at: nat, count: nat)
    requires
        at <= count,
        parse_items::<T>(bytes, at) is Err,
    ensures
        parse_items::<T>(bytes, count) == parse_items::<T>(bytes, at),
    decreases count,
{
    if at < count {
        lemma_parse_items_fails::<T>(bytes, at, (count - 1) as nat);
    }
}

/// Reading as many values as were written, from their bytes and whatever
/// follows, finds those values and leaves what follows.
pub proof fn lemma_items_round_trip<T: Codec>(items: Seq<T::V>, rest: Seq<u8>)
    requires
        fit_items::<T>(items),
    ensures
        parse_items::<T>(wire_items::<T>(items) + rest, items.len()) == Ok::<
            (Seq<T::V>, Seq<u8>),
            Violation,
        >((items, rest)),
    decreases items.len(),
{
    if items.len() > 0 {
        let front = items.drop_last();
        let last = items.last();
        assert forall|i: int| 0 <= i < front.len() implies T::fits(#[trigger] front[i]) by {
            assert(front[i] == items[i]);
        }
        lemma_items_round_trip::<T>(front, T::wire(last) + rest);
        T::round_trip(last, rest);
        assert(wire_items::<T>(items) + rest =~= wire_items::<T>(front) + (T::wire(last) + rest));
        assert(front.push(last) =~= items);
    } else {
        assert(wire_items::<T>(items) + rest =~= rest);
        assert(items =~= Seq::<T::V>::empty());
    }
}

/// The bytes that stand for a sequence: the count of its items on four
/// bytes, then the items.
pub open spec fn wire_sequence<T: Writer>(items: Seq<T::V>) -> Seq<u8> {
    le_bytes(items.len(), 4) + wire_items::<T>(items)
}

/// Whether a sequence fits the wire: its count on 32 bits, and each item.
pub open spec fn fits_sequence<T: Writer>(items: Seq<T::V>) -> bool {
    items.len() <= u32::MAX && fit_items::<T>(items)
}

/// What reading a sequence finds in `bytes`.
pub open spec fn parse_sequence<T: Reader>(bytes: Seq<u8>) -> Result<
    (Seq<T::V>, Seq<u8>),
    Violation,
> {
    match parse_u32(bytes) {
        Err(violation) => Err(violation),
        Ok((count, rest)) => parse_items::<T>(rest, count as nat),
    }
}

/// Reading the bytes of a sequence that fits the wire finds that sequence.
pub proof fn lemma_sequence_round_trip<T: Codec>(items: Seq<T::V>, rest: Seq<u8>)
    requires
        fits_sequence::<T>(items),
    ensures
        parse_sequence::<T>(wire_sequence::<T>(items) + rest) == Ok::<
            (Seq<T::V>, Seq<u8>),
            Violation,
        >((items, rest)),
{
    let prefix = le_bytes(items.len(), 4);
    let body = wire_items::<T>(items);
    reveal_with_fuel(radix, 5);
    lemma_le_round_trip(items.len(), 4);
    let bytes = wire_sequence::<T>(items) + rest;
    assert(bytes.take(4) =~= prefix);
    assert(bytes.skip(4) =~= body + rest);
    lemma_items_round_trip::<T>(items, rest);
}

impl<T: Writer> Writer for [T] {
    open spec fn wire(value: Seq<T::V>) -> Seq<u8> {
        wire_sequence::<T>(value)
    }

    open spec fn fits(value: Seq<T::V>) -> bool {
        fits_sequence::<T>(value)
    }

    fn write_to(&self, writeable: &mut Writeable) -> (result: Result<(), HazelcastClientError>) {
        let len = self.len();
        let ghost before = writeable@;
        let ghost items = self.deep_view();
        assert(items.len() == len);
        assert(Self::fits(items) == fits_sequence::<T>(items));
        assert(Self::wire(items) == wire_sequence::<T>(items));
        if len > u32::MAX as usize {
            return Err(HazelcastClientError::ProtocolViolation(Violation::LengthOverflow));
        }
        let mark = writeable.len();
        writeable.write_u32(len as u32);
        let mut i: usize = 0;
        while i < len
            invariant
                i <= len,
                len == self@.len(),
                len <= u32::MAX,
                items == self.deep_view(),
                items.len() == len,
                mark == before.len(),
                before == old(writeable)@,
                fit_items::<T>(items.take(i as int)),
                writeable@ == before + le_bytes(len as nat, 4) + wire_items::<T>(
                    items.take(i as int),
                ),
            decreases len - i,
        {
            match self[i].write_to(writeable) {
                Ok(()) => {
                    proof {
                        let next = items.take(i + 1);
                        assert(next.drop_last() =~= items.take(i as int));
                        assert(next.last() == self@[i as int].deep_view());
                        assert(writeable@ =~= before + le_bytes(len as nat, 4) + wire_items::<T>(
                            next,
                        ));
                        assert forall|j: int| 0 <= j < next.len() implies T::fits(
                            #[trigger] next[j],
                        ) by {
                            if j < i {
                                assert(items.take(i as int)[j] == next[j]);
                            }
                        }
                    }
                },
                Err(error) => {
                    writeable.truncate(mark);
                    proof {
                        assert(writeable@ =~= before);
                        assert(items[i as int] == self@[i as int].deep_view());
                        assert(!T::fits(items[i as int]));
                    }
                    return Err(error);
                },
            }
            i = i + 1;
        }
        proof {
            assert(items.take(len as int) =~= items);
            assert(writeable@ =~= before + wire_sequence::<T>(items));
        }
        Ok(())
    }
}

impl<T: Writer> Writer for Vec<T> {
    open spec fn wire(value: Seq<T::V>) -> Seq<u8> {
        wire_sequence::<T>(value)
    }

    open spec fn fits(value: Seq<T::V>) -> bool {
        fits_sequence::<T>(value)
    }

    fn write_to(&self, writeable: &mut Writeable) -> (result: Result<(), HazelcastClientError>) {
        let slice = self.as_slice();
        assert(slice.deep_view() =~= self.deep_view());
        slice.write_to(writeable)
    }
}

impl<T: Reader> Reader for Vec<T> {
    open spec fn parse(bytes: Seq<u8>) -> Result<(Seq<T::V>, Seq<u8>), Violation> {
        parse_sequence::<T>(bytes)
    }

    fn read_from(readable: &mut Readable) -> (result: Result<Vec<T>, HazelcastClientError>) {
        let count = readable.read_u32()?;
        let ghost start = readable@;
        let mut items: Vec<T> = Vec::new();
        let mut i: u32 = 0;
        assert(items.deep_view() =~= Seq::<T::V>::empty());
        while i < count
            invariant
                i <= count,
                parse_u32(old(readable)@) == Ok::<(u32, Seq<u8>), Violation>((count, start)),
                parse_items::<T>(start, i as nat) == Ok::<(Seq<T::V>, Seq<u8>), Violation>(
                    (items.deep_view(), readable@),
                ),
            decreases count - i,
        {
            let ghost front = items.deep_view();
            match T::read_from(readable) {
                Ok(item) => {
                    items.push(item);
                    assert(items.deep_view() =~= front.push(item.deep_view()));
                },
                Err(error) => {
                    proof {
                        assert(parse_items::<T>(start, (i + 1) as nat) is Err);
                        lemma_parse_items_fails::<T>(start, (i + 1) as nat, count as nat);
                    }
                    return Err(error);
                },
            }
            i = i + 1;
        }
        Ok(items)
    }
}

impl<T: Codec> Codec for Vec<T> {
    proof fn round_trip(value: Seq<T::V>, rest: Seq<u8>) {
        lemma_sequence_round_trip::<T>(value, rest);
    }
}

/// Whatever is written is read back: the bytes of a value that fits the
/// wire, with whatever follows them, are read as that value, and what
/// follows is left.
pub proof fn lemma_round_trip<T: Codec>(value: T::V, rest: Seq<u8>)
    requires
        T::fits(value),
    ensures
        T::parse(T::wire(value) + rest) == Ok::<(T::V, Seq<u8>), Violation>((value, rest)),
{
    T::round_trip(value, rest);
}

/// The null flag is inverted: a value that is there stands behind one byte
/// 0, and a value that is not there is one byte 1.
pub proof fn lemma_optional_representation<T: Writer>(value: T::V)
    ensures
        Option::<T>::wire(Some(value)) == seq![0u8] + T::wire(value),
        Option::<T>::wire(None) == seq![1u8],
        Option::<T>::fits(Some(value)) == T::fits(value),
        Option::<T>::fits(None),
{
}

/// A sequence begins with the count of its items on four bytes, least
/// significant first, and goes on with its items.
pub proof fn lemma_sequence_length_prefix<T: Writer>(items: Seq<T::V>)
    ensures
        Vec::<T>::wire(items).len() >= 4,
        Vec::<T>::wire(items).subrange(0, 4) == le_bytes(items.len(), 4),
        Vec::<T>::wire(items).skip(4) == wire_items::<T>(items),
        items.len() <= u32::MAX ==> parse_u32(Vec::<T>::wire(items)) == Ok::<
            (u32, Seq<u8>),
            Violation,
        >((items.len() as u32, wire_items::<T>(items))),
{
    let prefix = le_bytes(items.len(), 4);
    let wire = Vec::<T>::wire(items);
    lemma_le_bytes_len(items.len(), 4);
    assert(wire.subrange(0, 4) =~= prefix);
    assert(wire.skip(4) =~= wire_items::<T>(items));
    if items.len() <= u32::MAX {
        reveal_with_fuel(radix, 5);
        lemma_le_round_trip(items.len(), 4);
        assert(wire.take(4) =~= prefix);
    }
}

} // verus!
