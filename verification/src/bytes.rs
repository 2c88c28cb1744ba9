//! Little-endian primitives over a growing byte buffer and over a byte view
//! that is consumed from the front.

use vstd::prelude::*;
use vstd::slice::slice_subrange;
use crate::error::HazelcastClientError;
use crate::error::Violation;

verus! {

/// The `width` bytes that stand for `value`, least significant first.
pub open spec fn le_bytes(value: nat, width: nat) -> Seq<u8>
    decreases width,
{
    if width == 0 {
        Seq::empty()
    } else {
        seq![(value % 256) as u8] + le_bytes(value / 256, (width - 1) as nat)
    }
}

/// The number that `bytes` stand for, least significant first.
pub open spec fn le_value(bytes: Seq<u8>) -> nat
    decreases bytes.len(),
{
    if bytes.len() == 0 {
        0
    } else {
        bytes[0] as nat + 256 * le_value(bytes.skip(1))
    }
}

/// The number of values that `width` bytes can tell apart.
pub open spec fn radix(width: nat) -> nat
    decreases width,
{
    if width == 0 {
        1
    } else {
        256 * radix((width - 1) as nat)
    }
}

/// A number stands on as many bytes as were asked for.
pub proof fn lemma_le_bytes_len(value: nat, width: nat)
    ensures
        le_bytes(value, width).len() == width,
    decreases width,
{
    if width > 0 {
        lemma_le_bytes_len(value / 256, (width - 1) as nat);
    }
}

/// The bytes of a number are those of the remainder by 256 followed by
/// those of the quotient.
pub proof fn lemma_le_bytes_step(value: nat, width: nat)
    requires
        width > 0,
    ensures
        le_bytes(value, width) == seq![(value % 256) as u8] + le_bytes(
            value / 256,
            (width - 1) as nat,
        ),
{
}

/// Eight bytes are the four bytes of the low half followed by the four
/// bytes of the high half.
pub proof fn lemma_le_bytes_split(value: nat)
    ensures
        le_bytes(value, 8) == le_bytes(value % 0x1_0000_0000, 4) + le_bytes(
            value / 0x1_0000_0000,
            4,
        ),
{
    let low = value % 0x1_0000_0000;
    let high = value / 0x1_0000_0000;
    let v1 = value / 256;
    let v2 = v1 / 256;
    let v3 = v2 / 256;
    let v4 = v3 / 256;
    let l1 = low / 256;
    let l2 = l1 / 256;
    let l3 = l2 / 256;
    assert(value % 256 == low % 256 && v1 % 256 == l1 % 256 && v2 % 256 == l2 % 256 && v3 % 256
        == l3 % 256 && v4 == high) by (nonlinear_arith)
        requires
            low == value % 0x1_0000_0000,
            high == value / 0x1_0000_0000,
            v1 == value / 256,
            v2 == v1 / 256,
            v3 == v2 / 256,
            v4 == v3 / 256,
            l1 == low / 256,
            l2 == l1 / 256,
            l3 == l2 / 256,
    ;
    reveal_with_fuel(le_bytes, 5);
    lemma_le_bytes_step(value, 8);
    lemma_le_bytes_step(v1, 7);
    lemma_le_bytes_step(v2, 6);
    lemma_le_bytes_step(v3, 5);
    assert(le_bytes(value, 8) =~= le_bytes(low, 4) + le_bytes(high, 4));
}

/// Writing a number on `width` bytes and reading those bytes gives the
/// number back, as long as it is below `radix(width)`.
pub proof fn lemma_le_round_trip(value: nat, width: nat)
    requires
        value < radix(width),
    ensures
        le_bytes(value, width).len() == width,
        le_value(le_bytes(value, width)) == value,
    decreases width,
{
    if width > 0 {
        let tail = le_bytes(value / 256, (width - 1) as nat);
        lemma_le_round_trip(value / 256, (width - 1) as nat);
        assert(le_bytes(value, width).skip(1) =~= tail);
    }
}

/// The number that bytes stand for is below the radix of their count, so
/// that it fits the integer type of that width.
pub proof fn lemma_le_value_bound(bytes: Seq<u8>)
    ensures
        le_value(bytes) < radix(bytes.len()),
    decreases bytes.len(),
{
    if bytes.len() > 0 {
        lemma_le_value_bound(bytes.skip(1));
    }
}

/// Eight bytes stand for the number of the first four plus 2^32 times the
/// number of the last four.
pub proof fn lemma_le_value_split(bytes: Seq<u8>)
    requires
        bytes.len() == 8,
    ensures
        le_value(bytes) == le_value(bytes.take(4)) + 0x1_0000_0000 * le_value(bytes.skip(4)),
{
    let low = bytes.take(4);
    let high = bytes.skip(4);
    reveal_with_fuel(le_value, 5);
    assert(low.skip(1).skip(1).skip(1).skip(1).len() == 0);
    assert(le_value(low) == low[0] + 256 * (low[1] + 256 * (low[2] + 256 * (low[3] as nat))));
    let tail = bytes.skip(1).skip(1).skip(1).skip(1);
    assert(tail =~= high);
    assert(le_value(bytes) == bytes[0] + 256 * (bytes[1] + 256 * (bytes[2] + 256 * (bytes[3]
        + 256 * le_value(tail)))));
}

/// The unsigned number whose `width` bytes stand for `value` in two's
/// complement.
pub open spec fn to_unsigned(value: int, width: nat) -> nat {
    if value < 0 {
        (value + radix(width)) as nat
    } else {
        value as nat
    }
}

/// The signed number that the `width` bytes of `raw` stand for in two's
/// complement.
pub open spec fn to_signed(raw: nat, width: nat) -> int {
    if 2 * raw >= radix(width) {
        raw - radix(width)
    } else {
        raw as int
    }
}

/// What reading `width` bytes as one number finds in `bytes`: the number and
/// the bytes behind it, or that too few bytes are left.
pub open spec fn parse_le(bytes: Seq<u8>, width: nat) -> Result<(nat, Seq<u8>), Violation> {
    if bytes.len() < width {
        Err(Violation::Truncated)
    } else {
        Ok((le_value(bytes.take(width as int)), bytes.skip(width as int)))
    }
}

/// What reading one flag finds in `bytes`: any byte but zero is `true`.
pub open spec fn parse_bool(bytes: Seq<u8>) -> Result<(bool, Seq<u8>), Violation> {
    if bytes.len() < 1 {
        Err(Violation::Truncated)
    } else {
        Ok((bytes[0] > 0, bytes.skip(1)))
    }
}

/// What cutting `len` bytes off the front finds in `bytes`.
pub open spec fn parse_slice(bytes: Seq<u8>, len: nat) -> Result<(Seq<u8>, Seq<u8>), Violation> {
    if bytes.len() < len {
        Err(Violation::Truncated)
    } else {
        Ok((bytes.take(len as int), bytes.skip(len as int)))
    }
}

/// What reading one byte finds in `bytes`.
pub open spec fn parse_u8(bytes: Seq<u8>) -> Result<(u8, Seq<u8>), Violation> {
    match parse_le(bytes, 1) {
        Ok((raw, rest)) => Ok((raw as u8, rest)),
        Err(violation) => Err(violation),
    }
}

/// What reading two bytes as a number finds in `bytes`.
pub open spec fn parse_u16(bytes: Seq<u8>) -> Result<(u16, Seq<u8>), Violation> {
    match parse_le(bytes, 2) {
        Ok((raw, rest)) => Ok((raw as u16, rest)),
        Err(violation) => Err(violation),
    }
}

/// What reading four bytes as a number finds in `bytes`.
pub open spec fn parse_u32(bytes: Seq<u8>) -> Result<(u32, Seq<u8>), Violation> {
    match parse_le(bytes, 4) {
        Ok((raw, rest)) => Ok((raw as u32, rest)),
        Err(violation) => Err(violation),
    }
}

/// What reading eight bytes as a number finds in `bytes`.
pub open spec fn parse_u64(bytes: Seq<u8>) -> Result<(u64, Seq<u8>), Violation> {
    match parse_le(bytes, 8) {
        Ok((raw, rest)) => Ok((raw as u64, rest)),
        Err(violation) => Err(violation),
    }
}

/// What reading four bytes as a number in two's complement finds in `bytes`.
pub open spec fn parse_i32(bytes: Seq<u8>) -> Result<(i32, Seq<u8>), Violation> {
    match parse_le(bytes, 4) {
        Ok((raw, rest)) => Ok((to_signed(raw, 4) as i32, rest)),
        Err(violation) => Err(violation),
    }
}

/// What reading eight bytes as a number in two's complement finds in `bytes`.
pub open spec fn parse_i64(bytes: Seq<u8>) -> Result<(i64, Seq<u8>), Violation> {
    match parse_le(bytes, 8) {
        Ok((raw, rest)) => Ok((to_signed(raw, 8) as i64, rest)),
        Err(violation) => Err(violation),
    }
}

/// The byte that stands for a flag.
pub open spec fn bool_byte(value: bool) -> u8 {
    if value {
        1
    } else {
        0
    }
}

/// How the result of a read and the bytes left behind it answer to what the
/// format finds in the bytes that were there: the value found and the bytes
/// behind it, or the violation and nothing left to read.
pub open spec fn read_outcome<T>(
    found: Result<(T, Seq<u8>), Violation>,
    result: Result<T, HazelcastClientError>,
    left: Seq<u8>,
) -> bool {
    match found {
        Ok((value, rest)) => result == Ok::<T, HazelcastClientError>(value) && left == rest,
        Err(violation) => result == Err::<T, HazelcastClientError>(
            HazelcastClientError::ProtocolViolation(violation),
        ) && left.len() == 0,
    }
}

/// A byte buffer that grows at its end.
pub struct Writeable {
    bytes: Vec<u8>,
}

impl View for Writeable {
    type V = Seq<u8>;

    closed spec fn view(&self) -> Seq<u8> {
        self.bytes@
    }
}

impl Writeable {
    /// An empty buffer.
    pub fn new() -> (writeable: Writeable)
        ensures
            writeable@ == Seq::<u8>::empty(),
    {
        Writeable { bytes: Vec::new() }
    }

    /// The number of bytes written so far.
    pub fn len(&self) -> (len: usize)
        ensures
            len == self@.len(),
    {
        self.bytes.len()
    }

    /// The bytes written so far.
    pub fn as_slice(&self) -> (bytes: &[u8])
        ensures
            bytes@ == self@,
    {
        self.bytes.as_slice()
    }

    /// Gives up the buffer for the bytes written.
    pub fn into_bytes(self) -> (bytes: Vec<u8>)
        ensures
            bytes@ == self@,
    {
        self.bytes
    }

    /// Drops what was written behind the first `len` bytes, if so many
    /// were written.
    pub fn truncate(&mut self, len: usize)
        ensures
            len <= old(self)@.len() ==> final(self)@ == old(self)@.take(len as int),
            len > old(self)@.len() ==> final(self)@ == old(self)@,
    {
        if len <= self.bytes.len() {
            self.bytes.truncate(len);
            assert(self@ =~= old(self)@.take(len as int));
        }
    }

    /// Appends one byte: 1 for `true`, 0 for `false`.
    pub fn write_bool(&mut self, value: bool)
        ensures
            final(self)@ == old(self)@.push(bool_byte(value)),
    {
        if value {
            self.bytes.push(1);
        } else {
            self.bytes.push(0);
        }
    }

    /// Appends one byte.
    pub fn write_u8(&mut self, value: u8)
        ensures
            final(self)@ == old(self)@.push(value),
    {
        self.bytes.push(value);
    }

    /// Appends the two bytes of `value`, least significant first.
    pub fn write_u16(&mut self, value: u16)
        ensures
            final(self)@ == old(self)@ + le_bytes(value as nat, 2),
    {
        self.bytes.push((value % 256) as u8);
        self.bytes.push((value / 256) as u8);
        proof {
            reveal_with_fuel(le_bytes, 3);
            assert(self@ =~= old(self)@ + le_bytes(value as nat, 2));
        }
    }

    /// Appends the four bytes of `value`, least significant first.
    pub fn write_u32(&mut self, value: u32)
        ensures
            final(self)@ == old(self)@ + le_bytes(value as nat, 4),
    {
        let second = value / 256;
        let third = second / 256;
        let fourth = third / 256;
        self.bytes.push((value % 256) as u8);
        self.bytes.push((second % 256) as u8);
        self.bytes.push((third % 256) as u8);
        self.bytes.push((fourth % 256) as u8);
        proof {
            reveal_with_fuel(le_bytes, 5);
            assert(self@ =~= old(self)@ + le_bytes(value as nat, 4));
        }
    }

    /// Appends the eight bytes of `value`, least significant first.
    pub fn write_u64(&mut self, value: u64)
        ensures
            final(self)@ == old(self)@ + le_bytes(value as nat, 8),
    {
        let low = (value % 0x1_0000_0000) as u32;
        let high = (value / 0x1_0000_0000) as u32;
        proof {
            lemma_le_bytes_split(value as nat);
        }
        self.write_u32(low);
        self.write_u32(high);
        assert(self@ =~= old(self)@ + le_bytes(value as nat, 8));
    }

    /// Appends the four bytes of `value` in two's complement, least
    /// significant first.
    pub fn write_i32(&mut self, value: i32)
        ensures
            final(self)@ == old(self)@ + le_bytes(to_unsigned(value as int, 4), 4),
    {
        proof {
            reveal_with_fuel(radix, 5);
        }
        let raw: u32 = if value < 0 {
            ((value - i32::MIN) as u32) + 0x8000_0000
        } else {
            value as u32
        };
        self.write_u32(raw);
    }

    /// Appends the eight bytes of `value` in two's complement, least
    /// significant first.
    pub fn write_i64(&mut self, value: i64)
        ensures
            final(self)@ == old(self)@ + le_bytes(to_unsigned(value as int, 8), 8),
    {
        proof {
            reveal_with_fuel(radix, 9);
        }
        let raw: u64 = if value < 0 {
            ((value - i64::MIN) as u64) + 0x8000_0000_0000_0000
        } else {
            value as u64
        };
        self.write_u64(raw);
    }

    /// Appends `value` as it is, with no length before it.
    pub fn write_slice(&mut self, value: &[u8])
        ensures
            final(self)@ == old(self)@ + value@,
    {
        self.bytes.extend_from_slice(value);
    }
}

/// A view of bytes that is consumed from the front. Its view is what is
/// left to read.
pub struct Readable<'a> {
    bytes: &'a [u8],
    position: usize,
}

impl<'a> View for Readable<'a> {
    type V = Seq<u8>;

    closed spec fn view(&self) -> Seq<u8> {
        self.bytes@.skip(self.position as int)
    }
}

impl<'a> Readable<'a> {
    #[verifier::type_invariant]
    spec fn well_formed(self) -> bool {
        self.position <= self.bytes@.len()
    }

    /// A view of all of `bytes`.
    pub fn new(bytes: &'a [u8]) -> (readable: Readable<'a>)
        ensures
            readable@ == bytes@,
    {
        let readable = Readable { bytes, position: 0 };
        assert(readable@ =~= bytes@);
        readable
    }

    /// The number of bytes left to read.
    pub fn remaining(&self) -> (len: usize)
        ensures
            len == self@.len(),
    {
        proof {
            use_type_invariant(self);
        }
        self.bytes.len() - self.position
    }

    /// Gives up what is left: nothing can be read afterwards.
    pub fn drain(&mut self)
        ensures
            final(self)@ == Seq::<u8>::empty(),
    {
        self.position = self.bytes.len();
        assert(self@ =~= Seq::<u8>::empty());
    }

    /// Reads one byte as a flag: any byte but zero is `true`.
    pub fn read_bool(&mut self) -> (result: Result<bool, HazelcastClientError>)
        ensures
            read_outcome(parse_bool(old(self)@), result, final(self)@),
    {
        proof {
            use_type_invariant(&*self);
        }
        if self.bytes.len() - self.position < 1 {
            self.drain();
            return Err(HazelcastClientError::ProtocolViolation(Violation::Truncated));
        }
        let byte = self.bytes[self.position];
        self.position = self.position + 1;
        assert(self@ =~= old(self)@.skip(1));
        Ok(byte > 0)
    }

    /// Reads one byte.
    pub fn read_u8(&mut self) -> (result: Result<u8, HazelcastClientError>)
        ensures
            read_outcome(parse_u8(old(self)@), result, final(self)@),
    {
        proof {
            use_type_invariant(&*self);
            reveal_with_fuel(le_value, 2);
        }
        if self.bytes.len() - self.position < 1 {
            self.drain();
            return Err(HazelcastClientError::ProtocolViolation(Violation::Truncated));
        }
        let at = self.position;
        let value = self.bytes[at];
        self.position = at + 1;
        assert(self@ =~= old(self)@.skip(1));
        Ok(value)
    }

    /// Reads two bytes as a number, least significant first.
    pub fn read_u16(&mut self) -> (result: Result<u16, HazelcastClientError>)
        ensures
            read_outcome(parse_u16(old(self)@), result, final(self)@),
    {
        proof {
            use_type_invariant(&*self);
            reveal_with_fuel(le_value, 3);
        }
        if self.bytes.len() - self.position < 2 {
            self.drain();
            return Err(HazelcastClientError::ProtocolViolation(Violation::Truncated));
        }
        let at = self.position;
        let value = self.bytes[at] as u16 + 0x100 * (self.bytes[at + 1] as u16);
        self.position = at + 2;
        assert(self@ =~= old(self)@.skip(2));
        Ok(value)
    }

    /// Reads four bytes as a number, least significant first.
    pub fn read_u32(&mut self) -> (result: Result<u32, HazelcastClientError>)
        ensures
            read_outcome(parse_u32(old(self)@), result, final(self)@),
    {
        proof {
            use_type_invariant(&*self);
            reveal_with_fuel(le_value, 5);
        }
        if self.bytes.len() - self.position < 4 {
            self.drain();
            return Err(HazelcastClientError::ProtocolViolation(Violation::Truncated));
        }
        let at = self.position;
        let third = self.bytes[at + 2] as u32 + 0x100 * (self.bytes[at + 3] as u32);
        let second = self.bytes[at + 1] as u32 + 0x100 * third;
        let value = self.bytes[at] as u32 + 0x100 * second;
        self.position = at + 4;
        assert(self@ =~= old(self)@.skip(4));
        Ok(value)
    }

    /// Reads eight bytes as a number, least significant first.
    pub fn read_u64(&mut self) -> (result: Result<u64, HazelcastClientError>)
        ensures
            read_outcome(parse_u64(old(self)@), result, final(self)@),
    {
        proof {
            use_type_invariant(&*self);
        }
        if self.bytes.len() - self.position < 8 {
            self.drain();
            return Err(HazelcastClientError::ProtocolViolation(Violation::Truncated));
        }
        let ghost bytes = self@;
        let low = match self.read_u32() {
            Ok(low) => low,
            Err(error) => {
                return Err(error);
            },
        };
        let high = match self.read_u32() {
            Ok(high) => high,
            Err(error) => {
                return Err(error);
            },
        };
        proof {
            lemma_le_value_split(bytes.take(8));
            lemma_le_value_bound(bytes.take(4));
            lemma_le_value_bound(bytes.skip(4).take(4));
            reveal_with_fuel(radix, 5);
            assert(bytes.take(8).take(4) =~= bytes.take(4));
            assert(bytes.take(8).skip(4) =~= bytes.skip(4).take(4));
            assert(bytes.skip(4).skip(4) =~= bytes.skip(8));
        }
        Ok(low as u64 + 0x1_0000_0000 * (high as u64))
    }

    /// Reads four bytes as a number in two's complement, least significant
    /// first.
    pub fn read_i32(&mut self) -> (result: Result<i32, HazelcastClientError>)
        ensures
            read_outcome(parse_i32(old(self)@), result, final(self)@),
    {
        proof {
            reveal_with_fuel(radix, 5);
            lemma_le_value_bound(self@.take(4));
        }
        let raw = self.read_u32()?;
        if raw >= 0x8000_0000 {
            Ok(((raw - 0x8000_0000) as i32) + i32::MIN)
        } else {
            Ok(raw as i32)
        }
    }

    /// Reads eight bytes as a number in two's complement, least significant
    /// first.
    pub fn read_i64(&mut self) -> (result: Result<i64, HazelcastClientError>)
        ensures
            read_outcome(parse_i64(old(self)@), result, final(self)@),
    {
        proof {
            reveal_with_fuel(radix, 9);
            lemma_le_value_bound(self@.take(8));
        }
        let raw = self.read_u64()?;
        if raw >= 0x8000_0000_0000_0000 {
            Ok(((raw - 0x8000_0000_0000_0000) as i64) + i64::MIN)
        } else {
            Ok(raw as i64)
        }
    }

    /// Cuts `len` bytes off the front and hands them out.
    pub fn read_slice(&mut self, len: usize) -> (result: Result<&'a [u8], HazelcastClientError>)
        ensures
            match parse_slice(old(self)@, len as nat) {
                Ok((slice, rest)) => result is Ok && result->Ok_0@ == slice && final(self)@ == rest,
                Err(violation) => result == Err::<&'a [u8], HazelcastClientError>(
                    HazelcastClientError::ProtocolViolation(violation),
                ) && final(self)@.len() == 0,
            },
    {
        proof {
            use_type_invariant(&*self);
        }
        if self.bytes.len() - self.position < len {
            self.drain();
            return Err(HazelcastClientError::ProtocolViolation(Violation::Truncated));
        }
        let at = self.position;
        let slice = slice_subrange(self.bytes, at, at + len);
        self.position = at + len;
        assert(self@ =~= old(self)@.skip(len as int));
        assert(slice@ =~= old(self)@.take(len as int));
        Ok(slice)
    }

    /// Hands out all that is left.
    pub fn read(&mut self) -> (slice: &'a [u8])
        ensures
            slice@ == old(self)@,
            final(self)@ == Seq::<u8>::empty(),
    {
        proof {
            use_type_invariant(&*self);
        }
        let slice = slice_subrange(self.bytes, self.position, self.bytes.len());
        assert(slice@ =~= old(self)@);
        self.drain();
        slice
    }

    /// Passes over `len` bytes.
    pub fn skip(&mut self, len: usize) -> (result: Result<(), HazelcastClientError>)
        ensures
            match parse_slice(old(self)@, len as nat) {
                Ok((_, rest)) => result is Ok && final(self)@ == rest,
                Err(violation) => result == Err::<(), HazelcastClientError>(
                    HazelcastClientError::ProtocolViolation(violation),
                ) && final(self)@.len() == 0,
            },
    {
        proof {
            use_type_invariant(&*self);
        }
        if self.bytes.len() - self.position < len {
            self.drain();
            return Err(HazelcastClientError::ProtocolViolation(Violation::Truncated));
        }
        self.position = self.position + len;
        assert(self@ =~= old(self)@.skip(len as int));
        Ok(())
    }
}

} // verus!
