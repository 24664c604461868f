//! Little-endian integers and byte readers: the vocabulary every message of the
//! embed protocol is written in.

use vstd::prelude::*;

verus! {

/// Why a message could not be decoded.
#[derive(Clone, Copy, Debug, PartialEq, Eq, Structural)]
pub enum ReadError {
    /// The bytes end inside the message; at least `missing` more belong to it.
    UnexpectedEof { missing: usize },
    /// No message starts with this tag byte.
    BadTag { tag: u8 },
    /// The message does not start with its four-byte magic.
    BadMagic,
    /// A text field is not UTF-8.
    InvalidUtf8,
    /// A handshake announces another number of descriptors than came with it.
    FdCountMismatch { got: usize, want: usize },
}

/// The four bytes of `value`, least significant first.
pub open spec fn u32_le(value: u32) -> Seq<u8> {
    seq![
        (value % 256) as u8,
        (value / 256 % 256) as u8,
        (value / 65536 % 256) as u8,
        (value / 16777216) as u8,
    ]
}

/// The eight bytes of `value`, least significant first.
pub open spec fn u64_le(value: u64) -> Seq<u8> {
    u32_le((value % 0x1_0000_0000) as u32) + u32_le((value / 0x1_0000_0000) as u32)
}

/// The number whose four bytes, least significant first, start at `at`.
pub open spec fn u32_at(bytes: Seq<u8>, at: int) -> u32 {
    (bytes[at] + 256 * bytes[at + 1] + 65536 * bytes[at + 2] + 16777216 * bytes[at + 3]) as u32
}

/// The number whose eight bytes, least significant first, start at `at`.
pub open spec fn u64_at(bytes: Seq<u8>, at: int) -> u64 {
    (u32_at(bytes, at) + 0x1_0000_0000 * u32_at(bytes, at + 4)) as u64
}

/// The error of a message of which `needed` bytes are known to belong to it
/// while only `have` are there.
pub open spec fn eof(have: int, needed: int) -> ReadError {
    ReadError::UnexpectedEof { missing: (needed - have) as usize }
}

/// Reading back a number where it was written gives the number.
pub proof fn u32_round_trip(value: u32)
    ensures
        u32_at(u32_le(value), 0) == value,
        u32_le(value).len() == 4,
{
}

/// Writing the number that four bytes stand for gives the four bytes.
pub proof fn u32_bytes_round_trip(bytes: Seq<u8>)
    requires
        bytes.len() == 4,
    ensures
        u32_le(u32_at(bytes, 0)) == bytes,
{
    let v = u32_at(bytes, 0);
    assert(v == bytes[0] + 256 * bytes[1] + 65536 * bytes[2] + 16777216 * bytes[3]);
    assert(v % 256 == bytes[0]);
    assert(v / 256 == bytes[1] + 256 * bytes[2] + 65536 * bytes[3]);
    assert(v / 65536 == bytes[2] + 256 * bytes[3]);
    assert(v / 16777216 == bytes[3]);
    assert(u32_le(v) =~= bytes);
}

/// Reading back a 64-bit number where it was written gives the number.
pub proof fn u64_round_trip(value: u64)
    ensures
        u64_at(u64_le(value), 0) == value,
        u64_le(value).len() == 8,
{
    let low = (value % 0x1_0000_0000) as u32;
    let high = (value / 0x1_0000_0000) as u32;
    u32_round_trip(low);
    u32_round_trip(high);
    assert(u64_le(value).subrange(4, 8) =~= u32_le(high));
    assert(u64_le(value).subrange(0, 4) =~= u32_le(low));
    u32_at_shift(u64_le(value), u32_le(high), 4, 0);
    u32_at_shift(u64_le(value), u32_le(low), 0, 0);
}

/// A number read out of a longer sequence is the one read out of its own bytes.
pub proof fn u32_at_shift(whole: Seq<u8>, part: Seq<u8>, at: int, inner: int)
    requires
        0 <= at,
        0 <= inner,
        inner + 4 <= part.len(),
        at + part.len() <= whole.len(),
        whole.subrange(at, at + part.len()) == part,
    ensures
        u32_at(whole, at + inner) == u32_at(part, inner),
{
    assert forall|k: int| 0 <= k < 4 implies #[trigger] whole[at + inner + k] == part[inner + k] by {
        assert(whole.subrange(at, at + part.len())[inner + k] == whole[at + inner + k]);
    }
    assert(whole[at + inner + 0] == part[inner + 0]);
    assert(whole[at + inner + 1] == part[inner + 1]);
    assert(whole[at + inner + 2] == part[inner + 2]);
    assert(whole[at + inner + 3] == part[inner + 3]);
}

/// A number stands where its bytes do.
pub proof fn u32_field(bytes: Seq<u8>, at: int, value: u32)
    requires
        0 <= at,
        at + 4 <= bytes.len(),
        bytes.subrange(at, at + 4) == u32_le(value),
    ensures
        u32_at(bytes, at) == value,
{
    u32_round_trip(value);
    u32_at_shift(bytes, u32_le(value), at, 0);
}

/// Appends a number's four bytes.
pub fn push_u32(out: &mut Vec<u8>, value: u32)
    ensures
        final(out)@ == old(out)@ + u32_le(value),
{
    out.push((value % 256) as u8);
    out.push((value / 256 % 256) as u8);
    out.push((value / 65536 % 256) as u8);
    out.push((value / 16777216) as u8);
    assert(out@ =~= old(out)@ + u32_le(value));
}

/// Appends a number's eight bytes.
pub fn push_u64(out: &mut Vec<u8>, value: u64)
    ensures
        final(out)@ == old(out)@ + u64_le(value),
{
    push_u32(out, (value % 0x1_0000_0000) as u32);
    push_u32(out, (value / 0x1_0000_0000) as u32);
    assert(out@ =~= old(out)@ + u64_le(value));
}

/// Appends bytes as they are.
pub fn push_bytes(out: &mut Vec<u8>, bytes: &[u8])
    ensures
        final(out)@ == old(out)@ + bytes@,
{
    out.extend_from_slice(bytes);
    assert(out@ =~= old(out)@ + bytes@);
}

/// The number at `at`.
pub fn get_u32(bytes: &[u8], at: usize) -> (value: u32)
    requires
        at + 4 <= bytes.len(),
    ensures
        value == u32_at(bytes@, at as int),
{
    bytes[at] as u32 + 256 * (bytes[at + 1] as u32) + 65536 * (bytes[at + 2] as u32) + 16777216 * (
    bytes[at + 3] as u32)
}

/// The 64-bit number at `at`.
pub fn get_u64(bytes: &[u8], at: usize) -> (value: u64)
    requires
        at + 8 <= bytes.len(),
    ensures
        value == u64_at(bytes@, at as int),
{
    get_u32(bytes, at) as u64 + 0x1_0000_0000 * (get_u32(bytes, at + 4) as u64)
}

/// Moves a reader past its first `count` bytes.
pub fn advance(reader: &mut &[u8], count: usize)
    requires
        count <= old(reader)@.len(),
    ensures
        final(reader)@ == old(reader)@.skip(count as int),
{
    let rest = vstd::slice::slice_subrange(*reader, count, reader.len());
    assert(rest@ =~= old(reader)@.skip(count as int));
    *reader = rest;
}

/// Reads a number off the front of a reader. A reader that is too short stays
/// where it is.
pub fn read_u32(reader: &mut &[u8]) -> (result: Result<u32, ReadError>)
    ensures
        old(reader)@.len() >= 4 ==> result == Ok::<u32, ReadError>(u32_at(old(reader)@, 0))
            && final(reader)@ == old(reader)@.skip(4),
        old(reader)@.len() < 4 ==> result == Err::<u32, ReadError>(
            eof(old(reader)@.len() as int, 4),
        ) && final(reader)@ == old(reader)@,
{
    if reader.len() < 4 {
        return Err(ReadError::UnexpectedEof { missing: 4 - reader.len() });
    }
    let value = get_u32(*reader, 0);
    advance(reader, 4);
    Ok(value)
}

/// The least significant byte comes first: each byte of a number counts 256 times what the
/// one before it does, and together they are the number.
pub proof fn the_least_significant_byte_is_first(value: u32, long: u64)
    ensures
        u32_le(value).len() == 4,
        u32_le(value)[0] + 256 * (u32_le(value)[1] + 256 * (u32_le(value)[2] + 256 * u32_le(
            value,
        )[3])) == value,
        u64_le(long).len() == 8,
        u32_at(u64_le(long), 0) + 0x1_0000_0000 * u32_at(u64_le(long), 4) == long,
{
    u64_round_trip(long);
}

/// A number is read by the same weights, wherever its bytes stand: the first byte is what
/// is left over by 256, and the rest is the number without it.
pub proof fn a_number_is_read_from_its_lowest_byte(bytes: Seq<u8>, at: int)
    ensures
        u32_at(bytes, at) % 256 == bytes[at],
        u32_at(bytes, at) / 256 % 256 == bytes[at + 1],
        u32_at(bytes, at) / 65536 % 256 == bytes[at + 2],
        u32_at(bytes, at) / 16777216 == bytes[at + 3],
{
    let v = u32_at(bytes, at);
    let (a, b, c, d) = (bytes[at], bytes[at + 1], bytes[at + 2], bytes[at + 3]);
    assert(v == a + 256 * b + 65536 * c + 16777216 * d);
    assert(v / 256 == b + 256 * c + 65536 * d);
    assert(v / 65536 == c + 256 * d);
    assert(v / 16777216 == d);
}

/// A long number is two numbers, the lower one first.
pub proof fn a_long_number_is_two(bytes: Seq<u8>, at: int)
    ensures
        u64_at(bytes, at) % 0x1_0000_0000 == u32_at(bytes, at),
        u64_at(bytes, at) / 0x1_0000_0000 == u32_at(bytes, at + 4),
{
    let low = u32_at(bytes, at);
    let high = u32_at(bytes, at + 4);
    assert(u64_at(bytes, at) == low + 0x1_0000_0000 * high);
}

/// What is there and what is missing are together what is needed.
pub proof fn there_and_missing_make_needed(have: int, needed: int)
    requires
        0 <= have <= needed <= usize::MAX,
    ensures
        eof(have, needed) matches ReadError::UnexpectedEof { missing } && have + missing == needed,
{
}

} // verus!
