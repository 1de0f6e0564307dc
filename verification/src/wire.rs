//! Big-endian fields in byte buffers, read and written through `scroll`.

use scroll::{Pread, Pwrite, BE};
use vstd::prelude::*;

verus! {

/// The 16-bit value whose big-endian encoding is `high` followed by `low`.
pub open spec fn be_u16(high: u8, low: u8) -> u16 {
    (high as int * 256 + low as int) as u16
}

/// The first byte of the big-endian encoding of `value`.
pub open spec fn high_byte(value: u16) -> u8 {
    (value / 256) as u8
}

/// The second byte of the big-endian encoding of `value`.
pub open spec fn low_byte(value: u16) -> u8 {
    (value % 256) as u8
}

/// `scroll::Pwrite::gwrite` for a `u8` on a byte slice: when `offset` lies inside the slice the
/// byte is stored there, `offset` moves one past it and one byte is reported as written;
/// otherwise the call fails and leaves both the slice and `offset` as they were.
#[verifier::external_body]
pub(crate) fn gwrite_u8(buffer: &mut [u8], value: u8, offset: &mut usize) -> (r: Option<usize>)
    ensures
        r is Some <==> *old(offset) + 1 <= old(buffer)@.len(),
        r is Some ==> r == Some(1usize) && *final(offset) == *old(offset) + 1
            && final(buffer)@ == old(buffer)@.update(*old(offset) as int, value),
        r is None ==> *final(offset) == *old(offset) && final(buffer)@ == old(buffer)@,
{
    buffer.gwrite::<u8>(value, offset).ok()
}

/// `scroll::Pwrite::gwrite_with` for a `u16` in big-endian order on a byte slice: when two
/// bytes fit at `offset` the high byte and then the low byte are stored there, `offset` moves
/// past them and two bytes are reported as written; otherwise the call fails and leaves both
/// the slice and `offset` as they were.
#[verifier::external_body]
pub(crate) fn gwrite_u16_be(buffer: &mut [u8], value: u16, offset: &mut usize) -> (r: Option<usize>)
    ensures
        r is Some <==> *old(offset) + 2 <= old(buffer)@.len(),
        r is Some ==> r == Some(2usize) && *final(offset) == *old(offset) + 2
            && final(buffer)@ == old(buffer)@.update(*old(offset) as int, high_byte(value)).update(
            *old(offset) + 1,
            low_byte(value),
        ),
        r is None ==> *final(offset) == *old(offset) && final(buffer)@ == old(buffer)@,
{
    buffer.gwrite_with::<u16>(value, offset, BE).ok()
}

/// `scroll::Pread::gread` for a `u8` on a byte slice: when `offset` lies inside the slice the
/// byte found there is returned and `offset` moves one past it; otherwise the call fails and
/// leaves `offset` as it was.
#[verifier::external_body]
pub(crate) fn gread_u8(buffer: &[u8], offset: &mut usize) -> (r: Option<u8>)
    ensures
        r is Some <==> *old(offset) + 1 <= buffer@.len(),
        r is Some ==> r == Some(buffer@[*old(offset) as int]) && *final(offset)
            == *old(offset) + 1,
        r is None ==> *final(offset) == *old(offset),
{
    buffer.gread::<u8>(offset).ok()
}

/// `scroll::Pread::gread_with` for a `u16` in big-endian order on a byte slice: when two bytes
/// lie at `offset` they are returned as one value, the first byte being the high one, and
/// `offset` moves past them; otherwise the call fails and leaves `offset` as it was.
#[verifier::external_body]
pub(crate) fn gread_u16_be(buffer: &[u8], offset: &mut usize) -> (r: Option<u16>)
    ensures
        r is Some <==> *old(offset) + 2 <= buffer@.len(),
        r is Some ==> r == Some(
            be_u16(buffer@[*old(offset) as int], buffer@[*old(offset) + 1]),
        ) && *final(offset) == *old(offset) + 2,
        r is None ==> *final(offset) == *old(offset),
{
    buffer.gread_with::<u16>(offset, BE).ok()
}

/// The sum of all bytes of `bytes`, as a number without bound.
pub open spec fn byte_sum(bytes: Seq<u8>) -> nat
    decreases bytes.len(),
{
    if bytes.len() == 0 {
        0
    } else {
        byte_sum(bytes.drop_last()) + bytes.last() as nat
    }
}

/// The checksum that guards `bytes`: their sum, cut down to 16 bits.
pub open spec fn checksum(bytes: Seq<u8>) -> u16 {
    (byte_sum(bytes) % 0x1_0000) as u16
}

/// Whether `frame` ends in the big-endian checksum of everything before its last two bytes.
pub open spec fn checksum_matches(frame: Seq<u8>) -> bool {
    &&& frame.len() >= 2
    &&& be_u16(frame[frame.len() - 2], frame[frame.len() - 1]) == checksum(
        frame.take(frame.len() - 2),
    )
}

/// No byte adds more than 255 to a sum.
pub proof fn lemma_byte_sum_bound(bytes: Seq<u8>)
    ensures
        byte_sum(bytes) <= 255 * bytes.len(),
    decreases bytes.len(),
{
    if bytes.len() > 0 {
        lemma_byte_sum_bound(bytes.drop_last());
    }
}

/// Adds up the first `count` bytes of `buffer`.
pub(crate) fn sum_bytes(buffer: &[u8], count: usize) -> (sum: usize)
    requires
        count <= buffer@.len(),
        255 * count <= usize::MAX,
    ensures
        sum == byte_sum(buffer@.take(count as int)),
{
    let mut sum: usize = 0;
    let mut i: usize = 0;
    while i < count
        invariant
            i <= count <= buffer@.len(),
            255 * count <= usize::MAX,
            sum == byte_sum(buffer@.take(i as int)),
            sum <= 255 * i,
        decreases count - i,
    {
        proof {
            let next = buffer@.take(i + 1);
            assert(next.drop_last() == buffer@.take(i as int));
            assert(next.last() == buffer@[i as int]);
        }
        sum = sum + buffer[i] as usize;
        i = i + 1;
    }
    sum
}

} // verus!
