//! The buffers that datagrams travel in: `Bytes` and `BytesMut` of the crate
//! `bytes`, and the `ReadBuf` that tokio hands to a reader.

use bytes::{Buf, Bytes, BytesMut};
use tokio::io::ReadBuf;
use vstd::prelude::*;

verus! {

#[verifier::external_type_specification]
#[verifier::external_body]
pub struct ExBytes(Bytes);

#[verifier::external_type_specification]
#[verifier::external_body]
pub struct ExBytesMut(BytesMut);

#[verifier::external_type_specification]
#[verifier::external_body]
pub struct ExReadBuf<'a>(ReadBuf<'a>);

/// The bytes that a `Bytes` holds.
pub uninterp spec fn bytes_of(b: Bytes) -> Seq<u8>;

/// The bytes that a `BytesMut` holds.
pub uninterp spec fn buffered(b: BytesMut) -> Seq<u8>;

/// The filled part of a `ReadBuf`.
pub uninterp spec fn filled(b: ReadBuf<'_>) -> Seq<u8>;

/// The length of the slice that a `ReadBuf` was made from.
pub uninterp spec fn read_capacity(b: ReadBuf<'_>) -> nat;

/// `Bytes::len`: the number of bytes held.
#[verifier::external_body]
pub(crate) fn bytes_len(b: &Bytes) -> (n: usize)
    ensures
        n == bytes_of(*b).len(),
{
    b.len()
}

/// `Bytes::clone`: another handle on the same bytes.
#[verifier::external_body]
pub(crate) fn bytes_clone(b: &Bytes) -> (c: Bytes)
    ensures
        bytes_of(c) == bytes_of(*b),
{
    b.clone()
}

/// `Bytes::split_to`: cuts the first `at` bytes off and returns them. It panics
/// where there are fewer.
#[verifier::external_body]
pub(crate) fn bytes_split_to(b: &mut Bytes, at: usize) -> (head: Bytes)
    requires
        at <= bytes_of(*old(b)).len(),
    ensures
        bytes_of(head) == bytes_of(*old(b)).take(at as int),
        bytes_of(*final(b)) == bytes_of(*old(b)).skip(at as int),
{
    b.split_to(at)
}

/// `Bytes::split_off`: keeps the first `at` bytes and returns the others. It
/// panics where there are fewer.
#[verifier::external_body]
pub(crate) fn bytes_split_off(b: &mut Bytes, at: usize) -> (tail: Bytes)
    requires
        at <= bytes_of(*old(b)).len(),
    ensures
        bytes_of(tail) == bytes_of(*old(b)).skip(at as int),
        bytes_of(*final(b)) == bytes_of(*old(b)).take(at as int),
{
    b.split_off(at)
}

/// `ReadBuf::remaining`: how many bytes still fit; what is filled never exceeds
/// the capacity.
#[verifier::external_body]
pub(crate) fn read_room(buf: &ReadBuf<'_>) -> (n: usize)
    ensures
        n + filled(*buf).len() == read_capacity(*buf),
{
    buf.remaining()
}

/// `ReadBuf::put_slice`: appends the bytes to the filled part. It panics where
/// they do not fit.
#[verifier::external_body]
pub(crate) fn read_put(buf: &mut ReadBuf<'_>, b: &Bytes)
    requires
        filled(*old(buf)).len() + bytes_of(*b).len() <= read_capacity(*old(buf)),
    ensures
        filled(*final(buf)) == filled(*old(buf)) + bytes_of(*b),
        read_capacity(*final(buf)) == read_capacity(*old(buf)),
{
    buf.put_slice(&b[..])
}

/// `ReadBuf::clear`: the filled part becomes empty.
#[verifier::external_body]
pub(crate) fn read_clear(buf: &mut ReadBuf<'_>)
    ensures
        filled(*final(buf)) == Seq::<u8>::empty(),
        read_capacity(*final(buf)) == read_capacity(*old(buf)),
{
    buf.clear()
}

/// `BytesMut::capacity`: how many bytes the buffer can hold without a new
/// allocation, never fewer than it holds. What the allocator gave beyond that is
/// left unsaid.
#[verifier::external_body]
fn buffer_capacity(buf: &BytesMut) -> (n: usize)
    ensures
        n >= buffered(*buf).len(),
{
    buf.capacity()
}

/// `BytesMut::reserve`: makes room for `additional` more bytes and keeps those
/// that are held. It panics where the new capacity overflows, which a sum of a
/// few megabytes stays clear of. How much room there is afterwards is left
/// unsaid: that is for the allocator to say.
#[verifier::external_body]
fn buffer_reserve(buf: &mut BytesMut, additional: usize)
    requires
        buffered(*old(buf)).len() + additional <= 0x100_0000,
    ensures
        buffered(*final(buf)) == buffered(*old(buf)),
{
    buf.reserve(additional)
}

/// `BytesMut::len`: the number of bytes held.
#[verifier::external_body]
pub(crate) fn buffer_len(buf: &BytesMut) -> (n: usize)
    ensures
        n == buffered(*buf).len(),
{
    buf.len()
}

/// `BytesMut::clear`: drops all the bytes held.
#[verifier::external_body]
fn buffer_clear(buf: &mut BytesMut)
    ensures
        buffered(*final(buf)) == Seq::<u8>::empty(),
{
    buf.clear()
}

/// `Buf::copy_to_bytes` of a `BytesMut`: cuts the first `len` bytes off and
/// returns them. It panics where there are fewer.
#[verifier::external_body]
fn buffer_copy_to_bytes(buf: &mut BytesMut, len: usize) -> (b: Bytes)
    requires
        len <= buffered(*old(buf)).len(),
    ensures
        bytes_of(b) == buffered(*old(buf)).take(len as int),
        buffered(*final(buf)) == buffered(*old(buf)).skip(len as int),
{
    buf.copy_to_bytes(len)
}

/// The largest payload of a UDP datagram.
pub const UDP_BUFFER_SIZE: usize = 65_507;

/// How many bytes to reserve before a datagram is received into a buffer of
/// this capacity: none where a whole datagram fits, otherwise room for three.
pub fn reserve_amount(capacity: usize) -> (amount: Option<usize>)
    ensures
        capacity >= UDP_BUFFER_SIZE ==> amount is None,
        capacity < UDP_BUFFER_SIZE ==> amount == Some(196_521usize),
{
    if capacity < UDP_BUFFER_SIZE {
        Some(UDP_BUFFER_SIZE * 3)
    } else {
        None
    }
}

/// Readies a buffer for the next datagram: room for a whole one, and nothing in
/// it. The room is what `reserve_amount` asks of the allocator; no clause speaks
/// of it.
pub fn prepare_receive(buf: &mut BytesMut)
    ensures
        buffered(*final(buf)) == Seq::<u8>::empty(),
{
    match reserve_amount(buffer_capacity(buf)) {
        Some(amount) => buffer_reserve(buf, amount),
        None => {},
    }
    buffer_clear(buf);
}

/// Takes a datagram of `len` bytes out of the front of the receive buffer.
pub fn take_datagram(buf: &mut BytesMut, len: usize) -> (datagram: Bytes)
    requires
        len <= buffered(*old(buf)).len(),
    ensures
        bytes_of(datagram) == buffered(*old(buf)).take(len as int),
        buffered(*final(buf)) == buffered(*old(buf)).skip(len as int),
{
    buffer_copy_to_bytes(buf, len)
}

/// Takes a datagram of `len` bytes out of the front of the receive buffer, or
/// nothing where the buffer holds fewer bytes.
pub fn try_take_datagram(buf: &mut BytesMut, len: usize) -> (datagram: Option<Bytes>)
    ensures
        match datagram {
            Some(datagram) => {
                &&& len <= buffered(*old(buf)).len()
                &&& bytes_of(datagram) == buffered(*old(buf)).take(len as int)
                &&& buffered(*final(buf)) == buffered(*old(buf)).skip(len as int)
            },
            None => len > buffered(*old(buf)).len() && *final(buf) == *old(buf),
        },
{
    if len <= buffer_len(buf) {
        Some(take_datagram(buf, len))
    } else {
        None
    }
}

/// The largest payload is what an IPv4 packet holds beside its own header and that
/// of UDP.
pub proof fn a_datagram_fits_into_a_packet()
    ensures
        UDP_BUFFER_SIZE + 20 + 8 == 65_535,
{
}

} // verus!
