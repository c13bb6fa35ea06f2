//! The growable byte buffer the codec reads frames from and writes frames to,
//! and big-endian packing of 32-bit words.

use vstd::prelude::*;

verus! {

/// The byte buffer of the `bytes` crate, opaque to proofs; what it holds is
/// `buffer_bytes`.
#[verifier::external_type_specification]
#[verifier::external_body]
pub struct ExBytesMut(bytes::BytesMut);

/// The bytes a buffer currently holds, in order.
pub uninterp spec fn buffer_bytes(b: bytes::BytesMut) -> Seq<u8>;

/// Relies on `BytesMut::new`: the new buffer holds no bytes.
pub assume_specification[ bytes::BytesMut::new ]() -> (r: bytes::BytesMut)
    ensures
        buffer_bytes(r) == Seq::<u8>::empty(),
;

/// Relies on `BytesMut::len`: the number of bytes held.
pub assume_specification[ bytes::BytesMut::len ](b: &bytes::BytesMut) -> (r: usize)
    ensures
        r as int == buffer_bytes(*b).len(),
;

/// Relies on `BytesMut::split_to`: the first `at` bytes move to the result and
/// the rest stay; it panics when `at` exceeds the length.
pub assume_specification[ bytes::BytesMut::split_to ](
    b: &mut bytes::BytesMut,
    at: usize,
) -> (r: bytes::BytesMut)
    requires
        at <= buffer_bytes(*old(b)).len(),
    ensures
        buffer_bytes(r) == buffer_bytes(*old(b)).subrange(0, at as int),
        buffer_bytes(*final(b)) == buffer_bytes(*old(b)).subrange(
            at as int,
            buffer_bytes(*old(b)).len() as int,
        ),
;

/// Relies on `BytesMut::extend_from_slice`: the bytes are appended, after
/// growing the buffer, which panics only when the capacity would overflow.
pub assume_specification[ bytes::BytesMut::extend_from_slice ](
    b: &mut bytes::BytesMut,
    extend: &[u8],
)
    requires
        buffer_bytes(*old(b)).len() + extend@.len() <= usize::MAX,
    ensures
        buffer_bytes(*final(b)) == buffer_bytes(*old(b)) + extend@,
;

/// Relies on `BytesMut`'s `Deref` to `[u8]`: indexing reads the byte at that
/// position of the buffer.
#[verifier::external_body]
pub(crate) fn byte_at(b: &bytes::BytesMut, i: usize) -> (r: u8)
    requires
        i < buffer_bytes(*b).len(),
    ensures
        r == buffer_bytes(*b)[i as int],
{
    b[i]
}

/// The four bytes of `v`, most significant first.
pub open spec fn be_bytes(v: u32) -> Seq<u8> {
    seq![(v >> 24u32) as u8, (v >> 16u32) as u8, (v >> 8u32) as u8, v as u8]
}

/// The word whose big-endian bytes are `s[i..i + 4]`.
pub open spec fn be_word(s: Seq<u8>, i: int) -> u32 {
    ((s[i] as u32) << 24u32) | ((s[i + 1] as u32) << 16u32) | ((s[i + 2] as u32) << 8u32) | (
    s[i + 3] as u32)
}

proof fn lemma_be_word_of_bytes_bits(v: u32)
    ensures
        ((((v >> 24u32) as u8) as u32) << 24u32) | ((((v >> 16u32) as u8) as u32) << 16u32) | (((
        (v >> 8u32) as u8) as u32) << 8u32) | ((v as u8) as u32) == v,
{
    assert(((((v >> 24u32) as u8) as u32) << 24u32) | ((((v >> 16u32) as u8) as u32) << 16u32) | (
    (((v >> 8u32) as u8) as u32) << 8u32) | ((v as u8) as u32) == v) by (bit_vector);
}

/// Reading a word back from its big-endian bytes gives the word.
pub proof fn lemma_be_round_trip(v: u32, pre: Seq<u8>, post: Seq<u8>)
    ensures
        be_word(pre + be_bytes(v) + post, pre.len() as int) == v,
{
    let s = pre + be_bytes(v) + post;
    let i = pre.len() as int;
    assert(s[i] == (v >> 24u32) as u8);
    assert(s[i + 1] == (v >> 16u32) as u8);
    assert(s[i + 2] == (v >> 8u32) as u8);
    assert(s[i + 3] == v as u8);
    lemma_be_word_of_bytes_bits(v);
}

/// The big-endian bytes of a word.
pub fn word_to_be(v: u32) -> (r: [u8; 4])
    ensures
        r@ == be_bytes(v),
{
    let r = [(v >> 24u32) as u8, (v >> 16u32) as u8, (v >> 8u32) as u8, v as u8];
    assert(r@ =~= be_bytes(v));
    r
}

/// The word stored big-endian at `buf[i..i + 4]`.
pub fn be_to_word(buf: &bytes::BytesMut, i: usize) -> (r: u32)
    requires
        i + 4 <= buffer_bytes(*buf).len() <= usize::MAX,
    ensures
        r == be_word(buffer_bytes(*buf), i as int),
{
    let b0 = byte_at(buf, i) as u32;
    let b1 = byte_at(buf, i + 1) as u32;
    let b2 = byte_at(buf, i + 2) as u32;
    let b3 = byte_at(buf, i + 3) as u32;
    (b0 << 24u32) | (b1 << 16u32) | (b2 << 8u32) | b3
}

} // verus!
