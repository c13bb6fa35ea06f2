//! Frames of the control protocol and their encoder and decoder.
//!
//! A frame is, big-endian throughout:
//! a header word (transaction flag in bit 31, five flag bits, a six-bit
//! message-id length, a twenty-bit body length); a transaction word when the
//! header says so (response flag, completion flag, thirty-bit id); the
//! message id as UTF-8; the body.

use crate::buffer::{
    be_bytes, be_to_word, be_word, buffer_bytes, byte_at, lemma_be_round_trip, word_to_be,
};
use crate::ctl::NetErr;
use vstd::prelude::*;
use vstd::utf8::{decode_utf8, encode_utf8, valid_utf8};

verus! {

pub const BODY_LEN_MASK: u32 = 0xFFFFF;
pub const MESSAGE_ID_MASK: u32 = 0x3F;
pub const MESSAGE_ID_OFFSET: u32 = 20;
pub const TXN_OFFSET: u32 = 31;
pub const HEADER_LEN: usize = 4;
pub const TXN_LEN: usize = 4;

pub const TXN_ID_MASK: u32 = 0x3FFFFFFF;
pub const RESPONSE_OFFSET: u32 = 31;
pub const COMPLETE_OFFSET: u32 = 30;

/// Largest transaction id; reserved, never handed out by the generator.
pub const MAX_TXN_ID: u32 = 0x3FFFFFFF;

/// Id part of a transaction word: its low thirty bits.
pub open spec fn txn_id_of(v: u32) -> u32 {
    v & 0x3FFFFFFFu32
}

/// Completion flag of a transaction word: bit 30.
pub open spec fn txn_complete_of(v: u32) -> bool {
    (v >> 30u32) & 1u32 == 1u32
}

/// Response flag of a transaction word: bit 31.
pub open spec fn txn_response_of(v: u32) -> bool {
    (v >> 31u32) & 1u32 == 1u32
}

/// The id that follows `id` in the thirty-bit id space, skipping the
/// reserved ids `0` and `MAX_TXN_ID`.
pub open spec fn next_txn_id(id: u32) -> u32 {
    let n = if id & 0x3FFFFFFFu32 == 0x3FFFFFFFu32 {
        0u32
    } else {
        ((id & 0x3FFFFFFFu32) + 1) as u32
    };
    if n == 0 || n == 0x3FFFFFFFu32 {
        1u32
    } else {
        n
    }
}

/// A transaction word: response flag, completion flag and a thirty-bit id.
#[derive(Copy, Clone, Debug, PartialEq, Eq, Structural, Hash)]
pub struct SrvTxn(u32);

impl View for SrvTxn {
    type V = u32;

    closed spec fn view(&self) -> u32 {
        self.0
    }
}

impl SrvTxn {
    /// A transaction with id `id` and both flags clear.
    pub fn new(id: u32) -> (r: SrvTxn)
        requires
            id <= MAX_TXN_ID,
        ensures
            r@ == id,
            txn_id_of(r@) == id,
            !txn_complete_of(r@),
            !txn_response_of(r@),
    {
        assert(id <= 0x3FFFFFFFu32 ==> id & 0x3FFFFFFFu32 == id && (id >> 30u32) & 1u32 == 0u32
            && (id >> 31u32) & 1u32 == 0u32) by (bit_vector);
        SrvTxn(id)
    }

    /// The transaction with the given raw word.
    pub fn from_bits(v: u32) -> (r: SrvTxn)
        ensures
            r@ == v,
    {
        SrvTxn(v)
    }

    /// The raw word of this transaction.
    pub fn bits(&self) -> (r: u32)
        ensures
            r == self@,
    {
        self.0
    }

    /// The next valid transaction id after `id`.
    pub fn next_id(id: u32) -> (r: u32)
        ensures
            r == next_txn_id(id),
            r != 0,
            r != MAX_TXN_ID,
            r <= MAX_TXN_ID,
    {
        let base = id & MAX_TXN_ID;
        assert(base <= 0x3FFFFFFFu32) by (bit_vector)
            requires
                base == id & 0x3FFFFFFFu32,
        ;
        let mut n: u32 = if base == MAX_TXN_ID {
            0
        } else {
            base + 1
        };
        while n == 0 || n == MAX_TXN_ID
            invariant
                n <= MAX_TXN_ID,
                next_txn_id(id) == if n == 0 || n == MAX_TXN_ID {
                    1u32
                } else {
                    n
                },
            decreases
                if n == MAX_TXN_ID {
                    2int
                } else if n == 0 {
                    1int
                } else {
                    0int
                },
        {
            n = if n == MAX_TXN_ID {
                0
            } else {
                n + 1
            };
        }
        n
    }

    /// The id part of this transaction.
    pub fn id(&self) -> (r: u32)
        ensures
            r == txn_id_of(self@),
    {
        self.0 & TXN_ID_MASK
    }

    /// Whether this transaction marks the last reply to a transactional request.
    pub fn is_complete(&self) -> (r: bool)
        ensures
            r == txn_complete_of(self@),
    {
        ((self.0 >> COMPLETE_OFFSET) & 1) == 1
    }

    /// Whether this transaction marks a reply to a transactional request.
    pub fn is_response(&self) -> (r: bool)
        ensures
            r == txn_response_of(self@),
    {
        ((self.0 >> RESPONSE_OFFSET) & 1) == 1
    }

    /// Sets the completion flag; the id and the response flag stay as they were.
    pub fn set_complete(&mut self)
        ensures
            final(self)@ == old(self)@ | 0x40000000u32,
            txn_complete_of(final(self)@),
            txn_response_of(final(self)@) == txn_response_of(old(self)@),
            txn_id_of(final(self)@) == txn_id_of(old(self)@),
    {
        let v = self.0;
        proof {
            lemma_set_complete_keeps(v);
        }
        self.0 = v | (1u32 << COMPLETE_OFFSET);
        assert(1u32 << 30u32 == 0x40000000u32) by (bit_vector);
    }

    /// Sets the response flag; the id and the completion flag stay as they were.
    pub fn set_response(&mut self)
        ensures
            final(self)@ == old(self)@ | 0x80000000u32,
            txn_response_of(final(self)@),
            txn_complete_of(final(self)@) == txn_complete_of(old(self)@),
            txn_id_of(final(self)@) == txn_id_of(old(self)@),
    {
        let v = self.0;
        proof {
            lemma_set_response_keeps(v);
        }
        self.0 = v | (1u32 << RESPONSE_OFFSET);
        assert(1u32 << 31u32 == 0x80000000u32) by (bit_vector);
    }
}

/// The id generator never yields a reserved id, nor one with a flag bit set,
/// and from `0x3FFFFFFE` it passes over both reserved ids and lands on `1`.
pub proof fn lemma_next_id_skips_reserved(id: u32)
    ensures
        next_txn_id(id) != 0,
        next_txn_id(id) != MAX_TXN_ID,
        next_txn_id(id) <= MAX_TXN_ID,
        !txn_complete_of(next_txn_id(id)),
        !txn_response_of(next_txn_id(id)),
        next_txn_id(0x3FFFFFFEu32) == 1,
{
    assert(id & 0x3FFFFFFFu32 <= 0x3FFFFFFFu32) by (bit_vector);
    let n = next_txn_id(id);
    assert(n <= 0x3FFFFFFFu32 ==> (n >> 30u32) & 1u32 == 0u32 && (n >> 31u32) & 1u32 == 0u32)
        by (bit_vector);
    assert(0x3FFFFFFEu32 & 0x3FFFFFFFu32 == 0x3FFFFFFEu32) by (bit_vector);
}

/// Setting the completion flag of a transaction word sets that flag and keeps
/// the id and the response flag.
pub proof fn lemma_set_complete_keeps(v: u32)
    ensures
        txn_complete_of(v | 0x40000000u32),
        txn_response_of(v | 0x40000000u32) == txn_response_of(v),
        txn_id_of(v | 0x40000000u32) == txn_id_of(v),
{
    assert((((v | 0x40000000u32) >> 30u32) & 1u32 == 1u32) && (((v | 0x40000000u32) >> 31u32)
        & 1u32 == (v >> 31u32) & 1u32) && ((v | 0x40000000u32) & 0x3FFFFFFFu32 == v
        & 0x3FFFFFFFu32)) by (bit_vector);
}

/// Setting the response flag of a transaction word sets that flag and keeps
/// the id and the completion flag.
pub proof fn lemma_set_response_keeps(v: u32)
    ensures
        txn_response_of(v | 0x80000000u32),
        txn_complete_of(v | 0x80000000u32) == txn_complete_of(v),
        txn_id_of(v | 0x80000000u32) == txn_id_of(v),
{
    assert((((v | 0x80000000u32) >> 31u32) & 1u32 == 1u32) && (((v | 0x80000000u32) >> 30u32)
        & 1u32 == (v >> 30u32) & 1u32) && ((v | 0x80000000u32) & 0x3FFFFFFFu32 == v
        & 0x3FFFFFFFu32)) by (bit_vector);
}

/// Body length field of a header word: its low twenty bits.
pub open spec fn header_body_len(v: u32) -> u32 {
    v & 0xFFFFFu32
}

/// Message-id length field of a header word: bits 20 to 25.
pub open spec fn header_message_id_len(v: u32) -> u32 {
    (v >> 20u32) & 0x3Fu32
}

/// Transaction flag of a header word: bit 31.
pub open spec fn header_is_txn(v: u32) -> bool {
    (v >> 31u32) & 1u32 == 1u32
}

/// The header word with the given fields and all other flag bits clear.
pub open spec fn header_bits(body_len: u32, message_id_len: u32, is_txn: bool) -> u32 {
    (if is_txn {
        0x80000000u32
    } else {
        0u32
    }) | (message_id_len << 20u32) | body_len
}

/// The fields of a header word built from in-range fields read back as given.
pub proof fn lemma_header_fields(body_len: u32, message_id_len: u32, is_txn: bool)
    requires
        body_len <= 0xFFFFFu32,
        message_id_len <= 0x3Fu32,
    ensures
        header_body_len(header_bits(body_len, message_id_len, is_txn)) == body_len,
        header_message_id_len(header_bits(body_len, message_id_len, is_txn)) == message_id_len,
        header_is_txn(header_bits(body_len, message_id_len, is_txn)) == is_txn,
{
    let t: u32 = if is_txn {
        0x80000000u32
    } else {
        0u32
    };
    assert(body_len <= 0xFFFFFu32 && message_id_len <= 0x3Fu32 && (t == 0u32 || t
        == 0x80000000u32) ==> ((t | (message_id_len << 20u32) | body_len) & 0xFFFFFu32 == body_len
        && (((t | (message_id_len << 20u32) | body_len) >> 20u32) & 0x3Fu32 == message_id_len) && ((
    ((t | (message_id_len << 20u32) | body_len) >> 31u32) & 1u32 == 1u32) == (t
        == 0x80000000u32)))) by (bit_vector);
}

/// Setting the transaction flag of a header word keeps both length fields.
pub proof fn lemma_set_txn_keeps(v: u32)
    ensures
        header_is_txn(v | 0x80000000u32),
        header_body_len(v | 0x80000000u32) == header_body_len(v),
        header_message_id_len(v | 0x80000000u32) == header_message_id_len(v),
{
    assert((((v | 0x80000000u32) >> 31u32) & 1u32 == 1u32) && ((v | 0x80000000u32) & 0xFFFFFu32
        == v & 0xFFFFFu32) && (((v | 0x80000000u32) >> 20u32) & 0x3Fu32 == (v >> 20u32)
        & 0x3Fu32)) by (bit_vector);
}

/// The length fields of any header word are within their widths.
pub proof fn lemma_header_bounds(v: u32)
    ensures
        header_body_len(v) <= 0xFFFFF,
        header_message_id_len(v) <= 0x3F,
{
    assert(v & 0xFFFFFu32 <= 0xFFFFFu32 && (v >> 20u32) & 0x3Fu32 <= 0x3Fu32) by (bit_vector);
}

/// Setting the transaction flag of a header built from fields gives the
/// header built from the same lengths with a transaction.
pub proof fn lemma_header_bits_txn(body_len: u32, message_id_len: u32, is_txn: bool)
    ensures
        header_bits(body_len, message_id_len, is_txn) | 0x80000000u32 == header_bits(
            body_len,
            message_id_len,
            true,
        ),
{
    let t: u32 = if is_txn {
        0x80000000u32
    } else {
        0u32
    };
    assert((t == 0u32 || t == 0x80000000u32) ==> (t | (message_id_len << 20u32) | body_len)
        | 0x80000000u32 == 0x80000000u32 | (message_id_len << 20u32) | body_len) by (bit_vector);
}

proof fn lemma_both_flags(v: u32)
    ensures
        (v | 0x80000000u32) | 0x40000000u32 == v | 0xC0000000u32,
{
    assert((v | 0x80000000u32) | 0x40000000u32 == v | 0xC0000000u32) by (bit_vector);
}

/// A header word: transaction flag, message-id length and body length.
#[derive(Copy, Clone, Debug, PartialEq, Eq, Structural, Hash)]
pub struct SrvHeader(u32);

impl View for SrvHeader {
    type V = u32;

    closed spec fn view(&self) -> u32 {
        self.0
    }
}

impl SrvHeader {
    /// The header of a frame with the given body length, message-id length and
    /// transaction flag.
    pub fn new(body_len: u32, message_id_len: u32, is_txn: bool) -> (r: SrvHeader)
        requires
            body_len <= BODY_LEN_MASK,
            message_id_len <= MESSAGE_ID_MASK,
        ensures
            r@ == header_bits(body_len, message_id_len, is_txn),
            header_body_len(r@) == body_len,
            header_message_id_len(r@) == message_id_len,
            header_is_txn(r@) == is_txn,
    {
        proof {
            lemma_header_fields(body_len, message_id_len, is_txn);
        }
        let txn_value: u32 = if is_txn {
            0x80000000
        } else {
            0
        };
        SrvHeader(txn_value | (message_id_len << MESSAGE_ID_OFFSET) | body_len)
    }

    /// The header with the given raw word.
    pub fn from_bits(v: u32) -> (r: SrvHeader)
        ensures
            r@ == v,
    {
        SrvHeader(v)
    }

    /// The raw word of this header.
    pub fn bits(&self) -> (r: u32)
        ensures
            r == self@,
    {
        self.0
    }

    pub fn body_len(&self) -> (r: usize)
        ensures
            r == header_body_len(self@),
    {
        (self.0 & BODY_LEN_MASK) as usize
    }

    pub fn message_id_len(&self) -> (r: usize)
        ensures
            r == header_message_id_len(self@),
    {
        ((self.0 >> MESSAGE_ID_OFFSET) & MESSAGE_ID_MASK) as usize
    }

    pub fn is_transaction(&self) -> (r: bool)
        ensures
            r == header_is_txn(self@),
    {
        (self.0 >> TXN_OFFSET) & 1 == 1
    }

    /// Marks the frame as carrying a transaction word; the length fields stay.
    pub fn set_is_transaction(&mut self)
        ensures
            final(self)@ == old(self)@ | 0x80000000u32,
            header_is_txn(final(self)@),
            header_body_len(final(self)@) == header_body_len(old(self)@),
            header_message_id_len(final(self)@) == header_message_id_len(old(self)@),
    {
        let v = self.0;
        proof {
            lemma_set_txn_keeps(v);
        }
        self.0 = v | 0x80000000u32;
    }
}

/// A frame seen as values: header word, optional transaction word, message id
/// and body.
pub struct WireView {
    pub header: u32,
    pub transaction: Option<u32>,
    pub message_id: Seq<char>,
    pub body: Seq<u8>,
}

/// The header word that the lengths and the transaction of a frame call for,
/// with the reserved flag bits clear.
pub open spec fn computed_header(v: WireView) -> u32 {
    header_bits(v.body.len() as u32, encode_utf8(v.message_id).len() as u32, v.transaction is Some)
}

/// The header of a frame is the one its message id, body and transaction call
/// for, and its fields agree with what follows it.
pub open spec fn wire_view_ok(v: WireView) -> bool {
    &&& v.header == computed_header(v)
    &&& header_body_len(v.header) == v.body.len()
    &&& header_message_id_len(v.header) == encode_utf8(v.message_id).len()
    &&& header_is_txn(v.header) == v.transaction is Some
}

/// Whether a frame with this message id and body fits the header's fields.
pub open spec fn fits_header(message_id: Seq<char>, body: Seq<u8>) -> bool {
    encode_utf8(message_id).len() <= 0x3F && body.len() <= 0xFFFFF
}

/// The bytes of a frame on the wire.
pub open spec fn frame_bytes(v: WireView) -> Seq<u8> {
    be_bytes(v.header) + match v.transaction {
        Some(t) => be_bytes(t),
        None => Seq::<u8>::empty(),
    } + encode_utf8(v.message_id) + v.body
}

/// What decoding finds at the front of a buffer.
pub enum FrameParse {
    /// The buffer holds only part of a frame.
    NeedMore,
    /// A whole frame is there, but its message id is not UTF-8.
    BadMessageId,
    /// A whole frame, and how many bytes it takes.
    Frame(WireView, nat),
}

/// The outcome of decoding the front of `s`.
pub open spec fn parse_frame(s: Seq<u8>) -> FrameParse {
    if s.len() < 4 {
        FrameParse::NeedMore
    } else {
        let h = be_word(s, 0);
        let off: int = if header_is_txn(h) {
            8
        } else {
            4
        };
        let id_end = off + header_message_id_len(h);
        let end = id_end + header_body_len(h);
        if s.len() < off {
            FrameParse::NeedMore
        } else if s.len() < end {
            FrameParse::NeedMore
        } else if !valid_utf8(s.subrange(off, id_end)) {
            FrameParse::BadMessageId
        } else {
            FrameParse::Frame(
                WireView {
                    header: header_bits(header_body_len(h), header_message_id_len(h), header_is_txn(h)),
                    transaction: if header_is_txn(h) {
                        Some(be_word(s, 4))
                    } else {
                        None
                    },
                    message_id: decode_utf8(s.subrange(off, id_end)),
                    body: s.subrange(id_end, end),
                },
                end as nat,
            )
        }
    }
}

/// A string takes at most four bytes per character in UTF-8.
pub proof fn lemma_encode_utf8_len_bound(chars: Seq<char>)
    ensures
        encode_utf8(chars).len() <= 4 * chars.len(),
    decreases chars.len(),
{
    if chars.len() > 0 {
        lemma_encode_utf8_len_bound(chars.drop_first());
    }
}

/// Error of the codec.
#[derive(Copy, Clone, Debug, PartialEq, Eq, Structural)]
pub enum CodecError {
    /// The message id of a frame is not valid UTF-8.
    MalformedMessageId,
    /// The message id or the body is too long for the header's fields.
    TooLong,
}

/// Relies on `std::str::from_utf8`: it accepts exactly the valid UTF-8
/// sequences, and the string it gives holds those bytes.
#[verifier::external_body]
fn utf8_to_string(b: &[u8]) -> (r: Option<String>)
    ensures
        r is Some <==> valid_utf8(b@),
        r matches Some(s) ==> encode_utf8(s@) == b@,
{
    std::str::from_utf8(b).ok().map(|s| s.to_string())
}

/// A frame: header, optional transaction, message id and opaque body.
pub struct SrvWireMessage {
    header: SrvHeader,
    transaction: Option<SrvTxn>,
    message_id: String,
    body: Vec<u8>,
}

impl View for SrvWireMessage {
    type V = WireView;

    closed spec fn view(&self) -> WireView {
        WireView {
            header: self.header@,
            transaction: match self.transaction {
                Some(t) => Some(t@),
                None => None,
            },
            message_id: self.message_id@,
            body: self.body@,
        }
    }
}

impl SrvWireMessage {
    #[verifier::type_invariant]
    spec fn inv(&self) -> bool {
        wire_view_ok(self@)
    }

    /// A frame with the given message id, body and transaction, its header
    /// computed from them; `TooLong` when the message id takes more than 63
    /// bytes or the body more than 2^20 - 1.
    pub fn new(message_id: String, body: Vec<u8>, transaction: Option<SrvTxn>) -> (r: Result<
        SrvWireMessage,
        CodecError,
    >)
        ensures
            fits_header(message_id@, body@) <==> r is Ok,
            r matches Err(e) ==> e == CodecError::TooLong,
            r matches Ok(m) ==> {
                &&& m@.message_id == message_id@
                &&& m@.body == body@
                &&& m@.transaction == match transaction {
                    Some(t) => Some(t@),
                    None => None::<u32>,
                }
                &&& m@.header == header_bits(
                    body@.len() as u32,
                    encode_utf8(message_id@).len() as u32,
                    transaction is Some,
                )
            },
    {
        let id_len = message_id.as_str().as_bytes().len();
        let body_len = body.len();
        if id_len > MESSAGE_ID_MASK as usize || body_len > BODY_LEN_MASK as usize {
            return Err(CodecError::TooLong);
        }
        let header = SrvHeader::new(body_len as u32, id_len as u32, transaction.is_some());
        Ok(SrvWireMessage { header, transaction, message_id, body })
    }

    pub fn body(&self) -> (r: &Vec<u8>)
        ensures
            r@ == self@.body,
    {
        &self.body
    }

    /// The header word; it is always the one computed from the message id,
    /// the body and the transaction.
    pub fn header(&self) -> (r: SrvHeader)
        ensures
            r@ == self@.header,
            wire_view_ok(self@),
    {
        proof {
            use_type_invariant(self);
        }
        self.header
    }

    /// Whether this frame is the last reply of a transaction.
    pub fn is_complete(&self) -> (r: bool)
        ensures
            r == (self@.transaction matches Some(t) && txn_complete_of(t)),
    {
        match self.transaction {
            Some(txn) => txn.is_complete(),
            None => false,
        }
    }

    /// Whether this frame is a reply to a transactional request.
    pub fn is_response(&self) -> (r: bool)
        ensures
            r == (self@.transaction matches Some(t) && txn_response_of(t)),
    {
        match self.transaction {
            Some(txn) => txn.is_response(),
            None => false,
        }
    }

    pub fn is_transaction(&self) -> (r: bool)
        ensures
            r == self@.transaction is Some,
    {
        self.transaction.is_some()
    }

    pub fn message_id(&self) -> (r: &str)
        ensures
            r@ == self@.message_id,
    {
        self.message_id.as_str()
    }

    /// Stamps this frame as a reply within `txn`: the response flag is set, the
    /// completion flag too when `complete`, and the header marks the
    /// transaction. Message id and body stay.
    pub fn reply_for(&mut self, txn: SrvTxn, complete: bool)
        ensures
            final(self)@.transaction == Some(
                if complete {
                    txn@ | 0xC0000000u32
                } else {
                    txn@ | 0x80000000u32
                },
            ),
            final(self)@.header == old(self)@.header | 0x80000000u32,
            header_is_txn(final(self)@.header),
            final(self)@.message_id == old(self)@.message_id,
            final(self)@.body == old(self)@.body,
    {
        proof {
            use_type_invariant(&*self);
        }
        let mut t = txn;
        t.set_response();
        if complete {
            t.set_complete();
            proof {
                lemma_both_flags(txn@);
            }
        }
        let mut header = self.header;
        header.set_is_transaction();
        proof {
            lemma_header_bits_txn(
                self@.body.len() as u32,
                encode_utf8(self@.message_id).len() as u32,
                self@.transaction is Some,
            );
        }
        let empty_id = String::new();
        proof {
            assert(header_body_len(0) == 0 && header_message_id_len(0) == 0 && !header_is_txn(0)
                && header_bits(0, 0, false) == 0) by (bit_vector);
            assert(encode_utf8(empty_id@).len() == 0);
        }
        let mut taken = SrvWireMessage {
            header: SrvHeader(0),
            transaction: None,
            message_id: empty_id,
            body: Vec::new(),
        };
        std::mem::swap(self, &mut taken);
        let SrvWireMessage { header: _, transaction: _, message_id, body } = taken;
        *self = SrvWireMessage { header, transaction: Some(t), message_id, body };
    }

    /// Number of bytes of this frame on the wire.
    pub fn size(&self) -> (r: usize)
        ensures
            r == frame_bytes(self@).len(),
    {
        proof {
            use_type_invariant(self);
            lemma_header_bounds(self.header@);
        }
        let mut size: usize = HEADER_LEN;
        if self.transaction.is_some() {
            size = size + TXN_LEN;
        }
        size = size + self.message_id.as_str().as_bytes().len();
        size = size + self.body.len();
        size
    }

    /// This frame with its transaction replaced by `transaction` and its header
    /// recomputed from the lengths and the new transaction.
    pub fn with_transaction(self, transaction: Option<SrvTxn>) -> (r: SrvWireMessage)
        ensures
            r@.message_id == self@.message_id,
            r@.body == self@.body,
            r@.transaction == match transaction {
                Some(t) => Some(t@),
                None => None::<u32>,
            },
            r@.header == header_bits(
                self@.body.len() as u32,
                encode_utf8(self@.message_id).len() as u32,
                transaction is Some,
            ),
    {
        proof {
            use_type_invariant(&self);
            lemma_header_bounds(self.header@);
        }
        let id_len = self.message_id.as_str().as_bytes().len();
        let body_len = self.body.len();
        let header = SrvHeader::new(body_len as u32, id_len as u32, transaction.is_some());
        let SrvWireMessage { header: _, transaction: _, message_id, body } = self;
        SrvWireMessage { header, transaction, message_id, body }
    }

    /// Whether the message id of this frame is `name`.
    pub fn is_message(&self, name: &str) -> (r: bool)
        ensures
            r == (self@.message_id == name@),
    {
        let other = name.to_owned();
        self.message_id == other
    }

    /// `Err(parsed)` when this frame carries the error reply, `NetErr`;
    /// `parsed` is its body decoded. `Ok(())` for any other frame.
    pub fn try_ok(&self, parsed: NetErr) -> (r: Result<(), NetErr>)
        ensures
            r matches Err(e) ==> e == parsed,
            r is Err <==> self@.message_id == NetErr::spec_message_id(),
    {
        if self.is_message(NetErr::message_id()) {
            Err(parsed)
        } else {
            Ok(())
        }
    }

    pub fn transaction(&self) -> (r: Option<SrvTxn>)
        ensures
            match r {
                Some(t) => self@.transaction == Some(t@),
                None => self@.transaction is None,
            },
    {
        self.transaction
    }
}

/// Copies `buf[start..end]` into a new vector.
fn copy_range(buf: &bytes::BytesMut, start: usize, end: usize) -> (r: Vec<u8>)
    requires
        start <= end <= buffer_bytes(*buf).len(),
    ensures
        r@ == buffer_bytes(*buf).subrange(start as int, end as int),
{
    let mut out: Vec<u8> = Vec::new();
    let mut i: usize = start;
    while i < end
        invariant
            start <= i <= end <= buffer_bytes(*buf).len(),
            out@ == buffer_bytes(*buf).subrange(start as int, i as int),
        decreases end - i,
    {
        out.push(byte_at(buf, i));
        i = i + 1;
        assert(out@ =~= buffer_bytes(*buf).subrange(start as int, i as int));
    }
    out
}

/// Encoder and decoder of frames.
#[derive(Copy, Clone, Debug)]
pub struct SrvCodec(());

impl SrvCodec {
    pub fn new() -> (r: SrvCodec) {
        SrvCodec(())
    }

    /// Takes one frame off the front of `bytes`, if a whole one is there.
    ///
    /// With only part of a frame buffered this returns `Ok(None)` and leaves
    /// the buffer as it was, so the call can be repeated once more bytes have
    /// come. A whole frame whose message id is not UTF-8 gives
    /// `MalformedMessageId`, also with the buffer untouched. Otherwise the
    /// frame's bytes are removed and the frame is returned.
    pub fn decode(&mut self, bytes: &mut bytes::BytesMut) -> (r: Result<
        Option<SrvWireMessage>,
        CodecError,
    >)
        ensures
            match parse_frame(buffer_bytes(*old(bytes))) {
                FrameParse::NeedMore => {
                    &&& r == Ok::<Option<SrvWireMessage>, CodecError>(None)
                    &&& buffer_bytes(*final(bytes)) == buffer_bytes(*old(bytes))
                },
                FrameParse::BadMessageId => {
                    &&& r == Err::<Option<SrvWireMessage>, CodecError>(
                        CodecError::MalformedMessageId,
                    )
                    &&& buffer_bytes(*final(bytes)) == buffer_bytes(*old(bytes))
                },
                FrameParse::Frame(v, n) => {
                    &&& r matches Ok(Some(m)) && m@ == v
                    &&& buffer_bytes(*final(bytes)) == buffer_bytes(*old(bytes)).subrange(
                        n as int,
                        buffer_bytes(*old(bytes)).len() as int,
                    )
                },
            },
    {
        let ghost s = buffer_bytes(*bytes);
        let len = bytes.len();
        if len < HEADER_LEN {
            return Ok(None);
        }
        let raw = SrvHeader(be_to_word(bytes, 0));
        let mut off: usize = HEADER_LEN;
        let mut txn: Option<SrvTxn> = None;
        let is_txn = raw.is_transaction();
        if is_txn {
            if len < HEADER_LEN + TXN_LEN {
                return Ok(None);
            }
            txn = Some(SrvTxn(be_to_word(bytes, HEADER_LEN)));
            off = HEADER_LEN + TXN_LEN;
        }
        let id_len = raw.message_id_len();
        let body_len = raw.body_len();
        proof {
            lemma_header_bounds(raw@);
        }
        if len - off < id_len + body_len {
            return Ok(None);
        }
        let id_end = off + id_len;
        let end = id_end + body_len;
        let id_bytes = copy_range(bytes, off, id_end);
        let body = copy_range(bytes, id_end, end);
        match utf8_to_string(id_bytes.as_slice()) {
            None => Err(CodecError::MalformedMessageId),
            Some(message_id) => {
                proof {
                    vstd::utf8::encode_utf8_decode_utf8(message_id@);
                }
                let _frame = bytes.split_to(end);
                let header = SrvHeader::new(body_len as u32, id_len as u32, is_txn);
                let msg = SrvWireMessage { header, transaction: txn, message_id, body };
                proof {
                    assert(parse_frame(s) == FrameParse::Frame(msg@, end as nat));
                }
                Ok(Some(msg))
            },
        }
    }

    /// Appends the bytes of `msg` to `buf`: its header word, which is always
    /// the one computed from the lengths of the message id and body and from
    /// whether there is a transaction, the transaction word when there is one,
    /// the message id, the body.
    pub fn encode(&mut self, msg: SrvWireMessage, buf: &mut bytes::BytesMut)
        requires
            buffer_bytes(*old(buf)).len() + frame_bytes(msg@).len() <= usize::MAX,
        ensures
            buffer_bytes(*final(buf)) == buffer_bytes(*old(buf)) + frame_bytes(msg@),
            wire_view_ok(msg@),
    {
        proof {
            use_type_invariant(&msg);
        }
        let ghost start = buffer_bytes(*buf);
        let header = word_to_be(msg.header.0);
        buf.extend_from_slice(header.as_slice());
        if let Some(txn) = msg.transaction {
            let t = word_to_be(txn.0);
            buf.extend_from_slice(t.as_slice());
        }
        buf.extend_from_slice(msg.message_id.as_str().as_bytes());
        buf.extend_from_slice(msg.body.as_slice());
        assert(buffer_bytes(*buf) =~= start + frame_bytes(msg@));
    }
}

/// A header built from in-range fields, written big-endian and read back,
/// gives the same word and the same three fields.
pub proof fn lemma_header_round_trip(body_len: u32, message_id_len: u32, is_txn: bool)
    requires
        body_len <= 0xFFFFF,
        message_id_len <= 0x3F,
    ensures
        be_word(be_bytes(header_bits(body_len, message_id_len, is_txn)), 0) == header_bits(
            body_len,
            message_id_len,
            is_txn,
        ),
        header_body_len(be_word(be_bytes(header_bits(body_len, message_id_len, is_txn)), 0))
            == body_len,
        header_message_id_len(be_word(be_bytes(header_bits(body_len, message_id_len, is_txn)), 0))
            == message_id_len,
        header_is_txn(be_word(be_bytes(header_bits(body_len, message_id_len, is_txn)), 0))
            == is_txn,
{
    let v = header_bits(body_len, message_id_len, is_txn);
    lemma_be_round_trip(v, Seq::<u8>::empty(), Seq::<u8>::empty());
    assert(Seq::<u8>::empty() + be_bytes(v) + Seq::<u8>::empty() =~= be_bytes(v));
    lemma_header_fields(body_len, message_id_len, is_txn);
}

/// Decoding a buffer that starts with the bytes of a well-formed frame, which
/// are what the encoder writes, gives that frame back, header, transaction,
/// message id and body alike, and consumes exactly its bytes.
pub proof fn lemma_codec_round_trip(v: WireView, rest: Seq<u8>)
    requires
        wire_view_ok(v),
    ensures
        parse_frame(frame_bytes(v) + rest) == FrameParse::Frame(v, frame_bytes(v).len()),
{
    let s = frame_bytes(v) + rest;
    lemma_header_bounds(v.header);
    lemma_header_fields(
        v.body.len() as u32,
        encode_utf8(v.message_id).len() as u32,
        v.transaction is Some,
    );
    let txn_bytes = match v.transaction {
        Some(t) => be_bytes(t),
        None => Seq::<u8>::empty(),
    };
    let id = encode_utf8(v.message_id);
    let after_header = txn_bytes + id + v.body + rest;
    assert(s =~= Seq::<u8>::empty() + be_bytes(v.header) + after_header);
    lemma_be_round_trip(v.header, Seq::<u8>::empty(), after_header);
    assert(be_word(s, 0) == v.header);
    let off: int = if v.transaction is Some {
        8
    } else {
        4
    };
    if let Some(t) = v.transaction {
        assert(s =~= be_bytes(v.header) + be_bytes(t) + (id + v.body + rest));
        lemma_be_round_trip(t, be_bytes(v.header), id + v.body + rest);
    }
    let id_end = off + id.len();
    let end = id_end + v.body.len();
    assert(s.subrange(off, id_end) =~= id);
    assert(s.subrange(id_end, end) =~= v.body);
    vstd::utf8::encode_utf8_valid_utf8(v.message_id);
    vstd::utf8::encode_utf8_decode_utf8(v.message_id);
    assert(frame_bytes(v).len() == end);
}

/// Every proper prefix of a well-formed frame's bytes decodes as "need more
/// data"; only the whole frame decodes to it.
pub proof fn lemma_partial_frame(v: WireView, k: int)
    requires
        wire_view_ok(v),
        0 <= k < frame_bytes(v).len(),
    ensures
        parse_frame(frame_bytes(v).subrange(0, k)) == FrameParse::NeedMore,
        parse_frame(frame_bytes(v)) == FrameParse::Frame(v, frame_bytes(v).len()),
{
    lemma_codec_round_trip(v, Seq::<u8>::empty());
    assert(frame_bytes(v) + Seq::<u8>::empty() =~= frame_bytes(v));
    let full = frame_bytes(v);
    let p = full.subrange(0, k);
    if k >= 4 {
        assert(be_word(p, 0) == be_word(full, 0));
        let h = be_word(full, 0);
        if header_is_txn(h) && k >= 8 {
            assert(be_word(p, 4) == be_word(full, 4));
        }
    }
}

/// A payload type of the control protocol.
pub trait CtlMessage: Sized {
    /// The message id that frames carrying this payload type have.
    spec fn spec_message_id() -> Seq<char>;

    fn message_id() -> (r: &'static str)
        ensures
            r@ == Self::spec_message_id(),
    ;

    /// No field of the payload is set.
    spec fn spec_is_empty(&self) -> bool;

    fn empty() -> (r: Self)
        ensures
            r.spec_is_empty(),
    ;
}

/// A typed payload with an optional transaction, before encoding or after
/// decoding.
pub struct SrvMessage<T> {
    pub transaction: Option<SrvTxn>,
    pub inner: T,
}

impl<T: CtlMessage> SrvMessage<T> {
    /// An empty payload without a transaction.
    pub fn new() -> (r: SrvMessage<T>)
        ensures
            r.transaction is None,
            r.inner.spec_is_empty(),
    {
        SrvMessage { transaction: None, inner: T::empty() }
    }

    /// The message id of the payload type.
    pub fn message_id(&self) -> (r: &'static str)
        ensures
            r@ == T::spec_message_id(),
    {
        T::message_id()
    }
}

} // verus!
