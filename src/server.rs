//! The server side of a connection: the authentication handshake, the table
//! of supported requests, the sink that replies go through, and the handler
//! that streams those replies back.
//!
//! The socket, the timeout and the channel to the manager are driven by the
//! caller; these types decide what each event means and what to do next.

use crate::codec::{
    header_is_txn, lemma_encode_utf8_len_bound, txn_complete_of, txn_id_of, txn_response_of, CodecError,
    CtlMessage, SrvTxn, SrvWireMessage, WireView,
};
use crate::client::{stream_of, view_complete};
use crate::ctl::{Handshake, NetErr, NetOk, SvcLoad, SvcStart};
use crate::types::text_of;
use vstd::prelude::*;

verus! {

/// Why a connection's handler stopped with a failure.
#[derive(Clone, Debug, PartialEq, Eq)]
pub enum HandlerError {
    /// The connection closed before the handshake arrived.
    ConnectionClosed,
    /// The first message was not a handshake.
    NotHandshake,
    /// The handshake's body could not be decoded.
    MalformedHandshake,
    /// The handshake carried the wrong key.
    Unauthorized,
    /// The handshake was sent without a transaction.
    NotTransactional,
    /// The handshake did not arrive in time.
    TimedOut,
    /// Reading or writing the socket failed.
    Io(String),
    /// A frame could not be decoded.
    Codec(CodecError),
    /// An operation failed with an error reply.
    NetErr(NetErr),
    /// The manager's command channel is closed.
    SendError,
}

/// A short description of each handler failure.
pub open spec fn handler_error_text(e: HandlerError) -> Seq<char> {
    match e {
        HandlerError::ConnectionClosed => "connection closed before handshake"@,
        HandlerError::NotHandshake => "first message was not a handshake"@,
        HandlerError::MalformedHandshake => "malformed handshake"@,
        HandlerError::Unauthorized => "client failed authorization"@,
        HandlerError::NotTransactional => "handshake without a transaction"@,
        HandlerError::TimedOut => "client timed out"@,
        HandlerError::Io(m) => m@,
        HandlerError::Codec(_) => "malformed frame"@,
        HandlerError::NetErr(e) => crate::net::code_description(crate::net::err_code_of(e)),
        HandlerError::SendError => "manager command channel closed"@,
    }
}

impl HandlerError {
    /// A short description of the failure.
    pub fn description(&self) -> (r: &str)
        ensures
            r@ == handler_error_text(*self),
    {
        match self {
            HandlerError::ConnectionClosed => "connection closed before handshake",
            HandlerError::NotHandshake => "first message was not a handshake",
            HandlerError::MalformedHandshake => "malformed handshake",
            HandlerError::Unauthorized => "client failed authorization",
            HandlerError::NotTransactional => "handshake without a transaction",
            HandlerError::TimedOut => "client timed out",
            HandlerError::Io(m) => m.as_str(),
            HandlerError::Codec(_) => "malformed frame",
            HandlerError::NetErr(e) => e.description(),
            HandlerError::SendError => "manager command channel closed",
        }
    }
}

/// The outcome of a handshake, from the first message received (if any), its
/// body decoded as a handshake (`None` when that failed), and the server's
/// key.
pub open spec fn handshake_result(
    msg: Option<WireView>,
    parsed: Option<Handshake>,
    auth_key: Seq<char>,
) -> Result<u32, HandlerError> {
    match msg {
        None => Err(HandlerError::ConnectionClosed),
        Some(m) => if m.message_id != Handshake::spec_message_id() {
            Err(HandlerError::NotHandshake)
        } else {
            match parsed {
                None => Err(HandlerError::MalformedHandshake),
                Some(h) => if text_of(h.auth_key) != auth_key {
                    Err(HandlerError::Unauthorized)
                } else {
                    match m.transaction {
                        None => Err(HandlerError::NotTransactional),
                        Some(t) => Ok(t),
                    }
                },
            }
        },
    }
}

/// Checks the first message of a connection: it must be a transactional
/// handshake whose key equals `auth_key`, byte for byte. Returns the
/// handshake's transaction, which the acknowledgement answers.
pub fn check_handshake(msg: Option<&SrvWireMessage>, parsed: Option<Handshake>, auth_key: &str) -> (r:
    Result<SrvTxn, HandlerError>)
    ensures
        match handshake_result(
            match msg {
                Some(m) => Some(m@),
                None => None,
            },
            parsed,
            auth_key@,
        ) {
            Ok(t) => r matches Ok(x) && x@ == t,
            Err(e) => r == Err::<SrvTxn, HandlerError>(e),
        },
{
    match msg {
        None => Err(HandlerError::ConnectionClosed),
        Some(m) => {
            if !m.is_message(Handshake::message_id()) {
                return Err(HandlerError::NotHandshake);
            }
            match parsed {
                None => Err(HandlerError::MalformedHandshake),
                Some(h) => {
                    let given = h.get_auth_key().to_owned();
                    let expected = auth_key.to_owned();
                    if given != expected {
                        return Err(HandlerError::Unauthorized);
                    }
                    match m.transaction() {
                        None => Err(HandlerError::NotTransactional),
                        Some(t) => Ok(t),
                    }
                },
            }
        },
    }
}

/// The transaction in which a refused handshake is answered before the
/// connection closes: a wrong key on a transactional handshake gets an error
/// reply; every other failure closes the connection without one.
pub fn refusal_transaction(msg: Option<&SrvWireMessage>, failure: &HandlerError) -> (r: Option<
    SrvTxn,
>)
    ensures
        r is Some <==> (*failure == HandlerError::Unauthorized && (msg matches Some(m)
            && m@.transaction is Some)),
        r matches Some(t) ==> msg matches Some(m) && m@.transaction == Some(t@),
{
    match (failure, msg) {
        (HandlerError::Unauthorized, Some(m)) => m.transaction(),
        _ => None,
    }
}

/// A frame stamped as a reply within transaction word `txn`.
pub open spec fn stamped(v: WireView, txn: u32, complete: bool) -> WireView {
    WireView {
        header: v.header | 0x80000000u32,
        transaction: Some(
            if complete {
                txn | 0xC0000000u32
            } else {
                txn | 0x80000000u32
            },
        ),
        ..v
    }
}

/// Replies stamped within a request's transaction keep its id and are marked
/// as responses; only the one stamped as complete carries the completion
/// flag, provided the request's own transaction had that flag clear, as every
/// transaction that a client opens has.
pub proof fn lemma_stamped_flags(v: WireView, txn: u32, complete: bool)
    requires
        !txn_complete_of(txn),
    ensures
        stamped(v, txn, complete).transaction matches Some(t) && txn_id_of(t) == txn_id_of(txn)
            && txn_response_of(t) && txn_complete_of(t) == complete,
        stamped(v, txn, complete).message_id == v.message_id,
        stamped(v, txn, complete).body == v.body,
{
    assert(((txn >> 30u32) & 1u32 != 1u32) ==> (((txn | 0x80000000u32) & 0x3FFFFFFFu32 == txn
        & 0x3FFFFFFFu32) && (((txn | 0x80000000u32) >> 31u32) & 1u32 == 1u32) && (((txn
        | 0x80000000u32) >> 30u32) & 1u32 != 1u32) && ((txn | 0xC0000000u32) & 0x3FFFFFFFu32 == txn
        & 0x3FFFFFFFu32) && (((txn | 0xC0000000u32) >> 31u32) & 1u32 == 1u32) && (((txn
        | 0xC0000000u32) >> 30u32) & 1u32 == 1u32))) by (bit_vector);
}

/// A partial reply followed by a completing one, both stamped within a
/// transaction whose own completion flag is clear, reach the caller as a
/// stream of exactly those two replies, in that order, which then ends
/// without error; only the second completes the transaction.
pub proof fn lemma_partial_then_complete(p: WireView, c: WireView, txn: u32)
    requires
        !txn_complete_of(txn),
    ensures
        stream_of(seq![stamped(p, txn, false), stamped(c, txn, true)]) == (
        seq![stamped(p, txn, false), stamped(c, txn, true)],
        false,
        ),
        !view_complete(stamped(p, txn, false)),
        view_complete(stamped(c, txn, true)),
{
    lemma_stamped_flags(p, txn, false);
    lemma_stamped_flags(c, txn, true);
    let s = seq![stamped(p, txn, false), stamped(c, txn, true)];
    assert(s.drop_first() =~= seq![stamped(c, txn, true)]);
    assert(stream_of(s.drop_first()) == (seq![stamped(c, txn, true)], false));
    assert(seq![stamped(p, txn, false)] + seq![stamped(c, txn, true)] =~= s);
}

/// The acknowledgement of a successful handshake: an empty `NetOk` that
/// completes the handshake's transaction.
pub fn handshake_reply(txn: SrvTxn) -> (r: SrvWireMessage)
    ensures
        r@.message_id == NetOk::spec_message_id(),
        r@.body.len() == 0,
        r@.transaction == Some(txn@ | 0xC0000000u32),
        header_is_txn(r@.header),
        view_complete(r@),
{
    let id = NetOk::message_id().to_owned();
    proof {
        reveal_strlit("NetOk");
        lemma_encode_utf8_len_bound(id@);
    }
    let mut reply = SrvWireMessage::new(id, Vec::new(), None).unwrap();
    reply.reply_for(txn, true);
    proof {
        let v: u32 = txn@;
        assert((v | 0xC0000000u32) >> 30u32 & 1u32 == 1u32) by (bit_vector);
    }
    reply
}

/// The requests a server handles.
#[derive(Copy, Clone, Debug, PartialEq, Eq, Structural)]
pub enum CtlCommandKind {
    SvcLoad,
    SvcStart,
}

/// The request kind that a message id names, if it is supported.
pub open spec fn command_kind_of(message_id: Seq<char>) -> Option<CtlCommandKind> {
    if message_id == SvcLoad::spec_message_id() {
        Some(CtlCommandKind::SvcLoad)
    } else if message_id == SvcStart::spec_message_id() {
        Some(CtlCommandKind::SvcStart)
    } else {
        None
    }
}

/// Looks up the request kind of a frame by its message id.
pub fn command_for(msg: &SrvWireMessage) -> (r: Option<CtlCommandKind>)
    ensures
        r == command_kind_of(msg@.message_id),
{
    if msg.is_message(SvcLoad::message_id()) {
        Some(CtlCommandKind::SvcLoad)
    } else if msg.is_message(SvcStart::message_id()) {
        Some(CtlCommandKind::SvcStart)
    } else {
        None
    }
}

/// The sink an operation replies through: each reply is stamped with the
/// request's transaction and queued for the connection, in order.
pub struct CtlRequest {
    transaction: Option<SrvTxn>,
    replies: Vec<SrvWireMessage>,
}

impl CtlRequest {
    pub closed spec fn spec_transaction(&self) -> Option<u32> {
        match self.transaction {
            Some(t) => Some(t@),
            None => None,
        }
    }

    /// The replies queued and not yet taken.
    pub closed spec fn queued(&self) -> Seq<WireView> {
        crate::client::views_of(self.replies@)
    }

    /// A sink for a request with the given transaction and nothing queued.
    pub fn new(transaction: Option<SrvTxn>) -> (r: CtlRequest)
        ensures
            r.spec_transaction() == match transaction {
                Some(t) => Some(t@),
                None => None::<u32>,
            },
            r.queued().len() == 0,
    {
        let r = CtlRequest { transaction, replies: Vec::new() };
        assert(r.queued() =~= Seq::<WireView>::empty());
        r
    }

    /// Whether the request came with a transaction, so that replies can be
    /// sent.
    pub fn transactional(&self) -> (r: bool)
        ensures
            r == self.spec_transaction() is Some,
    {
        self.transaction.is_some()
    }

    fn send_msg(&mut self, msg: SrvWireMessage, complete: bool)
        requires
            old(self).spec_transaction() is Some,
        ensures
            final(self).spec_transaction() == old(self).spec_transaction(),
            final(self).queued() == old(self).queued().push(
                stamped(msg@, old(self).spec_transaction()->0, complete),
            ),
    {
        let mut wire = msg;
        let txn = self.transaction.unwrap();
        wire.reply_for(txn, complete);
        self.replies.push(wire);
        assert(self.queued() =~= old(self).queued().push(
            stamped(msg@, old(self).spec_transaction()->0, complete),
        ));
    }

    /// Queues a reply that leaves the transaction open.
    pub fn reply_partial(&mut self, msg: SrvWireMessage)
        requires
            old(self).spec_transaction() is Some,
        ensures
            final(self).spec_transaction() == old(self).spec_transaction(),
            final(self).queued() == old(self).queued().push(
                stamped(msg@, old(self).spec_transaction()->0, false),
            ),
    {
        self.send_msg(msg, false)
    }

    /// Queues the reply that closes the transaction.
    pub fn reply_complete(&mut self, msg: SrvWireMessage)
        requires
            old(self).spec_transaction() is Some,
        ensures
            final(self).spec_transaction() == old(self).spec_transaction(),
            final(self).queued() == old(self).queued().push(
                stamped(msg@, old(self).spec_transaction()->0, true),
            ),
    {
        self.send_msg(msg, true)
    }

    /// Takes the queued replies, oldest first.
    pub fn take_replies(&mut self) -> (r: Vec<SrvWireMessage>)
        ensures
            crate::client::views_of(r@) == old(self).queued(),
            final(self).queued().len() == 0,
            final(self).spec_transaction() == old(self).spec_transaction(),
    {
        let mut out: Vec<SrvWireMessage> = Vec::new();
        std::mem::swap(&mut self.replies, &mut out);
        assert(self.queued() =~= Seq::<WireView>::empty());
        out
    }
}

/// Where a connection's handler stands once the handshake is done.
#[derive(Copy, Clone, Debug, PartialEq, Eq, Structural)]
pub enum SrvHandlerState {
    /// Waiting for the request.
    Receiving,
    /// The request went to the manager; its replies are being written back.
    Sending,
    /// Done: the connection is flushed and closed.
    Sent,
}

/// The handler of one connection after its handshake.
pub struct SrvHandler {
    state: SrvHandlerState,
}

impl SrvHandler {
    pub closed spec fn state(&self) -> SrvHandlerState {
        self.state
    }

    pub fn new() -> (r: SrvHandler)
        ensures
            r.state() == SrvHandlerState::Receiving,
    {
        SrvHandler { state: SrvHandlerState::Receiving }
    }

    /// Takes the request read from the socket, or `None` when the socket
    /// closed. A supported request gives its kind, to be submitted to the
    /// manager, and replies are awaited next; anything else ends the
    /// connection without a reply.
    pub fn on_request(&mut self, msg: Option<&SrvWireMessage>) -> (r: Option<CtlCommandKind>)
        requires
            old(self).state() == SrvHandlerState::Receiving,
        ensures
            r == match msg {
                Some(m) => command_kind_of(m@.message_id),
                None => None,
            },
            final(self).state() == if r is Some {
                SrvHandlerState::Sending
            } else {
                SrvHandlerState::Sent
            },
    {
        let kind = match msg {
            Some(m) => command_for(m),
            None => None,
        };
        self.state = if kind.is_some() {
            SrvHandlerState::Sending
        } else {
            SrvHandlerState::Sent
        };
        kind
    }

    /// Takes the next reply from the connection's queue, or `None` when the
    /// queue closed. A reply is handed back to be written; the one that
    /// completes the transaction, or the queue closing, ends the exchange.
    pub fn on_reply(&mut self, reply: Option<SrvWireMessage>) -> (r: Option<SrvWireMessage>)
        requires
            old(self).state() == SrvHandlerState::Sending,
        ensures
            match reply {
                Some(m) => {
                    &&& r matches Some(w) && w@ == m@
                    &&& final(self).state() == if view_complete(m@) {
                        SrvHandlerState::Sent
                    } else {
                        SrvHandlerState::Sending
                    }
                },
                None => r is None && final(self).state() == SrvHandlerState::Sent,
            },
    {
        match reply {
            Some(m) => {
                if m.is_complete() {
                    self.state = SrvHandlerState::Sent;
                }
                Some(m)
            },
            None => {
                self.state = SrvHandlerState::Sent;
                None
            },
        }
    }

    /// Whether the exchange is over.
    pub fn is_done(&self) -> (r: bool)
        ensures
            r == (self.state() == SrvHandlerState::Sent),
    {
        match self.state {
            SrvHandlerState::Sent => true,
            _ => false,
        }
    }
}

} // verus!
