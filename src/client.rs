//! The client side of a connection: transaction ids for calls, the
//! handshake's outcome, and the stream of replies to a call.
//!
//! The socket itself is driven by the caller; these types decide what to send
//! and what each received frame means.

use crate::codec::{header_bits, next_txn_id, txn_complete_of, CtlMessage, SrvTxn, SrvWireMessage, WireView};
use crate::ctl::{ConsoleLine, NetErr, NetProgress};
use vstd::prelude::*;
use vstd::utf8::encode_utf8;

verus! {

/// Why a client request failed.
#[derive(Clone, Debug, PartialEq, Eq)]
pub enum SrvClientError {
    /// The connection closed before the exchange was over.
    ConnectionClosed,
    /// Reading or writing the socket failed, or a frame could not be decoded.
    Io(String),
    /// The server answered with an error reply.
    NetErr(NetErr),
}

impl SrvClientError {
    /// A short description of the failure.
    pub fn description(&self) -> (r: &str)
        ensures
            *self == SrvClientError::ConnectionClosed ==> r@ == "Connection closed"@,
            self matches SrvClientError::Io(m) ==> r@ == m@,
            self matches SrvClientError::NetErr(e) ==> r@ == crate::net::code_description(
                crate::net::err_code_of(*e),
            ),
    {
        match self {
            SrvClientError::ConnectionClosed => "Connection closed",
            SrvClientError::Io(m) => m.as_str(),
            SrvClientError::NetErr(e) => e.description(),
        }
    }
}

/// How a command-line caller shows a reply.
#[derive(Copy, Clone, Debug, PartialEq, Eq, Structural)]
pub enum ReplyKind {
    /// A line of remote console output.
    ConsoleLine,
    /// Progress of a long operation.
    Progress,
    /// The error reply.
    Error,
    /// Anything else, shown as nothing.
    Other,
}

/// The display kind a message id calls for.
pub open spec fn reply_kind_of(message_id: Seq<char>) -> ReplyKind {
    if message_id == ConsoleLine::spec_message_id() {
        ReplyKind::ConsoleLine
    } else if message_id == NetProgress::spec_message_id() {
        ReplyKind::Progress
    } else if message_id == NetErr::spec_message_id() {
        ReplyKind::Error
    } else {
        ReplyKind::Other
    }
}

/// How a reply is to be shown, by its message id.
pub fn reply_kind(reply: &SrvWireMessage) -> (r: ReplyKind)
    ensures
        r == reply_kind_of(reply@.message_id),
{
    if reply.is_message(ConsoleLine::message_id()) {
        ReplyKind::ConsoleLine
    } else if reply.is_message(NetProgress::message_id()) {
        ReplyKind::Progress
    } else if reply.is_message(NetErr::message_id()) {
        ReplyKind::Error
    } else {
        ReplyKind::Other
    }
}

/// Whether a frame is the last reply of its transaction.
pub open spec fn view_complete(v: WireView) -> bool {
    v.transaction matches Some(t) && txn_complete_of(t)
}

/// Client state of one connection: the id of the last transaction it opened.
pub struct SrvClient {
    next_txn: u32,
}

impl View for SrvClient {
    type V = u32;

    closed spec fn view(&self) -> u32 {
        self.next_txn
    }
}

impl SrvClient {
    /// A client that has opened no transaction yet.
    pub fn new() -> (r: SrvClient)
        ensures
            r@ == 0,
    {
        SrvClient { next_txn: 0 }
    }

    /// Opens the next transaction and stamps `request` with it. Returns the
    /// frame to send and the reply stream that will receive its answers.
    pub fn call(&mut self, request: SrvWireMessage) -> (r: (SrvWireMessage, SrvReply))
        ensures
            final(self)@ == next_txn_id(old(self)@),
            r.0@.transaction == Some(next_txn_id(old(self)@)),
            r.0@.message_id == request@.message_id,
            r.0@.body == request@.body,
            r.0@.header == header_bits(
                request@.body.len() as u32,
                encode_utf8(request@.message_id).len() as u32,
                true,
            ),
            r.1.state() == SrvRequestState::Sending,
    {
        self.next_txn = SrvTxn::next_id(self.next_txn);
        let txn = SrvTxn::new(self.next_txn);
        let message = request.with_transaction(Some(txn));
        (message, SrvReply { state: SrvRequestState::Sending })
    }

    /// Strips any transaction from `request`: the frame of a request that
    /// expects no reply.
    pub fn cast(&self, request: SrvWireMessage) -> (r: SrvWireMessage)
        ensures
            r@.transaction is None,
            r@.message_id == request@.message_id,
            r@.body == request@.body,
            r@.header == header_bits(
                request@.body.len() as u32,
                encode_utf8(request@.message_id).len() as u32,
                false,
            ),
    {
        request.with_transaction(None)
    }

    /// The outcome of the handshake from the first reply received, if any, and
    /// that reply's body decoded as an error reply. No reply means the
    /// connection closed; the error reply means the server refused.
    pub fn handshake_outcome(reply: Option<&SrvWireMessage>, parsed: NetErr) -> (r: Result<
        (),
        SrvClientError,
    >)
        ensures
            reply is None ==> r == Err::<(), SrvClientError>(SrvClientError::ConnectionClosed),
            reply matches Some(m) ==> (r is Ok <==> m@.message_id != NetErr::spec_message_id()),
            reply matches Some(m) ==> (r matches Err(e) ==> e == SrvClientError::NetErr(parsed)),
    {
        match reply {
            None => Err(SrvClientError::ConnectionClosed),
            Some(m) => match m.try_ok(parsed) {
                Ok(()) => Ok(()),
                Err(e) => Err(SrvClientError::NetErr(e)),
            },
        }
    }
}

/// Where a call stands: its request is being sent, or replies are being
/// received (with whether the completing reply has been seen).
#[derive(Copy, Clone, Debug, PartialEq, Eq, Structural)]
pub enum SrvRequestState {
    Sending,
    Receiving(bool),
}

/// The replies to one call.
pub struct SrvReply {
    state: SrvRequestState,
}

/// The frames of a sequence, as values.
pub open spec fn views_of(s: Seq<SrvWireMessage>) -> Seq<WireView> {
    s.map_values(|m: SrvWireMessage| m@)
}

/// What a reply stream yields when the connection delivers `incoming` and then
/// closes: the replies up to and including the first completing one, and
/// whether it ended in a closed-connection error (no reply completed).
pub open spec fn stream_of(incoming: Seq<WireView>) -> (Seq<WireView>, bool)
    decreases incoming.len(),
{
    if incoming.len() == 0 {
        (Seq::<WireView>::empty(), true)
    } else if view_complete(incoming[0]) {
        (seq![incoming[0]], false)
    } else {
        let rest = stream_of(incoming.drop_first());
        (seq![incoming[0]] + rest.0, rest.1)
    }
}

/// A reply stream yields the replies up to and including the first one that
/// completes the transaction and then ends without error; when none completes
/// it yields every reply and then fails with a closed connection.
pub proof fn lemma_stream_completion(incoming: Seq<WireView>, k: int)
    ensures
        0 <= k < incoming.len() && view_complete(incoming[k]) && (forall|j: int|
            0 <= j < k ==> !view_complete(#[trigger] incoming[j])) ==> stream_of(incoming) == (
        incoming.subrange(0, k + 1), false),
        (forall|j: int| 0 <= j < incoming.len() ==> !view_complete(#[trigger] incoming[j]))
            ==> stream_of(incoming) == (incoming, true),
    decreases incoming.len(),
{
    if incoming.len() > 0 {
        let rest = incoming.drop_first();
        lemma_stream_completion(rest, k - 1);
        assert forall|j: int| 0 <= j < rest.len() implies rest[j] == incoming[j + 1] by {}
        if 0 < k < incoming.len() {
            assert(seq![incoming[0]] + rest.subrange(0, k) =~= incoming.subrange(0, k + 1));
        }
        if k == 0 {
            assert(seq![incoming[0]] =~= incoming.subrange(0, 1));
        }
        assert(seq![incoming[0]] + rest =~= incoming);
    } else {
        assert(incoming =~= Seq::<WireView>::empty());
    }
}

impl SrvReply {
    pub closed spec fn state(&self) -> SrvRequestState {
        self.state
    }

    /// A stream whose request is not yet sent.
    pub fn new() -> (r: SrvReply)
        ensures
            r.state() == SrvRequestState::Sending,
    {
        SrvReply { state: SrvRequestState::Sending }
    }

    /// The request has been written and flushed; replies may be read now.
    pub fn sent(&mut self)
        requires
            old(self).state() == SrvRequestState::Sending,
        ensures
            final(self).state() == SrvRequestState::Receiving(false),
    {
        self.state = SrvRequestState::Receiving(false);
    }

    /// Whether the completing reply has been yielded: the stream has ended.
    pub fn is_done(&self) -> (r: bool)
        ensures
            r == (self.state() == SrvRequestState::Receiving(true)),
    {
        match self.state {
            SrvRequestState::Receiving(done) => done,
            SrvRequestState::Sending => false,
        }
    }

    /// Takes what the connection delivered next: a reply, or `None` when it
    /// closed. A reply is yielded, and ends the stream when it completes the
    /// transaction; a close before that is an error.
    pub fn on_message(&mut self, msg: Option<SrvWireMessage>) -> (r: Result<
        SrvWireMessage,
        SrvClientError,
    >)
        requires
            old(self).state() == SrvRequestState::Receiving(false),
        ensures
            match msg {
                Some(m) => {
                    &&& r matches Ok(y) && y@ == m@
                    &&& final(self).state() == SrvRequestState::Receiving(view_complete(m@))
                },
                None => {
                    &&& r == Err::<SrvWireMessage, SrvClientError>(
                        SrvClientError::ConnectionClosed,
                    )
                    &&& final(self).state() == old(self).state()
                },
            },
    {
        match msg {
            Some(m) => {
                self.state = SrvRequestState::Receiving(m.is_complete());
                Ok(m)
            },
            None => Err(SrvClientError::ConnectionClosed),
        }
    }

    /// Runs the stream over everything a connection delivers before it
    /// closes: the replies yielded, in order, and the error that ended the
    /// stream, if any.
    pub fn collect(&mut self, incoming: Vec<SrvWireMessage>) -> (r: (
        Vec<SrvWireMessage>,
        Option<SrvClientError>,
    ))
        requires
            old(self).state() == SrvRequestState::Receiving(false),
        ensures
            views_of(r.0@) == stream_of(views_of(incoming@)).0,
            r.1 is Some <==> stream_of(views_of(incoming@)).1,
            r.1 is Some ==> r.1 == Some(SrvClientError::ConnectionClosed),
            r.1 is None <==> final(self).state() == SrvRequestState::Receiving(true),
    {
        let ghost views = views_of(incoming@);
        let ghost n = views.len();
        let mut out: Vec<SrvWireMessage> = Vec::new();
        let total = incoming.len();
        let mut rest = incoming;
        let mut i: usize = 0;
        proof {
            assert(views.subrange(0, n as int) =~= views);
            assert(views_of(out@) + stream_of(views).0 =~= stream_of(views).0);
        }
        while !self.is_done()
            invariant
                n == views.len(),
                n == total,
                views == views_of(incoming@),
                i <= n,
                rest@.len() == n - i,
                views_of(rest@) == views.subrange(i as int, n as int),
                self.state() is Receiving,
                self.state() == SrvRequestState::Receiving(false) ==> stream_of(views) == (
                views_of(out@) + stream_of(views.subrange(i as int, n as int)).0,
                stream_of(views.subrange(i as int, n as int)).1),
                self.state() == SrvRequestState::Receiving(true) ==> stream_of(views) == (
                views_of(out@),
                false,
                ),
            decreases n - i,
        {
            let ghost tail = views.subrange(i as int, n as int);
            let ghost before = views_of(out@);
            let ghost old_rest = rest@;
            let next = if rest.len() > 0 {
                Some(rest.remove(0))
            } else {
                None
            };
            match self.on_message(next) {
                Ok(m) => {
                    proof {
                        assert(tail[0] == m@);
                        assert(views_of(old_rest)[0] == m@);
                        assert forall|k: int| 0 <= k < rest@.len() implies views_of(rest@)[k]
                            == views.subrange(i + 1, n as int)[k] by {
                            assert(rest@[k] == old_rest[k + 1]);
                            assert(views_of(old_rest)[k + 1] == views.subrange(i as int, n as int)[k + 1]);
                        }
                        assert(views_of(rest@) =~= views.subrange(i + 1, n as int));
                        assert(tail.drop_first() =~= views.subrange(i + 1, n as int));
                    }
                    out.push(m);
                    proof {
                        assert(views_of(out@) =~= before.push(m@));
                        assert(before + seq![m@] =~= before.push(m@));
                        let s1 = stream_of(views.subrange(i + 1, n as int));
                        assert(before + (seq![m@] + s1.0) =~= before.push(m@) + s1.0);
                    }
                    i = i + 1;
                },
                Err(e) => {
                    proof {
                        assert(tail.len() == 0);
                        assert(stream_of(tail) == (Seq::<WireView>::empty(), true));
                        assert(before + Seq::<WireView>::empty() =~= before);
                    }
                    return (out, Some(e));
                },
            }
        }
        (out, None)
    }
}

} // verus!
