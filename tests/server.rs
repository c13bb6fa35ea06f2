use bytes::BytesMut;
use ctl_gateway::client::{SrvClient, SrvClientError};
use ctl_gateway::codec::{SrvCodec, SrvTxn, SrvWireMessage};
use ctl_gateway::ctl::{ErrCode, Handshake};
use ctl_gateway::net::err;
use ctl_gateway::server::{
    check_handshake, command_for, handshake_reply, refusal_transaction, CtlCommandKind,
    CtlRequest, HandlerError, SrvHandler,
};

fn frame(id: &str, body: Vec<u8>) -> SrvWireMessage {
    SrvWireMessage::new(id.to_string(), body, None).unwrap()
}

fn handshake(key: &str) -> Handshake {
    let mut h = Handshake::new();
    h.set_auth_key(key.to_string());
    h
}

fn send(codec: &mut SrvCodec, msg: SrvWireMessage) -> SrvWireMessage {
    let mut wire = BytesMut::new();
    codec.encode(msg, &mut wire);
    codec.decode(&mut wire).unwrap().unwrap()
}

#[test]
fn handshake_with_right_key_is_acknowledged() {
    let mut client = SrvClient::new();
    let (request, _) = client.call(frame("Handshake", vec![]));
    let txn = check_handshake(Some(&request), Some(handshake("letmein")), "letmein").unwrap();
    assert_eq!(txn.id(), 1);
    let ack = handshake_reply(txn);
    assert_eq!(ack.message_id(), "NetOk");
    assert!(ack.is_complete());
    assert!(ack.is_response());
    assert_eq!(ack.transaction().unwrap().id(), 1);
    assert_eq!(ack.body().len(), 0);
}

#[test]
fn handshake_rejections() {
    let mut client = SrvClient::new();
    let (request, _) = client.call(frame("Handshake", vec![]));
    assert_eq!(
        check_handshake(Some(&request), Some(handshake("wrong")), "letmein").err(),
        Some(HandlerError::Unauthorized)
    );
    assert_eq!(
        check_handshake(Some(&request), Some(handshake("letmein ")), "letmein").err(),
        Some(HandlerError::Unauthorized)
    );
    assert_eq!(
        check_handshake(None, None, "letmein").err(),
        Some(HandlerError::ConnectionClosed)
    );
    assert_eq!(
        check_handshake(Some(&request), None, "letmein").err(),
        Some(HandlerError::MalformedHandshake)
    );
    let (other, _) = client.call(frame("SvcStart", vec![]));
    assert_eq!(
        check_handshake(Some(&other), Some(handshake("letmein")), "letmein").err(),
        Some(HandlerError::NotHandshake)
    );
    let untracked = frame("Handshake", vec![]);
    assert_eq!(
        check_handshake(Some(&untracked), Some(handshake("letmein")), "letmein").err(),
        Some(HandlerError::NotTransactional)
    );
    // A client whose connection closes before any reply gets "connection closed".
    assert_eq!(
        SrvClient::handshake_outcome(None, ctl_gateway::ctl::NetErr::new()),
        Err(SrvClientError::ConnectionClosed)
    );
}

#[test]
fn dispatch_table() {
    assert_eq!(command_for(&frame("SvcLoad", vec![])), Some(CtlCommandKind::SvcLoad));
    assert_eq!(command_for(&frame("SvcStart", vec![])), Some(CtlCommandKind::SvcStart));
    assert_eq!(command_for(&frame("SvcStop", vec![])), None);
    assert_eq!(command_for(&frame("", vec![])), None);
}

#[test]
fn unknown_request_ends_connection() {
    let mut handler = SrvHandler::new();
    assert!(!handler.is_done());
    assert_eq!(handler.on_request(Some(&frame("Bogus", vec![]))), None);
    assert!(handler.is_done());
    let mut closed = SrvHandler::new();
    assert_eq!(closed.on_request(None), None);
    assert!(closed.is_done());
}

#[test]
fn reply_queue_closing_ends_exchange() {
    let mut handler = SrvHandler::new();
    handler.on_request(Some(&frame("SvcLoad", vec![])));
    assert!(!handler.is_done());
    assert!(handler.on_reply(None).is_none());
    assert!(handler.is_done());
}

#[test]
fn request_sink_stamps_replies() {
    let mut req = CtlRequest::new(Some(SrvTxn::new(42)));
    assert!(req.transactional());
    req.reply_partial(frame("ConsoleLine", b"line".to_vec()));
    req.reply_complete(frame("NetOk", vec![]));
    let out = req.take_replies();
    assert_eq!(out.len(), 2);
    assert!(out[0].is_response() && !out[0].is_complete());
    assert!(out[1].is_response() && out[1].is_complete());
    assert_eq!(out[0].transaction().unwrap().id(), 42);
    assert_eq!(out[1].transaction().unwrap().id(), 42);
    assert!(req.take_replies().is_empty());
    assert!(!CtlRequest::new(None).transactional());
}

#[test]
fn svc_start_end_to_end() {
    let mut codec = SrvCodec::new();
    let mut client = SrvClient::new();
    // SvcStart { ident: PackageIdent { origin: "core", name: "redis" } } in protobuf's encoding.
    let ident = vec![0x0A, 4, b'c', b'o', b'r', b'e', 0x12, 5, b'r', b'e', b'd', b'i', b's'];
    let mut body = vec![0x0A, ident.len() as u8];
    body.extend_from_slice(&ident);
    let (request, mut stream) = client.call(frame("SvcStart", body.clone()));
    stream.sent();

    let received = send(&mut codec, request);
    let mut handler = SrvHandler::new();
    assert_eq!(handler.on_request(Some(&received)), Some(CtlCommandKind::SvcStart));
    assert_eq!(received.body(), &body);

    // The operation: one progress reply, then the final acknowledgement.
    let mut req = CtlRequest::new(received.transaction());
    req.reply_partial(frame("NetProgress", vec![0x08, 100, 0x10, 10]));
    req.reply_complete(frame("NetOk", vec![]));

    let mut written = Vec::new();
    for r in req.take_replies() {
        assert!(!handler.is_done());
        if let Some(w) = handler.on_reply(Some(r)) {
            written.push(send(&mut codec, w));
        }
    }
    assert!(handler.is_done());

    let (items, error) = stream.collect(written);
    assert!(error.is_none());
    assert_eq!(items.len(), 2);
    assert_eq!(items[0].message_id(), "NetProgress");
    assert_eq!(items[0].body(), &vec![0x08, 100, 0x10, 10]);
    assert!(!items[0].is_complete());
    assert_eq!(items[1].message_id(), "NetOk");
    assert!(items[1].is_complete());
    assert_eq!(items[1].transaction().unwrap().id(), 1);
}

#[test]
fn wrong_key_is_reported_as_unauthorized() {
    let mut codec = SrvCodec::new();
    let mut client = SrvClient::new();
    let (request, mut stream) = client.call(frame("Handshake", vec![]));
    stream.sent();
    let received = send(&mut codec, request);
    let failure = check_handshake(Some(&received), Some(handshake("guess")), "letmein").unwrap_err();
    assert_eq!(failure, HandlerError::Unauthorized);
    assert_eq!(failure.description(), "client failed authorization");
    let txn = refusal_transaction(Some(&received), &failure).unwrap();
    assert_eq!(txn.id(), 1);
    // NetErr { code: Unauthorized } in protobuf's encoding.
    let mut refusal = frame("NetErr", vec![0x08, 0x04]);
    refusal.reply_for(txn, true);
    let reply = stream.on_message(Some(send(&mut codec, refusal))).unwrap();
    assert!(stream.is_done());
    let denied = err(ErrCode::Unauthorized, String::new());
    assert_eq!(
        SrvClient::handshake_outcome(Some(&reply), denied.clone()),
        Err(SrvClientError::NetErr(denied))
    );
    // Other failures close the connection without a reply.
    assert!(refusal_transaction(Some(&received), &HandlerError::NotHandshake).is_none());
    assert!(refusal_transaction(None, &HandlerError::Unauthorized).is_none());
    let untracked = frame("Handshake", vec![]);
    assert!(refusal_transaction(Some(&untracked), &HandlerError::Unauthorized).is_none());
}
