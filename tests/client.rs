use ctl_gateway::client::{SrvClient, SrvClientError, SrvReply};
use ctl_gateway::codec::{SrvTxn, SrvWireMessage};
use ctl_gateway::ctl::{ErrCode, NetErr};
use ctl_gateway::net::err;

fn frame(id: &str, body: Vec<u8>) -> SrvWireMessage {
    SrvWireMessage::new(id.to_string(), body, None).unwrap()
}

fn reply(id: &str, txn: u32, complete: bool) -> SrvWireMessage {
    let mut m = frame(id, vec![]);
    m.reply_for(SrvTxn::new(txn), complete);
    m
}

#[test]
fn call_assigns_increasing_transaction_ids() {
    let mut client = SrvClient::new();
    let (first, _) = client.call(frame("SvcStart", vec![1]));
    assert_eq!(first.transaction().unwrap().id(), 1);
    assert!(first.header().is_transaction());
    assert!(!first.is_response());
    assert!(!first.is_complete());
    let (second, _) = client.call(frame("SvcLoad", vec![]));
    assert_eq!(second.transaction().unwrap().id(), 2);
    assert_eq!(second.message_id(), "SvcLoad");
}

#[test]
fn cast_sends_without_transaction() {
    let client = SrvClient::new();
    let mut txn_msg = frame("SvcStart", vec![4, 2]);
    txn_msg.reply_for(SrvTxn::new(4), false);
    let m = client.cast(txn_msg);
    assert!(m.transaction().is_none());
    assert!(!m.header().is_transaction());
    assert_eq!(m.body(), &vec![4, 2]);
    assert_eq!(m.size(), 4 + 8 + 2);
}

#[test]
fn stream_ends_after_completing_reply() {
    let mut client = SrvClient::new();
    let (_, mut stream) = client.call(frame("SvcStart", vec![]));
    stream.sent();
    let incoming = vec![
        reply("ConsoleLine", 1, false),
        reply("ConsoleLine", 1, false),
        reply("NetOk", 1, true),
        reply("ConsoleLine", 1, false),
    ];
    let (items, error) = stream.collect(incoming);
    assert_eq!(items.len(), 3);
    assert!(error.is_none());
    assert!(!items[0].is_complete());
    assert!(!items[1].is_complete());
    assert!(items[2].is_complete());
    assert_eq!(items[2].message_id(), "NetOk");
    assert!(stream.is_done());
}

#[test]
fn stream_fails_when_connection_closes_early() {
    let mut stream = SrvReply::new();
    stream.sent();
    let (items, error) = stream.collect(vec![reply("ConsoleLine", 1, false)]);
    assert_eq!(items.len(), 1);
    assert_eq!(items[0].message_id(), "ConsoleLine");
    assert_eq!(error, Some(SrvClientError::ConnectionClosed));
    assert!(!stream.is_done());
}

#[test]
fn stream_step_by_step() {
    let mut stream = SrvReply::new();
    assert!(!stream.is_done());
    stream.sent();
    let first = stream.on_message(Some(reply("NetProgress", 1, false))).unwrap();
    assert_eq!(first.message_id(), "NetProgress");
    assert!(!stream.is_done());
    let last = stream.on_message(Some(reply("NetOk", 1, true))).unwrap();
    assert!(last.is_complete());
    assert!(stream.is_done());
    let mut closed = SrvReply::new();
    closed.sent();
    assert_eq!(closed.on_message(None).err(), Some(SrvClientError::ConnectionClosed));
}

#[test]
fn handshake_outcomes() {
    assert_eq!(
        SrvClient::handshake_outcome(None, NetErr::new()),
        Err(SrvClientError::ConnectionClosed)
    );
    let ok = reply("NetOk", 1, true);
    assert_eq!(SrvClient::handshake_outcome(Some(&ok), NetErr::new()), Ok(()));
    let refused = reply("NetErr", 1, true);
    let e = err(ErrCode::Unauthorized, "bad key".to_string());
    assert_eq!(
        SrvClient::handshake_outcome(Some(&refused), e.clone()),
        Err(SrvClientError::NetErr(e))
    );
}

#[test]
fn error_descriptions() {
    assert_eq!(SrvClientError::ConnectionClosed.description(), "Connection closed");
    assert_eq!(SrvClientError::Io("broken pipe".to_string()).description(), "broken pipe");
    let e = err(ErrCode::NotFound, "nope".to_string());
    assert_eq!(SrvClientError::NetErr(e).description(), "Entity not found");
}

#[test]
fn try_ok_detects_error_reply() {
    let e = err(ErrCode::Conflict, "exists".to_string());
    assert_eq!(frame("NetErr", vec![]).try_ok(e.clone()), Err(e.clone()));
    assert_eq!(frame("NetOk", vec![]).try_ok(e), Ok(()));
    assert!(frame("NetErr", vec![]).is_message("NetErr"));
    assert!(!frame("NetErrs", vec![]).is_message("NetErr"));
}
