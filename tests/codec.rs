use bytes::BytesMut;
use ctl_gateway::codec::{
    CodecError, SrvCodec, SrvHeader, SrvTxn, SrvWireMessage, MAX_TXN_ID,
};

fn frame(id: &str, body: Vec<u8>, txn: Option<SrvTxn>) -> SrvWireMessage {
    SrvWireMessage::new(id.to_string(), body, txn).unwrap()
}

#[test]
fn test_header_pack_unpack() {
    let body_value = 305888;
    let message_id_value = 40;
    let header = SrvHeader::new(body_value, message_id_value, true);
    assert_eq!(header.body_len(), body_value as usize);
    assert_eq!(header.message_id_len(), message_id_value as usize);
    assert_eq!(header.is_transaction(), true);
}

#[test]
fn test_txn_pack_unpack() {
    let mut txn = SrvTxn::new(MAX_TXN_ID);
    assert_eq!(txn.is_complete(), false);
    assert_eq!(txn.is_response(), false);

    txn.set_complete();
    assert_eq!(txn.is_complete(), true);
    assert_eq!(txn.is_response(), false);

    txn.set_response();
    assert_eq!(txn.is_complete(), true);
    assert_eq!(txn.is_response(), true);
}

#[test]
fn test_codec() {
    let mut codec = SrvCodec::new();
    // NetErr { code: NotFound, msg: "this" } in protobuf's encoding.
    let body = vec![0x08, 0x02, 0x12, 0x04, b't', b'h', b'i', b's'];
    let msg = frame("NetErr", body, None);
    let mut buf = BytesMut::new();
    codec.encode(frame("NetErr", msg.body().clone(), None), &mut buf);
    let decoded = codec.decode(&mut buf).unwrap().unwrap();

    assert_eq!(decoded.header(), msg.header());
    assert_eq!(decoded.message_id(), msg.message_id());
    assert_eq!(decoded.transaction(), msg.transaction());
    assert_eq!(decoded.body(), msg.body());
}

#[test]
fn header_extremes_round_trip() {
    for &(body, id, txn) in &[(0u32, 0u32, false), (0xFFFFF, 63, true), (1, 1, false)] {
        let header = SrvHeader::new(body, id, txn);
        let bits = header.bits();
        let back = SrvHeader::from_bits(u32::from_be_bytes(bits.to_be_bytes()));
        assert_eq!(back, header);
        assert_eq!(back.body_len(), body as usize);
        assert_eq!(back.message_id_len(), id as usize);
        assert_eq!(back.is_transaction(), txn);
    }
}

#[test]
fn header_bits_layout() {
    assert_eq!(SrvHeader::new(5, 3, true).bits(), 0x8000_0000 | (3 << 20) | 5);
    assert_eq!(SrvHeader::new(0xFFFFF, 0, false).bits(), 0xFFFFF);
    let mut h = SrvHeader::new(7, 2, false);
    h.set_is_transaction();
    assert!(h.is_transaction());
    assert_eq!(h.body_len(), 7);
    assert_eq!(h.message_id_len(), 2);
}

#[test]
fn txn_flags_leave_id_alone() {
    let mut a = SrvTxn::new(12345);
    a.set_complete();
    assert_eq!(a.id(), 12345);
    assert!(!a.is_response());
    let mut b = SrvTxn::new(12345);
    b.set_response();
    assert_eq!(b.id(), 12345);
    assert!(!b.is_complete());
    b.set_complete();
    assert_eq!(b.id(), 12345);
    assert_eq!(b.bits(), 0xC000_0000 | 12345);
    let mut m = SrvTxn::new(MAX_TXN_ID);
    m.set_response();
    m.set_complete();
    assert_eq!(m.id(), MAX_TXN_ID);
}

#[test]
fn next_id_skips_reserved() {
    assert_eq!(SrvTxn::next_id(0), 1);
    assert_eq!(SrvTxn::next_id(5), 6);
    assert_eq!(SrvTxn::next_id(0x3FFF_FFFD), 0x3FFF_FFFE);
    assert_eq!(SrvTxn::next_id(0x3FFF_FFFE), 1);
    assert_eq!(SrvTxn::next_id(MAX_TXN_ID), 1);
    let mut id = 0x3FFF_FFF0u32;
    for _ in 0..40 {
        id = SrvTxn::next_id(id);
        assert!(id != 0 && id != MAX_TXN_ID);
    }
}

#[test]
fn round_trip_with_transaction() {
    let mut codec = SrvCodec::new();
    let mut txn = SrvTxn::new(77);
    txn.set_response();
    let msg = frame("SvcStart", vec![1, 2, 3, 4, 5], Some(txn));
    let expected_size = 4 + 4 + 8 + 5;
    assert_eq!(msg.size(), expected_size);
    let mut buf = BytesMut::new();
    codec.encode(frame("SvcStart", vec![1, 2, 3, 4, 5], Some(txn)), &mut buf);
    assert_eq!(buf.len(), expected_size);
    assert_eq!(&buf[0..4], &msg.header().bits().to_be_bytes()[..]);
    assert_eq!(&buf[4..8], &txn.bits().to_be_bytes()[..]);
    assert_eq!(&buf[8..16], b"SvcStart");
    let decoded = codec.decode(&mut buf).unwrap().unwrap();
    assert_eq!(decoded.header(), msg.header());
    assert_eq!(decoded.transaction(), Some(txn));
    assert_eq!(decoded.message_id(), "SvcStart");
    assert_eq!(decoded.body(), &vec![1, 2, 3, 4, 5]);
    assert!(decoded.is_response());
    assert!(!decoded.is_complete());
    assert_eq!(buf.len(), 0);
}

#[test]
fn partial_frames_need_more_data() {
    let mut codec = SrvCodec::new();
    let mut wire = BytesMut::new();
    codec.encode(frame("ConsoleLine", b"hello there".to_vec(), Some(SrvTxn::new(3))), &mut wire);
    let all = wire.to_vec();
    let mut buf = BytesMut::new();
    for (i, b) in all.iter().enumerate() {
        buf.extend_from_slice(&[*b]);
        let r = codec.decode(&mut buf).unwrap();
        if i + 1 < all.len() {
            assert!(r.is_none());
            assert_eq!(buf.len(), i + 1);
            assert_eq!(&buf[..], &all[..i + 1]);
        } else {
            let m = r.unwrap();
            assert_eq!(m.message_id(), "ConsoleLine");
            assert_eq!(m.body(), &b"hello there".to_vec());
            assert_eq!(m.transaction().unwrap().id(), 3);
            assert_eq!(buf.len(), 0);
        }
    }
}

#[test]
fn trailing_bytes_stay_buffered() {
    let mut codec = SrvCodec::new();
    let mut buf = BytesMut::new();
    codec.encode(frame("NetOk", vec![], None), &mut buf);
    codec.encode(frame("NetProgress", vec![0x08, 100, 0x10, 10], None), &mut buf);
    let first = codec.decode(&mut buf).unwrap().unwrap();
    assert_eq!(first.message_id(), "NetOk");
    assert_eq!(buf.len(), 4 + 11 + 4);
    let second = codec.decode(&mut buf).unwrap().unwrap();
    assert_eq!(second.message_id(), "NetProgress");
    assert_eq!(second.body(), &vec![0x08, 100, 0x10, 10]);
    assert!(codec.decode(&mut buf).unwrap().is_none());
}

#[test]
fn malformed_message_id_is_an_error() {
    let mut codec = SrvCodec::new();
    let header = SrvHeader::new(1, 2, false);
    let mut buf = BytesMut::new();
    buf.extend_from_slice(&header.bits().to_be_bytes());
    buf.extend_from_slice(&[0xFF, 0xFE, 9]);
    assert_eq!(codec.decode(&mut buf).err(), Some(CodecError::MalformedMessageId));
    assert_eq!(buf.len(), 7);
}

#[test]
fn short_buffers_need_more_data() {
    let mut codec = SrvCodec::new();
    let mut buf = BytesMut::new();
    assert!(codec.decode(&mut buf).unwrap().is_none());
    buf.extend_from_slice(&[0x80, 0, 0]);
    assert!(codec.decode(&mut buf).unwrap().is_none());
    buf.extend_from_slice(&[0, 0, 0]);
    assert!(codec.decode(&mut buf).unwrap().is_none());
    assert_eq!(buf.len(), 6);
}

#[test]
fn over_wide_fields_are_rejected() {
    let long_id = "x".repeat(64);
    assert_eq!(SrvWireMessage::new(long_id, vec![], None).err(), Some(CodecError::TooLong));
    let ok_id = "y".repeat(63);
    assert!(SrvWireMessage::new(ok_id, vec![], None).is_ok());
    let big = vec![0u8; 1 << 20];
    assert_eq!(SrvWireMessage::new("A".to_string(), big, None).err(), Some(CodecError::TooLong));
    let max = vec![0u8; (1 << 20) - 1];
    assert_eq!(SrvWireMessage::new("A".to_string(), max, None).unwrap().header().body_len(), (1 << 20) - 1);
}

#[test]
fn reply_for_stamps_transaction() {
    let mut msg = frame("NetOk", vec![], None);
    assert!(!msg.is_transaction());
    assert!(!msg.is_complete());
    assert!(!msg.is_response());
    msg.reply_for(SrvTxn::new(9), true);
    assert!(msg.is_transaction());
    assert!(msg.header().is_transaction());
    assert!(msg.is_complete());
    assert!(msg.is_response());
    assert_eq!(msg.transaction().unwrap().id(), 9);
    let mut partial = frame("ConsoleLine", vec![1], None);
    partial.reply_for(SrvTxn::new(9), false);
    assert!(partial.is_response());
    assert!(!partial.is_complete());
    assert_eq!(partial.size(), 4 + 4 + 11 + 1);
}

#[test]
fn reserved_header_bits_are_not_kept() {
    let mut codec = SrvCodec::new();
    let mut buf = BytesMut::new();
    // A header with a reserved flag bit set and empty id and body.
    buf.extend_from_slice(&[0x04, 0x00, 0x00, 0x00]);
    let decoded = codec.decode(&mut buf).unwrap().unwrap();
    assert_eq!(decoded.header().bits(), 0);
    let mut out = BytesMut::new();
    codec.encode(decoded, &mut out);
    assert_eq!(&out[..], &[0u8, 0, 0, 0][..]);
    let again = codec.decode(&mut out).unwrap().unwrap();
    assert_eq!(again.header().bits(), 0);

    let mut buf = BytesMut::new();
    buf.extend_from_slice(&[0x84, 0x20, 0x00, 0x01, 0, 0, 0, 9, b'A', b'Z', 7]);
    let decoded = codec.decode(&mut buf).unwrap().unwrap();
    let header = decoded.header();
    assert_eq!(header, SrvHeader::new(1, 2, true));
    let mut out = BytesMut::new();
    codec.encode(decoded, &mut out);
    assert_eq!(&out[0..4], &header.bits().to_be_bytes()[..]);
    assert_eq!(&out[4..], &[0, 0, 0, 9, b'A', b'Z', 7][..]);
    let again = codec.decode(&mut out).unwrap().unwrap();
    assert_eq!(again.header(), header);
    assert_eq!(again.transaction().unwrap().bits(), 9);
    assert_eq!(again.message_id(), "AZ");
    assert_eq!(again.body(), &vec![7]);
}
