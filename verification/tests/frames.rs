use walpipe::errors::ReplicationError;
use walpipe::protocol::buffer::BufferWriter;
use walpipe::protocol::frames::FromBufferReader;
use walpipe::protocol::frames::HotStandbyFeedbackMessage;
use walpipe::protocol::frames::KeepaliveMessage;
use walpipe::protocol::frames::StandbyStatusUpdateMessage;
use walpipe::protocol::frames::ToBufferWriter;
use walpipe::protocol::frames::XLogDataMessage;

fn hex(s: &str) -> Vec<u8> {
    let digits: Vec<u8> = s
        .bytes()
        .filter(|b| b.is_ascii_hexdigit())
        .map(|b| match b {
            b'0'..=b'9' => b - b'0',
            b'a'..=b'f' => b - b'a' + 10,
            _ => b - b'A' + 10,
        })
        .collect();
    assert_eq!(digits.len() % 2, 0);
    digits.chunks(2).map(|p| p[0] * 16 + p[1]).collect()
}

fn protocol_message(e: &ReplicationError) -> &str {
    match e {
        ReplicationError::Protocol { message, .. } => message.as_str(),
        other => panic!("not a protocol error: {:?}", other),
    }
}

#[test]
fn keepalive_with_reply_request_parses() {
    let frame = hex("6B 00000000 00C0FFEE 00000000 00000000 01");
    let k = KeepaliveMessage::parse(&frame).unwrap();
    assert_eq!(k.message_type, 'k');
    assert_eq!(k.log_pos, 0xC0FFEE);
    assert_eq!(k.timestamp, 0);
    assert!(k.reply_requested);
    let frame = hex("6B 00000000 00C0FFEE FFFFFFFF FFFFFFFF 00");
    let k = KeepaliveMessage::parse(&frame).unwrap();
    assert_eq!(k.timestamp, -1);
    assert!(!k.reply_requested);
}

#[test]
fn short_frames_are_protocol_errors() {
    let e = KeepaliveMessage::parse(&hex("6B 00000000 00C0FFEE 00000000 00000000")).unwrap_err();
    assert_eq!(protocol_message(&e), "Keepalive message too short");
    let e = XLogDataMessage::parse(&[b'w'; 24]).unwrap_err();
    assert_eq!(protocol_message(&e), "WAL message too short");
    let e = StandbyStatusUpdateMessage::parse(&[b'r'; 33]).unwrap_err();
    assert_eq!(protocol_message(&e), "Status update message too short");
    let e = HotStandbyFeedbackMessage::parse(&[b'h'; 24]).unwrap_err();
    assert_eq!(protocol_message(&e), "Hot standby feedback message too short");
}

#[test]
fn xlog_data_splits_header_and_payload() {
    let frame = hex("77 0000000000001000 0000000000002000 0002D6C8A5E00000 42 01 02");
    let w = XLogDataMessage::parse(&frame).unwrap();
    assert_eq!(w.message_type, 'w');
    assert_eq!(w.data_start, 0x1000);
    assert_eq!(w.wal_end, 0x2000);
    assert_eq!(w.send_time, 0x0002D6C8A5E00000);
    assert_eq!(w.data, vec![0x42, 1, 2]);
    let header_only = hex("77 0000000000001000 0000000000002000 0002D6C8A5E00000");
    assert_eq!(header_only.len(), 25);
    assert!(XLogDataMessage::parse(&header_only).unwrap().data.is_empty());
}

#[test]
fn feedback_frame_has_its_six_fields_in_order() {
    let m = StandbyStatusUpdateMessage::feedback(0x1040, 0x1000, 0x0002D6C8A5E00000);
    assert_eq!(m.message_type, 'r');
    assert_eq!(m.last_lsn, 0x1040);
    assert_eq!(m.flush_lsn, 0x1040);
    assert_eq!(m.apply_lsn, 0x1000);
    assert_eq!(m.reply_requested, 0);
    let bytes = m.to_bytes();
    assert_eq!(bytes.len(), 34);
    assert_eq!(
        bytes,
        hex("72 0000000000001040 0000000000001040 0000000000001000 0002D6C8A5E00000 00")
    );
    assert_eq!(StandbyStatusUpdateMessage::parse(&bytes).unwrap(), m);
}

#[test]
fn status_update_writes_at_the_cursor_or_not_at_all() {
    let m = StandbyStatusUpdateMessage {
        message_type: 'r',
        reply_requested: 1,
        last_lsn: 1,
        flush_lsn: 2,
        apply_lsn: 3,
        send_time: -4,
    };
    let mut buf = [0xEEu8; 36];
    {
        let mut w = BufferWriter::new(&mut buf);
        w.write_u8(0x55).unwrap();
        m.write(&mut w).unwrap();
        assert_eq!(w.bytes_written(), 35);
    }
    assert_eq!(buf[0], 0x55);
    assert_eq!(buf[35], 0xEE);
    assert_eq!(StandbyStatusUpdateMessage::parse(&buf[1..35]).unwrap(), m);
    let mut small = [0xEEu8; 33];
    {
        let mut w = BufferWriter::new(&mut small);
        let e = m.write(&mut w).unwrap_err();
        assert!(matches!(e, ReplicationError::MessageParsing { .. }));
        assert_eq!(w.bytes_written(), 0);
    }
    assert_eq!(small, [0xEEu8; 33]);
}

#[test]
fn hot_standby_feedback_round_trip() {
    let m = HotStandbyFeedbackMessage {
        message_type: 'h',
        send_time: 123_456_789,
        xmin: 7,
        epoch: 1,
        catalog_xmin: 9,
        catalog_epoch: 2,
    };
    let mut buf = [0u8; 25];
    {
        let mut w = BufferWriter::new(&mut buf);
        m.write(&mut w).unwrap();
        assert_eq!(w.bytes_written(), 25);
    }
    assert_eq!(buf.to_vec(), hex("68 00000000075BCD15 00000007 00000001 00000009 00000002"));
    assert_eq!(HotStandbyFeedbackMessage::parse(&buf).unwrap(), m);
}

#[test]
fn keepalive_round_trip() {
    let m = KeepaliveMessage {
        message_type: 'k',
        log_pos: 0xC0FFEE,
        timestamp: 5,
        reply_requested: true,
    };
    let mut buf = [0u8; 18];
    {
        let mut w = BufferWriter::new(&mut buf);
        m.write(&mut w).unwrap();
    }
    assert_eq!(buf.to_vec(), hex("6B 0000000000C0FFEE 0000000000000005 01"));
    assert_eq!(KeepaliveMessage::parse(&buf).unwrap(), m);
}

fn read_as<T: FromBufferReader>(data: &[u8]) -> Result<T, ReplicationError> {
    T::parse(data)
}

fn written_by<T: ToBufferWriter>(value: &T, room: usize) -> Option<Vec<u8>> {
    let mut buf = vec![0u8; room];
    let mut w = BufferWriter::new(&mut buf);
    match value.write(&mut w) {
        Ok(()) => Some(w.written()),
        Err(_) => None,
    }
}

#[test]
fn frames_read_and_write_through_their_traits() {
    let frame = hex("6B 0000000000C0FFEE 0000000000000005 01");
    let k: KeepaliveMessage = read_as(&frame).unwrap();
    assert_eq!(k.log_pos, 0xC0FFEE);
    assert_eq!(written_by(&k, 18), Some(frame.clone()));
    assert_eq!(written_by(&k, 17), None);
    let m = StandbyStatusUpdateMessage::feedback(3, 2, 1);
    assert_eq!(written_by(&m, 40), Some(m.to_bytes()));
    let back: StandbyStatusUpdateMessage = read_as(&m.to_bytes()).unwrap();
    assert_eq!(back, m);
    let w: XLogDataMessage = read_as(&hex("77 0000000000000001 0000000000000002 0000000000000003 45")).unwrap();
    assert_eq!(w.data, vec![0x45]);
    assert!(read_as::<HotStandbyFeedbackMessage>(&[b'h']).is_err());
}
