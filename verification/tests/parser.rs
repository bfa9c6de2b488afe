use std::collections::HashMap;
use walpipe::errors::ReplicationError;
use walpipe::protocol::messages::ColumnData;
use walpipe::protocol::messages::RelationInfo;
use walpipe::protocol::messages::ReplicationMessage;
use walpipe::protocol::messages::TupleData;
use walpipe::protocol::parser::MessageParser;

fn hex(s: &str) -> Vec<u8> {
    let digits: Vec<u8> = s
        .bytes()
        .filter(|b| b.is_ascii_hexdigit())
        .map(|b| match b {
            b'0'..=b'9' => b - b'0',
            b'a'..=b'f' => b - b'a' + 10,
            _ => b - b'A' + 10,
        })
        .collect();
    assert_eq!(digits.len() % 2, 0);
    digits.chunks(2).map(|p| p[0] * 16 + p[1]).collect()
}

fn relation_payload() -> Vec<u8> {
    hex("52 00004E21 7075626C696300 745F6E65775F7400 64 0002 \
         01 696400 00000017 FFFFFFFF \
         00 6E616D6500 00000019 FFFFFFFF")
}

fn insert_payload() -> Vec<u8> {
    hex("49 00004E21 4E 0002 74 00000001 37 74 00000005 416C696365")
}

fn relation() -> RelationInfo {
    match MessageParser::parse_wal_message(&relation_payload()).unwrap() {
        ReplicationMessage::Relation { relation } => relation,
        other => panic!("not a relation: {:?}", other),
    }
}

fn cache() -> HashMap<u32, RelationInfo> {
    let mut relations = HashMap::new();
    relations.insert(20001, relation());
    relations
}

fn cell(c: &ColumnData) -> (char, i32, &str) {
    (c.data_type, c.length, c.data.as_str())
}

fn cells(t: &TupleData) -> Vec<(char, i32, &str)> {
    t.columns.iter().map(cell).collect()
}

fn parse_message(e: &ReplicationError) -> &str {
    match e {
        ReplicationError::MessageParsing { message, .. } => message.as_str(),
        other => panic!("not a parse error: {:?}", other),
    }
}

fn protocol_message(e: &ReplicationError) -> &str {
    match e {
        ReplicationError::Protocol { message, .. } => message.as_str(),
        other => panic!("not a protocol error: {:?}", other),
    }
}

#[test]
fn relation_message_announces_a_schema() {
    let r = relation();
    assert_eq!(r.oid, 20001);
    assert_eq!(r.namespace, "public");
    assert_eq!(r.relation_name, "t_new_t");
    assert_eq!(r.replica_identity, 'd');
    assert_eq!(r.column_count, 2);
    assert_eq!(r.columns.len(), 2);
    assert_eq!(r.columns[0].key_flag, 1);
    assert_eq!(r.columns[0].column_name, "id");
    assert_eq!(r.columns[0].column_type, 23);
    assert_eq!(r.columns[0].atttypmod, -1);
    assert_eq!(r.columns[1].key_flag, 0);
    assert_eq!(r.columns[1].column_name, "name");
    assert_eq!(r.columns[1].column_type, 25);
    assert_eq!(r.columns[1].atttypmod, -1);
}

#[test]
fn begin_insert_commit_of_a_two_column_row() {
    let begin = MessageParser::parse_wal_message(&hex(
        "42 0000000000001000 0002D6C8A5E00000 00000539",
    ))
    .unwrap();
    match begin {
        ReplicationMessage::Begin { final_lsn, timestamp, xid } => {
            assert_eq!(final_lsn, 4096);
            assert_eq!(timestamp, 0x0002D6C8A5E00000);
            assert_eq!(xid, 1337);
        }
        other => panic!("not a begin: {:?}", other),
    }
    let insert = MessageParser::decode(&insert_payload(), 1_048_576, &cache()).unwrap();
    match insert {
        ReplicationMessage::Insert { relation_id, tuple_data, is_stream, xid } => {
            assert_eq!(relation_id, 20001);
            assert!(!is_stream);
            assert_eq!(xid, None);
            assert_eq!(tuple_data.column_count, 2);
            assert_eq!(cells(&tuple_data), vec![('t', 1, "7"), ('t', 5, "Alice")]);
            assert_eq!(tuple_data.processed_length, 2 + 6 + 10);
        }
        other => panic!("not an insert: {:?}", other),
    }
    let commit = MessageParser::parse_wal_message(&hex(
        "43 00 0000000000001000 0000000000001040 0002D6C8A5E00000",
    ))
    .unwrap();
    match commit {
        ReplicationMessage::Commit { flags, commit_lsn, end_lsn, timestamp } => {
            assert_eq!(flags, 0);
            assert_eq!(commit_lsn, 0x1000);
            assert_eq!(end_lsn, 0x1040);
            assert_eq!(timestamp, 0x0002D6C8A5E00000);
        }
        other => panic!("not a commit: {:?}", other),
    }
}

#[test]
fn update_with_key_image() {
    let payload = hex(
        "55 00004E21 4B 0002 74 00000001 37 6E 4E 0002 74 00000001 37 74 00000003 426F62",
    );
    match MessageParser::decode(&payload, 1_048_576, &cache()).unwrap() {
        ReplicationMessage::Update {
            relation_id,
            key_type,
            old_tuple_data,
            new_tuple_data,
            is_stream,
            xid,
        } => {
            assert_eq!(relation_id, 20001);
            assert_eq!(key_type, Some('K'));
            assert!(!is_stream);
            assert_eq!(xid, None);
            let old = old_tuple_data.unwrap();
            assert_eq!(cells(&old), vec![('t', 1, "7"), ('n', 0, "")]);
            assert_eq!(cells(&new_tuple_data), vec![('t', 1, "7"), ('t', 3, "Bob")]);
        }
        other => panic!("not an update: {:?}", other),
    }
}

#[test]
fn update_with_full_old_row_and_without_old_row() {
    let payload = hex("55 00004E21 4F 0001 74 00000001 37 4E 0001 74 00000001 38");
    match MessageParser::parse_wal_message(&payload).unwrap() {
        ReplicationMessage::Update { key_type, old_tuple_data, new_tuple_data, .. } => {
            assert_eq!(key_type, Some('O'));
            assert_eq!(cells(&old_tuple_data.unwrap()), vec![('t', 1, "7")]);
            assert_eq!(cells(&new_tuple_data), vec![('t', 1, "8")]);
        }
        other => panic!("not an update: {:?}", other),
    }
    let payload = hex("55 00004E21 4E 0001 74 00000001 38");
    match MessageParser::parse_wal_message(&payload).unwrap() {
        ReplicationMessage::Update { key_type, old_tuple_data, new_tuple_data, .. } => {
            assert_eq!(key_type, None);
            assert!(old_tuple_data.is_none());
            assert_eq!(cells(&new_tuple_data), vec![('t', 1, "8")]);
        }
        other => panic!("not an update: {:?}", other),
    }
}

#[test]
fn streamed_insert() {
    let payload = hex("49 00000539 00004E21 4E 0002 74 00000001 37 74 00000005 416C696365");
    match MessageParser::decode(&payload, 1_048_576, &cache()).unwrap() {
        ReplicationMessage::Insert { relation_id, tuple_data, is_stream, xid } => {
            assert!(is_stream);
            assert_eq!(xid, Some(1337));
            assert_eq!(relation_id, 20001);
            assert_eq!(cells(&tuple_data), vec![('t', 1, "7"), ('t', 5, "Alice")]);
        }
        other => panic!("not an insert: {:?}", other),
    }
}

#[test]
fn streamed_update_and_delete() {
    let payload = hex("55 00000539 00004E21 4E 0001 74 00000001 38");
    match MessageParser::parse_wal_message(&payload).unwrap() {
        ReplicationMessage::Update { relation_id, is_stream, xid, .. } => {
            assert_eq!(relation_id, 20001);
            assert!(is_stream);
            assert_eq!(xid, Some(1337));
        }
        other => panic!("not an update: {:?}", other),
    }
    let payload = hex("44 00000539 00004E21 4F 0001 74 00000001 38");
    match MessageParser::parse_wal_message(&payload).unwrap() {
        ReplicationMessage::Delete { relation_id, key_type, is_stream, xid, tuple_data } => {
            assert_eq!(relation_id, 20001);
            assert_eq!(key_type, 'O');
            assert!(is_stream);
            assert_eq!(xid, Some(1337));
            assert_eq!(cells(&tuple_data), vec![('t', 1, "8")]);
        }
        other => panic!("not a delete: {:?}", other),
    }
}

#[test]
fn unchanged_toast_and_null() {
    let payload = hex("49 00004E21 4E 0003 74 00000001 78 75 6E");
    match MessageParser::parse_wal_message(&payload).unwrap() {
        ReplicationMessage::Insert { tuple_data, .. } => {
            assert_eq!(cells(&tuple_data), vec![('t', 1, "x"), ('u', 0, ""), ('n', 0, "")]);
            assert_eq!(tuple_data.column_count, 3);
        }
        other => panic!("not an insert: {:?}", other),
    }
}

#[test]
fn delete_by_key() {
    let payload = hex("44 00004E21 4B 0002 74 00000001 37 6E");
    match MessageParser::decode(&payload, 1_048_576, &cache()).unwrap() {
        ReplicationMessage::Delete { relation_id, key_type, tuple_data, is_stream, xid } => {
            assert_eq!(relation_id, 20001);
            assert_eq!(key_type, 'K');
            assert!(!is_stream);
            assert_eq!(xid, None);
            assert_eq!(cells(&tuple_data), vec![('t', 1, "7"), ('n', 0, "")]);
        }
        other => panic!("not a delete: {:?}", other),
    }
    let e = MessageParser::parse_wal_message(&hex("44 00000539 00004E21 58 0000")).unwrap_err();
    assert_eq!(protocol_message(&e), "Invalid marker in delete message");
}

#[test]
fn truncate_plain_and_streamed() {
    let plain = hex("54 00000002 01 00004E21 00004E22");
    match MessageParser::parse_wal_message(&plain).unwrap() {
        ReplicationMessage::Truncate { relation_ids, flags, is_stream, xid } => {
            assert_eq!(relation_ids, vec![20001, 20002]);
            assert_eq!(flags, 1);
            assert!(!is_stream);
            assert_eq!(xid, None);
        }
        other => panic!("not a truncate: {:?}", other),
    }
    let streamed = hex("54 00000539 00000002 02 00004E21 00004E22");
    match MessageParser::parse_wal_message(&streamed).unwrap() {
        ReplicationMessage::Truncate { relation_ids, flags, is_stream, xid } => {
            assert_eq!(relation_ids, vec![20001, 20002]);
            assert_eq!(flags, 2);
            assert!(is_stream);
            assert_eq!(xid, Some(1337));
        }
        other => panic!("not a truncate: {:?}", other),
    }
    let cut = hex("54 00000003 01 00004E21 00004E22");
    let e = MessageParser::parse_wal_message(&cut).unwrap_err();
    assert_eq!(parse_message(&e), "Truncate relation IDs truncated");
}

#[test]
fn stream_control_messages() {
    match MessageParser::parse_wal_message(&hex("53 00000539 01")).unwrap() {
        ReplicationMessage::StreamStart { xid, first_segment } => {
            assert_eq!(xid, 1337);
            assert!(first_segment);
        }
        other => panic!("not a stream start: {:?}", other),
    }
    match MessageParser::parse_wal_message(&hex("53 00000539 00")).unwrap() {
        ReplicationMessage::StreamStart { first_segment, .. } => assert!(!first_segment),
        other => panic!("not a stream start: {:?}", other),
    }
    assert!(matches!(
        MessageParser::parse_wal_message(&hex("45")).unwrap(),
        ReplicationMessage::StreamStop
    ));
    match MessageParser::parse_wal_message(&hex(
        "63 00000539 01 0000000000001000 0000000000001040 0002D6C8A5E00000",
    ))
    .unwrap()
    {
        ReplicationMessage::StreamCommit { xid, flags, commit_lsn, end_lsn, timestamp } => {
            assert_eq!(xid, 1337);
            assert_eq!(flags, 1);
            assert_eq!(commit_lsn, 0x1000);
            assert_eq!(end_lsn, 0x1040);
            assert_eq!(timestamp, 0x0002D6C8A5E00000);
        }
        other => panic!("not a stream commit: {:?}", other),
    }
    match MessageParser::parse_wal_message(&hex("41 00000539 0000053A")).unwrap() {
        ReplicationMessage::StreamAbort { xid, subtransaction_xid } => {
            assert_eq!(xid, 1337);
            assert_eq!(subtransaction_xid, 1338);
        }
        other => panic!("not a stream abort: {:?}", other),
    }
}

#[test]
fn tuple_with_no_columns() {
    let t = MessageParser::parse_tuple_data(&hex("0000 FF")).unwrap();
    assert_eq!(t.column_count, 0);
    assert!(t.columns.is_empty());
    assert_eq!(t.processed_length, 2);
}

#[test]
fn tuple_errors() {
    assert_eq!(
        parse_message(&MessageParser::parse_tuple_data(&hex("00")).unwrap_err()),
        "Tuple data too short"
    );
    assert_eq!(
        parse_message(&MessageParser::parse_tuple_data(&hex("0002 6E")).unwrap_err()),
        "Tuple data truncated"
    );
    assert_eq!(
        protocol_message(&MessageParser::parse_tuple_data(&hex("0001 7A")).unwrap_err()),
        "Unknown tuple data type"
    );
    assert_eq!(
        parse_message(&MessageParser::parse_tuple_data(&hex("0001 74 FFFFFFFF")).unwrap_err()),
        "Negative string length"
    );
    assert_eq!(
        parse_message(&MessageParser::parse_tuple_data(&hex("0001 74 00000005 4142")).unwrap_err()),
        "String data truncated"
    );
    assert_eq!(
        parse_message(&MessageParser::parse_tuple_data(&hex("0001 74 0000")).unwrap_err()),
        "Not enough bytes for i32"
    );
    let e = MessageParser::parse_tuple_data_with_limit(&hex("0001 74 00000003 414243"), 2)
        .unwrap_err();
    assert_eq!(parse_message(&e), "Length exceeds the configured limit");
    let t = MessageParser::parse_tuple_data_with_limit(&hex("0001 74 00000003 414243"), 3).unwrap();
    assert_eq!(cells(&t), vec![('t', 3, "ABC")]);
}

#[test]
fn unknown_and_empty_messages() {
    let e = MessageParser::parse_wal_message(&[]).unwrap_err();
    assert_eq!(parse_message(&e), "Empty message buffer");
    let e = MessageParser::parse_wal_message(&hex("5A 00")).unwrap_err();
    assert_eq!(protocol_message(&e), "Unknown message type");
}

#[test]
fn short_messages_are_refused() {
    let cases: Vec<(&str, &str)> = vec![
        ("42 0000000000001000 0002D6C8A5E00000 000005", "Begin message too short"),
        ("43 00 0000000000001000 0000000000001040 0002D6C8A5E000", "Commit message too short"),
        ("52 00004E21 70", "Relation message too short"),
        ("49 00004E21", "Insert message too short"),
        ("49 00000539 00004E", "Insert message too short"),
        ("55 00004E21", "Update message too short"),
        ("55 00000539 00004E", "Update message too short"),
        ("55 00000539 00004E21", "Update message truncated"),
        ("44 00004E21", "Delete message too short"),
        ("44 00000539 00004E21", "Delete message truncated"),
        ("54 00000001 01 000000", "Truncate message too short"),
        ("53 00000539", "Stream start message too short"),
        ("63 00000539 01 0000000000001000 0000000000001040 0002D6C8A5E000",
            "Stream commit message too short"),
        ("41 00000539 000005", "Stream abort message too short"),
    ];
    for (payload, message) in cases {
        let e = MessageParser::parse_wal_message(&hex(payload)).unwrap_err();
        assert_eq!(parse_message(&e), message, "payload {}", payload);
    }
}

#[test]
fn relation_errors() {
    let e = MessageParser::parse_wal_message(&hex("52 00004E21 7075626C6963 41")).unwrap_err();
    assert_eq!(parse_message(&e), "Invalid namespace in relation message");
    let e = MessageParser::parse_wal_message(&hex("52 00004E21 7000 7475")).unwrap_err();
    assert_eq!(parse_message(&e), "Invalid relation name in relation message");
    let e = MessageParser::parse_wal_message(&hex("52 00004E21 7000 7400 64 00")).unwrap_err();
    assert_eq!(parse_message(&e), "Relation message truncated");
    let e = MessageParser::parse_wal_message(&hex("52 00004E21 7000 7400 64 0001")).unwrap_err();
    assert_eq!(parse_message(&e), "Column data truncated");
    let e = MessageParser::parse_wal_message(&hex("52 00004E21 7000 7400 64 0001 01 6964")).unwrap_err();
    assert_eq!(parse_message(&e), "Invalid column name");
    let e = MessageParser::parse_wal_message(&hex("52 00004E21 7000 7400 64 0001 01 696400 00000017 FFFF"))
        .unwrap_err();
    assert_eq!(parse_message(&e), "Column data truncated");
}

#[test]
fn marker_errors() {
    let e = MessageParser::parse_wal_message(&hex("49 00000539 00004E21 58 0000")).unwrap_err();
    assert_eq!(protocol_message(&e), "Expected 'N' marker in insert message");
    let e = MessageParser::parse_wal_message(&hex("55 00000539 00004E21 58 0000")).unwrap_err();
    assert_eq!(protocol_message(&e), "Invalid marker in update message");
    let e = MessageParser::parse_wal_message(&hex("55 00004E21 4B 0000 58")).unwrap_err();
    assert_eq!(protocol_message(&e), "Expected 'N' marker after old tuple data");
    let e = MessageParser::parse_wal_message(&hex("55 00004E21 4B 0000")).unwrap_err();
    assert_eq!(protocol_message(&e), "Expected 'N' marker after old tuple data");
}

#[test]
fn changes_of_unknown_relations_are_refused() {
    let empty: HashMap<u32, RelationInfo> = HashMap::new();
    let e = MessageParser::decode(&insert_payload(), 1_048_576, &empty).unwrap_err();
    assert_eq!(protocol_message(&e), "Unknown relation ID in INSERT");
    let update = hex("55 00004E21 4E 0002 6E 6E");
    let e = MessageParser::decode(&update, 1_048_576, &empty).unwrap_err();
    assert_eq!(protocol_message(&e), "Unknown relation ID in UPDATE");
    let delete = hex("44 00004E21 4B 0002 6E 6E");
    let e = MessageParser::decode(&delete, 1_048_576, &empty).unwrap_err();
    assert_eq!(protocol_message(&e), "Unknown relation ID in DELETE");
    let truncate = hex("54 00000002 01 00004E21 00004E22");
    let e = MessageParser::decode(&truncate, 1_048_576, &cache()).unwrap_err();
    assert_eq!(protocol_message(&e), "Unknown relation ID in TRUNCATE");
    let truncate = hex("54 00000001 01 00004E21 00");
    assert!(MessageParser::decode(&truncate, 1_048_576, &cache()).is_ok());
    assert!(MessageParser::decode(&relation_payload(), 1_048_576, &empty).is_ok());
}

#[test]
fn tuples_must_match_the_column_count_of_their_relation() {
    let three = hex("49 00004E21 4E 0003 6E 6E 6E");
    let e = MessageParser::decode(&three, 1_048_576, &cache()).unwrap_err();
    assert_eq!(protocol_message(&e), "Column count does not match the relation");
    let message = MessageParser::parse_wal_message(&three).unwrap();
    assert!(MessageParser::check_relations(&message, &cache()).is_err());
    let update = hex("55 00004E21 4B 0001 6E 4E 0002 6E 6E");
    let e = MessageParser::decode(&update, 1_048_576, &cache()).unwrap_err();
    assert_eq!(protocol_message(&e), "Column count does not match the relation");
}

#[test]
fn decoding_twice_gives_equal_messages() {
    let payloads = vec![relation_payload(), insert_payload(), hex("45"), hex("5A")];
    for p in payloads {
        let a = MessageParser::parse_wal_message(&p);
        let b = MessageParser::parse_wal_message(&p);
        assert_eq!(format!("{:?}", a), format!("{:?}", b));
    }
}

#[test]
fn message_type_names() {
    assert_eq!(MessageParser::parse_wal_message(&hex("45")).unwrap().message_type(), "StreamStop");
    assert_eq!(MessageParser::parse_wal_message(&relation_payload()).unwrap().message_type(), "Relation");
    assert_eq!(MessageParser::parse_wal_message(&insert_payload()).unwrap().message_type(), "Insert");
}
