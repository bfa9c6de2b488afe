use std::collections::HashMap;
use walpipe::events::event_formatter::EventFormatter;
use walpipe::events::event_formatter::FormattedEvent;
use walpipe::events::event_formatter::JsonEventFormatter;
use walpipe::events::event_formatter::WebhookEventFormatter;
use walpipe::events::json::JsonValue;
use walpipe::protocol::messages::ColumnData;
use walpipe::protocol::messages::ColumnInfo;
use walpipe::protocol::messages::RelationInfo;
use walpipe::protocol::messages::ReplicationMessage;
use walpipe::protocol::messages::TupleData;

fn column(name: &str, oid: u32, key: i8) -> ColumnInfo {
    ColumnInfo { key_flag: key, column_name: name.to_string(), column_type: oid, atttypmod: -1 }
}

fn relation() -> RelationInfo {
    RelationInfo {
        oid: 20001,
        namespace: "public".to_string(),
        relation_name: "t_new_t".to_string(),
        replica_identity: 'd',
        column_count: 3,
        columns: vec![column("a", 25, 1), column("b", 25, 0), column("c", 25, 0)],
    }
}

fn relations() -> HashMap<u32, RelationInfo> {
    let mut m = HashMap::new();
    m.insert(20001, relation());
    m
}

fn cell(kind: char, data: &str) -> ColumnData {
    ColumnData { data_type: kind, length: data.len() as i32, data: data.to_string() }
}

fn tuple(columns: Vec<ColumnData>) -> TupleData {
    TupleData { column_count: columns.len() as i16, columns, processed_length: 0 }
}

fn get<'a>(v: &'a JsonValue, name: &str) -> Option<&'a JsonValue> {
    match v {
        JsonValue::Object(members) => members.iter().find(|(k, _)| k == name).map(|(_, v)| v),
        _ => None,
    }
}

fn names(v: &JsonValue) -> Vec<&str> {
    match v {
        JsonValue::Object(members) => members.iter().map(|(k, _)| k.as_str()).collect(),
        _ => panic!("not an object"),
    }
}

fn string(v: &JsonValue) -> &str {
    match v {
        JsonValue::String(s) => s.as_str(),
        other => panic!("not a string: {:?}", other),
    }
}

fn number(v: &JsonValue) -> i128 {
    match v {
        JsonValue::Number(n) => *n,
        other => panic!("not a number: {:?}", other),
    }
}

fn note<'a>(event: &'a FormattedEvent, name: &str) -> Option<&'a str> {
    event.metadata.iter().find(|(k, _)| k == name).map(|(_, v)| v.as_str())
}

#[test]
fn test_json_formatter_basic() {
    let formatter = JsonEventFormatter::new();
    let relations = HashMap::new();

    // Test BEGIN message formatting
    let begin_msg = ReplicationMessage::Begin {
        xid: 12345,
        final_lsn: 1000,
        timestamp: 1640995200000000, // 2022-01-01 00:00:00 UTC
    };

    let event = formatter.format_message(&begin_msg, &relations).unwrap();
    assert_eq!(event.event_type, "begin");
    assert_eq!(event.transaction_id, Some(12345));
    assert_eq!(event.lsn, Some(1000));
}

#[test]
fn test_webhook_formatter() {
    let formatter = WebhookEventFormatter::new();
    let relations = HashMap::new();

    let begin_msg = ReplicationMessage::Begin {
        xid: 12345,
        final_lsn: 1000,
        timestamp: 1640995200000000,
    };

    let event = formatter.format_message(&begin_msg, &relations).unwrap();
    assert_eq!(event.event_type, "begin");
    assert_eq!(note(&event, "format"), Some("webhook"));
    assert_eq!(note(&event, "version"), Some("1.0"));
}

#[test]
fn begin_and_commit_bodies() {
    let f = JsonEventFormatter::new();
    let begin = ReplicationMessage::Begin { final_lsn: 4096, timestamp: -5, xid: 1337 };
    let event = f.format_message(&begin, &HashMap::new()).unwrap();
    assert_eq!(event.timestamp, Some(-5));
    assert_eq!(event.schema, None);
    assert_eq!(event.table, None);
    assert!(event.metadata.is_empty());
    assert_eq!(names(&event.data), vec!["xid", "final_lsn", "timestamp"]);
    assert_eq!(number(get(&event.data, "xid").unwrap()), 1337);
    assert_eq!(number(get(&event.data, "final_lsn").unwrap()), 4096);
    assert_eq!(number(get(&event.data, "timestamp").unwrap()), -5);
    let commit = ReplicationMessage::Commit { flags: 0, commit_lsn: 0x1000, end_lsn: 0x1040, timestamp: 9 };
    let event = f.format_message(&commit, &HashMap::new()).unwrap();
    assert_eq!(event.event_type, "commit");
    assert_eq!(event.transaction_id, None);
    assert_eq!(event.lsn, Some(0x1040));
    assert_eq!(number(get(&event.data, "end_lsn").unwrap()), 0x1040);
    assert_eq!(number(get(&event.data, "commit_lsn").unwrap()), 0x1000);
    assert_eq!(number(get(&event.data, "flags").unwrap()), 0);
}

#[test]
fn unchanged_toast_and_null_in_json() {
    let insert = ReplicationMessage::Insert {
        relation_id: 20001,
        tuple_data: tuple(vec![cell('t', "x"), cell('u', ""), cell('n', "")]),
        is_stream: false,
        xid: None,
    };
    let event = JsonEventFormatter::new().format_message(&insert, &relations()).unwrap();
    assert_eq!(event.event_type, "insert");
    assert_eq!(event.schema.as_deref(), Some("public"));
    assert_eq!(event.table.as_deref(), Some("t_new_t"));
    assert_eq!(event.transaction_id, None);
    assert_eq!(names(&event.data), vec!["a", "b"]);
    assert_eq!(string(get(&event.data, "a").unwrap()), "x");
    assert_eq!(string(get(&event.data, "b").unwrap()), "<TOASTED>");
    assert!(get(&event.data, "c").is_none());
    assert_eq!(event.metadata, vec![("is_stream".to_string(), "false".to_string())]);

    let keeping = JsonEventFormatter::new().include_null_values(true);
    let event = keeping.format_message(&insert, &relations()).unwrap();
    assert_eq!(names(&event.data), vec!["a", "b", "c"]);
    assert!(matches!(get(&event.data, "c"), Some(JsonValue::Null)));
}

#[test]
fn long_texts_are_cut_at_whole_characters() {
    let long = "é".repeat(600);
    let insert = ReplicationMessage::Insert {
        relation_id: 20001,
        tuple_data: tuple(vec![cell('t', &long), cell('t', "short"), cell('x', "?")]),
        is_stream: true,
        xid: Some(1337),
    };
    let event = JsonEventFormatter::new().format_message(&insert, &relations()).unwrap();
    let a = string(get(&event.data, "a").unwrap());
    assert_eq!(a, format!("{}... (truncated)", "é".repeat(500)));
    assert_eq!(string(get(&event.data, "b").unwrap()), "short");
    assert_eq!(string(get(&event.data, "c").unwrap()), "<UNKNOWN>");
    assert_eq!(event.transaction_id, Some(1337));
    assert_eq!(
        event.metadata,
        vec![
            ("is_stream".to_string(), "true".to_string()),
            ("streaming_xid".to_string(), "1337".to_string()),
        ]
    );
    // An odd cap falls into the middle of a character and is rounded down.
    let odd = JsonEventFormatter::new().max_field_length(Some(5));
    let event = odd.format_message(&insert, &relations()).unwrap();
    assert_eq!(string(get(&event.data, "a").unwrap()), "éé... (truncated)");
    assert_eq!(string(get(&event.data, "b").unwrap()), "short");
    let none = JsonEventFormatter::new().max_field_length(None);
    let event = none.format_message(&insert, &relations()).unwrap();
    assert_eq!(string(get(&event.data, "a").unwrap()), long);
    let webhook = WebhookEventFormatter::new();
    let event = webhook.format_message(&insert, &relations()).unwrap();
    assert_eq!(string(get(&event.data, "a").unwrap()), format!("{}... (truncated)", "é".repeat(250)));
}

#[test]
fn cells_beyond_the_schema_are_left_out() {
    let insert = ReplicationMessage::Insert {
        relation_id: 20001,
        tuple_data: tuple(vec![cell('t', "1"), cell('t', "2"), cell('t', "3"), cell('t', "4")]),
        is_stream: false,
        xid: None,
    };
    let event = JsonEventFormatter::new().format_message(&insert, &relations()).unwrap();
    assert_eq!(names(&event.data), vec!["a", "b", "c"]);
}

#[test]
fn update_and_delete_bodies() {
    let f = JsonEventFormatter::new();
    let update = ReplicationMessage::Update {
        relation_id: 20001,
        key_type: Some('K'),
        old_tuple_data: Some(tuple(vec![cell('t', "7"), cell('n', ""), cell('n', "")])),
        new_tuple_data: tuple(vec![cell('t', "7"), cell('t', "Bob"), cell('n', "")]),
        is_stream: false,
        xid: None,
    };
    let event = f.format_message(&update, &relations()).unwrap();
    assert_eq!(event.event_type, "update");
    assert_eq!(names(&event.data), vec!["old", "new"]);
    assert_eq!(names(get(&event.data, "old").unwrap()), vec!["a"]);
    assert_eq!(names(get(&event.data, "new").unwrap()), vec!["a", "b"]);
    assert_eq!(string(get(get(&event.data, "new").unwrap(), "b").unwrap()), "Bob");
    assert_eq!(
        event.metadata,
        vec![
            ("is_stream".to_string(), "false".to_string()),
            ("key_type".to_string(), "K".to_string()),
        ]
    );
    let plain = ReplicationMessage::Update {
        relation_id: 20001,
        key_type: None,
        old_tuple_data: None,
        new_tuple_data: tuple(vec![cell('t', "7")]),
        is_stream: true,
        xid: Some(9),
    };
    let event = f.format_message(&plain, &relations()).unwrap();
    assert_eq!(names(&event.data), vec!["new"]);
    assert_eq!(note(&event, "key_type"), None);
    assert_eq!(note(&event, "streaming_xid"), Some("9"));
    let delete = ReplicationMessage::Delete {
        relation_id: 20001,
        key_type: 'O',
        tuple_data: tuple(vec![cell('t', "7")]),
        is_stream: false,
        xid: None,
    };
    let event = f.format_message(&delete, &relations()).unwrap();
    assert_eq!(event.event_type, "delete");
    assert_eq!(names(&event.data), vec!["a"]);
    assert_eq!(note(&event, "key_type"), Some("O"));
}

#[test]
fn changes_of_unknown_relations_make_no_event() {
    let f = JsonEventFormatter::new();
    let empty = HashMap::new();
    let insert = ReplicationMessage::Insert {
        relation_id: 4242,
        tuple_data: tuple(vec![]),
        is_stream: false,
        xid: None,
    };
    match f.format_message(&insert, &empty).unwrap_err() {
        walpipe::errors::ReplicationError::MessageParsing { message, context } => {
            assert_eq!(message, "Unknown relation ID in INSERT");
            assert_eq!(context.as_deref(), Some("Relation ID: 4242"));
        }
        other => panic!("unexpected {:?}", other),
    }
    let update = ReplicationMessage::Update {
        relation_id: 1,
        key_type: None,
        old_tuple_data: None,
        new_tuple_data: tuple(vec![]),
        is_stream: false,
        xid: None,
    };
    assert_eq!(f.format_message(&update, &empty).unwrap_err().message(), "Unknown relation ID in UPDATE");
    let delete = ReplicationMessage::Delete {
        relation_id: 1,
        key_type: 'K',
        tuple_data: tuple(vec![]),
        is_stream: false,
        xid: None,
    };
    assert_eq!(f.format_message(&delete, &empty).unwrap_err().message(), "Unknown relation ID in DELETE");
    assert_eq!(
        WebhookEventFormatter::new().format_message(&delete, &empty).unwrap_err().message(),
        "Unknown relation ID in DELETE"
    );
}

#[test]
fn relation_and_truncate_bodies() {
    let f = JsonEventFormatter::new();
    let event = f
        .format_message(&ReplicationMessage::Relation { relation: relation() }, &HashMap::new())
        .unwrap();
    assert_eq!(event.event_type, "relation");
    assert_eq!(event.schema.as_deref(), Some("public"));
    assert_eq!(number(get(&event.data, "oid").unwrap()), 20001);
    assert_eq!(string(get(&event.data, "replica_identity").unwrap()), "d");
    assert_eq!(number(get(&event.data, "column_count").unwrap()), 3);
    match get(&event.data, "columns").unwrap() {
        JsonValue::Array(items) => {
            assert_eq!(items.len(), 3);
            assert_eq!(names(&items[0]), vec!["name", "type", "key_flag", "atttypmod"]);
            assert_eq!(string(get(&items[0], "name").unwrap()), "a");
            assert_eq!(number(get(&items[0], "type").unwrap()), 25);
            assert_eq!(number(get(&items[0], "key_flag").unwrap()), 1);
            assert_eq!(number(get(&items[0], "atttypmod").unwrap()), -1);
        }
        other => panic!("unexpected {:?}", other),
    }
    let truncate = ReplicationMessage::Truncate {
        relation_ids: vec![20001, 5, 20001],
        flags: -3,
        is_stream: true,
        xid: Some(8),
    };
    let event = f.format_message(&truncate, &relations()).unwrap();
    assert_eq!(event.event_type, "truncate");
    assert_eq!(event.transaction_id, Some(8));
    match get(&event.data, "tables").unwrap() {
        JsonValue::Array(items) => {
            let tables: Vec<&str> = items.iter().map(string).collect();
            assert_eq!(tables, vec!["public.t_new_t", "public.t_new_t"]);
        }
        other => panic!("unexpected {:?}", other),
    }
    assert_eq!(number(get(&event.data, "flags").unwrap()), -3);
    assert_eq!(
        event.metadata,
        vec![
            ("is_stream".to_string(), "true".to_string()),
            ("flags".to_string(), "-3".to_string()),
            ("streaming_xid".to_string(), "8".to_string()),
        ]
    );
}

#[test]
fn stream_bodies() {
    let f = JsonEventFormatter::default();
    let none = HashMap::new();
    let event = f
        .format_message(&ReplicationMessage::StreamStart { xid: 3, first_segment: true }, &none)
        .unwrap();
    assert_eq!(event.event_type, "stream_start");
    assert_eq!(event.transaction_id, Some(3));
    assert!(matches!(get(&event.data, "first_segment"), Some(JsonValue::Bool(true))));
    assert_eq!(note(&event, "first_segment"), Some("true"));
    let event = f.format_message(&ReplicationMessage::StreamStop, &none).unwrap();
    assert_eq!(event.event_type, "stream_stop");
    assert!(names(&event.data).is_empty());
    let commit = ReplicationMessage::StreamCommit {
        xid: 3,
        flags: 1,
        commit_lsn: 10,
        end_lsn: 20,
        timestamp: 30,
    };
    let event = f.format_message(&commit, &none).unwrap();
    assert_eq!(event.event_type, "stream_commit");
    assert_eq!(event.lsn, Some(20));
    assert_eq!(event.timestamp, Some(30));
    assert_eq!(names(&event.data), vec!["xid", "flags", "commit_lsn", "end_lsn", "timestamp"]);
    let abort = ReplicationMessage::StreamAbort { xid: 3, subtransaction_xid: 4 };
    let event = f.format_message(&abort, &none).unwrap();
    assert_eq!(event.event_type, "stream_abort");
    assert_eq!(number(get(&event.data, "subtransaction_xid").unwrap()), 4);
}

fn type_through<F: EventFormatter>(f: &F, message: &ReplicationMessage) -> String {
    EventFormatter::format_message(f, message, &HashMap::new()).unwrap().event_type
}

#[test]
fn formatters_share_a_trait() {
    let stop = ReplicationMessage::StreamStop;
    assert_eq!(type_through(&JsonEventFormatter::new(), &stop), "stream_stop");
    assert_eq!(type_through(&WebhookEventFormatter::new(), &stop), "stream_stop");
}
