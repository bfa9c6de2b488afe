use walpipe::errors::ReplicationError;
use walpipe::events::hook0::error_id;
use walpipe::events::hook0::Hook0Decision;
use walpipe::events::hook0::Hook0Outcome;
use walpipe::events::hook0::Hook0Sink;
use walpipe::events::hook0::Hook0Start;
use walpipe::events::hook0::Notice;
use walpipe::events::hook0::UnknownEventTypes;
use walpipe::events::hook0_error::Hook0ErrorId;
use walpipe::events::http::classify;
use walpipe::events::http::payload;
use walpipe::events::http::payload_type;
use walpipe::events::json::JsonValue;
use walpipe::events::http::HttpDecision;
use walpipe::events::http::HttpDelivery;
use walpipe::events::http::HttpOutcome;
use walpipe::events::sink::AttemptOutcome;
use walpipe::events::sink::BaseEventSink;
use walpipe::events::sink::RetryConfig;
use walpipe::events::sink::RetryState;
use walpipe::events::sink::RetryVerdict;
use walpipe::events::sink::SinkConfig;
use walpipe::events::sink::SinkMetrics;
use walpipe::events::stdout::StdoutEventSink;
use walpipe::events::stdout::StdoutSink;
use walpipe::protocol::messages::ColumnData;
use walpipe::protocol::messages::ColumnInfo;
use walpipe::protocol::messages::RelationInfo;
use walpipe::protocol::messages::ReplicationMessage;
use walpipe::protocol::messages::TupleData;

fn column(name: &str, oid: u32) -> ColumnInfo {
    ColumnInfo { key_flag: 0, column_name: name.to_string(), column_type: oid, atttypmod: -1 }
}

fn events_relation() -> ReplicationMessage {
    ReplicationMessage::Relation {
        relation: RelationInfo {
            oid: 500,
            namespace: "public".to_string(),
            relation_name: "events".to_string(),
            replica_identity: 'd',
            column_count: 6,
            columns: vec![
                column("event_id", 2950),
                column("event_type", 25),
                column("created_at", 1184),
                column("metadata", 3802),
                column("payload", 3802),
                column("labels", 114),
            ],
        },
    }
}

fn text(s: &str) -> ColumnData {
    ColumnData { data_type: 't', length: s.len() as i32, data: s.to_string() }
}

fn event_insert(event_type: &str, metadata: &str) -> ReplicationMessage {
    ReplicationMessage::Insert {
        relation_id: 500,
        tuple_data: TupleData {
            column_count: 6,
            columns: vec![
                text("a1a2a3a4-b1b2-c1c2-d1d2-d3d4d5d6d7d8"),
                text(event_type),
                text("2024-05-06 07:08:09.123456+02"),
                text(metadata),
                text("{\"n\": 1, \"s\": \"x\"}"),
                text("{\"tenant\": \"acme\", \"weight\": 3}"),
            ],
            processed_length: 0,
        },
        is_stream: false,
        xid: None,
    }
}

#[test]
fn test_stdout_sink_basic() {
    let sink = StdoutSink::new();
    // Just test that it doesn't panic
    assert!(sink.enabled);
}

#[test]
fn test_stdout_sink_disabled() {
    let sink = StdoutSink::new_disabled();
    assert!(!sink.enabled);
}

#[test]
fn stdout_sinks() {
    assert!(StdoutSink::new().prints());
    assert!(!StdoutSink::new_disabled().prints());
    assert_eq!(StdoutEventSink::new(), StdoutEventSink {});
}

#[test]
fn delays_double_up_to_the_cap() {
    let policy = RetryConfig::delivery();
    assert_eq!(policy.max_attempts, 5);
    let delays: Vec<u64> = (0..8).map(|k| policy.delay_secs(k)).collect();
    assert_eq!(delays, vec![1, 2, 4, 8, 16, 30, 30, 30]);
    assert_eq!(policy.delay_millis(0), 1000);
    assert_eq!(policy.delay_millis(4), 16_000);
    assert_eq!(policy.delay_millis(40), 30_000);
    assert_eq!(policy.delay_secs(u32::MAX), 30);
    assert_eq!(policy.next_delay_secs(16), 30);
    assert_eq!(policy.next_delay_secs(3), 6);
    let default = RetryConfig::default();
    assert_eq!(default.max_attempts, 3);
    assert_eq!(default.initial_delay_secs, 1);
    assert_eq!(default.backoff_multiplier, 2);
    assert_eq!(default.max_delay_secs, 30);
}

#[test]
fn unusual_policies() {
    let flat = RetryConfig { max_attempts: 2, initial_delay_secs: 5, backoff_multiplier: 1, max_delay_secs: 60 };
    assert_eq!(flat.delay_secs(0), 5);
    assert_eq!(flat.delay_secs(9), 5);
    let capped = RetryConfig { max_attempts: 2, initial_delay_secs: 50, backoff_multiplier: 3, max_delay_secs: 20 };
    assert_eq!(capped.delay_secs(0), 20);
    assert_eq!(capped.delay_secs(3), 20);
    let zero = RetryConfig { max_attempts: 2, initial_delay_secs: 5, backoff_multiplier: 0, max_delay_secs: 60 };
    assert_eq!(zero.delay_secs(0), 5);
    assert_eq!(zero.delay_secs(1), 0);
    assert_eq!(zero.delay_secs(2), 0);
    let zero_capped = RetryConfig { max_attempts: 2, initial_delay_secs: 50, backoff_multiplier: 0, max_delay_secs: 20 };
    assert_eq!(zero_capped.delay_secs(0), 20);
    assert_eq!(zero_capped.delay_secs(1), 0);
    let huge = RetryConfig { max_attempts: 2, initial_delay_secs: u64::MAX, backoff_multiplier: u32::MAX, max_delay_secs: u64::MAX };
    assert_eq!(huge.delay_secs(3), u64::MAX);
    assert_eq!(huge.delay_millis(3), u64::MAX);
}

#[test]
fn at_most_five_attempts() {
    let policy = RetryConfig::delivery();
    let mut state = RetryState::new();
    let mut delays = Vec::new();
    loop {
        match state.record(&policy, AttemptOutcome::Transient) {
            RetryVerdict::Retry { delay_millis } => delays.push(delay_millis),
            RetryVerdict::GiveUp => break,
            RetryVerdict::Done => panic!("a failure cannot be done"),
        }
    }
    assert_eq!(delays, vec![1000, 2000, 4000, 8000]);
    assert_eq!(state.attempts, 5);
    let mut state = RetryState::new();
    assert_eq!(state.record(&policy, AttemptOutcome::Accepted), RetryVerdict::Done);
    assert_eq!(state.attempts, 0);
    assert_eq!(state.record(&policy, AttemptOutcome::Permanent), RetryVerdict::GiveUp);
    assert_eq!(state.attempts, 1);
}

#[test]
fn http_answers_are_judged_by_their_status() {
    assert_eq!(classify(HttpOutcome::Status(200)), AttemptOutcome::Accepted);
    assert_eq!(classify(HttpOutcome::Status(204)), AttemptOutcome::Accepted);
    assert_eq!(classify(HttpOutcome::Status(299)), AttemptOutcome::Accepted);
    assert_eq!(classify(HttpOutcome::Status(199)), AttemptOutcome::Permanent);
    assert_eq!(classify(HttpOutcome::Status(300)), AttemptOutcome::Permanent);
    assert_eq!(classify(HttpOutcome::Status(400)), AttemptOutcome::Permanent);
    assert_eq!(classify(HttpOutcome::Status(404)), AttemptOutcome::Permanent);
    assert_eq!(classify(HttpOutcome::Status(429)), AttemptOutcome::Transient);
    assert_eq!(classify(HttpOutcome::Status(499)), AttemptOutcome::Permanent);
    assert_eq!(classify(HttpOutcome::Status(500)), AttemptOutcome::Transient);
    assert_eq!(classify(HttpOutcome::Status(503)), AttemptOutcome::Transient);
    assert_eq!(classify(HttpOutcome::Status(599)), AttemptOutcome::Transient);
    assert_eq!(classify(HttpOutcome::Status(600)), AttemptOutcome::Permanent);
    assert_eq!(classify(HttpOutcome::NetworkError), AttemptOutcome::Transient);
}

#[test]
fn http_delivery_retries_then_gives_up() {
    let mut d = HttpDelivery::new(RetryConfig::delivery());
    for expected in [1000u64, 2000, 4000, 8000] {
        match d.on_outcome(HttpOutcome::Status(503)) {
            HttpDecision::Retry { delay_millis } => assert_eq!(delay_millis, expected),
            other => panic!("unexpected {:?}", other),
        }
    }
    match d.on_outcome(HttpOutcome::NetworkError) {
        HttpDecision::Failed { error } => match error {
            ReplicationError::Sink { message, sink } => {
                assert_eq!(message, "HTTP request failed");
                assert_eq!(sink, "http");
            }
            other => panic!("unexpected {:?}", other),
        },
        other => panic!("unexpected {:?}", other),
    }
    let mut d = HttpDelivery::new(RetryConfig::delivery());
    assert!(matches!(d.on_outcome(HttpOutcome::Status(201)), HttpDecision::Delivered));
    match d.on_outcome(HttpOutcome::Status(404)) {
        HttpDecision::Failed { error } => assert_eq!(error.message(), "HTTP endpoint refused the event"),
        other => panic!("unexpected {:?}", other),
    }
}

#[test]
fn error_ids_and_their_spellings() {
    let all = [
        (Hook0ErrorId::EventTypeDoesNotExist, "EventTypeDoesNotExist"),
        (Hook0ErrorId::EventAlreadyIngested, "EventAlreadyIngested"),
        (Hook0ErrorId::InvalidEventId, "InvalidEventId"),
        (Hook0ErrorId::InvalidPayload, "InvalidPayload"),
        (Hook0ErrorId::Unauthorized, "Unauthorized"),
        (Hook0ErrorId::RateLimitExceeded, "RateLimitExceeded"),
        (Hook0ErrorId::InternalServerError, "InternalServerError"),
    ];
    for (id, spelling) in all {
        assert_eq!(id.as_str(), spelling);
        assert_eq!(Hook0ErrorId::from(spelling), id);
        assert_eq!(Hook0ErrorId::parse(spelling), id);
    }
    assert_eq!(Hook0ErrorId::from("SomethingElse"), Hook0ErrorId::InternalServerError);
    assert_eq!(Hook0ErrorId::from(""), Hook0ErrorId::InternalServerError);
    assert_eq!(Hook0ErrorId::from("unauthorized"), Hook0ErrorId::InternalServerError);
}

#[test]
fn error_id_of_a_body() {
    let body = |s: &str| Some(s.to_string());
    assert_eq!(error_id(&body("{\"id\":\"EventTypeDoesNotExist\"}")), Hook0ErrorId::EventTypeDoesNotExist);
    assert_eq!(
        error_id(&body("{\"status\": 401, \"id\": \"Unauthorized\", \"title\": \"x\"}")),
        Hook0ErrorId::Unauthorized
    );
    assert_eq!(error_id(&body("{\"id\": 7}")), Hook0ErrorId::InternalServerError);
    assert_eq!(error_id(&body("{\"title\": \"x\"}")), Hook0ErrorId::InternalServerError);
    assert_eq!(error_id(&body("[\"Unauthorized\"]")), Hook0ErrorId::InternalServerError);
    assert_eq!(error_id(&body("not json")), Hook0ErrorId::InternalServerError);
    assert_eq!(error_id(&None), Hook0ErrorId::InternalServerError);
}

#[test]
fn unknown_event_type_is_recorded_then_suppressed() {
    let mut sink = Hook0Sink::new();
    assert!(matches!(sink.begin(&events_relation(), 1_000), Hook0Start::Skip));
    let event = match sink.begin(&event_insert("foo", "{}"), 1_000) {
        Hook0Start::Send { event } => event,
        Hook0Start::Skip => panic!("the first event of a type is posted"),
    };
    assert_eq!(event.event_type, "foo");
    let mut attempts = RetryState::new();
    let outcome = Hook0Outcome::Rejected { body: Some("{\"id\":\"EventTypeDoesNotExist\"}".to_string()) };
    match sink.on_outcome(&mut attempts, "foo", outcome, 1_000) {
        Hook0Decision::Skipped { notice } => assert_eq!(notice, Some(Notice::UnknownEventType)),
        other => panic!("unexpected {:?}", other),
    }
    assert_eq!(sink.unknown_event_types.recorded("foo"), Some(1_000));
    // Within five minutes nothing of that type is posted.
    assert!(matches!(sink.begin(&event_insert("foo", "{}"), 1_001), Hook0Start::Skip));
    assert!(matches!(sink.begin(&event_insert("foo", "{}"), 300_999), Hook0Start::Skip));
    // Another type is not held back.
    assert!(matches!(sink.begin(&event_insert("bar", "{}"), 2_000), Hook0Start::Send { .. }));
    // After five minutes the type is tried again.
    assert!(matches!(sink.begin(&event_insert("foo", "{}"), 301_000), Hook0Start::Send { .. }));
}

#[test]
fn memory_of_unknown_types() {
    let mut m = UnknownEventTypes::new();
    assert_eq!(m.recorded("a"), None);
    assert!(!m.suppressed("a", 0));
    m.record("a", 10);
    m.record("b", 20);
    m.record("a", 30);
    assert_eq!(m.recorded("a"), Some(30));
    assert_eq!(m.recorded("b"), Some(20));
    assert_eq!(m.recorded("c"), None);
    assert!(m.suppressed("a", 30));
    assert!(m.suppressed("a", 300_029));
    assert!(!m.suppressed("a", 300_030));
    // A clock that ran backwards holds the type back as well.
    assert!(m.suppressed("a", 5));
}

#[test]
fn envelope_of_an_event_row() {
    let mut sink = Hook0Sink::new();
    sink.begin(&events_relation(), 0);
    let metadata = "{\"source\": \"db\", \"retries\": 2, \"nested\": {\"a\": \"b\"}, \"flag\": true, \"z\": \"last\"}";
    let event = match sink.begin(&event_insert("user.created", metadata), 0) {
        Hook0Start::Send { event } => event,
        Hook0Start::Skip => panic!("posted"),
    };
    assert_eq!(event.event_id, 0xa1a2a3a4_b1b2_c1c2_d1d2_d3d4d5d6d7d8u128);
    assert_eq!(event.event_type, "user.created");
    assert_eq!(event.payload_content_type, "application/json");
    let payload: serde_json::Value = serde_json::from_str(&event.payload).unwrap();
    assert_eq!(payload["n"].as_i64(), Some(1));
    assert_eq!(payload["s"].as_str(), Some("x"));
    let mut metadata = event.metadata.clone();
    metadata.sort();
    assert_eq!(
        metadata,
        vec![("source".to_string(), "db".to_string()), ("z".to_string(), "last".to_string())]
    );
    assert_eq!(event.labels, vec![("tenant".to_string(), "acme".to_string())]);
    // 2024-05-06 05:08:09.123456 UTC
    assert_eq!(event.occurred_at, 1_714_972_089_123_456);
}

#[test]
fn rows_that_are_no_events_are_passed_over() {
    let mut sink = Hook0Sink::new();
    // The relation is not known yet.
    assert!(matches!(sink.begin(&event_insert("foo", "{}"), 0), Hook0Start::Skip));
    sink.begin(&events_relation(), 0);
    // Metadata that is no object.
    assert!(matches!(sink.begin(&event_insert("foo", "[1, 2]"), 0), Hook0Start::Skip));
    // Metadata that is no JSON.
    assert!(matches!(sink.begin(&event_insert("foo", "{"), 0), Hook0Start::Skip));
    // A row of another table.
    let other = ReplicationMessage::Relation {
        relation: RelationInfo {
            oid: 501,
            namespace: "public".to_string(),
            relation_name: "users".to_string(),
            replica_identity: 'd',
            column_count: 1,
            columns: vec![column("id", 23)],
        },
    };
    sink.begin(&other, 0);
    let insert = ReplicationMessage::Insert {
        relation_id: 501,
        tuple_data: TupleData { column_count: 1, columns: vec![text("7")], processed_length: 0 },
        is_stream: false,
        xid: None,
    };
    assert!(matches!(sink.begin(&insert, 0), Hook0Start::Skip));
    assert!(matches!(sink.begin(&ReplicationMessage::StreamStop, 0), Hook0Start::Skip));
}

#[test]
fn answers_of_the_service() {
    let body = |id: &str| Hook0Outcome::Rejected { body: Some(format!("{{\"id\":\"{}\"}}", id)) };
    let mut sink = Hook0Sink::new();
    let mut attempts = RetryState::new();
    assert!(matches!(
        sink.on_outcome(&mut attempts, "t", Hook0Outcome::Accepted, 0),
        Hook0Decision::Delivered
    ));
    match sink.on_outcome(&mut attempts, "t", body("EventAlreadyIngested"), 0) {
        Hook0Decision::Skipped { notice } => assert_eq!(notice, None),
        other => panic!("unexpected {:?}", other),
    }
    assert!(matches!(
        sink.on_outcome(&mut attempts, "t", body("Unauthorized"), 0),
        Hook0Decision::Terminate
    ));
    for id in ["InvalidEventId", "InvalidPayload"] {
        match sink.on_outcome(&mut attempts, "t", body(id), 0) {
            Hook0Decision::Failed { error, notice } => {
                assert_eq!(error.message(), "The webhook service refused the event");
                assert_eq!(notice, None);
            }
            other => panic!("unexpected {:?}", other),
        }
    }
    assert_eq!(attempts.attempts, 0);
    assert_eq!(sink.unknown_event_types.recorded("t"), None);
    // Failures of the service and rate limits are tried again, then given up.
    let mut delays = Vec::new();
    let last = loop {
        let outcome = if delays.len() % 2 == 0 { body("RateLimitExceeded") } else { body("InternalServerError") };
        match sink.on_outcome(&mut attempts, "t", outcome, 0) {
            Hook0Decision::Retry { delay_millis } => delays.push(delay_millis),
            other => break other,
        }
    };
    assert_eq!(delays, vec![1000, 2000, 4000, 8000]);
    match last {
        Hook0Decision::Failed { error, notice } => {
            assert!(matches!(error, ReplicationError::Sink { .. }));
            assert_eq!(notice, Some(Notice::RetriesExhausted));
        }
        other => panic!("unexpected {:?}", other),
    }
}

#[test]
fn failures_on_the_way_are_passed_over_or_reported() {
    let mut sink = Hook0Sink::new();
    let mut attempts = RetryState::new();
    let mut retries = 0;
    let last = loop {
        match sink.on_outcome(&mut attempts, "t", Hook0Outcome::TransportError, 0) {
            Hook0Decision::Retry { .. } => retries += 1,
            other => break other,
        }
    };
    assert_eq!(retries, 4);
    match last {
        Hook0Decision::Skipped { notice } => assert_eq!(notice, Some(Notice::RetriesExhausted)),
        other => panic!("unexpected {:?}", other),
    }
    let mut strict = Hook0Sink::new();
    strict.continue_on_transport_failure = false;
    let mut attempts = RetryState { attempts: 4 };
    match strict.on_outcome(&mut attempts, "t", Hook0Outcome::TransportError, 0) {
        Hook0Decision::Failed { notice, .. } => assert_eq!(notice, Some(Notice::RetriesExhausted)),
        other => panic!("unexpected {:?}", other),
    }
    // A body that cannot be read counts as a failure of the service.
    let mut attempts = RetryState::new();
    match strict.on_outcome(&mut attempts, "t", Hook0Outcome::Rejected { body: None }, 0) {
        Hook0Decision::Retry { delay_millis } => assert_eq!(delay_millis, 1000),
        other => panic!("unexpected {:?}", other),
    }
}

#[test]
fn base_sink_counts() {
    let config = SinkConfig {
        sink_type: "http".to_string(),
        parameters: vec![("url".to_string(), "http://x".to_string())],
        enabled: true,
        retry_config: RetryConfig::default(),
    };
    let mut sink = BaseEventSink::new(config);
    assert_eq!(*sink.get_metrics(), SinkMetrics::default());
    assert!(!sink.is_initialized());
    sink.set_initialized(true);
    assert!(sink.is_initialized());
    assert_eq!(sink.config().sink_type, "http");
    assert!(sink.should_retry());
    assert_eq!(sink.get_retry_delay(), 1);
    sink.increment_retry();
    assert_eq!(sink.get_retry_delay(), 2);
    sink.increment_retry();
    sink.increment_retry();
    assert!(!sink.should_retry());
    assert_eq!(sink.get_retry_delay(), 8);
    sink.record_failure(50);
    sink.record_success(120, 60);
    sink.record_success(30, 61);
    let m = sink.get_metrics();
    assert_eq!(m.events_sent, 2);
    assert_eq!(m.events_failed, 1);
    assert_eq!(m.bytes_sent, 150);
    assert_eq!(m.last_success_time, Some(61));
    assert_eq!(m.last_error_time, Some(50));
    assert_eq!(m.current_retry_count, 0);
}

fn member<'a>(v: &'a JsonValue, name: &str) -> &'a JsonValue {
    match v {
        JsonValue::Object(members) => {
            let found: Vec<&JsonValue> =
                members.iter().filter(|(k, _)| k == name).map(|(_, v)| v).collect();
            assert_eq!(found.len(), 1, "member {}", name);
            found[0]
        }
        other => panic!("not an object: {:?}", other),
    }
}

fn keys(v: &JsonValue) -> Vec<&str> {
    match v {
        JsonValue::Object(members) => members.iter().map(|(k, _)| k.as_str()).collect(),
        other => panic!("not an object: {:?}", other),
    }
}

fn as_text(v: &JsonValue) -> &str {
    match v {
        JsonValue::String(s) => s.as_str(),
        other => panic!("not a string: {:?}", other),
    }
}

fn as_number(v: &JsonValue) -> i128 {
    match v {
        JsonValue::Number(n) => *n,
        other => panic!("not a number: {:?}", other),
    }
}

#[test]
fn http_payload_keeps_kind_length_and_text_of_every_cell() {
    let insert = ReplicationMessage::Insert {
        relation_id: 20001,
        tuple_data: TupleData {
            column_count: 3,
            columns: vec![
                text("x"),
                ColumnData { data_type: 'u', length: 0, data: String::new() },
                ColumnData { data_type: 'n', length: 0, data: String::new() },
            ],
            processed_length: 9,
        },
        is_stream: false,
        xid: None,
    };
    let v = payload(&insert);
    assert_eq!(keys(&v), vec!["type", "relation_id", "tuple_data", "is_stream", "xid"]);
    assert_eq!(as_text(member(&v, "type")), "insert");
    assert_eq!(as_number(member(&v, "relation_id")), 20001);
    assert!(matches!(member(&v, "is_stream"), JsonValue::Bool(false)));
    assert!(matches!(member(&v, "xid"), JsonValue::Null));
    let tuple = member(&v, "tuple_data");
    assert_eq!(keys(tuple), vec!["column_count", "columns", "processed_length"]);
    assert_eq!(as_number(member(tuple, "column_count")), 3);
    assert_eq!(as_number(member(tuple, "processed_length")), 9);
    match member(tuple, "columns") {
        JsonValue::Array(cells) => {
            let kinds: Vec<&str> = cells.iter().map(|c| as_text(member(c, "data_type"))).collect();
            assert_eq!(kinds, vec!["t", "u", "n"]);
            assert_eq!(as_text(member(&cells[0], "data")), "x");
            assert_eq!(as_number(member(&cells[0], "length")), 1);
            assert_eq!(as_text(member(&cells[1], "data")), "");
        }
        other => panic!("unexpected {:?}", other),
    }
}

#[test]
fn http_payload_of_every_kind() {
    let tuple = || TupleData { column_count: 1, columns: vec![text("7")], processed_length: 8 };
    let update = ReplicationMessage::Update {
        relation_id: 5,
        key_type: Some('K'),
        old_tuple_data: Some(tuple()),
        new_tuple_data: tuple(),
        is_stream: true,
        xid: Some(1337),
    };
    let v = payload(&update);
    assert_eq!(
        keys(&v),
        vec!["type", "relation_id", "key_type", "old_tuple_data", "new_tuple_data", "is_stream", "xid"]
    );
    assert_eq!(as_text(member(&v, "key_type")), "K");
    assert_eq!(as_number(member(&v, "xid")), 1337);
    assert_eq!(keys(member(&v, "old_tuple_data")), vec!["column_count", "columns", "processed_length"]);
    let plain = ReplicationMessage::Update {
        relation_id: 5,
        key_type: None,
        old_tuple_data: None,
        new_tuple_data: tuple(),
        is_stream: false,
        xid: None,
    };
    let v = payload(&plain);
    assert!(matches!(member(&v, "key_type"), JsonValue::Null));
    assert!(matches!(member(&v, "old_tuple_data"), JsonValue::Null));
    let delete = ReplicationMessage::Delete {
        relation_id: 5,
        key_type: 'O',
        tuple_data: tuple(),
        is_stream: false,
        xid: None,
    };
    assert_eq!(as_text(member(&payload(&delete), "key_type")), "O");
    let truncate = ReplicationMessage::Truncate {
        relation_ids: vec![1, 2],
        flags: -1,
        is_stream: false,
        xid: None,
    };
    let v = payload(&truncate);
    assert_eq!(as_number(member(&v, "flags")), -1);
    match member(&v, "relation_ids") {
        JsonValue::Array(ids) => assert_eq!(ids.iter().map(as_number).collect::<Vec<_>>(), vec![1, 2]),
        other => panic!("unexpected {:?}", other),
    }
    let v = payload(&events_relation());
    assert_eq!(keys(&v), vec!["type", "relation"]);
    let relation = member(&v, "relation");
    assert_eq!(as_text(member(relation, "relation_name")), "events");
    assert_eq!(as_text(member(relation, "replica_identity")), "d");
    match member(relation, "columns") {
        JsonValue::Array(columns) => {
            assert_eq!(columns.len(), 6);
            assert_eq!(keys(&columns[0]), vec!["key_flag", "column_name", "column_type", "atttypmod"]);
            assert_eq!(as_number(member(&columns[0], "column_type")), 2950);
        }
        other => panic!("unexpected {:?}", other),
    }
    let names: Vec<&str> = vec![
        payload_type(&ReplicationMessage::Begin { final_lsn: 1, timestamp: 2, xid: 3 }),
        payload_type(&ReplicationMessage::Commit { flags: 0, commit_lsn: 1, end_lsn: 2, timestamp: 3 }),
        payload_type(&events_relation()),
        payload_type(&update),
        payload_type(&delete),
        payload_type(&truncate),
        payload_type(&ReplicationMessage::StreamStart { xid: 1, first_segment: true }),
        payload_type(&ReplicationMessage::StreamStop),
        payload_type(&ReplicationMessage::StreamCommit { xid: 1, flags: 0, commit_lsn: 1, end_lsn: 2, timestamp: 3 }),
        payload_type(&ReplicationMessage::StreamAbort { xid: 1, subtransaction_xid: 2 }),
    ];
    assert_eq!(
        names,
        vec![
            "begin", "commit", "relation", "update", "delete", "truncate", "stream_start",
            "stream_stop", "stream_commit", "stream_abort"
        ]
    );
    assert_eq!(keys(&payload(&ReplicationMessage::StreamStop)), vec!["type"]);
    let begin = payload(&ReplicationMessage::Begin { final_lsn: 4096, timestamp: -2, xid: 1337 });
    assert_eq!(keys(&begin), vec!["type", "final_lsn", "timestamp", "xid"]);
    assert_eq!(as_number(member(&begin, "final_lsn")), 4096);
    assert_eq!(as_number(member(&begin, "timestamp")), -2);
    let abort = payload(&ReplicationMessage::StreamAbort { xid: 1, subtransaction_xid: 2 });
    assert_eq!(as_number(member(&abort, "subtransaction_xid")), 2);
}

#[test]
fn failed_attempts_are_counted_and_accepted_ones_are_not() {
    let mut d = HttpDelivery::new(RetryConfig::delivery());
    d.on_outcome(HttpOutcome::Status(200));
    assert_eq!(d.state.attempts, 0);
    d.on_outcome(HttpOutcome::Status(503));
    assert_eq!(d.state.attempts, 1);
    d.on_outcome(HttpOutcome::NetworkError);
    assert_eq!(d.state.attempts, 2);
    d.on_outcome(HttpOutcome::Status(404));
    assert_eq!(d.state.attempts, 3);
    d.on_outcome(HttpOutcome::Status(204));
    assert_eq!(d.state.attempts, 3);
    let mut full = HttpDelivery { config: RetryConfig::delivery(), state: RetryState { attempts: u32::MAX } };
    full.on_outcome(HttpOutcome::Status(500));
    assert_eq!(full.state.attempts, u32::MAX);

    let body = |id: &str| Hook0Outcome::Rejected { body: Some(format!("{{\"id\":\"{}\"}}", id)) };
    let mut sink = Hook0Sink::new();
    let mut attempts = RetryState::new();
    for id in ["EventTypeDoesNotExist", "EventAlreadyIngested", "Unauthorized", "InvalidEventId", "InvalidPayload"] {
        sink.on_outcome(&mut attempts, "t", body(id), 0);
        assert_eq!(attempts.attempts, 0, "{}", id);
    }
    sink.on_outcome(&mut attempts, "t", Hook0Outcome::Accepted, 0);
    assert_eq!(attempts.attempts, 0);
    sink.on_outcome(&mut attempts, "t", body("RateLimitExceeded"), 0);
    assert_eq!(attempts.attempts, 1);
    sink.on_outcome(&mut attempts, "t", body("InternalServerError"), 0);
    assert_eq!(attempts.attempts, 2);
    sink.on_outcome(&mut attempts, "t", Hook0Outcome::TransportError, 0);
    assert_eq!(attempts.attempts, 3);
    sink.on_outcome(&mut attempts, "t", body("SomethingNew"), 0);
    assert_eq!(attempts.attempts, 4);
}
