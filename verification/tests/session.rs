use walpipe::config::ReplicationConfig;
use walpipe::errors::ReplicationError;
use walpipe::protocol::frames::StandbyStatusUpdateMessage;
use walpipe::protocol::messages::ReplicationMessage;
use walpipe::replication::session::Observation;
use walpipe::replication::session::QueryOutcome;
use walpipe::replication::session::QueryStatus;
use walpipe::replication::session::ReplicationSession;
use walpipe::replication::session::SessionAction;
use walpipe::replication::session::SessionEvent;
use walpipe::replication::session::SessionPhase;
use walpipe::replication::session::SessionStage;

fn hex(s: &str) -> Vec<u8> {
    let digits: Vec<u8> = s
        .bytes()
        .filter(|b| b.is_ascii_hexdigit())
        .map(|b| match b {
            b'0'..=b'9' => b - b'0',
            b'a'..=b'f' => b - b'a' + 10,
            _ => b - b'A' + 10,
        })
        .collect();
    assert_eq!(digits.len() % 2, 0);
    digits.chunks(2).map(|p| p[0] * 16 + p[1]).collect()
}

fn quiet() -> Observation {
    Observation { shutdown_requested: false, clock_nanos: 0, now: 777 }
}

fn shutdown() -> Observation {
    Observation { shutdown_requested: true, clock_nanos: 0, now: 888 }
}

fn rows(n: i32, value: Option<&str>) -> Result<QueryOutcome, ReplicationError> {
    Ok(QueryOutcome { status: QueryStatus::TuplesOk, rows: n, value: value.map(str::to_string) })
}

fn sql(action: SessionAction) -> String {
    match action {
        SessionAction::Execute { sql } => sql,
        other => panic!("not a query: {:?}", other),
    }
}

fn failure(action: SessionAction) -> ReplicationError {
    match action {
        SessionAction::Fail { error } => error,
        other => panic!("not a failure: {:?}", other),
    }
}

fn feedback(action: SessionAction) -> (StandbyStatusUpdateMessage, bool) {
    match action {
        SessionAction::SendFeedback { frame, flush } => {
            assert_eq!(frame.len(), 34);
            (StandbyStatusUpdateMessage::parse(&frame).unwrap(), flush)
        }
        other => panic!("not feedback: {:?}", other),
    }
}

fn delivered(action: SessionAction) -> ReplicationMessage {
    match action {
        SessionAction::Deliver { message } => message,
        other => panic!("not a delivery: {:?}", other),
    }
}

fn new_session() -> ReplicationSession {
    ReplicationSession::new("host=db".to_string(), "sub".to_string(), "pub".to_string(), 1)
}

fn streaming_session() -> ReplicationSession {
    let mut s = new_session();
    assert!(matches!(s.start(), SessionAction::Connect { .. }));
    s.on_connected(Ok(()));
    s.on_query(quiet(), rows(1, Some("7000000000000000001")));
    s.on_query(quiet(), rows(1, Some("logical")));
    s.on_query(quiet(), rows(1, Some("sub")));
    s.on_query(quiet(), rows(1, Some("pub")));
    let action = s.on_query(
        quiet(),
        Ok(QueryOutcome { status: QueryStatus::CopyBoth, rows: 0, value: None }),
    );
    assert!(matches!(action, SessionAction::Receive));
    assert_eq!(s.stage(), SessionStage::Receiving);
    s
}

fn wal_frame(data_start: u64, payload: &str) -> Vec<u8> {
    let mut frame = vec![b'w'];
    frame.extend_from_slice(&data_start.to_be_bytes());
    frame.extend_from_slice(&0x2000u64.to_be_bytes());
    frame.extend_from_slice(&0i64.to_be_bytes());
    frame.extend_from_slice(&hex(payload));
    frame
}

const RELATION: &str = "52 00004E21 7075626C696300 745F6E65775F7400 64 0002 \
     01 696400 00000017 FFFFFFFF 00 6E616D6500 00000019 FFFFFFFF";

#[test]
fn handshake_walks_through_the_phases() {
    let mut s = new_session();
    assert_eq!(s.phase(), SessionPhase::New);
    match s.start() {
        SessionAction::Connect { connection_string } => assert_eq!(connection_string, "host=db"),
        other => panic!("unexpected {:?}", other),
    }
    assert_eq!(s.phase(), SessionPhase::New);
    assert_eq!(sql(s.on_connected(Ok(()))), "IDENTIFY_SYSTEM");
    assert_eq!(s.phase(), SessionPhase::Connected);
    assert_eq!(sql(s.on_query(quiet(), rows(1, Some("id")))), "SHOW wal_level;");
    assert_eq!(s.phase(), SessionPhase::Identified);
    assert_eq!(
        sql(s.on_query(quiet(), rows(1, Some("logical")))),
        "SELECT slot_name FROM pg_replication_slots WHERE slot_name = 'sub';"
    );
    assert_eq!(s.phase(), SessionPhase::Identified);
    assert_eq!(
        sql(s.on_query(quiet(), rows(1, Some("sub")))),
        "SELECT * FROM pg_publication WHERE pubname = 'pub';"
    );
    assert_eq!(s.phase(), SessionPhase::Identified);
    assert_eq!(
        sql(s.on_query(quiet(), rows(1, Some("pub")))),
        "START_REPLICATION SLOT \"sub\" LOGICAL 0/0 (proto_version '2', streaming 'on', publication_names 'pub');"
    );
    assert_eq!(s.phase(), SessionPhase::Validated);
    let action = s.on_query(
        quiet(),
        Ok(QueryOutcome { status: QueryStatus::CopyBoth, rows: 0, value: None }),
    );
    assert!(matches!(action, SessionAction::Receive));
    assert_eq!(s.phase(), SessionPhase::Streaming);
}

#[test]
fn a_failed_connection_fails_the_session() {
    let mut s = new_session();
    s.start();
    let e = failure(s.on_connected(Err(ReplicationError::connection("refused"))));
    assert!(matches!(e, ReplicationError::Connection { .. }));
    assert_eq!(e.message(), "refused");
    assert_eq!(s.phase(), SessionPhase::Failed);
    let e = failure(s.on_slept(quiet()));
    assert_eq!(e.message(), "Unexpected event for the stage of the session");
}

#[test]
fn validation_failures_tell_the_operator_what_to_run() {
    let mut s = new_session();
    s.start();
    s.on_connected(Ok(()));
    s.on_query(quiet(), rows(1, None));
    s.on_query(quiet(), rows(1, Some("logical")));
    let e = failure(s.on_query(quiet(), rows(0, None)));
    assert_eq!(
        e.message(),
        "Replication slot 'sub' does not exist. Please create it manually using the following SQL command:\n\nCREATE_REPLICATION_SLOT \"sub\" LOGICAL pgoutput NOEXPORT_SNAPSHOT;\n"
    );
    assert_eq!(s.phase(), SessionPhase::Failed);

    let mut s = new_session();
    s.start();
    s.on_connected(Ok(()));
    s.on_query(quiet(), rows(1, None));
    s.on_query(quiet(), rows(1, Some("logical")));
    s.on_query(quiet(), rows(1, None));
    let e = failure(s.on_query(quiet(), rows(0, None)));
    assert_eq!(
        e.message(),
        "Publication 'pub' does not exist. Please create it manually using the following SQL command:\n\nCREATE PUBLICATION \"pub\" FOR TABLE <your_table_name>;\n\nor\n\nCREATE PUBLICATION \"pub\" FOR ALL TABLES;\n\ndepending on your configuration."
    );

    let mut s = new_session();
    s.start();
    s.on_connected(Ok(()));
    s.on_query(quiet(), rows(1, None));
    let e = failure(s.on_query(quiet(), rows(1, Some("replica"))));
    assert!(e.message().starts_with("wal_level is not set to 'logical'"));

    let mut s = new_session();
    s.start();
    s.on_connected(Ok(()));
    s.on_query(quiet(), rows(1, None));
    let e = failure(s.on_query(quiet(), rows(1, None)));
    assert_eq!(e.message(), "Could not retrieve wal_level value");

    let mut s = new_session();
    s.start();
    s.on_connected(Ok(()));
    let e = failure(s.on_query(quiet(), rows(0, None)));
    assert!(e.message().starts_with("IDENTIFY_SYSTEM failed"));

    let mut s = new_session();
    s.start();
    s.on_connected(Ok(()));
    let e = failure(s.on_query(quiet(), Err(ReplicationError::protocol("no"))));
    match e {
        ReplicationError::Protocol { message, context } => {
            assert_eq!(message, "IDENTIFY_SYSTEM failed");
            assert_eq!(context.as_deref(), Some("no"));
        }
        other => panic!("unexpected {:?}", other),
    }
}

#[test]
fn replication_must_start_in_copy_both() {
    let mut s = new_session();
    s.start();
    s.on_connected(Ok(()));
    s.on_query(quiet(), rows(1, None));
    s.on_query(quiet(), rows(1, Some("logical")));
    s.on_query(quiet(), rows(1, None));
    s.on_query(quiet(), rows(1, None));
    let e = failure(s.on_query(quiet(), rows(0, None)));
    assert_eq!(e.message(), "Failed to start replication");
}

#[test]
fn keepalive_with_reply_request_is_answered_once() {
    let mut s = streaming_session();
    let frame = hex("6B 00000000 00C0FFEE 00000000 00000000 01");
    let (m, flush) = feedback(s.on_data(quiet(), Ok(Some(frame))));
    assert!(flush);
    assert_eq!(m.message_type, 'r');
    assert_eq!(m.last_lsn, 0);
    assert_eq!(m.flush_lsn, 0);
    assert_eq!(m.apply_lsn, 0);
    assert_eq!(m.send_time, 777);
    assert_eq!(m.reply_requested, 0);
    assert_eq!(s.received_lsn(), 0);
    assert_eq!(s.applied_lsn(), 0);
    assert_eq!(s.stage(), SessionStage::SendingFeedback);
    // Feedback is out: the loop goes on with the next receive, though the
    // interval has passed again.
    let due = Observation { shutdown_requested: false, clock_nanos: u128::MAX, now: 778 };
    assert!(matches!(s.on_feedback_sent(due, Ok(())), SessionAction::Receive));
    assert_eq!(s.phase(), SessionPhase::Streaming);
}

#[test]
fn keepalive_without_reply_request_goes_on() {
    let mut s = streaming_session();
    let frame = hex("6B 00000000 00C0FFEE 00000000 00000000 00");
    assert!(matches!(s.on_data(quiet(), Ok(Some(frame))), SessionAction::Receive));
    assert_eq!(s.received_lsn(), 0);
    let e = failure(s.on_data(quiet(), Ok(Some(hex("6B 00")))));
    assert_eq!(e.message(), "Keepalive message too short");
    assert_eq!(s.phase(), SessionPhase::Failed);
}

#[test]
fn begin_relation_insert_commit_are_delivered_in_order() {
    let mut s = streaming_session();
    let frames = vec![
        wal_frame(0x1000, "42 0000000000001000 0002D6C8A5E00000 00000539"),
        wal_frame(0x1010, RELATION),
        wal_frame(0x1020, "49 00004E21 4E 0002 74 00000001 37 74 00000005 416C696365"),
        wal_frame(0x1040, "43 00 0000000000001000 0000000000001040 0002D6C8A5E00000"),
    ];
    let mut kinds = Vec::new();
    for (i, frame) in frames.into_iter().enumerate() {
        let message = delivered(s.on_data(quiet(), Ok(Some(frame))));
        assert_eq!(s.phase(), SessionPhase::Streaming);
        match &message {
            ReplicationMessage::Begin { xid, .. } => assert_eq!(*xid, 1337),
            ReplicationMessage::Relation { relation } => assert_eq!(relation.oid, 20001),
            ReplicationMessage::Insert { relation_id, tuple_data, .. } => {
                assert_eq!(*relation_id, 20001);
                assert_eq!(tuple_data.columns[0].data, "7");
                assert_eq!(tuple_data.columns[1].data, "Alice");
            }
            ReplicationMessage::Commit { end_lsn, .. } => assert_eq!(*end_lsn, 0x1040),
            other => panic!("unexpected {:?}", other),
        }
        kinds.push(message.message_type());
        // Nothing is applied before the sink has answered.
        assert!(s.applied_lsn() < s.received_lsn());
        assert!(matches!(s.on_delivered(quiet(), Ok(())), SessionAction::Receive));
        assert_eq!(s.applied_lsn(), s.received_lsn());
        assert_eq!(s.received_lsn(), [0x1000, 0x1010, 0x1020, 0x1040][i]);
    }
    assert_eq!(kinds, vec!["Begin", "Relation", "Insert", "Commit"]);
    assert_eq!(s.applied_lsn(), 0x1040);
    assert!(s.state().get_relation(20001).is_some());
    // The next feedback carries the applied position.
    assert!(matches!(s.on_data(quiet(), Ok(None)), SessionAction::Sleep { millis: 10 }));
    let due = Observation {
        shutdown_requested: false,
        clock_nanos: 1_000_000_000,
        now: 4242,
    };
    let (m, flush) = feedback(s.on_slept(due));
    assert!(!flush);
    assert_eq!(m.apply_lsn, 0x1040);
    assert_eq!(m.last_lsn, 0x1040);
    assert_eq!(m.flush_lsn, 0x1040);
    assert_eq!(m.send_time, 4242);
    assert!(matches!(s.on_feedback_sent(quiet(), Ok(())), SessionAction::Receive));
}

#[test]
fn a_refused_event_fails_the_session_and_is_not_applied() {
    let mut s = streaming_session();
    delivered(s.on_data(quiet(), Ok(Some(wal_frame(0x1000, "45")))));
    let e = failure(s.on_delivered(quiet(), Err(ReplicationError::sink("down", "http"))));
    assert!(matches!(e, ReplicationError::Sink { .. }));
    assert_eq!(s.phase(), SessionPhase::Failed);
    assert_eq!(s.received_lsn(), 0x1000);
    assert_eq!(s.applied_lsn(), 0);
}

#[test]
fn an_undecodable_record_fails_the_session() {
    let mut s = streaming_session();
    let e = failure(s.on_data(quiet(), Ok(Some(wal_frame(0x1000, "5A")))));
    assert_eq!(e.message(), "Unknown message type");
    assert_eq!(s.phase(), SessionPhase::Failed);

    let mut s = streaming_session();
    let e = failure(s.on_data(quiet(), Ok(Some(wal_frame(0x1000, "")))));
    assert_eq!(e.message(), "WAL message has no data");

    let mut s = streaming_session();
    let e = failure(s.on_data(quiet(), Ok(Some(vec![b'w', 0, 0]))));
    assert_eq!(e.message(), "WAL message too short");

    let mut s = streaming_session();
    let insert = wal_frame(0x1000, "49 00004E21 4E 0002 6E 6E");
    let e = failure(s.on_data(quiet(), Ok(Some(insert))));
    assert_eq!(e.message(), "Unknown relation ID in INSERT");
}

#[test]
fn a_frame_at_position_zero_raises_nothing() {
    let mut s = streaming_session();
    delivered(s.on_data(quiet(), Ok(Some(wal_frame(0x500, "45")))));
    s.on_delivered(quiet(), Ok(()));
    delivered(s.on_data(quiet(), Ok(Some(wal_frame(0, "45")))));
    assert_eq!(s.received_lsn(), 0x500);
    s.on_delivered(quiet(), Ok(()));
    delivered(s.on_data(quiet(), Ok(Some(wal_frame(0x400, "45")))));
    assert_eq!(s.received_lsn(), 0x500);
    s.on_delivered(quiet(), Ok(()));
    assert_eq!(s.applied_lsn(), 0x500);
}

#[test]
fn empty_and_unknown_chunks_are_passed_over() {
    let mut s = streaming_session();
    assert!(matches!(s.on_data(quiet(), Ok(Some(vec![]))), SessionAction::Receive));
    assert!(matches!(s.on_data(quiet(), Ok(Some(vec![b'x', 1, 2]))), SessionAction::Receive));
    assert!(matches!(s.on_data(quiet(), Ok(None)), SessionAction::Sleep { millis: 10 }));
    assert_eq!(s.stage(), SessionStage::Sleeping);
    assert!(matches!(s.on_slept(quiet()), SessionAction::Receive));
    let e = failure(s.on_data(quiet(), Err(ReplicationError::connection("lost"))));
    assert_eq!(e.message(), "lost");
}

#[test]
fn shutdown_at_the_top_of_the_loop_drains_and_closes() {
    let mut s = streaming_session();
    delivered(s.on_data(quiet(), Ok(Some(wal_frame(0x1000, "45")))));
    s.on_delivered(quiet(), Ok(()));
    s.on_data(quiet(), Ok(None));
    let (m, flush) = feedback(s.on_slept(shutdown()));
    assert!(flush);
    assert_eq!(m.apply_lsn, 0x1000);
    assert_eq!(m.last_lsn, 0x1000);
    assert_eq!(m.send_time, 888);
    assert_eq!(s.phase(), SessionPhase::Draining);
    assert!(matches!(s.on_feedback_sent(quiet(), Ok(())), SessionAction::Close));
    assert_eq!(s.phase(), SessionPhase::Closed);
    assert!(matches!(s.on_slept(quiet()), SessionAction::Close));
    assert_eq!(s.phase(), SessionPhase::Closed);
}

#[test]
fn shutdown_right_after_a_delivery_drains() {
    let mut s = streaming_session();
    delivered(s.on_data(quiet(), Ok(Some(wal_frame(0x2000, "45")))));
    let (m, flush) = feedback(s.on_delivered(shutdown(), Ok(())));
    assert!(flush);
    assert_eq!(m.apply_lsn, 0x2000);
    assert_eq!(s.phase(), SessionPhase::Draining);
    // A final feedback that could not be sent does not keep the session
    // from closing.
    let action = s.on_feedback_sent(quiet(), Err(ReplicationError::protocol("flush failed")));
    assert!(matches!(action, SessionAction::Close));
    assert_eq!(s.phase(), SessionPhase::Closed);
}

#[test]
fn failed_feedback_in_the_loop_fails_the_session() {
    let mut s = streaming_session();
    let frame = hex("6B 00000000 00C0FFEE 00000000 00000000 01");
    feedback(s.on_data(quiet(), Ok(Some(frame))));
    let e = failure(s.on_feedback_sent(quiet(), Err(ReplicationError::protocol("broken pipe"))));
    assert_eq!(e.message(), "broken pipe");
    assert_eq!(s.phase(), SessionPhase::Failed);
}

#[test]
fn step_takes_any_event() {
    let mut s = new_session();
    assert!(matches!(s.step(quiet(), SessionEvent::Start), SessionAction::Connect { .. }));
    assert!(matches!(
        s.step(quiet(), SessionEvent::Connected(Ok(()))),
        SessionAction::Execute { .. }
    ));
    let e = failure(s.step(quiet(), SessionEvent::Delivered(Ok(()))));
    assert_eq!(e.message(), "Unexpected event for the stage of the session");
    let o = s.observe(true, 5);
    assert!(o.shutdown_requested);
    assert_eq!(o.now, 5);
}

#[test]
fn a_session_is_made_from_a_configuration() {
    let config = ReplicationConfig::new(
        "postgresql://test@localhost/test".to_string(),
        "my_pub".to_string(),
        "my_slot".to_string(),
        None,
        None,
        None,
        None,
        None,
    )
    .unwrap();
    let mut s = ReplicationSession::from_config(&config).with_max_text_length(4);
    match s.start() {
        SessionAction::Connect { connection_string } => {
            assert_eq!(connection_string, "postgresql://test@localhost/test")
        }
        other => panic!("unexpected {:?}", other),
    }
    s.on_connected(Ok(()));
    s.on_query(quiet(), rows(1, None));
    let slot_query = sql(s.on_query(quiet(), rows(1, Some("logical"))));
    assert!(slot_query.contains("'my_slot'"));
    let publication_query = sql(s.on_query(quiet(), rows(1, None)));
    assert!(publication_query.contains("'my_pub'"));
    s.on_query(quiet(), rows(1, None));
    s.on_query(quiet(), Ok(QueryOutcome { status: QueryStatus::CopyBoth, rows: 0, value: None }));
    delivered(s.on_data(quiet(), Ok(Some(wal_frame(0x10, RELATION)))));
    s.on_delivered(quiet(), Ok(()));
    let long = wal_frame(0x20, "49 00004E21 4E 0002 74 00000001 37 74 00000005 416C696365");
    let e = failure(s.on_data(quiet(), Ok(Some(long))));
    assert_eq!(e.message(), "Length exceeds the configured limit");
}

#[test]
fn due_feedback_is_marked_as_sent() {
    let mut s = streaming_session();
    let at = |clock_nanos: u128| Observation { shutdown_requested: false, clock_nanos, now: 1 };
    assert_eq!(s.state().last_feedback_time, 0);
    s.on_data(at(0), Ok(None));
    // Not yet a second: nothing is sent, nothing is marked.
    assert!(matches!(s.on_slept(at(999_999_999)), SessionAction::Receive));
    assert_eq!(s.state().last_feedback_time, 0);
    s.on_data(at(0), Ok(None));
    // A second has passed: feedback goes out and is marked at the reading.
    let (_, flush) = feedback(s.on_slept(at(1_000_000_000)));
    assert!(!flush);
    assert_eq!(s.state().last_feedback_time, 1_000_000_000);
    assert!(matches!(s.on_feedback_sent(at(1_000_000_001), Ok(())), SessionAction::Receive));
    // Half a second later it is not due again.
    s.on_data(at(0), Ok(None));
    assert!(matches!(s.on_slept(at(1_500_000_000)), SessionAction::Receive));
    assert_eq!(s.state().last_feedback_time, 1_000_000_000);
    // A clock that seems to have run backwards makes nothing due.
    s.on_data(at(0), Ok(None));
    assert!(matches!(s.on_slept(at(5)), SessionAction::Receive));
    // One second after the mark it is due again.
    s.on_data(at(0), Ok(None));
    feedback(s.on_slept(at(2_000_000_000)));
    assert_eq!(s.state().last_feedback_time, 2_000_000_000);
}

#[test]
fn requested_and_final_feedback_leave_the_mark() {
    let mut s = streaming_session();
    let at = |clock_nanos: u128| Observation { shutdown_requested: false, clock_nanos, now: 1 };
    let frame = hex("6B 00000000 00C0FFEE 00000000 00000000 01");
    feedback(s.on_data(at(700), Ok(Some(frame))));
    assert_eq!(s.state().last_feedback_time, 0);
    s.on_feedback_sent(at(800), Ok(()));
    s.on_data(at(900), Ok(None));
    let stop = Observation { shutdown_requested: true, clock_nanos: 5_000_000_000, now: 1 };
    feedback(s.on_slept(stop));
    assert_eq!(s.state().last_feedback_time, 0);
}
