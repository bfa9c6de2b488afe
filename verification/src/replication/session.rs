//! The rules of a replication session, as a state machine.
//!
//! The session decides and the caller acts: every call hands the session the
//! outcome of the action it asked for last, and gets the next action back.
//! The session never touches the driver or a sink itself, so the whole life
//! of a session (handshake, receive loop, acknowledgement, shutdown) is a
//! function from state and event to state and action.

use vstd::prelude::*;
use vstd::string::StringExecFns;
use crate::config::ReplicationConfig;
use crate::errors::protocol_error;
use crate::errors::ErrorView;
use crate::errors::ReplicationError;
use crate::protocol::buffer::DEFAULT_MAX_STRING_LENGTH;
use crate::protocol::frames::spec_parse_keepalive;
use crate::protocol::frames::spec_parse_standby_status_update;
use crate::protocol::frames::spec_parse_xlog_data;
use crate::protocol::frames::KeepaliveMessage;
use crate::protocol::frames::StandbyStatusUpdateMessage;
use crate::protocol::frames::XLogDataMessage;
use crate::protocol::frames::TAG_KEEPALIVE;
use crate::protocol::frames::TAG_XLOG_DATA;
use crate::protocol::messages::MessageView;
use crate::protocol::messages::ReplicationMessage;
use crate::protocol::parser::spec_decode;
use crate::protocol::parser::MessageParser;
use crate::replication::state::raised;
use crate::replication::state::spec_elapsed;
use crate::replication::state::spec_feedback_due;
use crate::replication::state::feedback_due;
use crate::replication::state::ReplicationState;
use crate::replication::state::StateView;

verus! {

/// How long the caller sleeps when the driver has nothing to hand over.
pub const IDLE_SLEEP_MILLIS: u64 = 10;

/// The phases of a session.
#[derive(Debug, Clone, Copy, PartialEq, Eq, Structural)]
pub enum SessionPhase {
    New,
    Connected,
    Identified,
    Validated,
    Streaming,
    Draining,
    Closed,
    Failed,
}

/// Where a session stands: its phase, and within the phase the outcome it
/// waits for.
#[derive(Debug, Clone, Copy, PartialEq, Eq, Structural)]
pub enum SessionStage {
    /// Nothing was asked yet.
    New,
    /// The connection was asked for.
    Connecting,
    /// The system's identity was asked for.
    Identifying,
    /// The WAL level was asked for.
    CheckingWalLevel,
    /// The slot was looked up.
    CheckingSlot,
    /// The publication was looked up.
    CheckingPublication,
    /// The start of replication was asked for.
    Starting,
    /// A chunk was asked for.
    Receiving,
    /// An idle sleep was asked for.
    Sleeping,
    /// Feedback was handed over for sending.
    SendingFeedback,
    /// A message was handed over for delivery; `position` is where its frame
    /// began.
    Delivering { position: u64 },
    /// The final feedback was handed over for sending.
    Draining,
    /// The session ended cleanly.
    Closed,
    /// The session ended on an error.
    Failed,
}

impl SessionStage {
    /// The phase that the stage belongs to.
    pub open spec fn phase(self) -> SessionPhase {
        match self {
            SessionStage::New | SessionStage::Connecting => SessionPhase::New,
            SessionStage::Identifying => SessionPhase::Connected,
            SessionStage::CheckingWalLevel
            | SessionStage::CheckingSlot
            | SessionStage::CheckingPublication => SessionPhase::Identified,
            SessionStage::Starting => SessionPhase::Validated,
            SessionStage::Receiving
            | SessionStage::Sleeping
            | SessionStage::SendingFeedback
            | SessionStage::Delivering { .. } => SessionPhase::Streaming,
            SessionStage::Draining => SessionPhase::Draining,
            SessionStage::Closed => SessionPhase::Closed,
            SessionStage::Failed => SessionPhase::Failed,
        }
    }
}

/// How the server answered a query.
#[derive(Debug, Clone, Copy, PartialEq, Eq, Structural)]
pub enum QueryStatus {
    /// Rows came back.
    TuplesOk,
    /// The command completed without rows.
    CommandOk,
    /// The connection switched to bidirectional copy.
    CopyBoth,
    /// Anything else.
    Other,
}

/// What a query gave: its status, the number of rows, and the first value of
/// the first row where there is one.
#[derive(Debug, Clone)]
pub struct QueryOutcome {
    pub status: QueryStatus,
    pub rows: i32,
    pub value: Option<String>,
}

/// Mathematical content of a `QueryOutcome`.
pub struct QueryOutcomeView {
    pub status: QueryStatus,
    pub rows: i32,
    pub value: Option<Seq<char>>,
}

impl View for QueryOutcome {
    type V = QueryOutcomeView;

    open spec fn view(&self) -> QueryOutcomeView {
        QueryOutcomeView {
            status: self.status,
            rows: self.rows,
            value: match self.value {
                Some(v) => Some(v@),
                None => None,
            },
        }
    }
}

impl QueryOutcomeView {
    /// Whether the query succeeded as a query or a command.
    pub open spec fn is_ok(self) -> bool {
        self.status == QueryStatus::TuplesOk || self.status == QueryStatus::CommandOk
    }
}

/// What the caller saw just before it called: whether shutdown was asked
/// for, what the session's clock read in nanoseconds, and the time of day as
/// microseconds since 2000-01-01.
#[derive(Debug, Clone, Copy)]
pub struct Observation {
    pub shutdown_requested: bool,
    pub clock_nanos: u128,
    pub now: i64,
}

/// What the session asks its caller to do next.
#[derive(Debug)]
pub enum SessionAction {
    /// Open the connection; answer with `on_connected`.
    Connect { connection_string: String },
    /// Run a query; answer with `on_query`.
    Execute { sql: String },
    /// Read one chunk of copy data; answer with `on_data`.
    Receive,
    /// Sleep; answer with `on_slept`.
    Sleep { millis: u64 },
    /// Send a frame, and flush if asked; answer with `on_feedback_sent`.
    SendFeedback { frame: Vec<u8>, flush: bool },
    /// Hand a message to the sink; answer with `on_delivered`.
    Deliver { message: ReplicationMessage },
    /// Close the connection: the session is over.
    Close,
    /// Give up: the session has failed.
    Fail { error: ReplicationError },
}

/// Mathematical content of a `SessionAction`.
pub enum ActionView {
    Connect { connection_string: Seq<char> },
    Execute { sql: Seq<char> },
    Receive,
    Sleep { millis: u64 },
    SendFeedback { frame: Seq<u8>, flush: bool },
    Deliver { message: MessageView },
    Close,
    Fail { error: ErrorView },
}

impl View for SessionAction {
    type V = ActionView;

    open spec fn view(&self) -> ActionView {
        match *self {
            SessionAction::Connect { connection_string } => ActionView::Connect {
                connection_string: connection_string@,
            },
            SessionAction::Execute { sql } => ActionView::Execute { sql: sql@ },
            SessionAction::Receive => ActionView::Receive,
            SessionAction::Sleep { millis } => ActionView::Sleep { millis },
            SessionAction::SendFeedback { frame, flush } => ActionView::SendFeedback {
                frame: frame@,
                flush,
            },
            SessionAction::Deliver { message } => ActionView::Deliver { message: message@ },
            SessionAction::Close => ActionView::Close,
            SessionAction::Fail { error } => ActionView::Fail { error: error@ },
        }
    }
}

/// Mathematical content of a session.
pub struct SessionView {
    pub stage: SessionStage,
    pub state: StateView,
    pub connection_string: Seq<char>,
    pub slot_name: Seq<char>,
    pub publication_name: Seq<char>,
    pub feedback_interval_secs: u64,
    pub max_text_length: nat,
}

impl SessionView {
    /// Nothing is applied that was not received, and a message in delivery
    /// began no further than what was received.
    pub open spec fn wf(self) -> bool {
        &&& self.state.wf()
        &&& (self.stage matches SessionStage::Delivering { position } ==> position
            <= self.state.received_lsn)
    }

    /// The same session at another stage.
    pub open spec fn at(self, stage: SessionStage) -> SessionView {
        SessionView { stage, ..self }
    }

    /// The same session with another state.
    pub open spec fn with_state(self, state: StateView) -> SessionView {
        SessionView { state, ..self }
    }
}

/// A session after a call, and the action it asks for.
pub struct Outcome {
    pub next: SessionView,
    pub action: ActionView,
}

/// The query that looks a slot up.
pub open spec fn spec_slot_query(slot: Seq<char>) -> Seq<char> {
    "SELECT slot_name FROM pg_replication_slots WHERE slot_name = '"@ + slot + "';"@
}

/// The query that looks a publication up.
pub open spec fn spec_publication_query(publication: Seq<char>) -> Seq<char> {
    "SELECT * FROM pg_publication WHERE pubname = '"@ + publication + "';"@
}

/// The command that starts logical replication from a slot, at protocol
/// version 2 with streaming of transactions in progress.
pub open spec fn spec_start_command(slot: Seq<char>, publication: Seq<char>) -> Seq<char> {
    "START_REPLICATION SLOT \""@ + slot
        + "\" LOGICAL 0/0 (proto_version '2', streaming 'on', publication_names '"@ + publication
        + "');"@
}

/// What the operator is told when the slot is missing, with the command that
/// creates it.
pub open spec fn spec_slot_missing(slot: Seq<char>) -> Seq<char> {
    "Replication slot '"@ + slot
        + "' does not exist. Please create it manually using the following SQL command:\n\nCREATE_REPLICATION_SLOT \""@
        + slot + "\" LOGICAL pgoutput NOEXPORT_SNAPSHOT;\n"@
}

/// What the operator is told when the publication is missing, with the
/// commands that create it.
pub open spec fn spec_publication_missing(publication: Seq<char>) -> Seq<char> {
    "Publication '"@ + publication
        + "' does not exist. Please create it manually using the following SQL command:\n\nCREATE PUBLICATION \""@
        + publication + "\" FOR TABLE <your_table_name>;\n\nor\n\nCREATE PUBLICATION \""@
        + publication + "\" FOR ALL TABLES;\n\ndepending on your configuration."@
}

/// The feedback frame that reports the state `state` at the time `now`.
pub open spec fn spec_feedback_frame(state: StateView, now: i64) -> Seq<u8> {
    StandbyStatusUpdateMessage::spec_feedback(
        state.received_lsn,
        state.applied_lsn,
        now,
    ).spec_bytes()
}

/// The session fails with `error`.
pub open spec fn fail(s: SessionView, error: ErrorView) -> Outcome {
    Outcome { next: s.at(SessionStage::Failed), action: ActionView::Fail { error } }
}

/// An outcome arrived that the session did not wait for. A closed session
/// stays closed; any other fails.
pub open spec fn unexpected(s: SessionView) -> Outcome {
    if s.stage == SessionStage::Closed {
        Outcome { next: s, action: ActionView::Close }
    } else {
        fail(s, protocol_error("Unexpected event for the stage of the session"@))
    }
}

/// The session starts to drain: it hands over the final feedback, to be
/// flushed.
pub open spec fn drain(s: SessionView, o: Observation) -> Outcome {
    Outcome {
        next: s.at(SessionStage::Draining),
        action: ActionView::SendFeedback { frame: spec_feedback_frame(s.state, o.now), flush: true },
    }
}

/// Whether feedback is due when the clock reads what `o` says: whether the
/// interval has passed since feedback was last marked as sent.
pub open spec fn spec_feedback_is_due(s: SessionView, o: Observation) -> bool {
    spec_feedback_due(
        spec_elapsed(o.clock_nanos, s.state.last_feedback_time),
        s.feedback_interval_secs,
    )
}

/// The top of the receive loop: drain if shutdown was asked for, else send
/// feedback if it is due and mark it as sent at the reading of the clock,
/// else receive.
pub open spec fn loop_top(s: SessionView, o: Observation) -> Outcome {
    if o.shutdown_requested {
        drain(s, o)
    } else if spec_feedback_is_due(s, o) {
        Outcome {
            next: s.with_state(s.state.marked(o.clock_nanos)).at(SessionStage::SendingFeedback),
            action: ActionView::SendFeedback {
                frame: spec_feedback_frame(s.state, o.now),
                flush: false,
            },
        }
    } else {
        Outcome { next: s.at(SessionStage::Receiving), action: ActionView::Receive }
    }
}

/// The session is started.
pub open spec fn spec_start(s: SessionView) -> Outcome {
    if s.stage == SessionStage::New {
        Outcome {
            next: s.at(SessionStage::Connecting),
            action: ActionView::Connect { connection_string: s.connection_string },
        }
    } else {
        unexpected(s)
    }
}

/// The connection was opened, or could not be.
pub open spec fn spec_on_connected(s: SessionView, r: Result<(), ErrorView>) -> Outcome {
    if s.stage == SessionStage::Connecting {
        match r {
            Ok(_) => Outcome {
                next: s.at(SessionStage::Identifying),
                action: ActionView::Execute { sql: "IDENTIFY_SYSTEM"@ },
            },
            Err(e) => fail(s, e),
        }
    } else {
        unexpected(s)
    }
}

/// The system's identity came back: one row of metadata lets the session go
/// on to check the WAL level.
pub open spec fn spec_on_identified(s: SessionView, r: Result<QueryOutcomeView, ErrorView>) -> Outcome {
    match r {
        Err(e) => fail(
            s,
            ErrorView::Protocol { message: "IDENTIFY_SYSTEM failed"@, context: Some(e.message()) },
        ),
        Ok(q) => if q.is_ok() && q.rows == 1 {
            Outcome {
                next: s.at(SessionStage::CheckingWalLevel),
                action: ActionView::Execute { sql: "SHOW wal_level;"@ },
            }
        } else {
            fail(
                s,
                protocol_error(
                    "IDENTIFY_SYSTEM failed. This usually means the connection is not in replication mode or lacks replication privileges."@,
                ),
            )
        },
    }
}

/// The WAL level came back: `logical` lets the session go on to look the
/// slot up.
pub open spec fn spec_on_wal_level(s: SessionView, r: Result<QueryOutcomeView, ErrorView>) -> Outcome {
    match r {
        Err(e) => fail(s, e),
        Ok(q) => if !q.is_ok() {
            fail(s, protocol_error("Failed to check wal_level"@))
        } else {
            match q.value {
                None => fail(s, protocol_error("Could not retrieve wal_level value"@)),
                Some(level) => if level == "logical"@ {
                    Outcome {
                        next: s.at(SessionStage::CheckingSlot),
                        action: ActionView::Execute { sql: spec_slot_query(s.slot_name) },
                    }
                } else {
                    fail(
                        s,
                        protocol_error(
                            "wal_level is not set to 'logical'. Please set wal_level to 'logical' in postgresql.conf and restart the PostgreSQL server."@,
                        ),
                    )
                },
            }
        },
    }
}

/// The slot was looked up: a row lets the session go on to look the
/// publication up.
pub open spec fn spec_on_slot(s: SessionView, r: Result<QueryOutcomeView, ErrorView>) -> Outcome {
    match r {
        Err(e) => fail(s, e),
        Ok(q) => if !q.is_ok() {
            fail(s, protocol_error("Failed to check existing replication slots"@))
        } else if q.rows == 0 {
            fail(s, protocol_error(spec_slot_missing(s.slot_name)))
        } else {
            Outcome {
                next: s.at(SessionStage::CheckingPublication),
                action: ActionView::Execute { sql: spec_publication_query(s.publication_name) },
            }
        },
    }
}

/// The publication was looked up: a row lets the session start replication.
pub open spec fn spec_on_publication(s: SessionView, r: Result<QueryOutcomeView, ErrorView>) -> Outcome {
    match r {
        Err(e) => fail(s, e),
        Ok(q) => if !q.is_ok() {
            fail(s, protocol_error("Failed to check existing publications"@))
        } else if q.rows == 0 {
            fail(s, protocol_error(spec_publication_missing(s.publication_name)))
        } else {
            Outcome {
                next: s.at(SessionStage::Starting),
                action: ActionView::Execute {
                    sql: spec_start_command(s.slot_name, s.publication_name),
                },
            }
        },
    }
}

/// The start of replication was answered: bidirectional copy opens the
/// receive loop.
pub open spec fn spec_on_started(
    s: SessionView,
    o: Observation,
    r: Result<QueryOutcomeView, ErrorView>,
) -> Outcome {
    match r {
        Err(e) => fail(s, e),
        Ok(q) => if q.status == QueryStatus::CopyBoth {
            loop_top(s, o)
        } else {
            fail(s, protocol_error("Failed to start replication"@))
        },
    }
}

/// A query was answered.
pub open spec fn spec_on_query(
    s: SessionView,
    o: Observation,
    r: Result<QueryOutcomeView, ErrorView>,
) -> Outcome {
    match s.stage {
        SessionStage::Identifying => spec_on_identified(s, r),
        SessionStage::CheckingWalLevel => spec_on_wal_level(s, r),
        SessionStage::CheckingSlot => spec_on_slot(s, r),
        SessionStage::CheckingPublication => spec_on_publication(s, r),
        SessionStage::Starting => spec_on_started(s, o, r),
        _ => unexpected(s),
    }
}

/// A keepalive arrived: the session answers at once if the server asks for
/// it, and goes on otherwise. The position of a keepalive raises nothing.
pub open spec fn spec_on_keepalive(s: SessionView, o: Observation, chunk: Seq<u8>) -> Outcome {
    match spec_parse_keepalive(chunk) {
        Err(e) => fail(s, e),
        Ok(k) => if k.reply_requested {
            Outcome {
                next: s.at(SessionStage::SendingFeedback),
                action: ActionView::SendFeedback {
                    frame: spec_feedback_frame(s.state, o.now),
                    flush: true,
                },
            }
        } else {
            loop_top(s, o)
        },
    }
}

/// The state after the schema of a Relation message was stored; any other
/// message changes nothing.
pub open spec fn noted(state: StateView, m: MessageView) -> StateView {
    match m {
        MessageView::Relation { relation } => StateView {
            relations: state.relations.insert(relation.oid, relation),
            ..state
        },
        _ => state,
    }
}

/// WAL data arrived: the position of the frame raises the received position,
/// the payload is decoded against the relations announced so far, a schema
/// is stored, and the message is handed over for delivery.
pub open spec fn spec_on_wal(s: SessionView, chunk: Seq<u8>) -> Outcome {
    match spec_parse_xlog_data(chunk) {
        Err(e) => fail(s, e),
        Ok(x) => if x.data.len() == 0 {
            fail(s, protocol_error("WAL message has no data"@))
        } else {
            let received = StateView {
                received_lsn: raised(s.state.received_lsn, x.data_start),
                ..s.state
            };
            match spec_decode(x.data, s.max_text_length, received.relations) {
                Err(e) => fail(s.with_state(received), e),
                Ok(m) => Outcome {
                    next: s.with_state(noted(received, m)).at(
                        SessionStage::Delivering { position: x.data_start },
                    ),
                    action: ActionView::Deliver { message: m },
                },
            }
        },
    }
}

/// A receive was answered: with nothing, with a chunk, or with an error.
pub open spec fn spec_on_data(
    s: SessionView,
    o: Observation,
    r: Result<Option<Seq<u8>>, ErrorView>,
) -> Outcome {
    if s.stage == SessionStage::Receiving {
        match r {
            Err(e) => fail(s, e),
            Ok(None) => Outcome {
                next: s.at(SessionStage::Sleeping),
                action: ActionView::Sleep { millis: IDLE_SLEEP_MILLIS },
            },
            Ok(Some(chunk)) => if chunk.len() == 0 {
                loop_top(s, o)
            } else if chunk[0] == TAG_KEEPALIVE {
                spec_on_keepalive(s, o, chunk)
            } else if chunk[0] == TAG_XLOG_DATA {
                spec_on_wal(s, chunk)
            } else {
                loop_top(s, o)
            },
        }
    } else {
        unexpected(s)
    }
}

/// The idle sleep is over.
pub open spec fn spec_on_slept(s: SessionView, o: Observation) -> Outcome {
    if s.stage == SessionStage::Sleeping {
        loop_top(s, o)
    } else {
        unexpected(s)
    }
}

/// Feedback went out, or could not. In the receive loop a failure ends the
/// session and a success leads to the next receive, or to draining if
/// shutdown was asked for meanwhile. The final feedback closes the session
/// whether it went out or not.
pub open spec fn spec_on_feedback_sent(
    s: SessionView,
    o: Observation,
    r: Result<(), ErrorView>,
) -> Outcome {
    match s.stage {
        SessionStage::SendingFeedback => match r {
            Err(e) => fail(s, e),
            Ok(_) => if o.shutdown_requested {
                drain(s, o)
            } else {
                Outcome { next: s.at(SessionStage::Receiving), action: ActionView::Receive }
            },
        },
        SessionStage::Draining => Outcome {
            next: s.at(SessionStage::Closed),
            action: ActionView::Close,
        },
        _ => unexpected(s),
    }
}

/// The sink answered. An accepted event raises the applied position to the
/// received one; a refused event ends the session.
pub open spec fn spec_on_delivered(
    s: SessionView,
    o: Observation,
    r: Result<(), ErrorView>,
) -> Outcome {
    match s.stage {
        SessionStage::Delivering { position } => match r {
            Err(e) => fail(s, e),
            Ok(_) => loop_top(
                s.with_state(
                    StateView {
                        applied_lsn: raised(s.state.applied_lsn, s.state.received_lsn),
                        ..s.state
                    },
                ),
                o,
            ),
        },
        _ => unexpected(s),
    }
}

/// Mathematical content of a `SessionEvent`.
pub enum EventView {
    Start,
    Connected(Result<(), ErrorView>),
    Query(Result<QueryOutcomeView, ErrorView>),
    Data(Result<Option<Seq<u8>>, ErrorView>),
    Slept,
    FeedbackSent(Result<(), ErrorView>),
    Delivered(Result<(), ErrorView>),
}

/// One call of the session: what it becomes and what it asks for, given what
/// the caller observed and the event it reports.
pub open spec fn spec_step(s: SessionView, o: Observation, e: EventView) -> Outcome {
    match e {
        EventView::Start => spec_start(s),
        EventView::Connected(r) => spec_on_connected(s, r),
        EventView::Query(r) => spec_on_query(s, o, r),
        EventView::Data(r) => spec_on_data(s, o, r),
        EventView::Slept => spec_on_slept(s, o),
        EventView::FeedbackSent(r) => spec_on_feedback_sent(s, o, r),
        EventView::Delivered(r) => spec_on_delivered(s, o, r),
    }
}

/// The session after a run of calls.
pub open spec fn spec_run(s: SessionView, calls: Seq<(Observation, EventView)>) -> SessionView
    decreases calls.len(),
{
    if calls.len() == 0 {
        s
    } else {
        spec_step(spec_run(s, calls.drop_last()), calls.last().0, calls.last().1).next
    }
}

/// The status update that a feedback frame built from `state` parses to.
pub proof fn lemma_feedback_frame_reports_state(state: StateView, now: i64)
    ensures
        spec_parse_standby_status_update(spec_feedback_frame(state, now)) == Ok::<_, ErrorView>(
            StandbyStatusUpdateMessage::spec_feedback(state.received_lsn, state.applied_lsn, now),
        ),
        StandbyStatusUpdateMessage::spec_feedback(
            state.received_lsn,
            state.applied_lsn,
            now,
        ).apply_lsn == state.applied_lsn,
        StandbyStatusUpdateMessage::spec_feedback(
            state.received_lsn,
            state.applied_lsn,
            now,
        ).last_lsn == state.received_lsn,
        StandbyStatusUpdateMessage::spec_feedback(
            state.received_lsn,
            state.applied_lsn,
            now,
        ).flush_lsn == state.received_lsn,
{
    let m = StandbyStatusUpdateMessage::spec_feedback(state.received_lsn, state.applied_lsn, now);
    assert('r' as u32 == 0x72);
    m.lemma_round_trip();
}

/// No call lets the applied position pass the received one.
pub proof fn lemma_step_preserves_wf(s: SessionView, o: Observation, e: EventView)
    requires
        s.wf(),
    ensures
        spec_step(s, o, e).next.wf(),
{
}

/// No call lowers a position.
pub proof fn lemma_step_is_monotonic(s: SessionView, o: Observation, e: EventView)
    ensures
        spec_step(s, o, e).next.state.received_lsn >= s.state.received_lsn,
        spec_step(s, o, e).next.state.applied_lsn >= s.state.applied_lsn,
{
}

/// Whatever the calls of a session are, after each of them the applied
/// position is no higher than the received one, and no position is lower
/// than it was at the start.
pub proof fn lemma_run_preserves_wf(s: SessionView, calls: Seq<(Observation, EventView)>)
    requires
        s.wf(),
    ensures
        spec_run(s, calls).wf(),
        spec_run(s, calls).state.applied_lsn <= spec_run(s, calls).state.received_lsn,
        spec_run(s, calls).state.received_lsn >= s.state.received_lsn,
        spec_run(s, calls).state.applied_lsn >= s.state.applied_lsn,
    decreases calls.len(),
{
    if calls.len() > 0 {
        lemma_run_preserves_wf(s, calls.drop_last());
        let before = spec_run(s, calls.drop_last());
        lemma_step_preserves_wf(before, calls.last().0, calls.last().1);
        lemma_step_is_monotonic(before, calls.last().0, calls.last().1);
    }
}

/// From its beginning on, whatever the calls of a session are, the applied
/// position is never higher than the received one.
pub proof fn lemma_session_never_applies_ahead(
    connection_string: Seq<char>,
    slot_name: Seq<char>,
    publication_name: Seq<char>,
    feedback_interval_secs: u64,
    max_text_length: nat,
    calls: Seq<(Observation, EventView)>,
)
    ensures
        ({
            let begun = SessionView {
                stage: SessionStage::New,
                state: StateView::initial(),
                connection_string,
                slot_name,
                publication_name,
                feedback_interval_secs,
                max_text_length,
            };
            spec_run(begun, calls).state.applied_lsn <= spec_run(begun, calls).state.received_lsn
        }),
{
    let begun = SessionView {
        stage: SessionStage::New,
        state: StateView::initial(),
        connection_string,
        slot_name,
        publication_name,
        feedback_interval_secs,
        max_text_length,
    };
    lemma_run_preserves_wf(begun, calls);
}

/// Feedback that is sent because it is due is marked as sent: the top of the
/// receive loop hands the frame over and keeps the reading of the clock as
/// the time of the last feedback, so that feedback is not due again before
/// the interval has passed once more.
pub proof fn lemma_due_feedback_is_marked(s: SessionView, o: Observation, later: Observation)
    requires
        !o.shutdown_requested,
        spec_feedback_is_due(s, o),
    ensures
        loop_top(s, o).action == (ActionView::SendFeedback {
            frame: spec_feedback_frame(s.state, o.now),
            flush: false,
        }),
        loop_top(s, o).next.state == s.state.marked(o.clock_nanos),
        loop_top(s, o).next.state.last_feedback_time == o.clock_nanos,
        later.clock_nanos < o.clock_nanos + s.feedback_interval_secs * 1_000_000_000
            && s.feedback_interval_secs > 0 ==> !spec_feedback_is_due(loop_top(s, o).next, later),
{
}

/// Every feedback frame that a call hands over reports the positions of the
/// session as the call leaves them.
pub proof fn lemma_feedback_reports_positions(s: SessionView, o: Observation, e: EventView)
    ensures
        spec_step(s, o, e).action matches ActionView::SendFeedback { frame, .. }
            ==> spec_parse_standby_status_update(frame) matches Ok(m) && m.apply_lsn == spec_step(
            s,
            o,
            e,
        ).next.state.applied_lsn && m.last_lsn == spec_step(s, o, e).next.state.received_lsn
            && m.flush_lsn == m.last_lsn,
{
    let out = spec_step(s, o, e);
    if out.action is SendFeedback {
        lemma_feedback_frame_reports_state(out.next.state, o.now);
        lemma_feedback_frame_reports_state(s.state, o.now);
    }
}

/// Once the sink has accepted a message, the applied position is at or
/// beyond the position of the message.
pub proof fn lemma_delivery_raises_applied(s: SessionView, o: Observation, position: u64)
    requires
        s.wf(),
        s.stage == (SessionStage::Delivering { position }),
    ensures
        spec_step(s, o, EventView::Delivered(Ok(()))).next.state.applied_lsn >= position,
{
}

/// A message that the sink accepted is acknowledged by the next feedback:
/// whatever calls follow the delivery, the first feedback frame handed over,
/// and every later one, reports an applied position at or beyond the
/// position of the message.
pub proof fn lemma_delivered_message_is_acknowledged(
    s: SessionView,
    position: u64,
    at_delivery: Observation,
    later: Seq<(Observation, EventView)>,
    o: Observation,
    e: EventView,
)
    requires
        s.wf(),
        s.stage == (SessionStage::Delivering { position }),
    ensures
        ({
            let delivered = spec_step(s, at_delivery, EventView::Delivered(Ok(())));
            let out = spec_step(spec_run(delivered.next, later), o, e);
            &&& (delivered.action matches ActionView::SendFeedback { frame, .. }
                ==> spec_parse_standby_status_update(frame) matches Ok(m) && m.apply_lsn
                >= position)
            &&& (out.action matches ActionView::SendFeedback { frame, .. }
                ==> spec_parse_standby_status_update(frame) matches Ok(m) && m.apply_lsn
                >= position)
        }),
{
    let delivered = spec_step(s, at_delivery, EventView::Delivered(Ok(())));
    lemma_delivery_raises_applied(s, at_delivery, position);
    lemma_step_preserves_wf(s, at_delivery, EventView::Delivered(Ok(())));
    lemma_feedback_reports_positions(s, at_delivery, EventView::Delivered(Ok(())));
    lemma_run_preserves_wf(delivered.next, later);
    let before = spec_run(delivered.next, later);
    lemma_step_is_monotonic(before, o, e);
    lemma_feedback_reports_positions(before, o, e);
}

/// A keepalive that asks for a reply is answered by exactly one feedback
/// frame before the next receive: the call that takes the keepalive hands
/// over a feedback frame, to be flushed, that reports the positions as they
/// were, and once that frame is out the session receives again.
pub proof fn lemma_keepalive_is_answered_once(
    s: SessionView,
    o: Observation,
    chunk: Seq<u8>,
    after: Observation,
)
    requires
        s.stage == SessionStage::Receiving,
        chunk.len() > 0,
        chunk[0] == TAG_KEEPALIVE,
        spec_parse_keepalive(chunk) matches Ok(k) && k.reply_requested,
        !after.shutdown_requested,
    ensures
        ({
            let out = spec_step(s, o, EventView::Data(Ok(Some(chunk))));
            &&& out.action == (ActionView::SendFeedback {
                frame: spec_feedback_frame(s.state, o.now),
                flush: true,
            })
            &&& out.next.state == s.state
            &&& out.next.stage == SessionStage::SendingFeedback
            &&& spec_step(out.next, after, EventView::FeedbackSent(Ok(()))).action
                == ActionView::Receive
            &&& spec_step(out.next, after, EventView::FeedbackSent(Ok(()))).next.stage
                == SessionStage::Receiving
        }),
{
}

/// The view of the result of a call without a value.
pub open spec fn unit_result_view(r: Result<(), ReplicationError>) -> Result<(), ErrorView> {
    match r {
        Ok(_) => Ok(()),
        Err(e) => Err(e@),
    }
}

/// The view of the result of a query.
pub open spec fn query_result_view(r: Result<QueryOutcome, ReplicationError>) -> Result<
    QueryOutcomeView,
    ErrorView,
> {
    match r {
        Ok(q) => Ok(q@),
        Err(e) => Err(e@),
    }
}

/// The view of the result of a receive.
pub open spec fn data_result_view(r: Result<Option<Vec<u8>>, ReplicationError>) -> Result<
    Option<Seq<u8>>,
    ErrorView,
> {
    match r {
        Ok(Some(chunk)) => Ok(Some(chunk@)),
        Ok(None) => Ok(None),
        Err(e) => Err(e@),
    }
}

/// What the caller reports to the session: the outcome of the action that
/// the session asked for last.
#[derive(Debug)]
pub enum SessionEvent {
    /// The caller is ready to begin.
    Start,
    /// Outcome of `Connect`.
    Connected(Result<(), ReplicationError>),
    /// Outcome of `Execute`.
    Query(Result<QueryOutcome, ReplicationError>),
    /// Outcome of `Receive`: a chunk, or nothing available.
    Data(Result<Option<Vec<u8>>, ReplicationError>),
    /// End of `Sleep`.
    Slept,
    /// Outcome of `SendFeedback`.
    FeedbackSent(Result<(), ReplicationError>),
    /// Outcome of `Deliver`.
    Delivered(Result<(), ReplicationError>),
}

impl View for SessionEvent {
    type V = EventView;

    open spec fn view(&self) -> EventView {
        match *self {
            SessionEvent::Start => EventView::Start,
            SessionEvent::Connected(r) => EventView::Connected(unit_result_view(r)),
            SessionEvent::Query(r) => EventView::Query(query_result_view(r)),
            SessionEvent::Data(r) => EventView::Data(data_result_view(r)),
            SessionEvent::Slept => EventView::Slept,
            SessionEvent::FeedbackSent(r) => EventView::FeedbackSent(unit_result_view(r)),
            SessionEvent::Delivered(r) => EventView::Delivered(unit_result_view(r)),
        }
    }
}

/// A replication session.
#[derive(Debug)]
pub struct ReplicationSession {
    stage: SessionStage,
    state: ReplicationState,
    connection_string: String,
    slot_name: String,
    publication_name: String,
    feedback_interval_secs: u64,
    max_text_length: usize,
}

impl View for ReplicationSession {
    type V = SessionView;

    closed spec fn view(&self) -> SessionView {
        SessionView {
            stage: self.stage,
            state: self.state@,
            connection_string: self.connection_string@,
            slot_name: self.slot_name@,
            publication_name: self.publication_name@,
            feedback_interval_secs: self.feedback_interval_secs,
            max_text_length: self.max_text_length as nat,
        }
    }
}

impl ReplicationSession {
    /// A session that has not begun.
    pub fn new(
        connection_string: String,
        slot_name: String,
        publication_name: String,
        feedback_interval_secs: u64,
    ) -> (s: Self)
        ensures
            s@ == (SessionView {
                stage: SessionStage::New,
                state: StateView::initial(),
                connection_string: connection_string@,
                slot_name: slot_name@,
                publication_name: publication_name@,
                feedback_interval_secs,
                max_text_length: DEFAULT_MAX_STRING_LENGTH as nat,
            }),
            s@.wf(),
    {
        Self {
            stage: SessionStage::New,
            state: ReplicationState::new(),
            connection_string,
            slot_name,
            publication_name,
            feedback_interval_secs,
            max_text_length: DEFAULT_MAX_STRING_LENGTH,
        }
    }

    /// A session that has not begun, for the database, the slot, the
    /// publication and the feedback interval of `config`.
    pub fn from_config(config: &ReplicationConfig) -> (s: Self)
        ensures
            s@ == (SessionView {
                stage: SessionStage::New,
                state: StateView::initial(),
                connection_string: config@.connection_string,
                slot_name: config@.slot_name,
                publication_name: config@.publication_name,
                feedback_interval_secs: config@.feedback_interval_secs,
                max_text_length: DEFAULT_MAX_STRING_LENGTH as nat,
            }),
            s@.wf(),
    {
        Self::new(
            config.connection_string.clone(),
            config.slot_name.clone(),
            config.publication_name.clone(),
            config.feedback_interval_secs,
        )
    }

    /// The same session with another cap on the length of a text value.
    pub fn with_max_text_length(self, max_text_length: usize) -> (s: Self)
        ensures
            s@ == (SessionView { max_text_length: max_text_length as nat, ..self@ }),
    {
        Self {
            stage: self.stage,
            state: self.state,
            connection_string: self.connection_string,
            slot_name: self.slot_name,
            publication_name: self.publication_name,
            feedback_interval_secs: self.feedback_interval_secs,
            max_text_length,
        }
    }

    /// Where the session stands.
    pub fn stage(&self) -> (stage: SessionStage)
        ensures
            stage == self@.stage,
    {
        self.stage
    }

    /// The phase of the session.
    pub fn phase(&self) -> (phase: SessionPhase)
        ensures
            phase == self@.stage.phase(),
    {
        match self.stage {
            SessionStage::New | SessionStage::Connecting => SessionPhase::New,
            SessionStage::Identifying => SessionPhase::Connected,
            SessionStage::CheckingWalLevel
            | SessionStage::CheckingSlot
            | SessionStage::CheckingPublication => SessionPhase::Identified,
            SessionStage::Starting => SessionPhase::Validated,
            SessionStage::Receiving
            | SessionStage::Sleeping
            | SessionStage::SendingFeedback
            | SessionStage::Delivering { .. } => SessionPhase::Streaming,
            SessionStage::Draining => SessionPhase::Draining,
            SessionStage::Closed => SessionPhase::Closed,
            SessionStage::Failed => SessionPhase::Failed,
        }
    }

    /// The progress of the session.
    pub fn state(&self) -> (state: &ReplicationState)
        ensures
            state@ == self@.state,
    {
        &self.state
    }

    /// Highest position received.
    pub fn received_lsn(&self) -> (lsn: u64)
        ensures
            lsn == self@.state.received_lsn,
    {
        self.state.received_lsn
    }

    /// Highest position applied.
    pub fn applied_lsn(&self) -> (lsn: u64)
        ensures
            lsn == self@.state.applied_lsn,
    {
        self.state.applied_lsn
    }

    /// What the caller hands over with its next call, read now: what the
    /// session's clock reads, together with the shutdown flag and the time of
    /// day that the caller read.
    pub fn observe(&self, shutdown_requested: bool, now: i64) -> (o: Observation)
        ensures
            o.shutdown_requested == shutdown_requested,
            o.now == now,
    {
        Observation { shutdown_requested, clock_nanos: self.state.clock(), now }
    }

    /// The session fails with `error`.
    fn fail(&mut self, error: ReplicationError) -> (action: SessionAction)
        ensures
            final(self)@ == fail(old(self)@, error@).next,
            action@ == fail(old(self)@, error@).action,
    {
        self.stage = SessionStage::Failed;
        SessionAction::Fail { error }
    }

    /// An outcome arrived that the session did not wait for.
    fn unexpected(&mut self) -> (action: SessionAction)
        ensures
            final(self)@ == unexpected(old(self)@).next,
            action@ == unexpected(old(self)@).action,
    {
        match self.stage {
            SessionStage::Closed => SessionAction::Close,
            _ => self.fail(
                ReplicationError::protocol("Unexpected event for the stage of the session"),
            ),
        }
    }

    /// The feedback frame that reports the session's positions at `now`.
    fn feedback_frame(&self, now: i64) -> (frame: Vec<u8>)
        ensures
            frame@ == spec_feedback_frame(self@.state, now),
    {
        StandbyStatusUpdateMessage::feedback(
            self.state.received_lsn,
            self.state.applied_lsn,
            now,
        ).to_bytes()
    }

    /// The session starts to drain.
    fn drain(&mut self, o: Observation) -> (action: SessionAction)
        ensures
            final(self)@ == drain(old(self)@, o).next,
            action@ == drain(old(self)@, o).action,
    {
        let frame = self.feedback_frame(o.now);
        self.stage = SessionStage::Draining;
        SessionAction::SendFeedback { frame, flush: true }
    }

    /// The top of the receive loop.
    fn loop_top(&mut self, o: Observation) -> (action: SessionAction)
        ensures
            final(self)@ == loop_top(old(self)@, o).next,
            action@ == loop_top(old(self)@, o).action,
    {
        if o.shutdown_requested {
            self.drain(o)
        } else if feedback_due(
            self.state.since_last_feedback_at(o.clock_nanos),
            self.feedback_interval_secs,
        ) {
            let frame = self.feedback_frame(o.now);
            self.state.mark_feedback_sent_at(o.clock_nanos);
            self.stage = SessionStage::SendingFeedback;
            SessionAction::SendFeedback { frame, flush: false }
        } else {
            self.stage = SessionStage::Receiving;
            SessionAction::Receive
        }
    }

    /// Starts the session: asks for the connection.
    pub fn start(&mut self) -> (action: SessionAction)
        ensures
            final(self)@ == spec_start(old(self)@).next,
            action@ == spec_start(old(self)@).action,
    {
        match self.stage {
            SessionStage::New => {
                self.stage = SessionStage::Connecting;
                SessionAction::Connect { connection_string: self.connection_string.clone() }
            },
            _ => self.unexpected(),
        }
    }

    /// Takes the outcome of `Connect`.
    pub fn on_connected(&mut self, result: Result<(), ReplicationError>) -> (action: SessionAction)
        ensures
            final(self)@ == spec_on_connected(old(self)@, unit_result_view(result)).next,
            action@ == spec_on_connected(old(self)@, unit_result_view(result)).action,
    {
        match self.stage {
            SessionStage::Connecting => match result {
                Ok(_) => {
                    self.stage = SessionStage::Identifying;
                    SessionAction::Execute { sql: String::from_str("IDENTIFY_SYSTEM") }
                },
                Err(e) => self.fail(e),
            },
            _ => self.unexpected(),
        }
    }

    /// Takes the answer to IDENTIFY_SYSTEM.
    fn on_identified(&mut self, result: Result<QueryOutcome, ReplicationError>) -> (action:
        SessionAction)
        ensures
            final(self)@ == spec_on_identified(old(self)@, query_result_view(result)).next,
            action@ == spec_on_identified(old(self)@, query_result_view(result)).action,
    {
        match result {
            Err(e) => {
                let error = ReplicationError::Protocol {
                    message: String::from_str("IDENTIFY_SYSTEM failed"),
                    context: Some(String::from_str(e.message())),
                };
                self.fail(error)
            },
            Ok(q) => {
                let ok = match q.status {
                    QueryStatus::TuplesOk | QueryStatus::CommandOk => true,
                    _ => false,
                };
                if ok && q.rows == 1 {
                    self.stage = SessionStage::CheckingWalLevel;
                    SessionAction::Execute { sql: String::from_str("SHOW wal_level;") }
                } else {
                    self.fail(
                        ReplicationError::protocol(
                            "IDENTIFY_SYSTEM failed. This usually means the connection is not in replication mode or lacks replication privileges.",
                        ),
                    )
                }
            },
        }
    }

    /// Takes the answer to the question for the WAL level.
    fn on_wal_level(&mut self, result: Result<QueryOutcome, ReplicationError>) -> (action:
        SessionAction)
        ensures
            final(self)@ == spec_on_wal_level(old(self)@, query_result_view(result)).next,
            action@ == spec_on_wal_level(old(self)@, query_result_view(result)).action,
    {
        match result {
            Err(e) => self.fail(e),
            Ok(q) => {
                let ok = match q.status {
                    QueryStatus::TuplesOk | QueryStatus::CommandOk => true,
                    _ => false,
                };
                if !ok {
                    return self.fail(ReplicationError::protocol("Failed to check wal_level"));
                }
                match q.value {
                    None => self.fail(
                        ReplicationError::protocol("Could not retrieve wal_level value"),
                    ),
                    Some(level) => {
                        if level == String::from_str("logical") {
                            let sql = String::from_str(
                                "SELECT slot_name FROM pg_replication_slots WHERE slot_name = '",
                            ).concat(self.slot_name.as_str()).concat("';");
                            self.stage = SessionStage::CheckingSlot;
                            SessionAction::Execute { sql }
                        } else {
                            self.fail(
                                ReplicationError::protocol(
                                    "wal_level is not set to 'logical'. Please set wal_level to 'logical' in postgresql.conf and restart the PostgreSQL server.",
                                ),
                            )
                        }
                    },
                }
            },
        }
    }

    /// Takes the answer to the lookup of the slot.
    fn on_slot(&mut self, result: Result<QueryOutcome, ReplicationError>) -> (action: SessionAction)
        ensures
            final(self)@ == spec_on_slot(old(self)@, query_result_view(result)).next,
            action@ == spec_on_slot(old(self)@, query_result_view(result)).action,
    {
        match result {
            Err(e) => self.fail(e),
            Ok(q) => {
                let ok = match q.status {
                    QueryStatus::TuplesOk | QueryStatus::CommandOk => true,
                    _ => false,
                };
                if !ok {
                    self.fail(
                        ReplicationError::protocol("Failed to check existing replication slots"),
                    )
                } else if q.rows == 0 {
                    let message = String::from_str("Replication slot '").concat(
                        self.slot_name.as_str(),
                    ).concat(
                        "' does not exist. Please create it manually using the following SQL command:\n\nCREATE_REPLICATION_SLOT \"",
                    ).concat(self.slot_name.as_str()).concat(
                        "\" LOGICAL pgoutput NOEXPORT_SNAPSHOT;\n",
                    );
                    self.fail(ReplicationError::protocol(message.as_str()))
                } else {
                    let sql = String::from_str(
                        "SELECT * FROM pg_publication WHERE pubname = '",
                    ).concat(self.publication_name.as_str()).concat("';");
                    self.stage = SessionStage::CheckingPublication;
                    SessionAction::Execute { sql }
                }
            },
        }
    }

    /// Takes the answer to the lookup of the publication.
    fn on_publication(&mut self, result: Result<QueryOutcome, ReplicationError>) -> (action:
        SessionAction)
        ensures
            final(self)@ == spec_on_publication(old(self)@, query_result_view(result)).next,
            action@ == spec_on_publication(old(self)@, query_result_view(result)).action,
    {
        match result {
            Err(e) => self.fail(e),
            Ok(q) => {
                let ok = match q.status {
                    QueryStatus::TuplesOk | QueryStatus::CommandOk => true,
                    _ => false,
                };
                if !ok {
                    self.fail(ReplicationError::protocol("Failed to check existing publications"))
                } else if q.rows == 0 {
                    let message = String::from_str("Publication '").concat(
                        self.publication_name.as_str(),
                    ).concat(
                        "' does not exist. Please create it manually using the following SQL command:\n\nCREATE PUBLICATION \"",
                    ).concat(self.publication_name.as_str()).concat(
                        "\" FOR TABLE <your_table_name>;\n\nor\n\nCREATE PUBLICATION \"",
                    ).concat(self.publication_name.as_str()).concat(
                        "\" FOR ALL TABLES;\n\ndepending on your configuration.",
                    );
                    self.fail(ReplicationError::protocol(message.as_str()))
                } else {
                    let sql = String::from_str("START_REPLICATION SLOT \"").concat(
                        self.slot_name.as_str(),
                    ).concat(
                        "\" LOGICAL 0/0 (proto_version '2', streaming 'on', publication_names '",
                    ).concat(self.publication_name.as_str()).concat("');");
                    self.stage = SessionStage::Starting;
                    SessionAction::Execute { sql }
                }
            },
        }
    }

    /// Takes the answer to the start of replication.
    fn on_started(&mut self, o: Observation, result: Result<QueryOutcome, ReplicationError>) -> (action:
        SessionAction)
        ensures
            final(self)@ == spec_on_started(old(self)@, o, query_result_view(result)).next,
            action@ == spec_on_started(old(self)@, o, query_result_view(result)).action,
    {
        match result {
            Err(e) => self.fail(e),
            Ok(q) => match q.status {
                QueryStatus::CopyBoth => self.loop_top(o),
                _ => self.fail(ReplicationError::protocol("Failed to start replication")),
            },
        }
    }

    /// Takes the outcome of `Execute`.
    pub fn on_query(&mut self, o: Observation, result: Result<QueryOutcome, ReplicationError>) -> (action:
        SessionAction)
        ensures
            final(self)@ == spec_on_query(old(self)@, o, query_result_view(result)).next,
            action@ == spec_on_query(old(self)@, o, query_result_view(result)).action,
    {
        match self.stage {
            SessionStage::Identifying => self.on_identified(result),
            SessionStage::CheckingWalLevel => self.on_wal_level(result),
            SessionStage::CheckingSlot => self.on_slot(result),
            SessionStage::CheckingPublication => self.on_publication(result),
            SessionStage::Starting => self.on_started(o, result),
            _ => self.unexpected(),
        }
    }

    /// Takes a keepalive frame.
    fn on_keepalive(&mut self, o: Observation, chunk: &[u8]) -> (action: SessionAction)
        ensures
            final(self)@ == spec_on_keepalive(old(self)@, o, chunk@).next,
            action@ == spec_on_keepalive(old(self)@, o, chunk@).action,
    {
        match KeepaliveMessage::parse(chunk) {
            Err(e) => self.fail(e),
            Ok(k) => {
                if k.reply_requested {
                    let frame = self.feedback_frame(o.now);
                    self.stage = SessionStage::SendingFeedback;
                    SessionAction::SendFeedback { frame, flush: true }
                } else {
                    self.loop_top(o)
                }
            },
        }
    }

    /// Takes a WAL data frame.
    fn on_wal(&mut self, chunk: &[u8]) -> (action: SessionAction)
        ensures
            final(self)@ == spec_on_wal(old(self)@, chunk@).next,
            action@ == spec_on_wal(old(self)@, chunk@).action,
    {
        let frame = match XLogDataMessage::parse(chunk) {
            Err(e) => {
                return self.fail(e);
            },
            Ok(frame) => frame,
        };
        if frame.data.len() == 0 {
            return self.fail(ReplicationError::protocol("WAL message has no data"));
        }
        self.state.update_lsn(frame.data_start);
        let message = match MessageParser::decode(
            frame.data.as_slice(),
            self.max_text_length,
            &self.state.relations,
        ) {
            Err(e) => {
                return self.fail(e);
            },
            Ok(message) => message,
        };
        match &message {
            ReplicationMessage::Relation { relation } => {
                self.state.add_relation(relation.duplicate());
            },
            _ => {},
        }
        self.stage = SessionStage::Delivering { position: frame.data_start };
        SessionAction::Deliver { message }
    }

    /// Takes the outcome of `Receive`: nothing, a chunk, or an error.
    pub fn on_data(
        &mut self,
        o: Observation,
        result: Result<Option<Vec<u8>>, ReplicationError>,
    ) -> (action: SessionAction)
        ensures
            final(self)@ == spec_on_data(old(self)@, o, data_result_view(result)).next,
            action@ == spec_on_data(old(self)@, o, data_result_view(result)).action,
    {
        match self.stage {
            SessionStage::Receiving => match result {
                Err(e) => self.fail(e),
                Ok(None) => {
                    self.stage = SessionStage::Sleeping;
                    SessionAction::Sleep { millis: IDLE_SLEEP_MILLIS }
                },
                Ok(Some(chunk)) => {
                    if chunk.len() == 0 {
                        self.loop_top(o)
                    } else if chunk[0] == TAG_KEEPALIVE {
                        self.on_keepalive(o, chunk.as_slice())
                    } else if chunk[0] == TAG_XLOG_DATA {
                        self.on_wal(chunk.as_slice())
                    } else {
                        self.loop_top(o)
                    }
                },
            },
            _ => self.unexpected(),
        }
    }

    /// Takes the end of `Sleep`.
    pub fn on_slept(&mut self, o: Observation) -> (action: SessionAction)
        ensures
            final(self)@ == spec_on_slept(old(self)@, o).next,
            action@ == spec_on_slept(old(self)@, o).action,
    {
        match self.stage {
            SessionStage::Sleeping => self.loop_top(o),
            _ => self.unexpected(),
        }
    }

    /// Takes the outcome of `SendFeedback`.
    pub fn on_feedback_sent(&mut self, o: Observation, result: Result<(), ReplicationError>) -> (action:
        SessionAction)
        ensures
            final(self)@ == spec_on_feedback_sent(old(self)@, o, unit_result_view(result)).next,
            action@ == spec_on_feedback_sent(old(self)@, o, unit_result_view(result)).action,
    {
        match self.stage {
            SessionStage::SendingFeedback => match result {
                Err(e) => self.fail(e),
                Ok(_) => {
                    if o.shutdown_requested {
                        self.drain(o)
                    } else {
                        self.stage = SessionStage::Receiving;
                        SessionAction::Receive
                    }
                },
            },
            SessionStage::Draining => {
                self.stage = SessionStage::Closed;
                SessionAction::Close
            },
            _ => self.unexpected(),
        }
    }

    /// Takes the outcome of `Deliver`.
    pub fn on_delivered(&mut self, o: Observation, result: Result<(), ReplicationError>) -> (action:
        SessionAction)
        ensures
            final(self)@ == spec_on_delivered(old(self)@, o, unit_result_view(result)).next,
            action@ == spec_on_delivered(old(self)@, o, unit_result_view(result)).action,
    {
        match self.stage {
            SessionStage::Delivering { .. } => match result {
                Err(e) => self.fail(e),
                Ok(_) => {
                    let received = self.state.received_lsn;
                    self.state.update_applied_lsn(received);
                    self.loop_top(o)
                },
            },
            _ => self.unexpected(),
        }
    }

    /// Takes what the caller observed and the event it reports, and says what
    /// to do next. The applied position never passes the received one.
    pub fn step(&mut self, o: Observation, event: SessionEvent) -> (action: SessionAction)
        ensures
            final(self)@ == spec_step(old(self)@, o, event@).next,
            action@ == spec_step(old(self)@, o, event@).action,
            old(self)@.wf() ==> final(self)@.wf(),
    {
        proof {
            if self@.wf() {
                lemma_step_preserves_wf(self@, o, event@);
            }
        }
        match event {
            SessionEvent::Start => self.start(),
            SessionEvent::Connected(r) => self.on_connected(r),
            SessionEvent::Query(r) => self.on_query(o, r),
            SessionEvent::Data(r) => self.on_data(o, r),
            SessionEvent::Slept => self.on_slept(o),
            SessionEvent::FeedbackSent(r) => self.on_feedback_sent(o, r),
            SessionEvent::Delivered(r) => self.on_delivered(o, r),
        }
    }
}

} // verus!
