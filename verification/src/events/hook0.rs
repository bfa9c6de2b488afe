//! The sink that posts events to the webhook service: which rows are events,
//! what is posted for them, and what an answer leads to.

use vstd::prelude::*;
use vstd::string::StringExecFns;
use crate::errors::parse_error;
use crate::errors::ErrorView;
use crate::errors::ReplicationError;
use crate::events::hook0_error::Hook0ErrorId;
use crate::events::json::parse_json;
use crate::events::json::spec_member_string;
use crate::events::json::spec_parse_json;
use crate::events::json::spec_string_members;
use crate::events::json::pairs_view;
use crate::events::json::JsonDocument;
use crate::events::json::JsonDocumentView;
use crate::events::pg_type_conversion::parse_timestamptz;
use crate::events::pg_type_conversion::spec_decoded_row;
use crate::events::pg_type_conversion::spec_decoder_after;
use crate::events::pg_type_conversion::spec_parse_timestamptz;
use crate::events::pg_type_conversion::spec_row_get;
use crate::events::pg_type_conversion::ColumnValue;
use crate::events::pg_type_conversion::ColumnValueView;
use crate::events::pg_type_conversion::DecoderRelations;
use crate::events::pg_type_conversion::ReplicationEventDecoder;
use crate::events::pg_type_conversion::ReplicationRow;
use crate::events::sink::spec_saturating_count;
use crate::events::sink::AttemptOutcome;
use crate::events::sink::RetryConfig;
use crate::events::sink::RetryState;
use crate::events::sink::RetryVerdict;
use crate::protocol::messages::MessageView;
use crate::protocol::messages::ReplicationMessage;
use crate::utils::text::str_equal;

verus! {

/// How long events of a type that the service does not know are held back:
/// five minutes, in milliseconds.
pub const SUPPRESSION_MILLIS: u64 = 300_000;

/// Settings of the webhook sink.
#[derive(Debug, Clone)]
pub struct Hook0EventSinkConfig {
    /// Where the service is.
    pub api_url: String,
    /// The application at the service: a UUID as a 128-bit number.
    pub application_id: u128,
    /// The bearer token.
    pub api_token: String,
}

/// A row of the events table.
#[derive(Debug, Clone)]
pub struct EventTableRow {
    /// A UUID as a 128-bit number.
    pub event_id: u128,
    pub event_type: String,
    /// Microseconds since 1970-01-01 00:00:00 UTC.
    pub created_at: i64,
    pub metadata: JsonDocument,
    pub payload: JsonDocument,
    pub labels: JsonDocument,
}

/// Mathematical content of an `EventTableRow`.
pub struct EventTableRowView {
    pub event_id: u128,
    pub event_type: Seq<char>,
    pub created_at: i64,
    pub metadata: JsonDocumentView,
    pub payload: JsonDocumentView,
    pub labels: JsonDocumentView,
}

impl View for EventTableRow {
    type V = EventTableRowView;

    open spec fn view(&self) -> EventTableRowView {
        EventTableRowView {
            event_id: self.event_id,
            event_type: self.event_type@,
            created_at: self.created_at,
            metadata: self.metadata@,
            payload: self.payload@,
            labels: self.labels@,
        }
    }
}

/// A row of typed values, as mathematical values.
pub type RowView = Seq<(Seq<char>, ColumnValueView)>;

/// Whether a row has every column of the events table.
pub open spec fn spec_has_event_columns(row: RowView) -> bool {
    &&& spec_row_get(row, "event_id"@) is Some
    &&& spec_row_get(row, "event_type"@) is Some
    &&& spec_row_get(row, "created_at"@) is Some
    &&& spec_row_get(row, "metadata"@) is Some
    &&& spec_row_get(row, "payload"@) is Some
    &&& spec_row_get(row, "labels"@) is Some
}

/// The instant of a `created_at` value: a timestamp with time zone as it
/// is, a text as the timestamp with time zone that it spells.
pub open spec fn spec_created_at(value: ColumnValueView) -> Result<i64, ErrorView> {
    match value {
        ColumnValueView::TimestampTZ(t) => Ok(t),
        ColumnValueView::String(s) => match spec_parse_timestamptz(s) {
            Some(t) => Ok(t),
            None => Err(parse_error("created_at string parse error"@)),
        },
        _ => Err(parse_error("created_at not a timestamptz column value"@)),
    }
}

/// The event that a row of typed values is, or why it is none. A row is an
/// event where it has the six columns of the events table, each of its
/// type: the first fault in the order id, type, time, metadata, payload,
/// labels is reported.
pub open spec fn spec_parse_event_row(row: RowView) -> Result<EventTableRowView, ErrorView> {
    if !spec_has_event_columns(row) {
        Err(parse_error("Missing columns"@))
    } else if !(spec_row_get(row, "event_id"@)->Some_0 is Uuid) {
        Err(parse_error("event_id not a UUID column value"@))
    } else if !(spec_row_get(row, "event_type"@)->Some_0 is String) {
        Err(parse_error("event_type not a string column value"@))
    } else if spec_created_at(spec_row_get(row, "created_at"@)->Some_0) is Err {
        Err(spec_created_at(spec_row_get(row, "created_at"@)->Some_0)->Err_0)
    } else if !(spec_row_get(row, "metadata"@)->Some_0 is Json) {
        Err(parse_error("metadata not a json column value"@))
    } else if !(spec_row_get(row, "payload"@)->Some_0 is Json) {
        Err(parse_error("payload not a json column value"@))
    } else if !(spec_row_get(row, "labels"@)->Some_0 is Json) {
        Err(parse_error("labels not a json column value"@))
    } else {
        Ok(
            EventTableRowView {
                event_id: spec_row_get(row, "event_id"@)->Some_0->Uuid_0,
                event_type: spec_row_get(row, "event_type"@)->Some_0->String_0,
                created_at: spec_created_at(spec_row_get(row, "created_at"@)->Some_0)->Ok_0,
                metadata: spec_row_get(row, "metadata"@)->Some_0->Json_0,
                payload: spec_row_get(row, "payload"@)->Some_0->Json_0,
                labels: spec_row_get(row, "labels"@)->Some_0->Json_0,
            },
        )
    }
}

/// The instant of a `created_at` value.
fn created_at(value: &ColumnValue) -> (r: Result<i64, ReplicationError>)
    ensures
        match r {
            Ok(t) => spec_created_at(value@) == Ok::<_, ErrorView>(t),
            Err(e) => spec_created_at(value@) == Err::<i64, _>(e@),
        },
{
    match value {
        ColumnValue::TimestampTZ(t) => Ok(*t),
        ColumnValue::String(s) => match parse_timestamptz(s.as_str()) {
            Some(t) => Ok(t),
            None => Err(ReplicationError::parse("created_at string parse error")),
        },
        _ => Err(ReplicationError::parse("created_at not a timestamptz column value")),
    }
}

/// Reads a row of typed values as a row of the events table.
pub fn parse_event_row(row: &ReplicationRow) -> (r: Result<EventTableRow, ReplicationError>)
    ensures
        match r {
            Ok(event) => spec_parse_event_row(row@) == Ok::<_, ErrorView>(event@),
            Err(e) => spec_parse_event_row(row@) == Err::<EventTableRowView, _>(e@),
        },
{
    let event_id = match row.get("event_id") {
        Some(v) => v,
        None => {
            return Err(ReplicationError::parse("Missing columns"));
        },
    };
    let event_type = match row.get("event_type") {
        Some(v) => v,
        None => {
            return Err(ReplicationError::parse("Missing columns"));
        },
    };
    let created = match row.get("created_at") {
        Some(v) => v,
        None => {
            return Err(ReplicationError::parse("Missing columns"));
        },
    };
    let metadata = match row.get("metadata") {
        Some(v) => v,
        None => {
            return Err(ReplicationError::parse("Missing columns"));
        },
    };
    let payload = match row.get("payload") {
        Some(v) => v,
        None => {
            return Err(ReplicationError::parse("Missing columns"));
        },
    };
    let labels = match row.get("labels") {
        Some(v) => v,
        None => {
            return Err(ReplicationError::parse("Missing columns"));
        },
    };
    assert(spec_has_event_columns(row@));
    let event_id = match event_id {
        ColumnValue::Uuid(u) => *u,
        _ => {
            return Err(ReplicationError::parse("event_id not a UUID column value"));
        },
    };
    let event_type = match event_type {
        ColumnValue::String(s) => s.clone(),
        _ => {
            return Err(ReplicationError::parse("event_type not a string column value"));
        },
    };
    let created_at = match created_at(created) {
        Ok(t) => t,
        Err(e) => {
            return Err(e);
        },
    };
    let metadata = match metadata {
        ColumnValue::Json(d) => d.duplicate(),
        _ => {
            return Err(ReplicationError::parse("metadata not a json column value"));
        },
    };
    let payload = match payload {
        ColumnValue::Json(d) => d.duplicate(),
        _ => {
            return Err(ReplicationError::parse("payload not a json column value"));
        },
    };
    let labels = match labels {
        ColumnValue::Json(d) => d.duplicate(),
        _ => {
            return Err(ReplicationError::parse("labels not a json column value"));
        },
    };
    Ok(EventTableRow { event_id, event_type, created_at, metadata, payload, labels })
}

/// What is posted to the service for an event.
#[derive(Debug, Clone)]
pub struct Hook0Event {
    /// A UUID as a 128-bit number.
    pub event_id: u128,
    pub event_type: String,
    /// The payload as JSON text.
    pub payload: String,
    pub payload_content_type: String,
    /// The members of the metadata whose values are strings.
    pub metadata: Vec<(String, String)>,
    /// Microseconds since 1970-01-01 00:00:00 UTC.
    pub occurred_at: i64,
    /// The members of the labels whose values are strings.
    pub labels: Vec<(String, String)>,
}

/// Mathematical content of a `Hook0Event`.
pub struct Hook0EventView {
    pub event_id: u128,
    pub event_type: Seq<char>,
    pub payload: Seq<char>,
    pub payload_content_type: Seq<char>,
    pub metadata: Seq<(Seq<char>, Seq<char>)>,
    pub occurred_at: i64,
    pub labels: Seq<(Seq<char>, Seq<char>)>,
}

impl View for Hook0Event {
    type V = Hook0EventView;

    open spec fn view(&self) -> Hook0EventView {
        Hook0EventView {
            event_id: self.event_id,
            event_type: self.event_type@,
            payload: self.payload@,
            payload_content_type: self.payload_content_type@,
            metadata: pairs_view(self.metadata@),
            occurred_at: self.occurred_at,
            labels: pairs_view(self.labels@),
        }
    }
}

/// What is posted for a row of the events table: its id, type and time, its
/// payload as JSON text, and of its metadata and labels the members whose
/// values are strings. Nothing is posted where the metadata or the labels
/// are no object.
pub open spec fn spec_envelope(row: EventTableRowView) -> Option<Hook0EventView> {
    if row.metadata.members is Some && row.labels.members is Some {
        Some(
            Hook0EventView {
                event_id: row.event_id,
                event_type: row.event_type,
                payload: row.payload.text,
                payload_content_type: "application/json"@,
                metadata: spec_string_members(row.metadata.members->Some_0),
                occurred_at: row.created_at,
                labels: spec_string_members(row.labels.members->Some_0),
            },
        )
    } else {
        None
    }
}

/// The view of an envelope that may be missing.
pub open spec fn envelope_option_view(e: Option<Hook0Event>) -> Option<Hook0EventView> {
    match e {
        Some(e) => Some(e@),
        None => None,
    }
}

/// What is posted for a row of the events table.
pub fn envelope(row: &EventTableRow) -> (r: Option<Hook0Event>)
    ensures
        envelope_option_view(r) == spec_envelope(row@),
{
    let metadata = match row.metadata.string_members() {
        Some(m) => m,
        None => {
            return None;
        },
    };
    let labels = match row.labels.string_members() {
        Some(l) => l,
        None => {
            return None;
        },
    };
    Some(
        Hook0Event {
            event_id: row.event_id,
            event_type: row.event_type.clone(),
            payload: row.payload.text.clone(),
            payload_content_type: String::from_str("application/json"),
            metadata,
            occurred_at: row.created_at,
            labels,
        },
    )
}

/// When an event type was last found unknown: the first entry of that type.
pub open spec fn spec_recorded(entries: Seq<(Seq<char>, u64)>, event_type: Seq<char>) -> Option<u64>
    decreases entries.len(),
{
    if entries.len() == 0 {
        None
    } else if entries.first().0 == event_type {
        Some(entries.first().1)
    } else {
        spec_recorded(entries.drop_first(), event_type)
    }
}

/// Whether events of a type are held back at `now`: they are for five
/// minutes from the time at which the service last did not know the type.
pub open spec fn spec_suppressed(recorded: Option<u64>, now: u64) -> bool {
    match recorded {
        Some(at) => now - at < SUPPRESSION_MILLIS,
        None => false,
    }
}

/// The event types that the service did not know, each with the time at
/// which that was last found, in milliseconds.
#[derive(Debug)]
pub struct UnknownEventTypes {
    entries: Vec<(String, u64)>,
}

/// The views of the entries of the memory of unknown event types.
pub open spec fn entries_view(entries: Seq<(String, u64)>) -> Seq<(Seq<char>, u64)> {
    entries.map_values(|e: (String, u64)| (e.0@, e.1))
}

/// In a run of entries, the first entry of a type is found behind the
/// entries of other types.
proof fn lemma_recorded_skip(entries: Seq<(Seq<char>, u64)>, event_type: Seq<char>, i: int)
    requires
        0 <= i <= entries.len(),
        forall|k: int| 0 <= k < i ==> (#[trigger] entries[k]).0 != event_type,
    ensures
        spec_recorded(entries, event_type) == spec_recorded(entries.skip(i), event_type),
    decreases i,
{
    if i > 0 {
        lemma_recorded_skip(entries, event_type, i - 1);
        assert(entries.skip(i - 1).drop_first() =~= entries.skip(i));
        assert(entries.skip(i - 1).first() == entries[i - 1]);
    } else {
        assert(entries.skip(0) =~= entries);
    }
}

/// Changing the time of the entry at `i` changes what is recorded for its
/// type, if it is the first entry of the type, and for no other type.
proof fn lemma_recorded_update(
    entries: Seq<(Seq<char>, u64)>,
    i: int,
    now: u64,
    other: Seq<char>,
)
    requires
        0 <= i < entries.len(),
        forall|k: int| 0 <= k < i ==> (#[trigger] entries[k]).0 != entries[i].0,
    ensures
        spec_recorded(entries.update(i, (entries[i].0, now)), other) == (if other == entries[i].0 {
            Some(now)
        } else {
            spec_recorded(entries, other)
        }),
    decreases entries.len(),
{
    let changed = entries.update(i, (entries[i].0, now));
    if i == 0 {
        assert(changed.drop_first() =~= entries.drop_first());
    } else {
        assert(changed.first() == entries.first());
        assert(changed.drop_first() =~= entries.drop_first().update(
            i - 1,
            (entries[i].0, now),
        ));
        assert forall|k: int| 0 <= k < i - 1 implies (#[trigger] entries.drop_first()[k]).0
            != entries.drop_first()[i - 1].0 by {
            assert(entries.drop_first()[k] == entries[k + 1]);
        }
        lemma_recorded_update(entries.drop_first(), i - 1, now, other);
        assert(entries[0].0 != entries[i].0);
    }
}

/// Appending an entry of a type that has none records the type, and changes
/// nothing for other types.
proof fn lemma_recorded_push(
    entries: Seq<(Seq<char>, u64)>,
    event_type: Seq<char>,
    now: u64,
    other: Seq<char>,
)
    requires
        forall|k: int| 0 <= k < entries.len() ==> (#[trigger] entries[k]).0 != event_type,
    ensures
        spec_recorded(entries.push((event_type, now)), other) == (if other == event_type {
            Some(now)
        } else {
            spec_recorded(entries, other)
        }),
    decreases entries.len(),
{
    let grown = entries.push((event_type, now));
    if entries.len() == 0 {
        assert(grown.drop_first() =~= Seq::<(Seq<char>, u64)>::empty());
    } else {
        assert(grown.first() == entries.first());
        assert(grown.drop_first() =~= entries.drop_first().push((event_type, now)));
        assert forall|k: int| 0 <= k < entries.drop_first().len() implies (
        #[trigger] entries.drop_first()[k]).0 != event_type by {
            assert(entries.drop_first()[k] == entries[k + 1]);
        }
        lemma_recorded_push(entries.drop_first(), event_type, now, other);
        assert(entries[0].0 != event_type);
    }
}

impl View for UnknownEventTypes {
    type V = Seq<(Seq<char>, u64)>;

    closed spec fn view(&self) -> Seq<(Seq<char>, u64)> {
        entries_view(self.entries@)
    }
}

impl UnknownEventTypes {
    /// A memory that holds no type.
    pub fn new() -> (m: Self)
        ensures
            forall|t: Seq<char>| spec_recorded(m@, t) is None,
    {
        let m = Self { entries: Vec::new() };
        assert(m@ =~= Seq::<(Seq<char>, u64)>::empty());
        m
    }

    /// Where the first entry of the type `event_type` is, if there is one.
    fn position(&self, event_type: &str) -> (r: Option<usize>)
        ensures
            match r {
                Some(i) => i < self.entries@.len() && self.entries@[i as int].0@ == event_type@
                    && forall|k: int| 0 <= k < i ==> (#[trigger] self@[k]).0 != event_type@,
                None => forall|k: int| 0 <= k < self@.len() ==> (#[trigger] self@[k]).0
                    != event_type@,
            },
    {
        let mut i: usize = 0;
        while i < self.entries.len()
            invariant
                i <= self.entries@.len(),
                self@.len() == self.entries@.len(),
                forall|k: int| 0 <= k < i ==> (#[trigger] self@[k]).0 != event_type@,
            decreases self.entries@.len() - i,
        {
            assert(self@[i as int].0 == self.entries@[i as int].0@);
            if str_equal(self.entries[i].0.as_str(), event_type) {
                return Some(i);
            }
            i += 1;
        }
        None
    }

    /// When the service last did not know the type `event_type`, if it ever
    /// did not.
    pub fn recorded(&self, event_type: &str) -> (r: Option<u64>)
        ensures
            r == spec_recorded(self@, event_type@),
    {
        match self.position(event_type) {
            Some(i) => {
                proof {
                    lemma_recorded_skip(self@, event_type@, i as int);
                    assert(self@.skip(i as int).first() == self@[i as int]);
                    assert(self@[i as int] == (self.entries@[i as int].0@, self.entries@[i as int].1));
                }
                Some(self.entries[i].1)
            },
            None => {
                proof {
                    lemma_recorded_skip(self@, event_type@, self@.len() as int);
                    assert(self@.skip(self@.len() as int) =~= Seq::<(Seq<char>, u64)>::empty());
                }
                None
            },
        }
    }

    /// Whether events of the type `event_type` are held back at `now`.
    pub fn suppressed(&self, event_type: &str, now: u64) -> (b: bool)
        ensures
            b == spec_suppressed(spec_recorded(self@, event_type@), now),
    {
        match self.recorded(event_type) {
            Some(at) => now < at || now - at < SUPPRESSION_MILLIS,
            None => false,
        }
    }

    /// Notes that the service did not know the type `event_type` at `now`.
    /// What is recorded for other types stays.
    pub fn record(&mut self, event_type: &str, now: u64)
        ensures
            forall|t: Seq<char>|
                #[trigger] spec_recorded(final(self)@, t) == (if t == event_type@ {
                    Some(now)
                } else {
                    spec_recorded(old(self)@, t)
                }),
    {
        let ghost before = self@;
        match self.position(event_type) {
            Some(i) => {
                let entry = (String::from_str(event_type), now);
                self.entries[i] = entry;
                proof {
                    assert(before[i as int].0 == event_type@);
                    assert(self@ =~= before.update(i as int, (before[i as int].0, now)));
                    assert forall|t: Seq<char>| #[trigger]
                        spec_recorded(self@, t) == (if t == event_type@ {
                            Some(now)
                        } else {
                            spec_recorded(before, t)
                        }) by {
                        lemma_recorded_update(before, i as int, now, t);
                    }
                }
            },
            None => {
                self.entries.push((String::from_str(event_type), now));
                proof {
                    assert(self@ =~= before.push((event_type@, now)));
                    assert forall|t: Seq<char>| #[trigger]
                        spec_recorded(self@, t) == (if t == event_type@ {
                            Some(now)
                        } else {
                            spec_recorded(before, t)
                        }) by {
                        lemma_recorded_push(before, event_type@, now, t);
                    }
                }
            },
        }
    }
}

/// How a post to the service ended.
#[derive(Debug, Clone)]
pub enum Hook0Outcome {
    /// The service accepted the event.
    Accepted,
    /// The service refused the event; `body` is what it answered.
    Rejected { body: Option<String> },
    /// The post failed before the service answered, or in another way.
    TransportError,
}

/// How a post to the service ended, as far as the decision depends on it.
#[derive(Debug, Clone, Copy, PartialEq, Eq, Structural)]
pub enum Hook0Answer {
    Accepted,
    Rejected(Hook0ErrorId),
    TransportError,
}

/// What the operator is told about.
#[derive(Debug, Clone, Copy, PartialEq, Eq, Structural)]
pub enum Notice {
    /// The service does not know the event type.
    UnknownEventType,
    /// The service refused the token.
    Unauthorized,
    /// The event was given up after the last attempt.
    RetriesExhausted,
}

/// What the webhook sink does with an event.
#[derive(Debug)]
pub enum Hook0Decision {
    /// The event is delivered.
    Delivered,
    /// The event is passed over; the session goes on as if it were
    /// delivered.
    Skipped { notice: Option<Notice> },
    /// Wait, then post again.
    Retry { delay_millis: u64 },
    /// The event is given up; the session gets the error.
    Failed { error: ReplicationError, notice: Option<Notice> },
    /// The token was refused: tell the operator and end the process.
    Terminate,
}

/// Mathematical content of a `Hook0Decision`.
pub enum Hook0DecisionView {
    Delivered,
    Skipped { notice: Option<Notice> },
    Retry { delay_millis: u64 },
    Failed { error: ErrorView, notice: Option<Notice> },
    Terminate,
}

impl View for Hook0Decision {
    type V = Hook0DecisionView;

    open spec fn view(&self) -> Hook0DecisionView {
        match *self {
            Hook0Decision::Delivered => Hook0DecisionView::Delivered,
            Hook0Decision::Skipped { notice } => Hook0DecisionView::Skipped { notice },
            Hook0Decision::Retry { delay_millis } => Hook0DecisionView::Retry { delay_millis },
            Hook0Decision::Failed { error, notice } => Hook0DecisionView::Failed {
                error: error@,
                notice,
            },
            Hook0Decision::Terminate => Hook0DecisionView::Terminate,
        }
    }
}

/// The error id that the body of an answer names: the text of its member
/// `id`. A body that is missing, is no JSON object, or names no id counts as
/// a failure of the service.
pub open spec fn spec_error_id(body: Option<Seq<char>>) -> Hook0ErrorId {
    match body {
        None => Hook0ErrorId::InternalServerError,
        Some(text) => match spec_parse_json(text) {
            None => Hook0ErrorId::InternalServerError,
            Some(document) => match document.members {
                None => Hook0ErrorId::InternalServerError,
                Some(members) => match spec_member_string(members, "id"@) {
                    None => Hook0ErrorId::InternalServerError,
                    Some(id) => Hook0ErrorId::spec_from_str(id),
                },
            },
        },
    }
}

/// The error id that the body of an answer names.
pub fn error_id(body: &Option<String>) -> (id: Hook0ErrorId)
    ensures
        id == spec_error_id(
            match *body {
                Some(b) => Some(b@),
                None => None,
            },
        ),
{
    let text = match body {
        Some(text) => text,
        None => {
            return Hook0ErrorId::InternalServerError;
        },
    };
    let document = match parse_json(text.as_str()) {
        Some(document) => document,
        None => {
            return Hook0ErrorId::InternalServerError;
        },
    };
    match document.member_string("id") {
        Some(id) => Hook0ErrorId::parse(id.as_str()),
        None => Hook0ErrorId::InternalServerError,
    }
}

/// The answer that an outcome amounts to.
pub open spec fn spec_answer(outcome: Hook0Outcome) -> Hook0Answer {
    match outcome {
        Hook0Outcome::Accepted => Hook0Answer::Accepted,
        Hook0Outcome::Rejected { body } => Hook0Answer::Rejected(
            spec_error_id(
                match body {
                    Some(b) => Some(b@),
                    None => None,
                },
            ),
        ),
        Hook0Outcome::TransportError => Hook0Answer::TransportError,
    }
}

/// Whether an answer is one that the retry policy counts and judges: too
/// many requests, a failure of the service, or a failure on the way.
pub open spec fn spec_is_retried(answer: Hook0Answer) -> bool {
    answer == Hook0Answer::Rejected(Hook0ErrorId::RateLimitExceeded) || answer
        == Hook0Answer::Rejected(Hook0ErrorId::InternalServerError) || answer
        == Hook0Answer::TransportError
}

/// The error of an event that the service will never accept.
pub open spec fn spec_refused() -> ErrorView {
    ErrorView::Sink { message: "The webhook service refused the event"@, sink: "hook0"@ }
}

/// The error of an event given up after the last attempt.
pub open spec fn spec_exhausted() -> ErrorView {
    ErrorView::Sink {
        message: "The webhook service did not accept the event in the attempts allowed"@,
        sink: "hook0"@,
    }
}

/// What the sink does after an answer, with `state` attempts made before:
/// an accepted event is delivered; an event of an unknown type is passed
/// over and the operator told; an event ingested before is passed over; a
/// refused token ends the process; an event with a bad id or payload is
/// given up at once; a failure of the service, too many requests and a
/// failure on the way are tried again by the policy. After the last attempt
/// an event is given up with an error, except that after failures on the
/// way it is passed over where the sink is set to go on.
pub open spec fn spec_hook0_decision(
    state: RetryState,
    config: RetryConfig,
    continue_on_transport_failure: bool,
    answer: Hook0Answer,
) -> Hook0DecisionView {
    match answer {
        Hook0Answer::Accepted => Hook0DecisionView::Delivered,
        Hook0Answer::Rejected(Hook0ErrorId::EventTypeDoesNotExist) => Hook0DecisionView::Skipped {
            notice: Some(Notice::UnknownEventType),
        },
        Hook0Answer::Rejected(Hook0ErrorId::EventAlreadyIngested) => Hook0DecisionView::Skipped {
            notice: None,
        },
        Hook0Answer::Rejected(Hook0ErrorId::Unauthorized) => Hook0DecisionView::Terminate,
        Hook0Answer::Rejected(Hook0ErrorId::InvalidEventId)
        | Hook0Answer::Rejected(Hook0ErrorId::InvalidPayload) => Hook0DecisionView::Failed {
            error: spec_refused(),
            notice: None,
        },
        Hook0Answer::Rejected(Hook0ErrorId::RateLimitExceeded)
        | Hook0Answer::Rejected(Hook0ErrorId::InternalServerError) => match state.spec_verdict(
            config,
            AttemptOutcome::Transient,
        ) {
            RetryVerdict::Retry { delay_millis } => Hook0DecisionView::Retry { delay_millis },
            _ => Hook0DecisionView::Failed {
                error: spec_exhausted(),
                notice: Some(Notice::RetriesExhausted),
            },
        },
        Hook0Answer::TransportError => match state.spec_verdict(config, AttemptOutcome::Transient) {
            RetryVerdict::Retry { delay_millis } => Hook0DecisionView::Retry { delay_millis },
            _ => if continue_on_transport_failure {
                Hook0DecisionView::Skipped { notice: Some(Notice::RetriesExhausted) }
            } else {
                Hook0DecisionView::Failed {
                    error: spec_exhausted(),
                    notice: Some(Notice::RetriesExhausted),
                }
            },
        },
    }
}

/// What the sink does with a message before any post: it posts the event
/// that the message is, or passes the message over.
#[derive(Debug)]
pub enum Hook0Start {
    /// Nothing is posted.
    Skip,
    /// Post `event`, and answer with `on_outcome`.
    Send { event: Hook0Event },
}

/// Mathematical content of a `Hook0Start`.
pub enum Hook0StartView {
    Skip,
    Send { event: Hook0EventView },
}

impl View for Hook0Start {
    type V = Hook0StartView;

    open spec fn view(&self) -> Hook0StartView {
        match *self {
            Hook0Start::Skip => Hook0StartView::Skip,
            Hook0Start::Send { event } => Hook0StartView::Send { event: event@ },
        }
    }
}

/// What the sink does with a message before any post. A message that gives
/// no row, a row that is no event of the events table, and an event of a
/// type that is held back are passed over; any other event is posted.
pub open spec fn spec_hook0_start(
    relations: DecoderRelations,
    unknown: Seq<(Seq<char>, u64)>,
    message: MessageView,
    now: u64,
) -> Hook0StartView {
    match spec_decoded_row(relations, message) {
        None => Hook0StartView::Skip,
        Some(row) => match spec_parse_event_row(row) {
            Err(_) => Hook0StartView::Skip,
            Ok(event) => match spec_envelope(event) {
                None => Hook0StartView::Skip,
                Some(envelope) => if spec_suppressed(
                    spec_recorded(unknown, event.event_type),
                    now,
                ) {
                    Hook0StartView::Skip
                } else {
                    Hook0StartView::Send { event: envelope }
                },
            },
        },
    }
}

/// The rules of the webhook sink.
#[derive(Debug)]
pub struct Hook0Sink {
    /// The retry policy.
    pub retry_config: RetryConfig,
    /// Whether an event that could not be posted in the attempts allowed is
    /// passed over rather than reported as an error.
    pub continue_on_transport_failure: bool,
    /// The typed columns of the relations announced.
    pub decoder: ReplicationEventDecoder,
    /// The event types that the service did not know.
    pub unknown_event_types: UnknownEventTypes,
}

impl Hook0Sink {
    /// A sink with the delivery policy that goes on after failures on the
    /// way.
    pub fn new() -> (s: Self)
        ensures
            s.retry_config == RetryConfig::spec_delivery(),
            s.continue_on_transport_failure,
            s.decoder@ == Map::<u32, Seq<crate::events::pg_type_conversion::TypedColumnView>>::empty(),
            forall|t: Seq<char>| spec_recorded(s.unknown_event_types@, t) is None,
    {
        Hook0Sink {
            retry_config: RetryConfig::delivery(),
            continue_on_transport_failure: true,
            decoder: ReplicationEventDecoder::new(),
            unknown_event_types: UnknownEventTypes::new(),
        }
    }

    /// Takes a message at `now`, in milliseconds: remembers a schema, and
    /// says whether an event is to be posted for the message.
    pub fn begin(&mut self, message: &ReplicationMessage, now: u64) -> (start: Hook0Start)
        ensures
            start@ == spec_hook0_start(
                old(self).decoder@,
                old(self).unknown_event_types@,
                message@,
                now,
            ),
            final(self).decoder@ == spec_decoder_after(old(self).decoder@, message@),
            final(self).unknown_event_types@ == old(self).unknown_event_types@,
            final(self).retry_config == old(self).retry_config,
            final(self).continue_on_transport_failure == old(self).continue_on_transport_failure,
    {
        let row = match self.decoder.decode(message) {
            Some(row) => row,
            None => {
                return Hook0Start::Skip;
            },
        };
        let event = match parse_event_row(&row) {
            Ok(event) => event,
            Err(_) => {
                return Hook0Start::Skip;
            },
        };
        let envelope = match envelope(&event) {
            Some(envelope) => envelope,
            None => {
                return Hook0Start::Skip;
            },
        };
        if self.unknown_event_types.suppressed(event.event_type.as_str(), now) {
            return Hook0Start::Skip;
        }
        Hook0Start::Send { event: envelope }
    }

    /// Takes the end of a post of an event of the type `event_type` at
    /// `now`, in milliseconds, with the attempts made for the event so far,
    /// and says what to do next. A type that the service does not know is
    /// remembered as unknown at `now`.
    pub fn on_outcome(
        &mut self,
        attempts: &mut RetryState,
        event_type: &str,
        outcome: Hook0Outcome,
        now: u64,
    ) -> (decision: Hook0Decision)
        ensures
            decision@ == spec_hook0_decision(
                *old(attempts),
                old(self).retry_config,
                old(self).continue_on_transport_failure,
                spec_answer(outcome),
            ),
            final(self).retry_config == old(self).retry_config,
            final(self).continue_on_transport_failure == old(self).continue_on_transport_failure,
            final(self).decoder@ == old(self).decoder@,
            final(attempts).attempts == (if spec_is_retried(spec_answer(outcome)) {
                spec_saturating_count(old(attempts).attempts)
            } else {
                old(attempts).attempts
            }),
            forall|t: Seq<char>|
                #[trigger] spec_recorded(final(self).unknown_event_types@, t) == (if t
                    == event_type@ && spec_answer(outcome) == Hook0Answer::Rejected(
                    Hook0ErrorId::EventTypeDoesNotExist,
                ) {
                    Some(now)
                } else {
                    spec_recorded(old(self).unknown_event_types@, t)
                }),
    {
        let answer = match outcome {
            Hook0Outcome::Accepted => Hook0Answer::Accepted,
            Hook0Outcome::Rejected { body } => Hook0Answer::Rejected(error_id(&body)),
            Hook0Outcome::TransportError => Hook0Answer::TransportError,
        };
        let config = self.retry_config;
        match answer {
            Hook0Answer::Accepted => Hook0Decision::Delivered,
            Hook0Answer::Rejected(id) => match id {
                Hook0ErrorId::EventTypeDoesNotExist => {
                    self.unknown_event_types.record(event_type, now);
                    Hook0Decision::Skipped { notice: Some(Notice::UnknownEventType) }
                },
                Hook0ErrorId::EventAlreadyIngested => Hook0Decision::Skipped { notice: None },
                Hook0ErrorId::Unauthorized => Hook0Decision::Terminate,
                Hook0ErrorId::InvalidEventId | Hook0ErrorId::InvalidPayload => {
                    Hook0Decision::Failed {
                        error: ReplicationError::sink(
                            "The webhook service refused the event",
                            "hook0",
                        ),
                        notice: None,
                    }
                },
                Hook0ErrorId::RateLimitExceeded | Hook0ErrorId::InternalServerError => {
                    match attempts.record(&config, AttemptOutcome::Transient) {
                        RetryVerdict::Retry { delay_millis } => Hook0Decision::Retry {
                            delay_millis,
                        },
                        _ => Hook0Decision::Failed {
                            error: ReplicationError::sink(
                                "The webhook service did not accept the event in the attempts allowed",
                                "hook0",
                            ),
                            notice: Some(Notice::RetriesExhausted),
                        },
                    }
                },
            },
            Hook0Answer::TransportError => {
                match attempts.record(&config, AttemptOutcome::Transient) {
                    RetryVerdict::Retry { delay_millis } => Hook0Decision::Retry { delay_millis },
                    _ => {
                        if self.continue_on_transport_failure {
                            Hook0Decision::Skipped { notice: Some(Notice::RetriesExhausted) }
                        } else {
                            Hook0Decision::Failed {
                                error: ReplicationError::sink(
                                    "The webhook service did not accept the event in the attempts allowed",
                                    "hook0",
                                ),
                                notice: Some(Notice::RetriesExhausted),
                            }
                        }
                    },
                }
            },
        }
    }
}

/// An event of a type that the service did not know is held back for five
/// minutes and no longer: once the service has answered that it does not
/// know the type of an event, no event of that type is posted within five
/// minutes of the answer, whatever the message that carries it.
pub proof fn lemma_unknown_type_is_held_back(
    relations: DecoderRelations,
    unknown: Seq<(Seq<char>, u64)>,
    message: MessageView,
    answered_at: u64,
    now: u64,
)
    requires
        spec_decoded_row(relations, message) matches Some(row) && spec_parse_event_row(
            row,
        ) matches Ok(event) && spec_recorded(unknown, event.event_type) == Some(answered_at),
        now - answered_at < SUPPRESSION_MILLIS,
    ensures
        spec_hook0_start(relations, unknown, message, now) == Hook0StartView::Skip,
{
}

} // verus!
