//! The sink that posts events to an HTTP endpoint: how an answer is judged.

use vstd::prelude::*;
use vstd::string::StringExecFns;
use crate::events::json::no_members;
use crate::events::json::number;
use crate::events::json::object_of;
use crate::events::json::object_view;
use crate::events::json::push_member;
use crate::events::json::text;
use crate::events::json::JsonValue;
use crate::events::json::JsonView;
use crate::protocol::messages::ColumnData;
use crate::protocol::messages::ColumnDataView;
use crate::protocol::messages::ColumnInfoView;
use crate::protocol::messages::MessageView;
use crate::protocol::messages::RelationInfo;
use crate::protocol::messages::RelationInfoView;
use crate::protocol::messages::ReplicationMessage;
use crate::protocol::messages::TupleData;
use crate::protocol::messages::TupleDataView;
use crate::utils::text::char_string;
use crate::errors::ErrorView;
use crate::errors::ReplicationError;
use crate::events::sink::spec_saturating_count;
use crate::events::sink::AttemptOutcome;
use crate::events::sink::RetryConfig;
use crate::events::sink::RetryState;
use crate::events::sink::RetryVerdict;

verus! {

/// Settings of the HTTP sink.
#[derive(Debug, Clone)]
pub struct HttpEventSinkConfig {
    /// Where events are posted.
    pub endpoint_url: String,
}

/// Status that says the endpoint had too many requests.
pub const STATUS_TOO_MANY_REQUESTS: u16 = 429;

/// How a post to the endpoint ended.
#[derive(Debug, Clone, Copy, PartialEq, Eq, Structural)]
pub enum HttpOutcome {
    /// The endpoint answered with a status.
    Status(u16),
    /// No answer came: the request failed on the way.
    NetworkError,
}

/// How the retry policy sees the end of a post: a status from 200 to 299
/// means accepted; no answer, a status from 500 to 599 and status 429 may
/// pass; anything else will not.
pub open spec fn spec_classify(outcome: HttpOutcome) -> AttemptOutcome {
    match outcome {
        HttpOutcome::NetworkError => AttemptOutcome::Transient,
        HttpOutcome::Status(code) => if 200 <= code <= 299 {
            AttemptOutcome::Accepted
        } else if 500 <= code <= 599 || code == STATUS_TOO_MANY_REQUESTS {
            AttemptOutcome::Transient
        } else {
            AttemptOutcome::Permanent
        },
    }
}

/// How the retry policy sees the end of a post.
pub fn classify(outcome: HttpOutcome) -> (c: AttemptOutcome)
    ensures
        c == spec_classify(outcome),
{
    match outcome {
        HttpOutcome::NetworkError => AttemptOutcome::Transient,
        HttpOutcome::Status(code) => {
            if 200 <= code && code <= 299 {
                AttemptOutcome::Accepted
            } else if (500 <= code && code <= 599) || code == STATUS_TOO_MANY_REQUESTS {
                AttemptOutcome::Transient
            } else {
                AttemptOutcome::Permanent
            }
        },
    }
}

/// What the HTTP sink does after a post.
#[derive(Debug)]
pub enum HttpDecision {
    /// The event is delivered.
    Delivered,
    /// Wait, then post again.
    Retry { delay_millis: u64 },
    /// Give the event up, tell the operator, and report the error.
    Failed { error: ReplicationError },
}

/// Mathematical content of an `HttpDecision`.
pub enum HttpDecisionView {
    Delivered,
    Retry { delay_millis: u64 },
    Failed { error: ErrorView },
}

impl View for HttpDecision {
    type V = HttpDecisionView;

    open spec fn view(&self) -> HttpDecisionView {
        match *self {
            HttpDecision::Delivered => HttpDecisionView::Delivered,
            HttpDecision::Retry { delay_millis } => HttpDecisionView::Retry { delay_millis },
            HttpDecision::Failed { error } => HttpDecisionView::Failed { error: error@ },
        }
    }
}

/// The error of an event given up by the HTTP sink.
pub open spec fn spec_http_failure(outcome: HttpOutcome) -> ErrorView {
    ErrorView::Sink {
        message: match outcome {
            HttpOutcome::NetworkError => "HTTP request failed"@,
            HttpOutcome::Status(_) => "HTTP endpoint refused the event"@,
        },
        sink: "http"@,
    }
}

/// What the HTTP sink does after a post that ended in `outcome`, with
/// `state` attempts made before.
pub open spec fn spec_http_decision(
    state: RetryState,
    config: RetryConfig,
    outcome: HttpOutcome,
) -> HttpDecisionView {
    match state.spec_verdict(config, spec_classify(outcome)) {
        RetryVerdict::Done => HttpDecisionView::Delivered,
        RetryVerdict::Retry { delay_millis } => HttpDecisionView::Retry { delay_millis },
        RetryVerdict::GiveUp => HttpDecisionView::Failed { error: spec_http_failure(outcome) },
    }
}

/// The delivery of one event to the HTTP endpoint.
#[derive(Debug, Clone, Copy, PartialEq, Eq, Structural)]
pub struct HttpDelivery {
    pub config: RetryConfig,
    pub state: RetryState,
}

impl HttpDelivery {
    /// A delivery under the policy `config`, before its first attempt.
    pub fn new(config: RetryConfig) -> (d: Self)
        ensures
            d.config == config,
            d.state.attempts == 0,
    {
        HttpDelivery { config, state: RetryState::new() }
    }

    /// Takes the end of a post and says what to do next.
    pub fn on_outcome(&mut self, outcome: HttpOutcome) -> (decision: HttpDecision)
        ensures
            decision@ == spec_http_decision(old(self).state, old(self).config, outcome),
            final(self).config == old(self).config,
            final(self).state.attempts == (if spec_classify(outcome) == AttemptOutcome::Accepted {
                old(self).state.attempts
            } else {
                spec_saturating_count(old(self).state.attempts)
            }),
    {
        let config = self.config;
        match self.state.record(&config, classify(outcome)) {
            RetryVerdict::Done => HttpDecision::Delivered,
            RetryVerdict::Retry { delay_millis } => HttpDecision::Retry { delay_millis },
            RetryVerdict::GiveUp => {
                let message = match outcome {
                    HttpOutcome::NetworkError => "HTTP request failed",
                    HttpOutcome::Status(_) => "HTTP endpoint refused the event",
                };
                HttpDecision::Failed { error: ReplicationError::sink(message, "http") }
            },
        }
    }
}

/// A number that may be missing, as JSON: the number, or null.
pub open spec fn spec_optional_number(x: Option<u32>) -> JsonView {
    match x {
        Some(v) => JsonView::Number(v as int),
        None => JsonView::Null,
    }
}

/// A cell as it is posted: its kind, its declared length and its text.
pub open spec fn spec_cell_payload(cell: ColumnDataView) -> JsonView {
    JsonView::Object(
        seq![
            ("data_type"@, JsonView::String(seq![cell.data_type])),
            ("length"@, JsonView::Number(cell.length as int)),
            ("data"@, JsonView::String(cell.data)),
        ],
    )
}

/// A tuple as it is posted: its declared count, its cells in order, and the
/// number of bytes it took on the wire.
pub open spec fn spec_tuple_payload(tuple: TupleDataView) -> JsonView {
    JsonView::Object(
        seq![
            ("column_count"@, JsonView::Number(tuple.column_count as int)),
            (
                "columns"@,
                JsonView::Array(tuple.columns.map_values(|c: ColumnDataView| spec_cell_payload(c))),
            ),
            ("processed_length"@, JsonView::Number(tuple.processed_length as int)),
        ],
    )
}

/// A column of a schema as it is posted.
pub open spec fn spec_column_payload(column: ColumnInfoView) -> JsonView {
    JsonView::Object(
        seq![
            ("key_flag"@, JsonView::Number(column.key_flag as int)),
            ("column_name"@, JsonView::String(column.column_name)),
            ("column_type"@, JsonView::Number(column.column_type as int)),
            ("atttypmod"@, JsonView::Number(column.atttypmod as int)),
        ],
    )
}

/// A schema as it is posted.
pub open spec fn spec_relation_payload(relation: RelationInfoView) -> JsonView {
    JsonView::Object(
        seq![
            ("oid"@, JsonView::Number(relation.oid as int)),
            ("namespace"@, JsonView::String(relation.namespace)),
            ("relation_name"@, JsonView::String(relation.relation_name)),
            ("replica_identity"@, JsonView::String(seq![relation.replica_identity])),
            ("column_count"@, JsonView::Number(relation.column_count as int)),
            (
                "columns"@,
                JsonView::Array(
                    relation.columns.map_values(|c: ColumnInfoView| spec_column_payload(c)),
                ),
            ),
        ],
    )
}

/// The name of the kind of a message as it is posted.
pub open spec fn spec_payload_type(m: MessageView) -> Seq<char> {
    match m {
        MessageView::Begin { .. } => "begin"@,
        MessageView::Commit { .. } => "commit"@,
        MessageView::Relation { .. } => "relation"@,
        MessageView::Insert { .. } => "insert"@,
        MessageView::Update { .. } => "update"@,
        MessageView::Delete { .. } => "delete"@,
        MessageView::Truncate { .. } => "truncate"@,
        MessageView::StreamStart { .. } => "stream_start"@,
        MessageView::StreamStop => "stream_stop"@,
        MessageView::StreamCommit { .. } => "stream_commit"@,
        MessageView::StreamAbort { .. } => "stream_abort"@,
    }
}

/// The members that follow the kind in the JSON that is posted for a
/// message: the fields of the message under their names, a missing
/// transaction id, key kind or old tuple as null, tuples with the kind,
/// length and text of every cell.
pub open spec fn spec_payload_fields(m: MessageView) -> Seq<(Seq<char>, JsonView)> {
    match m {
        MessageView::Begin { final_lsn, timestamp, xid } => seq![
            ("final_lsn"@, JsonView::Number(final_lsn as int)),
            ("timestamp"@, JsonView::Number(timestamp as int)),
            ("xid"@, JsonView::Number(xid as int)),
        ],
        MessageView::Commit { flags, commit_lsn, end_lsn, timestamp } => seq![
            ("flags"@, JsonView::Number(flags as int)),
            ("commit_lsn"@, JsonView::Number(commit_lsn as int)),
            ("end_lsn"@, JsonView::Number(end_lsn as int)),
            ("timestamp"@, JsonView::Number(timestamp as int)),
        ],
        MessageView::Relation { relation } => seq![("relation"@, spec_relation_payload(relation))],
        MessageView::Insert { relation_id, tuple_data, is_stream, xid } => seq![
            ("relation_id"@, JsonView::Number(relation_id as int)),
            ("tuple_data"@, spec_tuple_payload(tuple_data)),
            ("is_stream"@, JsonView::Bool(is_stream)),
            ("xid"@, spec_optional_number(xid)),
        ],
        MessageView::Update {
            relation_id,
            key_type,
            old_tuple_data,
            new_tuple_data,
            is_stream,
            xid,
        } => seq![
            ("relation_id"@, JsonView::Number(relation_id as int)),
            (
                "key_type"@,
                match key_type {
                    Some(k) => JsonView::String(seq![k]),
                    None => JsonView::Null,
                },
            ),
            (
                "old_tuple_data"@,
                match old_tuple_data {
                    Some(old) => spec_tuple_payload(old),
                    None => JsonView::Null,
                },
            ),
            ("new_tuple_data"@, spec_tuple_payload(new_tuple_data)),
            ("is_stream"@, JsonView::Bool(is_stream)),
            ("xid"@, spec_optional_number(xid)),
        ],
        MessageView::Delete { relation_id, key_type, tuple_data, is_stream, xid } => seq![
            ("relation_id"@, JsonView::Number(relation_id as int)),
            ("key_type"@, JsonView::String(seq![key_type])),
            ("tuple_data"@, spec_tuple_payload(tuple_data)),
            ("is_stream"@, JsonView::Bool(is_stream)),
            ("xid"@, spec_optional_number(xid)),
        ],
        MessageView::Truncate { relation_ids, flags, is_stream, xid } => seq![
            (
                "relation_ids"@,
                JsonView::Array(relation_ids.map_values(|id: u32| JsonView::Number(id as int))),
            ),
            ("flags"@, JsonView::Number(flags as int)),
            ("is_stream"@, JsonView::Bool(is_stream)),
            ("xid"@, spec_optional_number(xid)),
        ],
        MessageView::StreamStart { xid, first_segment } => seq![
            ("xid"@, JsonView::Number(xid as int)),
            ("first_segment"@, JsonView::Bool(first_segment)),
        ],
        MessageView::StreamStop => Seq::empty(),
        MessageView::StreamCommit { xid, flags, commit_lsn, end_lsn, timestamp } => seq![
            ("xid"@, JsonView::Number(xid as int)),
            ("flags"@, JsonView::Number(flags as int)),
            ("commit_lsn"@, JsonView::Number(commit_lsn as int)),
            ("end_lsn"@, JsonView::Number(end_lsn as int)),
            ("timestamp"@, JsonView::Number(timestamp as int)),
        ],
        MessageView::StreamAbort { xid, subtransaction_xid } => seq![
            ("xid"@, JsonView::Number(xid as int)),
            ("subtransaction_xid"@, JsonView::Number(subtransaction_xid as int)),
        ],
    }
}

/// The JSON that is posted for a message: an object with the kind of the
/// message under `type`, and then its fields.
pub open spec fn spec_http_payload(m: MessageView) -> JsonView {
    JsonView::Object(
        seq![("type"@, JsonView::String(spec_payload_type(m)))] + spec_payload_fields(m),
    )
}

/// A number that may be missing, as JSON.
fn optional_number(x: Option<u32>) -> (v: JsonValue)
    ensures
        v@ == spec_optional_number(x),
{
    match x {
        Some(n) => number(n as i128),
        None => JsonValue::Null,
    }
}

/// A cell as it is posted.
fn cell_payload(cell: &ColumnData) -> (v: JsonValue)
    ensures
        v@ == spec_cell_payload(cell@),
{
    let mut members = no_members();
    push_member(&mut members, "data_type", text(char_string(cell.data_type)));
    push_member(&mut members, "length", number(cell.length as i128));
    push_member(&mut members, "data", text(cell.data.clone()));
    let v = object_of(members);
    assert(v@->Object_0 =~= spec_cell_payload(cell@)->Object_0);
    v
}

/// A tuple as it is posted.
pub fn tuple_payload(tuple: &TupleData) -> (v: JsonValue)
    ensures
        v@ == spec_tuple_payload(tuple@),
{
    let mut cells: Vec<JsonValue> = Vec::new();
    let mut i: usize = 0;
    while i < tuple.columns.len()
        invariant
            i <= tuple.columns@.len(),
            cells@.len() == i,
            forall|k: int| 0 <= k < i ==> (#[trigger] cells@[k])@ == spec_cell_payload(
                tuple.columns@[k]@,
            ),
        decreases tuple.columns@.len() - i,
    {
        cells.push(cell_payload(&tuple.columns[i]));
        i += 1;
    }
    let columns = JsonValue::array(cells);
    assert(columns@->Array_0 =~= tuple@.columns.map_values(
        |c: ColumnDataView| spec_cell_payload(c),
    ));
    let mut members = no_members();
    push_member(&mut members, "column_count", number(tuple.column_count as i128));
    push_member(&mut members, "columns", columns);
    push_member(&mut members, "processed_length", number(tuple.processed_length as i128));
    let v = object_of(members);
    assert(v@->Object_0 =~= spec_tuple_payload(tuple@)->Object_0);
    v
}

/// A schema as it is posted.
pub fn relation_payload(relation: &RelationInfo) -> (v: JsonValue)
    ensures
        v@ == spec_relation_payload(relation@),
{
    let mut items: Vec<JsonValue> = Vec::new();
    let mut i: usize = 0;
    while i < relation.columns.len()
        invariant
            i <= relation.columns@.len(),
            items@.len() == i,
            forall|k: int| 0 <= k < i ==> (#[trigger] items@[k])@ == spec_column_payload(
                relation.columns@[k]@,
            ),
        decreases relation.columns@.len() - i,
    {
        let column = &relation.columns[i];
        let mut members = no_members();
        push_member(&mut members, "key_flag", number(column.key_flag as i128));
        push_member(&mut members, "column_name", text(column.column_name.clone()));
        push_member(&mut members, "column_type", number(column.column_type as i128));
        push_member(&mut members, "atttypmod", number(column.atttypmod as i128));
        let item = object_of(members);
        assert(item@->Object_0 =~= spec_column_payload(column@)->Object_0);
        items.push(item);
        i += 1;
    }
    let columns = JsonValue::array(items);
    assert(columns@->Array_0 =~= relation@.columns.map_values(
        |c: ColumnInfoView| spec_column_payload(c),
    ));
    let mut members = no_members();
    push_member(&mut members, "oid", number(relation.oid as i128));
    push_member(&mut members, "namespace", text(relation.namespace.clone()));
    push_member(&mut members, "relation_name", text(relation.relation_name.clone()));
    push_member(&mut members, "replica_identity", text(char_string(relation.replica_identity)));
    push_member(&mut members, "column_count", number(relation.column_count as i128));
    push_member(&mut members, "columns", columns);
    let v = object_of(members);
    assert(v@->Object_0 =~= spec_relation_payload(relation@)->Object_0);
    v
}

/// The relation ids of a Truncate as they are posted.
fn relation_ids_payload(ids: &Vec<u32>) -> (v: JsonValue)
    ensures
        v@ == JsonView::Array(ids@.map_values(|id: u32| JsonView::Number(id as int))),
{
    let mut items: Vec<JsonValue> = Vec::new();
    let mut i: usize = 0;
    while i < ids.len()
        invariant
            i <= ids@.len(),
            items@.len() == i,
            forall|k: int| 0 <= k < i ==> (#[trigger] items@[k])@ == JsonView::Number(
                ids@[k] as int,
            ),
        decreases ids@.len() - i,
    {
        items.push(number(ids[i] as i128));
        i += 1;
    }
    let v = JsonValue::array(items);
    assert(v@->Array_0 =~= ids@.map_values(|id: u32| JsonView::Number(id as int)));
    v
}

/// The members that follow the kind in the JSON of a change of rows.
fn change_fields(message: &ReplicationMessage, members: &mut Vec<(String, JsonValue)>)
    requires
        message is Insert || message is Update || message is Delete || message is Truncate,
    ensures
        object_view(final(members)@) == object_view(old(members)@) + spec_payload_fields(message@),
{
    let ghost before = object_view(members@);
    match message {
        ReplicationMessage::Insert { relation_id, tuple_data, is_stream, xid } => {
            push_member(members, "relation_id", number(*relation_id as i128));
            push_member(members, "tuple_data", tuple_payload(tuple_data));
            push_member(members, "is_stream", JsonValue::Bool(*is_stream));
            push_member(members, "xid", optional_number(*xid));
        },
        ReplicationMessage::Update {
            relation_id,
            key_type,
            old_tuple_data,
            new_tuple_data,
            is_stream,
            xid,
        } => {
            let key = match key_type {
                Some(k) => text(char_string(*k)),
                None => JsonValue::Null,
            };
            let old = match old_tuple_data {
                Some(old) => tuple_payload(old),
                None => JsonValue::Null,
            };
            push_member(members, "relation_id", number(*relation_id as i128));
            push_member(members, "key_type", key);
            push_member(members, "old_tuple_data", old);
            push_member(members, "new_tuple_data", tuple_payload(new_tuple_data));
            push_member(members, "is_stream", JsonValue::Bool(*is_stream));
            push_member(members, "xid", optional_number(*xid));
        },
        ReplicationMessage::Delete { relation_id, key_type, tuple_data, is_stream, xid } => {
            push_member(members, "relation_id", number(*relation_id as i128));
            push_member(members, "key_type", text(char_string(*key_type)));
            push_member(members, "tuple_data", tuple_payload(tuple_data));
            push_member(members, "is_stream", JsonValue::Bool(*is_stream));
            push_member(members, "xid", optional_number(*xid));
        },
        ReplicationMessage::Truncate { relation_ids, flags, is_stream, xid } => {
            push_member(members, "relation_ids", relation_ids_payload(relation_ids));
            push_member(members, "flags", number(*flags as i128));
            push_member(members, "is_stream", JsonValue::Bool(*is_stream));
            push_member(members, "xid", optional_number(*xid));
        },
        _ => {},
    }
    assert(object_view(members@) =~= before + spec_payload_fields(message@));
}

/// The members that follow the kind in the JSON of a message that changes
/// no rows.
fn control_fields(message: &ReplicationMessage, members: &mut Vec<(String, JsonValue)>)
    requires
        !(message is Insert || message is Update || message is Delete || message is Truncate),
    ensures
        object_view(final(members)@) == object_view(old(members)@) + spec_payload_fields(message@),
{
    let ghost before = object_view(members@);
    match message {
        ReplicationMessage::Begin { final_lsn, timestamp, xid } => {
            push_member(members, "final_lsn", number(*final_lsn as i128));
            push_member(members, "timestamp", number(*timestamp as i128));
            push_member(members, "xid", number(*xid as i128));
        },
        ReplicationMessage::Commit { flags, commit_lsn, end_lsn, timestamp } => {
            push_member(members, "flags", number(*flags as i128));
            push_member(members, "commit_lsn", number(*commit_lsn as i128));
            push_member(members, "end_lsn", number(*end_lsn as i128));
            push_member(members, "timestamp", number(*timestamp as i128));
        },
        ReplicationMessage::Relation { relation } => {
            push_member(members, "relation", relation_payload(relation));
        },
        ReplicationMessage::StreamStart { xid, first_segment } => {
            push_member(members, "xid", number(*xid as i128));
            push_member(members, "first_segment", JsonValue::Bool(*first_segment));
        },
        ReplicationMessage::StreamCommit { xid, flags, commit_lsn, end_lsn, timestamp } => {
            push_member(members, "xid", number(*xid as i128));
            push_member(members, "flags", number(*flags as i128));
            push_member(members, "commit_lsn", number(*commit_lsn as i128));
            push_member(members, "end_lsn", number(*end_lsn as i128));
            push_member(members, "timestamp", number(*timestamp as i128));
        },
        ReplicationMessage::StreamAbort { xid, subtransaction_xid } => {
            push_member(members, "xid", number(*xid as i128));
            push_member(members, "subtransaction_xid", number(*subtransaction_xid as i128));
        },
        _ => {},
    }
    assert(object_view(members@) =~= before + spec_payload_fields(message@));
}

/// The name of the kind of a message as it is posted.
pub fn payload_type(message: &ReplicationMessage) -> (name: &'static str)
    ensures
        name@ == spec_payload_type(message@),
{
    match message {
        ReplicationMessage::Begin { .. } => "begin",
        ReplicationMessage::Commit { .. } => "commit",
        ReplicationMessage::Relation { .. } => "relation",
        ReplicationMessage::Insert { .. } => "insert",
        ReplicationMessage::Update { .. } => "update",
        ReplicationMessage::Delete { .. } => "delete",
        ReplicationMessage::Truncate { .. } => "truncate",
        ReplicationMessage::StreamStart { .. } => "stream_start",
        ReplicationMessage::StreamStop => "stream_stop",
        ReplicationMessage::StreamCommit { .. } => "stream_commit",
        ReplicationMessage::StreamAbort { .. } => "stream_abort",
    }
}

/// The JSON that is posted for a message.
pub fn payload(message: &ReplicationMessage) -> (v: JsonValue)
    ensures
        v@ == spec_http_payload(message@),
{
    let mut members = no_members();
    push_member(&mut members, "type", text(String::from_str(payload_type(message))));
    match message {
        ReplicationMessage::Insert { .. }
        | ReplicationMessage::Update { .. }
        | ReplicationMessage::Delete { .. }
        | ReplicationMessage::Truncate { .. } => {
            change_fields(message, &mut members);
        },
        _ => {
            control_fields(message, &mut members);
        },
    }
    let v = object_of(members);
    assert(v@->Object_0 =~= spec_http_payload(message@)->Object_0);
    v
}

} // verus!
