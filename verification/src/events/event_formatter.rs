//! From replication messages to events with a JSON body.

use std::collections::HashMap;
use vstd::prelude::*;
use vstd::string::StringExecFns;
use crate::errors::ErrorView;
use crate::errors::ReplicationError;
use crate::events::json::lemma_array_push;
use crate::events::json::member;
use crate::events::json::no_members;
use crate::events::json::number;
use crate::events::json::object_of;
use crate::events::json::push_member;
use crate::events::json::text;
use crate::events::json::object_view;
use crate::events::json::pairs_view;
use crate::events::json::JsonValue;
use crate::events::json::JsonView;
use crate::protocol::messages::column_data_view;
use crate::protocol::messages::column_infos_view;
use crate::protocol::messages::ColumnDataView;
use crate::protocol::messages::ColumnInfoView;
use crate::protocol::messages::MessageView;
use crate::protocol::messages::RelationInfo;
use crate::protocol::messages::RelationInfoView;
use crate::protocol::messages::ReplicationMessage;
use crate::protocol::messages::TupleData;
use crate::protocol::messages::TupleDataView;
use crate::replication::state::relations_view;
use crate::utils::text::bool_string;
use crate::utils::text::char_string;
use crate::utils::text::decimal_string;
use crate::utils::text::signed_decimal_string;
use crate::utils::text::spec_bool_text;
use crate::utils::text::spec_decimal;
use crate::utils::text::spec_signed_decimal;
use crate::utils::text::spec_truncated;
use crate::utils::text::truncated;

verus! {

/// Longest text of a field of an event unless told otherwise, in bytes.
pub const DEFAULT_MAX_FIELD_LENGTH: usize = 1000;

/// Longest text of a field of a webhook event, in bytes.
pub const WEBHOOK_MAX_FIELD_LENGTH: usize = 500;

/// An event ready for a sink.
#[derive(Debug)]
pub struct FormattedEvent {
    /// begin, commit, insert, update, delete, truncate, relation,
    /// stream_start, stream_stop, stream_commit or stream_abort.
    pub event_type: String,
    pub transaction_id: Option<u32>,
    pub lsn: Option<u64>,
    pub timestamp: Option<i64>,
    pub schema: Option<String>,
    pub table: Option<String>,
    /// The body of the event.
    pub data: JsonValue,
    /// Notes on the event, by name, in the order in which they were made.
    pub metadata: Vec<(String, String)>,
}

/// Mathematical content of a `FormattedEvent`.
pub struct FormattedEventView {
    pub event_type: Seq<char>,
    pub transaction_id: Option<u32>,
    pub lsn: Option<u64>,
    pub timestamp: Option<i64>,
    pub schema: Option<Seq<char>>,
    pub table: Option<Seq<char>>,
    pub data: JsonView,
    pub metadata: Seq<(Seq<char>, Seq<char>)>,
}

impl View for FormattedEvent {
    type V = FormattedEventView;

    open spec fn view(&self) -> FormattedEventView {
        FormattedEventView {
            event_type: self.event_type@,
            transaction_id: self.transaction_id,
            lsn: self.lsn,
            timestamp: self.timestamp,
            schema: match self.schema {
                Some(s) => Some(s@),
                None => None,
            },
            table: match self.table {
                Some(s) => Some(s@),
                None => None,
            },
            data: self.data@,
            metadata: pairs_view(self.metadata@),
        }
    }
}

/// How events are made: whether NULL values are kept, and how long the text
/// of a field may be.
#[derive(Debug, Clone, Copy, PartialEq, Eq, Structural)]
pub struct JsonEventFormatter {
    pub include_null_values: bool,
    pub max_field_length: Option<usize>,
}

/// The JSON of a cell: null for NULL, a marker for an unchanged TOAST value,
/// the text for text, cut where it is too long.
pub open spec fn spec_cell_json(cell: ColumnDataView, max: Option<usize>) -> JsonView {
    if cell.data_type == 'n' {
        JsonView::Null
    } else if cell.data_type == 'u' {
        JsonView::String("<TOASTED>"@)
    } else if cell.data_type == 't' {
        JsonView::String(
            match max {
                Some(m) => spec_truncated(cell.data, m as nat),
                None => cell.data,
            },
        )
    } else {
        JsonView::String("<UNKNOWN>"@)
    }
}

/// The fields of the first `k` cells of a tuple: each cell under the name of
/// its column. Cells without a column in the relation are left out, and so
/// are NULL values unless they are asked for.
pub open spec fn spec_tuple_fields(
    f: JsonEventFormatter,
    cells: Seq<ColumnDataView>,
    columns: Seq<ColumnInfoView>,
    k: nat,
) -> Seq<(Seq<char>, JsonView)>
    decreases k,
{
    if k == 0 {
        Seq::empty()
    } else {
        let before = spec_tuple_fields(f, cells, columns, (k - 1) as nat);
        let i = k - 1;
        if i >= columns.len() {
            before
        } else if cells[i].data_type == 'n' && !f.include_null_values {
            before
        } else {
            before.push((columns[i].column_name, spec_cell_json(cells[i], f.max_field_length)))
        }
    }
}

/// The JSON object of a tuple.
pub open spec fn spec_tuple_json(
    f: JsonEventFormatter,
    tuple: TupleDataView,
    relation: RelationInfoView,
) -> JsonView {
    JsonView::Object(spec_tuple_fields(f, tuple.columns, relation.columns, tuple.columns.len()))
}

/// The note that says whether a change belongs to a streamed transaction,
/// and the note of its transaction id where it has one.
pub open spec fn spec_stream_notes(is_stream: bool, xid: Option<u32>) -> Seq<(Seq<char>, Seq<char>)> {
    let first = seq![("is_stream"@, spec_bool_text(is_stream))];
    match xid {
        Some(x) => first.push(("streaming_xid"@, spec_decimal(x as nat))),
        None => first,
    }
}

/// The error of a change whose relation was never announced.
pub open spec fn spec_unknown_relation(message: Seq<char>, relation_id: u32) -> ErrorView {
    ErrorView::MessageParsing {
        message,
        context: Some("Relation ID: "@ + spec_decimal(relation_id as nat)),
    }
}

/// An event without transaction, position, time, schema or table.
pub open spec fn spec_bare_event(event_type: Seq<char>, data: JsonView) -> FormattedEventView {
    FormattedEventView {
        event_type,
        transaction_id: None,
        lsn: None,
        timestamp: None,
        schema: None,
        table: None,
        data,
        metadata: Seq::empty(),
    }
}

/// The JSON of a column of a schema.
pub open spec fn spec_column_json(column: ColumnInfoView) -> JsonView {
    JsonView::Object(
        seq![
            ("name"@, JsonView::String(column.column_name)),
            ("type"@, JsonView::Number(column.column_type as int)),
            ("key_flag"@, JsonView::Number(column.key_flag as int)),
            ("atttypmod"@, JsonView::Number(column.atttypmod as int)),
        ],
    )
}

/// The names, schema first, of those of the relations `ids` that were
/// announced.
pub open spec fn spec_truncated_tables(
    ids: Seq<u32>,
    relations: Map<u32, RelationInfoView>,
    k: nat,
) -> Seq<JsonView>
    decreases k,
{
    if k == 0 {
        Seq::empty()
    } else {
        let before = spec_truncated_tables(ids, relations, (k - 1) as nat);
        if relations.contains_key(ids[k - 1]) {
            before.push(
                JsonView::String(
                    relations[ids[k - 1]].namespace + "."@ + relations[ids[k - 1]].relation_name,
                ),
            )
        } else {
            before
        }
    }
}

/// The event that a message makes, or why it makes none: a change whose
/// relation was never announced makes none.
pub open spec fn spec_format_message(
    f: JsonEventFormatter,
    message: MessageView,
    relations: Map<u32, RelationInfoView>,
) -> Result<FormattedEventView, ErrorView> {
    match message {
        MessageView::Begin { final_lsn, timestamp, xid } => Ok(
            FormattedEventView {
                transaction_id: Some(xid),
                lsn: Some(final_lsn),
                timestamp: Some(timestamp),
                ..spec_bare_event(
                    "begin"@,
                    JsonView::Object(
                        seq![
                            ("xid"@, JsonView::Number(xid as int)),
                            ("final_lsn"@, JsonView::Number(final_lsn as int)),
                            ("timestamp"@, JsonView::Number(timestamp as int)),
                        ],
                    ),
                )
            },
        ),
        MessageView::Commit { flags, commit_lsn, end_lsn, timestamp } => Ok(
            FormattedEventView {
                lsn: Some(end_lsn),
                timestamp: Some(timestamp),
                ..spec_bare_event(
                    "commit"@,
                    JsonView::Object(
                        seq![
                            ("flags"@, JsonView::Number(flags as int)),
                            ("commit_lsn"@, JsonView::Number(commit_lsn as int)),
                            ("end_lsn"@, JsonView::Number(end_lsn as int)),
                            ("timestamp"@, JsonView::Number(timestamp as int)),
                        ],
                    ),
                )
            },
        ),
        MessageView::Relation { relation } => Ok(
            FormattedEventView {
                schema: Some(relation.namespace),
                table: Some(relation.relation_name),
                ..spec_bare_event(
                    "relation"@,
                    JsonView::Object(
                        seq![
                            ("oid"@, JsonView::Number(relation.oid as int)),
                            ("replica_identity"@, JsonView::String(seq![relation.replica_identity])),
                            ("column_count"@, JsonView::Number(relation.column_count as int)),
                            (
                                "columns"@,
                                JsonView::Array(
                                    relation.columns.map_values(
                                        |c: ColumnInfoView| spec_column_json(c),
                                    ),
                                ),
                            ),
                        ],
                    ),
                )
            },
        ),
        MessageView::Insert { relation_id, tuple_data, is_stream, xid } => if relations.contains_key(
            relation_id,
        ) {
            Ok(
                FormattedEventView {
                    transaction_id: xid,
                    schema: Some(relations[relation_id].namespace),
                    table: Some(relations[relation_id].relation_name),
                    metadata: spec_stream_notes(is_stream, xid),
                    ..spec_bare_event(
                        "insert"@,
                        spec_tuple_json(f, tuple_data, relations[relation_id]),
                    )
                },
            )
        } else {
            Err(spec_unknown_relation("Unknown relation ID in INSERT"@, relation_id))
        },
        MessageView::Update {
            relation_id,
            key_type,
            old_tuple_data,
            new_tuple_data,
            is_stream,
            xid,
        } => if relations.contains_key(relation_id) {
            let relation = relations[relation_id];
            let new_field = ("new"@, spec_tuple_json(f, new_tuple_data, relation));
            let first = seq![("is_stream"@, spec_bool_text(is_stream))];
            let second = match key_type {
                Some(k) => first.push(("key_type"@, seq![k])),
                None => first,
            };
            Ok(
                FormattedEventView {
                    transaction_id: xid,
                    schema: Some(relation.namespace),
                    table: Some(relation.relation_name),
                    metadata: match xid {
                        Some(x) => second.push(("streaming_xid"@, spec_decimal(x as nat))),
                        None => second,
                    },
                    ..spec_bare_event(
                        "update"@,
                        JsonView::Object(
                            match old_tuple_data {
                                Some(old) => seq![
                                    ("old"@, spec_tuple_json(f, old, relation)),
                                    new_field,
                                ],
                                None => seq![new_field],
                            },
                        ),
                    )
                },
            )
        } else {
            Err(spec_unknown_relation("Unknown relation ID in UPDATE"@, relation_id))
        },
        MessageView::Delete { relation_id, key_type, tuple_data, is_stream, xid } => if relations.contains_key(
            relation_id,
        ) {
            let first = seq![
                ("is_stream"@, spec_bool_text(is_stream)),
                ("key_type"@, seq![key_type]),
            ];
            Ok(
                FormattedEventView {
                    transaction_id: xid,
                    schema: Some(relations[relation_id].namespace),
                    table: Some(relations[relation_id].relation_name),
                    metadata: match xid {
                        Some(x) => first.push(("streaming_xid"@, spec_decimal(x as nat))),
                        None => first,
                    },
                    ..spec_bare_event(
                        "delete"@,
                        spec_tuple_json(f, tuple_data, relations[relation_id]),
                    )
                },
            )
        } else {
            Err(spec_unknown_relation("Unknown relation ID in DELETE"@, relation_id))
        },
        MessageView::Truncate { relation_ids, flags, is_stream, xid } => {
            let first = seq![
                ("is_stream"@, spec_bool_text(is_stream)),
                ("flags"@, spec_signed_decimal(flags as int)),
            ];
            Ok(
                FormattedEventView {
                    transaction_id: xid,
                    metadata: match xid {
                        Some(x) => first.push(("streaming_xid"@, spec_decimal(x as nat))),
                        None => first,
                    },
                    ..spec_bare_event(
                        "truncate"@,
                        JsonView::Object(
                            seq![
                                (
                                    "tables"@,
                                    JsonView::Array(
                                        spec_truncated_tables(
                                            relation_ids,
                                            relations,
                                            relation_ids.len(),
                                        ),
                                    ),
                                ),
                                ("flags"@, JsonView::Number(flags as int)),
                            ],
                        ),
                    )
                },
            )
        },
        MessageView::StreamStart { xid, first_segment } => Ok(
            FormattedEventView {
                transaction_id: Some(xid),
                metadata: seq![("first_segment"@, spec_bool_text(first_segment))],
                ..spec_bare_event(
                    "stream_start"@,
                    JsonView::Object(
                        seq![
                            ("xid"@, JsonView::Number(xid as int)),
                            ("first_segment"@, JsonView::Bool(first_segment)),
                        ],
                    ),
                )
            },
        ),
        MessageView::StreamStop => Ok(spec_bare_event("stream_stop"@, JsonView::Object(Seq::empty()))),
        MessageView::StreamCommit { xid, flags, commit_lsn, end_lsn, timestamp } => Ok(
            FormattedEventView {
                transaction_id: Some(xid),
                lsn: Some(end_lsn),
                timestamp: Some(timestamp),
                ..spec_bare_event(
                    "stream_commit"@,
                    JsonView::Object(
                        seq![
                            ("xid"@, JsonView::Number(xid as int)),
                            ("flags"@, JsonView::Number(flags as int)),
                            ("commit_lsn"@, JsonView::Number(commit_lsn as int)),
                            ("end_lsn"@, JsonView::Number(end_lsn as int)),
                            ("timestamp"@, JsonView::Number(timestamp as int)),
                        ],
                    ),
                )
            },
        ),
        MessageView::StreamAbort { xid, subtransaction_xid } => Ok(
            FormattedEventView {
                transaction_id: Some(xid),
                ..spec_bare_event(
                    "stream_abort"@,
                    JsonView::Object(
                        seq![
                            ("xid"@, JsonView::Number(xid as int)),
                            ("subtransaction_xid"@, JsonView::Number(subtransaction_xid as int)),
                        ],
                    ),
                )
            },
        ),
    }
}

/// The view of an event or of the error in its place.
pub open spec fn event_result_view(r: Result<FormattedEvent, ReplicationError>) -> Result<
    FormattedEventView,
    ErrorView,
> {
    match r {
        Ok(e) => Ok(e@),
        Err(e) => Err(e@),
    }
}

/// A note of an event.
fn note(name: &str, value: String) -> (n: (String, String))
    ensures
        n.0@ == name@,
        n.1@ == value@,
{
    (String::from_str(name), value)
}

/// An event without transaction, position, time, schema, table or notes.
fn bare_event(event_type: &str, data: JsonValue) -> (e: FormattedEvent)
    ensures
        e@ == spec_bare_event(event_type@, data@),
{
    let e = FormattedEvent {
        event_type: String::from_str(event_type),
        transaction_id: None,
        lsn: None,
        timestamp: None,
        schema: None,
        table: None,
        data,
        metadata: Vec::new(),
    };
    assert(e@.metadata =~= Seq::<(Seq<char>, Seq<char>)>::empty());
    e
}

/// Appends to `notes` the note of the transaction id where there is one.
fn push_streaming_xid(notes: &mut Vec<(String, String)>, xid: Option<u32>)
    ensures
        pairs_view(final(notes)@) == (match xid {
            Some(x) => pairs_view(old(notes)@).push(("streaming_xid"@, spec_decimal(x as nat))),
            None => pairs_view(old(notes)@),
        }),
{
    match xid {
        Some(x) => {
            let n = note("streaming_xid", decimal_string(x as u64));
            notes.push(n);
            assert(pairs_view(notes@) =~= pairs_view(old(notes)@).push((n.0@, n.1@)));
        },
        None => {},
    }
}

/// The notes that begin with `is_stream`.
fn stream_notes_start(is_stream: bool) -> (notes: Vec<(String, String)>)
    ensures
        pairs_view(notes@) == seq![("is_stream"@, spec_bool_text(is_stream))],
{
    let mut notes: Vec<(String, String)> = Vec::new();
    let n = note("is_stream", bool_string(is_stream));
    notes.push(n);
    assert(pairs_view(notes@) =~= seq![("is_stream"@, spec_bool_text(is_stream))]);
    notes
}

/// Appends a note.
fn push_note(notes: &mut Vec<(String, String)>, name: &str, value: String)
    ensures
        pairs_view(final(notes)@) == pairs_view(old(notes)@).push((name@, value@)),
{
    let n = note(name, value);
    notes.push(n);
    assert(pairs_view(notes@) =~= pairs_view(old(notes)@).push((n.0@, n.1@)));
}

impl JsonEventFormatter {
    /// A formatter that leaves NULL values out and cuts texts at a thousand
    /// bytes.
    pub fn new() -> (f: Self)
        ensures
            f == (JsonEventFormatter {
                include_null_values: false,
                max_field_length: Some(DEFAULT_MAX_FIELD_LENGTH),
            }),
    {
        Self { include_null_values: false, max_field_length: Some(DEFAULT_MAX_FIELD_LENGTH) }
    }

    /// The same formatter, keeping NULL values if `keep` says so.
    pub fn include_null_values(self, keep: bool) -> (f: Self)
        ensures
            f == (JsonEventFormatter { include_null_values: keep, ..self }),
    {
        Self { include_null_values: keep, max_field_length: self.max_field_length }
    }

    /// The same formatter, cutting texts at `max_len` bytes, or nowhere.
    pub fn max_field_length(self, max_len: Option<usize>) -> (f: Self)
        ensures
            f == (JsonEventFormatter { max_field_length: max_len, ..self }),
    {
        Self { include_null_values: self.include_null_values, max_field_length: max_len }
    }

    /// The JSON object of a tuple of the relation `relation`.
    pub fn format_tuple_data(&self, tuple_data: &TupleData, relation: &RelationInfo) -> (v:
        JsonValue)
        ensures
            v@ == spec_tuple_json(*self, tuple_data@, relation@),
    {
        let mut fields = no_members();
        let mut i: usize = 0;
        while i < tuple_data.columns.len()
            invariant
                i <= tuple_data.columns@.len(),
                object_view(fields@) == spec_tuple_fields(
                    *self,
                    column_data_view(tuple_data.columns@),
                    column_infos_view(relation.columns@),
                    i as nat,
                ),
            decreases tuple_data.columns@.len() - i,
        {
            let cell = &tuple_data.columns[i];
            assert(column_data_view(tuple_data.columns@)[i as int] == cell@);
            if i < relation.columns.len() && !(cell.data_type == 'n' && !self.include_null_values) {
                assert(column_infos_view(relation.columns@)[i as int] == relation.columns@[i as int]@);
                let value = if cell.data_type == 'n' {
                    JsonValue::Null
                } else if cell.data_type == 'u' {
                    text(String::from_str("<TOASTED>"))
                } else if cell.data_type == 't' {
                    match self.max_field_length {
                        Some(m) => text(truncated(cell.data.as_str(), m)),
                        None => text(cell.data.clone()),
                    }
                } else {
                    text(String::from_str("<UNKNOWN>"))
                };
                push_member(&mut fields, relation.columns[i].column_name.as_str(), value);
            }
            i += 1;
        }
        object_of(fields)
    }

    /// The JSON of the columns of a schema.
    fn format_columns(relation: &RelationInfo) -> (v: JsonValue)
        ensures
            v@ == JsonView::Array(
                relation@.columns.map_values(|c: ColumnInfoView| spec_column_json(c)),
            ),
    {
        let mut items: Vec<JsonValue> = Vec::new();
        let mut i: usize = 0;
        while i < relation.columns.len()
            invariant
                i <= relation.columns@.len(),
                items@.len() == i,
                forall|k: int|
                    0 <= k < i ==> (#[trigger] items@[k])@ == spec_column_json(
                        relation.columns@[k]@,
                    ),
            decreases relation.columns@.len() - i,
        {
            let column = &relation.columns[i];
            let mut members = no_members();
            push_member(&mut members, "name", text(column.column_name.clone()));
            push_member(&mut members, "type", number(column.column_type as i128));
            push_member(&mut members, "key_flag", number(column.key_flag as i128));
            push_member(&mut members, "atttypmod", number(column.atttypmod as i128));
            let item = object_of(members);
            assert(item@->Object_0 =~= spec_column_json(column@)->Object_0);
            items.push(item);
            i += 1;
        }
        let v = JsonValue::array(items);
        assert(v@->Array_0 =~= relation@.columns.map_values(
            |c: ColumnInfoView| spec_column_json(c),
        ));
        v
    }

    /// The names, schema first, of those of the relations `ids` that were
    /// announced.
    fn truncated_tables(ids: &Vec<u32>, relations: &HashMap<u32, RelationInfo>) -> (v: JsonValue)
        ensures
            v@ == JsonView::Array(
                spec_truncated_tables(ids@, relations_view(relations@), ids@.len()),
            ),
    {
        let mut items: Vec<JsonValue> = Vec::new();
        proof {
            lemma_array_push(items@, JsonValue::Null);
        }
        let mut i: usize = 0;
        while i < ids.len()
            invariant
                i <= ids@.len(),
                crate::events::json::array_view(items@) == spec_truncated_tables(
                    ids@,
                    relations_view(relations@),
                    i as nat,
                ),
            decreases ids@.len() - i,
        {
            match relations.get(&ids[i]) {
                Some(relation) => {
                    let name = relation.namespace.clone().concat(".").concat(
                        relation.relation_name.as_str(),
                    );
                    let item = text(name);
                    proof {
                        lemma_array_push(items@, item);
                    }
                    items.push(item);
                },
                None => {},
            }
            i += 1;
        }
        JsonValue::array(items)
    }

    /// The error of a change whose relation was never announced.
    fn unknown_relation(message: &str, relation_id: u32) -> (e: ReplicationError)
        ensures
            e@ == spec_unknown_relation(message@, relation_id),
    {
        let context = String::from_str("Relation ID: ").concat(
            decimal_string(relation_id as u64).as_str(),
        );
        ReplicationError::parse_with_context(message, context.as_str())
    }

    /// The event of a Begin message.
    fn format_begin(final_lsn: u64, timestamp: i64, xid: u32) -> (event: FormattedEvent)
        ensures
            forall|f: JsonEventFormatter, relations: Map<u32, RelationInfoView>|
                #[trigger] spec_format_message(
                    f,
                    MessageView::Begin { final_lsn, timestamp, xid },
                    relations,
                ) == Ok::<_, ErrorView>(event@),
    {
        let mut members = no_members();
        push_member(&mut members, "xid", number(xid as i128));
        push_member(&mut members, "final_lsn", number(final_lsn as i128));
        push_member(&mut members, "timestamp", number(timestamp as i128));
        let data = object_of(members);
        assert(data@->Object_0 =~= seq![
            ("xid"@, JsonView::Number(xid as int)),
            ("final_lsn"@, JsonView::Number(final_lsn as int)),
            ("timestamp"@, JsonView::Number(timestamp as int)),
        ]);
        let mut event = bare_event("begin", data);
        event.transaction_id = Some(xid);
        event.lsn = Some(final_lsn);
        event.timestamp = Some(timestamp);
        event
    }

    /// The event of a Commit message.
    fn format_commit(flags: u8, commit_lsn: u64, end_lsn: u64, timestamp: i64) -> (event:
        FormattedEvent)
        ensures
            forall|f: JsonEventFormatter, relations: Map<u32, RelationInfoView>|
                #[trigger] spec_format_message(
                    f,
                    MessageView::Commit { flags, commit_lsn, end_lsn, timestamp },
                    relations,
                ) == Ok::<_, ErrorView>(event@),
    {
        let mut members = no_members();
        push_member(&mut members, "flags", number(flags as i128));
        push_member(&mut members, "commit_lsn", number(commit_lsn as i128));
        push_member(&mut members, "end_lsn", number(end_lsn as i128));
        push_member(&mut members, "timestamp", number(timestamp as i128));
        let data = object_of(members);
        assert(data@->Object_0 =~= seq![
            ("flags"@, JsonView::Number(flags as int)),
            ("commit_lsn"@, JsonView::Number(commit_lsn as int)),
            ("end_lsn"@, JsonView::Number(end_lsn as int)),
            ("timestamp"@, JsonView::Number(timestamp as int)),
        ]);
        let mut event = bare_event("commit", data);
        event.lsn = Some(end_lsn);
        event.timestamp = Some(timestamp);
        event
    }

    /// The event of a Relation message.
    fn format_relation(relation: &RelationInfo) -> (event: FormattedEvent)
        ensures
            forall|f: JsonEventFormatter, relations: Map<u32, RelationInfoView>|
                #[trigger] spec_format_message(
                    f,
                    MessageView::Relation { relation: relation@ },
                    relations,
                ) == Ok::<_, ErrorView>(event@),
    {
        let mut members = no_members();
        push_member(&mut members, "oid", number(relation.oid as i128));
        push_member(&mut members, "replica_identity", text(char_string(relation.replica_identity)));
        push_member(&mut members, "column_count", number(relation.column_count as i128));
        push_member(&mut members, "columns", Self::format_columns(relation));
        let data = object_of(members);
        assert(data@->Object_0 =~= seq![
            ("oid"@, JsonView::Number(relation.oid as int)),
            ("replica_identity"@, JsonView::String(seq![relation.replica_identity])),
            ("column_count"@, JsonView::Number(relation.column_count as int)),
            (
                "columns"@,
                JsonView::Array(
                    relation@.columns.map_values(|c: ColumnInfoView| spec_column_json(c)),
                ),
            ),
        ]);
        let mut event = bare_event("relation", data);
        event.schema = Some(relation.namespace.clone());
        event.table = Some(relation.relation_name.clone());
        event
    }

    /// The event of an Insert message.
    fn format_insert(
        &self,
        relation_id: u32,
        tuple_data: &TupleData,
        is_stream: bool,
        xid: Option<u32>,
        relations: &HashMap<u32, RelationInfo>,
    ) -> (r: Result<FormattedEvent, ReplicationError>)
        ensures
            event_result_view(r) == spec_format_message(
                *self,
                MessageView::Insert { relation_id, tuple_data: tuple_data@, is_stream, xid },
                relations_view(relations@),
            ),
    {
        let relation = match relations.get(&relation_id) {
            Some(relation) => relation,
            None => {
                return Err(Self::unknown_relation("Unknown relation ID in INSERT", relation_id));
            },
        };
        let mut notes = stream_notes_start(is_stream);
        push_streaming_xid(&mut notes, xid);
        let mut event = bare_event("insert", self.format_tuple_data(tuple_data, relation));
        event.transaction_id = xid;
        event.schema = Some(relation.namespace.clone());
        event.table = Some(relation.relation_name.clone());
        event.metadata = notes;
        Ok(event)
    }

    /// The event of an Update message.
    fn format_update(
        &self,
        relation_id: u32,
        key_type: Option<char>,
        old_tuple_data: &Option<TupleData>,
        new_tuple_data: &TupleData,
        is_stream: bool,
        xid: Option<u32>,
        relations: &HashMap<u32, RelationInfo>,
    ) -> (r: Result<FormattedEvent, ReplicationError>)
        ensures
            event_result_view(r) == spec_format_message(
                *self,
                MessageView::Update {
                    relation_id,
                    key_type,
                    old_tuple_data: crate::protocol::messages::opt_tuple_view(*old_tuple_data),
                    new_tuple_data: new_tuple_data@,
                    is_stream,
                    xid,
                },
                relations_view(relations@),
            ),
    {
        let relation = match relations.get(&relation_id) {
            Some(relation) => relation,
            None => {
                return Err(Self::unknown_relation("Unknown relation ID in UPDATE", relation_id));
            },
        };
        let mut members = no_members();
        match old_tuple_data {
            Some(old) => {
                push_member(&mut members, "old", self.format_tuple_data(old, relation));
            },
            None => {},
        }
        push_member(&mut members, "new", self.format_tuple_data(new_tuple_data, relation));
        let data = object_of(members);
        assert(data@->Object_0 =~= (match *old_tuple_data {
            Some(old) => seq![
                ("old"@, spec_tuple_json(*self, old@, relation@)),
                ("new"@, spec_tuple_json(*self, new_tuple_data@, relation@)),
            ],
            None => seq![("new"@, spec_tuple_json(*self, new_tuple_data@, relation@))],
        }));
        let mut notes = stream_notes_start(is_stream);
        match key_type {
            Some(k) => {
                push_note(&mut notes, "key_type", char_string(k));
            },
            None => {},
        }
        push_streaming_xid(&mut notes, xid);
        let mut event = bare_event("update", data);
        event.transaction_id = xid;
        event.schema = Some(relation.namespace.clone());
        event.table = Some(relation.relation_name.clone());
        event.metadata = notes;
        Ok(event)
    }

    /// The event of a Delete message.
    fn format_delete(
        &self,
        relation_id: u32,
        key_type: char,
        tuple_data: &TupleData,
        is_stream: bool,
        xid: Option<u32>,
        relations: &HashMap<u32, RelationInfo>,
    ) -> (r: Result<FormattedEvent, ReplicationError>)
        ensures
            event_result_view(r) == spec_format_message(
                *self,
                MessageView::Delete {
                    relation_id,
                    key_type,
                    tuple_data: tuple_data@,
                    is_stream,
                    xid,
                },
                relations_view(relations@),
            ),
    {
        let relation = match relations.get(&relation_id) {
            Some(relation) => relation,
            None => {
                return Err(Self::unknown_relation("Unknown relation ID in DELETE", relation_id));
            },
        };
        let mut notes = stream_notes_start(is_stream);
        push_note(&mut notes, "key_type", char_string(key_type));
        assert(pairs_view(notes@) =~= seq![
            ("is_stream"@, spec_bool_text(is_stream)),
            ("key_type"@, seq![key_type]),
        ]);
        push_streaming_xid(&mut notes, xid);
        let mut event = bare_event("delete", self.format_tuple_data(tuple_data, relation));
        event.transaction_id = xid;
        event.schema = Some(relation.namespace.clone());
        event.table = Some(relation.relation_name.clone());
        event.metadata = notes;
        Ok(event)
    }

    /// The event of a Truncate message.
    fn format_truncate(
        relation_ids: &Vec<u32>,
        flags: i8,
        is_stream: bool,
        xid: Option<u32>,
        relations: &HashMap<u32, RelationInfo>,
    ) -> (event: FormattedEvent)
        ensures
            forall|f: JsonEventFormatter|
                #[trigger] spec_format_message(
                    f,
                    MessageView::Truncate { relation_ids: relation_ids@, flags, is_stream, xid },
                    relations_view(relations@),
                ) == Ok::<_, ErrorView>(event@),
    {
        let mut members = no_members();
        push_member(&mut members, "tables", Self::truncated_tables(relation_ids, relations));
        push_member(&mut members, "flags", number(flags as i128));
        let data = object_of(members);
        assert(data@->Object_0 =~= seq![
            (
                "tables"@,
                JsonView::Array(
                    spec_truncated_tables(
                        relation_ids@,
                        relations_view(relations@),
                        relation_ids@.len(),
                    ),
                ),
            ),
            ("flags"@, JsonView::Number(flags as int)),
        ]);
        let mut notes = stream_notes_start(is_stream);
        push_note(&mut notes, "flags", signed_decimal_string(flags as i64));
        assert(pairs_view(notes@) =~= seq![
            ("is_stream"@, spec_bool_text(is_stream)),
            ("flags"@, spec_signed_decimal(flags as int)),
        ]);
        push_streaming_xid(&mut notes, xid);
        let mut event = bare_event("truncate", data);
        event.transaction_id = xid;
        event.metadata = notes;
        event
    }

    /// The event of a StreamStart message.
    fn format_stream_start(xid: u32, first_segment: bool) -> (event: FormattedEvent)
        ensures
            forall|f: JsonEventFormatter, relations: Map<u32, RelationInfoView>|
                #[trigger] spec_format_message(
                    f,
                    MessageView::StreamStart { xid, first_segment },
                    relations,
                ) == Ok::<_, ErrorView>(event@),
    {
        let mut members = no_members();
        push_member(&mut members, "xid", number(xid as i128));
        push_member(&mut members, "first_segment", JsonValue::Bool(first_segment));
        let data = object_of(members);
        assert(data@->Object_0 =~= seq![
            ("xid"@, JsonView::Number(xid as int)),
            ("first_segment"@, JsonView::Bool(first_segment)),
        ]);
        let mut notes: Vec<(String, String)> = Vec::new();
        push_note(&mut notes, "first_segment", bool_string(first_segment));
        assert(pairs_view(notes@) =~= seq![("first_segment"@, spec_bool_text(first_segment))]);
        let mut event = bare_event("stream_start", data);
        event.transaction_id = Some(xid);
        event.metadata = notes;
        event
    }

    /// The event of a StreamCommit message.
    fn format_stream_commit(xid: u32, flags: u8, commit_lsn: u64, end_lsn: u64, timestamp: i64) -> (event:
        FormattedEvent)
        ensures
            forall|f: JsonEventFormatter, relations: Map<u32, RelationInfoView>|
                #[trigger] spec_format_message(
                    f,
                    MessageView::StreamCommit { xid, flags, commit_lsn, end_lsn, timestamp },
                    relations,
                ) == Ok::<_, ErrorView>(event@),
    {
        let mut members = no_members();
        push_member(&mut members, "xid", number(xid as i128));
        push_member(&mut members, "flags", number(flags as i128));
        push_member(&mut members, "commit_lsn", number(commit_lsn as i128));
        push_member(&mut members, "end_lsn", number(end_lsn as i128));
        push_member(&mut members, "timestamp", number(timestamp as i128));
        let data = object_of(members);
        assert(data@->Object_0 =~= seq![
            ("xid"@, JsonView::Number(xid as int)),
            ("flags"@, JsonView::Number(flags as int)),
            ("commit_lsn"@, JsonView::Number(commit_lsn as int)),
            ("end_lsn"@, JsonView::Number(end_lsn as int)),
            ("timestamp"@, JsonView::Number(timestamp as int)),
        ]);
        let mut event = bare_event("stream_commit", data);
        event.transaction_id = Some(xid);
        event.lsn = Some(end_lsn);
        event.timestamp = Some(timestamp);
        event
    }

    /// The event of a StreamAbort message.
    fn format_stream_abort(xid: u32, subtransaction_xid: u32) -> (event: FormattedEvent)
        ensures
            forall|f: JsonEventFormatter, relations: Map<u32, RelationInfoView>|
                #[trigger] spec_format_message(
                    f,
                    MessageView::StreamAbort { xid, subtransaction_xid },
                    relations,
                ) == Ok::<_, ErrorView>(event@),
    {
        let mut members = no_members();
        push_member(&mut members, "xid", number(xid as i128));
        push_member(&mut members, "subtransaction_xid", number(subtransaction_xid as i128));
        let data = object_of(members);
        assert(data@->Object_0 =~= seq![
            ("xid"@, JsonView::Number(xid as int)),
            ("subtransaction_xid"@, JsonView::Number(subtransaction_xid as int)),
        ]);
        let mut event = bare_event("stream_abort", data);
        event.transaction_id = Some(xid);
        event
    }

    /// Makes the event of a message. The relations of changes are looked up
    /// in `relations`.
    pub fn format_message(
        &self,
        message: &ReplicationMessage,
        relations: &HashMap<u32, RelationInfo>,
    ) -> (r: Result<FormattedEvent, ReplicationError>)
        ensures
            event_result_view(r) == spec_format_message(
                *self,
                message@,
                relations_view(relations@),
            ),
    {
        match message {
            ReplicationMessage::Begin { final_lsn, timestamp, xid } => Ok(
                Self::format_begin(*final_lsn, *timestamp, *xid),
            ),
            ReplicationMessage::Commit { flags, commit_lsn, end_lsn, timestamp } => Ok(
                Self::format_commit(*flags, *commit_lsn, *end_lsn, *timestamp),
            ),
            ReplicationMessage::Relation { relation } => Ok(Self::format_relation(relation)),
            ReplicationMessage::Insert { relation_id, tuple_data, is_stream, xid } => {
                self.format_insert(*relation_id, tuple_data, *is_stream, *xid, relations)
            },
            ReplicationMessage::Update {
                relation_id,
                key_type,
                old_tuple_data,
                new_tuple_data,
                is_stream,
                xid,
            } => self.format_update(
                *relation_id,
                *key_type,
                old_tuple_data,
                new_tuple_data,
                *is_stream,
                *xid,
                relations,
            ),
            ReplicationMessage::Delete { relation_id, key_type, tuple_data, is_stream, xid } => {
                self.format_delete(*relation_id, *key_type, tuple_data, *is_stream, *xid, relations)
            },
            ReplicationMessage::Truncate { relation_ids, flags, is_stream, xid } => Ok(
                Self::format_truncate(relation_ids, *flags, *is_stream, *xid, relations),
            ),
            ReplicationMessage::StreamStart { xid, first_segment } => Ok(
                Self::format_stream_start(*xid, *first_segment),
            ),
            ReplicationMessage::StreamStop => {
                let data = object_of(no_members());
                Ok(bare_event("stream_stop", data))
            },
            ReplicationMessage::StreamCommit { xid, flags, commit_lsn, end_lsn, timestamp } => Ok(
                Self::format_stream_commit(*xid, *flags, *commit_lsn, *end_lsn, *timestamp),
            ),
            ReplicationMessage::StreamAbort { xid, subtransaction_xid } => Ok(
                Self::format_stream_abort(*xid, *subtransaction_xid),
            ),
        }
    }
}

impl Default for JsonEventFormatter {
    fn default() -> (f: Self)
        ensures
            f == (JsonEventFormatter {
                include_null_values: false,
                max_field_length: Some(DEFAULT_MAX_FIELD_LENGTH),
            }),
    {
        Self::new()
    }
}

/// The formatter of the webhook sink: events as the JSON formatter makes
/// them, texts cut at five hundred bytes, with two notes more.
#[derive(Debug, Clone, Copy, PartialEq, Eq, Structural)]
pub struct WebhookEventFormatter {
    pub json_formatter: JsonEventFormatter,
}

/// The event that the webhook formatter makes of a message: the event of its
/// JSON formatter, with the notes `format` and `version` behind the others.
pub open spec fn spec_webhook_message(
    f: WebhookEventFormatter,
    message: MessageView,
    relations: Map<u32, RelationInfoView>,
) -> Result<FormattedEventView, ErrorView> {
    match spec_format_message(f.json_formatter, message, relations) {
        Err(e) => Err(e),
        Ok(event) => Ok(
            FormattedEventView {
                metadata: event.metadata.push(("format"@, "webhook"@)).push(("version"@, "1.0"@)),
                ..event
            },
        ),
    }
}

impl WebhookEventFormatter {
    /// The formatter.
    pub fn new() -> (f: Self)
        ensures
            f.json_formatter == (JsonEventFormatter {
                include_null_values: false,
                max_field_length: Some(WEBHOOK_MAX_FIELD_LENGTH),
            }),
    {
        Self {
            json_formatter: JsonEventFormatter::new().include_null_values(false).max_field_length(
                Some(WEBHOOK_MAX_FIELD_LENGTH),
            ),
        }
    }

    /// Makes the event of a message.
    pub fn format_message(
        &self,
        message: &ReplicationMessage,
        relations: &HashMap<u32, RelationInfo>,
    ) -> (r: Result<FormattedEvent, ReplicationError>)
        ensures
            event_result_view(r) == spec_webhook_message(
                *self,
                message@,
                relations_view(relations@),
            ),
    {
        let mut event = match self.json_formatter.format_message(message, relations) {
            Ok(event) => event,
            Err(e) => {
                return Err(e);
            },
        };
        let mut notes = event.metadata;
        push_note(&mut notes, "format", String::from_str("webhook"));
        push_note(&mut notes, "version", String::from_str("1.0"));
        event.metadata = notes;
        Ok(event)
    }
}

/// What makes events of messages.
pub trait EventFormatter {
    /// Whether `r` is what the formatter makes of a message.
    spec fn formats_to(
        &self,
        message: MessageView,
        relations: Map<u32, RelationInfoView>,
        r: Result<FormattedEventView, ErrorView>,
    ) -> bool;

    /// Makes the event of a message. The relations of changes are looked up
    /// in `relations`.
    fn format_message(
        &self,
        message: &ReplicationMessage,
        relations: &HashMap<u32, RelationInfo>,
    ) -> (r: Result<FormattedEvent, ReplicationError>)
        ensures
            self.formats_to(message@, relations_view(relations@), event_result_view(r)),
    ;
}

impl EventFormatter for JsonEventFormatter {
    open spec fn formats_to(
        &self,
        message: MessageView,
        relations: Map<u32, RelationInfoView>,
        r: Result<FormattedEventView, ErrorView>,
    ) -> bool {
        r == spec_format_message(*self, message, relations)
    }

    fn format_message(
        &self,
        message: &ReplicationMessage,
        relations: &HashMap<u32, RelationInfo>,
    ) -> (r: Result<FormattedEvent, ReplicationError>) {
        JsonEventFormatter::format_message(self, message, relations)
    }
}

impl EventFormatter for WebhookEventFormatter {
    open spec fn formats_to(
        &self,
        message: MessageView,
        relations: Map<u32, RelationInfoView>,
        r: Result<FormattedEventView, ErrorView>,
    ) -> bool {
        r == spec_webhook_message(*self, message, relations)
    }

    fn format_message(
        &self,
        message: &ReplicationMessage,
        relations: &HashMap<u32, RelationInfo>,
    ) -> (r: Result<FormattedEvent, ReplicationError>) {
        WebhookEventFormatter::format_message(self, message, relations)
    }
}

} // verus!
