//! From the text of a tuple to typed values, by the types of the columns.

use std::collections::HashMap;
use vstd::prelude::*;
use vstd::std_specs::convert::TryFromSpecImpl;
use vstd::string::StringExecFns;
use crate::events::json::parse_json;
use crate::events::json::spec_parse_json;
use crate::events::json::JsonDocument;
use crate::events::json::JsonDocumentView;
use crate::protocol::messages::column_infos_view;
use crate::protocol::messages::ColumnInfo;
use crate::protocol::messages::ColumnInfoView;
use crate::protocol::messages::MessageView;
use crate::protocol::messages::ReplicationMessage;
use crate::protocol::messages::TupleData;
use crate::protocol::messages::TupleDataView;
use crate::utils::binary::Oid;
use crate::utils::text::str_equal;

verus! {

/// The types of columns that are known by their object id.
#[derive(Debug, Clone, Copy, PartialEq, Eq, Structural)]
pub enum PgType {
    Bool,
    Bytea,
    Char,
    Name,
    Int8,
    Int2,
    Int2vector,
    Int4,
    Text,
    Oid,
    Tid,
    Xid,
    Cid,
    Oidvector,
    Json,
    Xml,
    Xid8,
    Point,
    Lseg,
    Path,
    Box,
    Polygon,
    Line,
    Float4,
    Float8,
    Unknown,
    Circle,
    Money,
    Macaddr,
    Inet,
    Cidr,
    Macaddr8,
    Aclitem,
    Bpchar,
    Varchar,
    Date,
    Time,
    Timestamp,
    Timestamptz,
    Interval,
    Timetz,
    Bit,
    Varbit,
    Numeric,
    Refcursor,
    Uuid,
    Tsvector,
    Gtsvector,
    Tsquery,
    Jsonb,
    Jsonpath,
    TxidSnapshot,
    Int4range,
    Numrange,
    Tsrange,
    Tstzrange,
    Daterange,
    Int8range,
    Int4multirange,
    Nummultirange,
    Tsmultirange,
    Tstzmultirange,
    Datemultirange,
}

impl PgType {
    /// The object id of the type.
    pub open spec fn spec_oid(self) -> u32 {
        match self {
            PgType::Bool => 16,
            PgType::Bytea => 17,
            PgType::Char => 18,
            PgType::Name => 19,
            PgType::Int8 => 20,
            PgType::Int2 => 21,
            PgType::Int2vector => 22,
            PgType::Int4 => 23,
            PgType::Text => 25,
            PgType::Oid => 26,
            PgType::Tid => 27,
            PgType::Xid => 28,
            PgType::Cid => 29,
            PgType::Oidvector => 30,
            PgType::Json => 114,
            PgType::Xml => 142,
            PgType::Xid8 => 5069,
            PgType::Point => 600,
            PgType::Lseg => 601,
            PgType::Path => 602,
            PgType::Box => 603,
            PgType::Polygon => 604,
            PgType::Line => 628,
            PgType::Float4 => 700,
            PgType::Float8 => 701,
            PgType::Unknown => 705,
            PgType::Circle => 718,
            PgType::Money => 790,
            PgType::Macaddr => 829,
            PgType::Inet => 869,
            PgType::Cidr => 650,
            PgType::Macaddr8 => 774,
            PgType::Aclitem => 1033,
            PgType::Bpchar => 1042,
            PgType::Varchar => 1043,
            PgType::Date => 1082,
            PgType::Time => 1083,
            PgType::Timestamp => 1114,
            PgType::Timestamptz => 1184,
            PgType::Interval => 1186,
            PgType::Timetz => 1266,
            PgType::Bit => 1560,
            PgType::Varbit => 1562,
            PgType::Numeric => 1700,
            PgType::Refcursor => 1790,
            PgType::Uuid => 2950,
            PgType::Tsvector => 3614,
            PgType::Gtsvector => 3642,
            PgType::Tsquery => 3615,
            PgType::Jsonb => 3802,
            PgType::Jsonpath => 4072,
            PgType::TxidSnapshot => 2970,
            PgType::Int4range => 3904,
            PgType::Numrange => 3906,
            PgType::Tsrange => 3908,
            PgType::Tstzrange => 3910,
            PgType::Daterange => 3912,
            PgType::Int8range => 3926,
            PgType::Int4multirange => 4451,
            PgType::Nummultirange => 4532,
            PgType::Tsmultirange => 4533,
            PgType::Tstzmultirange => 4534,
            PgType::Datemultirange => 4535,
        }
    }

    /// The object id of the type.
    pub fn oid(&self) -> (oid: u32)
        ensures
            oid == self.spec_oid(),
    {
        match self {
            PgType::Bool => 16,
            PgType::Bytea => 17,
            PgType::Char => 18,
            PgType::Name => 19,
            PgType::Int8 => 20,
            PgType::Int2 => 21,
            PgType::Int2vector => 22,
            PgType::Int4 => 23,
            PgType::Text => 25,
            PgType::Oid => 26,
            PgType::Tid => 27,
            PgType::Xid => 28,
            PgType::Cid => 29,
            PgType::Oidvector => 30,
            PgType::Json => 114,
            PgType::Xml => 142,
            PgType::Xid8 => 5069,
            PgType::Point => 600,
            PgType::Lseg => 601,
            PgType::Path => 602,
            PgType::Box => 603,
            PgType::Polygon => 604,
            PgType::Line => 628,
            PgType::Float4 => 700,
            PgType::Float8 => 701,
            PgType::Unknown => 705,
            PgType::Circle => 718,
            PgType::Money => 790,
            PgType::Macaddr => 829,
            PgType::Inet => 869,
            PgType::Cidr => 650,
            PgType::Macaddr8 => 774,
            PgType::Aclitem => 1033,
            PgType::Bpchar => 1042,
            PgType::Varchar => 1043,
            PgType::Date => 1082,
            PgType::Time => 1083,
            PgType::Timestamp => 1114,
            PgType::Timestamptz => 1184,
            PgType::Interval => 1186,
            PgType::Timetz => 1266,
            PgType::Bit => 1560,
            PgType::Varbit => 1562,
            PgType::Numeric => 1700,
            PgType::Refcursor => 1790,
            PgType::Uuid => 2950,
            PgType::Tsvector => 3614,
            PgType::Gtsvector => 3642,
            PgType::Tsquery => 3615,
            PgType::Jsonb => 3802,
            PgType::Jsonpath => 4072,
            PgType::TxidSnapshot => 2970,
            PgType::Int4range => 3904,
            PgType::Numrange => 3906,
            PgType::Tsrange => 3908,
            PgType::Tstzrange => 3910,
            PgType::Daterange => 3912,
            PgType::Int8range => 3926,
            PgType::Int4multirange => 4451,
            PgType::Nummultirange => 4532,
            PgType::Tsmultirange => 4533,
            PgType::Tstzmultirange => 4534,
            PgType::Datemultirange => 4535,
        }
    }

    /// The type with the object id `value`, or nothing where no type is
    /// known by that id.
    pub fn from_oid(value: u32) -> (r: Result<Self, ()>)
        ensures
            match r {
                Ok(t) => t.spec_oid() == value,
                Err(_) => forall|t: PgType| t.spec_oid() != value,
            },
            r == spec_from_oid(value),
    {
        let r = Self::lookup(value);
        proof {
            match r {
                Ok(t) => {
                    let chosen = choose|c: PgType| c.spec_oid() == value;
                    lemma_oids_are_distinct(chosen, t);
                    assert(spec_known_type(value) == Some(t));
                },
                Err(e) => {
                    assert(spec_known_type(value) is None);
                    assert(e == ());
                    assert(r == Err::<PgType, ()>(()));
                },
            }
        }
        r
    }

    /// The type with the object id `value`, looked up in the table of the
    /// known types.
    fn lookup(value: u32) -> (r: Result<Self, ()>)
        ensures
            match r {
                Ok(t) => t.spec_oid() == value,
                Err(_) => forall|t: PgType| t.spec_oid() != value,
            },
    {
        if value == 16 {
            Ok(PgType::Bool)
        } else if value == 17 {
            Ok(PgType::Bytea)
        } else if value == 18 {
            Ok(PgType::Char)
        } else if value == 19 {
            Ok(PgType::Name)
        } else if value == 20 {
            Ok(PgType::Int8)
        } else if value == 21 {
            Ok(PgType::Int2)
        } else if value == 22 {
            Ok(PgType::Int2vector)
        } else if value == 23 {
            Ok(PgType::Int4)
        } else if value == 25 {
            Ok(PgType::Text)
        } else if value == 26 {
            Ok(PgType::Oid)
        } else if value == 27 {
            Ok(PgType::Tid)
        } else if value == 28 {
            Ok(PgType::Xid)
        } else if value == 29 {
            Ok(PgType::Cid)
        } else if value == 30 {
            Ok(PgType::Oidvector)
        } else if value == 114 {
            Ok(PgType::Json)
        } else if value == 142 {
            Ok(PgType::Xml)
        } else if value == 5069 {
            Ok(PgType::Xid8)
        } else if value == 600 {
            Ok(PgType::Point)
        } else if value == 601 {
            Ok(PgType::Lseg)
        } else if value == 602 {
            Ok(PgType::Path)
        } else if value == 603 {
            Ok(PgType::Box)
        } else if value == 604 {
            Ok(PgType::Polygon)
        } else if value == 628 {
            Ok(PgType::Line)
        } else if value == 700 {
            Ok(PgType::Float4)
        } else if value == 701 {
            Ok(PgType::Float8)
        } else if value == 705 {
            Ok(PgType::Unknown)
        } else if value == 718 {
            Ok(PgType::Circle)
        } else if value == 790 {
            Ok(PgType::Money)
        } else if value == 829 {
            Ok(PgType::Macaddr)
        } else if value == 869 {
            Ok(PgType::Inet)
        } else if value == 650 {
            Ok(PgType::Cidr)
        } else if value == 774 {
            Ok(PgType::Macaddr8)
        } else if value == 1033 {
            Ok(PgType::Aclitem)
        } else if value == 1042 {
            Ok(PgType::Bpchar)
        } else if value == 1043 {
            Ok(PgType::Varchar)
        } else if value == 1082 {
            Ok(PgType::Date)
        } else if value == 1083 {
            Ok(PgType::Time)
        } else if value == 1114 {
            Ok(PgType::Timestamp)
        } else if value == 1184 {
            Ok(PgType::Timestamptz)
        } else if value == 1186 {
            Ok(PgType::Interval)
        } else if value == 1266 {
            Ok(PgType::Timetz)
        } else if value == 1560 {
            Ok(PgType::Bit)
        } else if value == 1562 {
            Ok(PgType::Varbit)
        } else if value == 1700 {
            Ok(PgType::Numeric)
        } else if value == 1790 {
            Ok(PgType::Refcursor)
        } else if value == 2950 {
            Ok(PgType::Uuid)
        } else if value == 3614 {
            Ok(PgType::Tsvector)
        } else if value == 3642 {
            Ok(PgType::Gtsvector)
        } else if value == 3615 {
            Ok(PgType::Tsquery)
        } else if value == 3802 {
            Ok(PgType::Jsonb)
        } else if value == 4072 {
            Ok(PgType::Jsonpath)
        } else if value == 2970 {
            Ok(PgType::TxidSnapshot)
        } else if value == 3904 {
            Ok(PgType::Int4range)
        } else if value == 3906 {
            Ok(PgType::Numrange)
        } else if value == 3908 {
            Ok(PgType::Tsrange)
        } else if value == 3910 {
            Ok(PgType::Tstzrange)
        } else if value == 3912 {
            Ok(PgType::Daterange)
        } else if value == 3926 {
            Ok(PgType::Int8range)
        } else if value == 4451 {
            Ok(PgType::Int4multirange)
        } else if value == 4532 {
            Ok(PgType::Nummultirange)
        } else if value == 4533 {
            Ok(PgType::Tsmultirange)
        } else if value == 4534 {
            Ok(PgType::Tstzmultirange)
        } else if value == 4535 {
            Ok(PgType::Datemultirange)
        } else {
            Err(())
        }
    }
}

impl TryFrom<u32> for PgType {
    type Error = ();

    fn try_from(value: u32) -> (r: Result<Self, ()>) {
        PgType::from_oid(value)
    }
}

impl TryFromSpecImpl<u32> for PgType {
    open spec fn obeys_try_from_spec() -> bool {
        true
    }

    open spec fn try_from_spec(value: u32) -> Result<Self, ()> {
        spec_from_oid(value)
    }
}

/// The UUID that `text` spells, as a 128-bit number with the first byte of
/// the UUID as its most significant one, if it spells one.
pub uninterp spec fn spec_parse_uuid(text: Seq<char>) -> Option<u128>;

/// `Uuid::try_parse`, the UUID taken as a 128-bit number (`Uuid::as_u128`):
/// the UUID that the text spells in one of the forms that the crate writes
/// (hexadecimal digits with or without hyphens, in braces, or as a URN), or
/// nothing.
#[verifier::external_body]
pub(crate) fn parse_uuid(text: &str) -> (r: Option<u128>)
    ensures
        r == spec_parse_uuid(text@),
{
    match uuid::Uuid::try_parse(text) {
        Ok(u) => Some(u.as_u128()),
        Err(_) => None,
    }
}

/// The date that `text` spells as year, month and day, in days of the
/// common era, if it spells one.
pub uninterp spec fn spec_parse_date(text: Seq<char>) -> Option<i32>;

/// `NaiveDate::from_str`, the date taken as its number of days since the
/// day before 1 January of year 1 (`Datelike::num_days_from_ce`).
#[verifier::external_body]
pub(crate) fn parse_date(text: &str) -> (r: Option<i32>)
    ensures
        r == spec_parse_date(text@),
{
    match text.parse::<chrono::NaiveDate>() {
        Ok(d) => Some(chrono::Datelike::num_days_from_ce(&d)),
        Err(_) => None,
    }
}

/// The date and time that `text` spells, in microseconds since 1970-01-01
/// 00:00:00, if it spells one.
pub uninterp spec fn spec_parse_timestamp(text: Seq<char>) -> Option<i64>;

/// `NaiveDateTime::from_str`, the time taken as microseconds since
/// 1970-01-01 00:00:00 (`DateTime::timestamp_micros` of the same time in
/// UTC).
#[verifier::external_body]
pub(crate) fn parse_timestamp(text: &str) -> (r: Option<i64>)
    ensures
        r == spec_parse_timestamp(text@),
{
    match text.parse::<chrono::NaiveDateTime>() {
        Ok(t) => Some(t.and_utc().timestamp_micros()),
        Err(_) => None,
    }
}

/// The instant that `text` spells as date, time and offset from UTC, in
/// microseconds since 1970-01-01 00:00:00 UTC, if it spells one.
pub uninterp spec fn spec_parse_timestamptz(text: Seq<char>) -> Option<i64>;

/// `DateTime::parse_from_str` with the format `%Y-%m-%d %H:%M:%S%.f%#z`,
/// the instant taken as microseconds since 1970-01-01 00:00:00 UTC
/// (`DateTime::timestamp_micros`).
#[verifier::external_body]
pub(crate) fn parse_timestamptz(text: &str) -> (r: Option<i64>)
    ensures
        r == spec_parse_timestamptz(text@),
{
    match chrono::DateTime::parse_from_str(text, "%Y-%m-%d %H:%M:%S%.f%#z") {
        Ok(t) => Some(t.timestamp_micros()),
        Err(_) => None,
    }
}

/// A typed value of a column.
#[derive(Debug, Clone)]
pub enum ColumnValue {
    String(String),
    /// A UUID as a 128-bit number.
    Uuid(u128),
    Int(u32),
    Bool(bool),
    Json(JsonDocument),
    /// Microseconds since 1970-01-01 00:00:00, without a time zone.
    Timestamp(i64),
    /// Days of the common era.
    Date(i32),
    /// Microseconds since 1970-01-01 00:00:00 UTC.
    TimestampTZ(i64),
}

/// Mathematical content of a `ColumnValue`.
pub enum ColumnValueView {
    String(Seq<char>),
    Uuid(u128),
    Int(u32),
    Bool(bool),
    Json(JsonDocumentView),
    Timestamp(i64),
    Date(i32),
    TimestampTZ(i64),
}

impl View for ColumnValue {
    type V = ColumnValueView;

    open spec fn view(&self) -> ColumnValueView {
        match *self {
            ColumnValue::String(s) => ColumnValueView::String(s@),
            ColumnValue::Uuid(u) => ColumnValueView::Uuid(u),
            ColumnValue::Int(i) => ColumnValueView::Int(i),
            ColumnValue::Bool(b) => ColumnValueView::Bool(b),
            ColumnValue::Json(d) => ColumnValueView::Json(d@),
            ColumnValue::Timestamp(t) => ColumnValueView::Timestamp(t),
            ColumnValue::Date(d) => ColumnValueView::Date(d),
            ColumnValue::TimestampTZ(t) => ColumnValueView::TimestampTZ(t),
        }
    }
}

/// The typed value of the text `data` in a column of the type `pg_type`.
/// JSON, UUIDs, dates and times are parsed; text that does not parse, and
/// every other type, known or not, stays text.
pub open spec fn spec_column_value(pg_type: Option<PgType>, data: Seq<char>) -> ColumnValueView {
    match pg_type {
        Some(PgType::Json) | Some(PgType::Jsonb) => match spec_parse_json(data) {
            Some(d) => ColumnValueView::Json(d),
            None => ColumnValueView::String(data),
        },
        Some(PgType::Uuid) => match spec_parse_uuid(data) {
            Some(u) => ColumnValueView::Uuid(u),
            None => ColumnValueView::String(data),
        },
        Some(PgType::Date) => match spec_parse_date(data) {
            Some(d) => ColumnValueView::Date(d),
            None => ColumnValueView::String(data),
        },
        Some(PgType::Timestamp) => match spec_parse_timestamp(data) {
            Some(t) => ColumnValueView::Timestamp(t),
            None => ColumnValueView::String(data),
        },
        Some(PgType::Timestamptz) => match spec_parse_timestamptz(data) {
            Some(t) => ColumnValueView::TimestampTZ(t),
            None => ColumnValueView::String(data),
        },
        _ => ColumnValueView::String(data),
    }
}

/// The typed value that a parser found, or the text itself where it found
/// none.
pub open spec fn spec_or_text(parsed: Option<ColumnValueView>, data: Seq<char>) -> ColumnValueView {
    match parsed {
        Some(v) => v,
        None => ColumnValueView::String(data),
    }
}

/// The typed value of the text `data` in a column of the type `pg_type`.
pub fn column_value(pg_type: Option<PgType>, data: &String) -> (v: ColumnValue)
    ensures
        v@ == spec_column_value(pg_type, data@),
{
    match pg_type {
        Some(PgType::Json) | Some(PgType::Jsonb) => match parse_json(data.as_str()) {
            Some(d) => ColumnValue::Json(d),
            None => ColumnValue::String(data.clone()),
        },
        Some(PgType::Uuid) => match parse_uuid(data.as_str()) {
            Some(u) => ColumnValue::Uuid(u),
            None => ColumnValue::String(data.clone()),
        },
        Some(PgType::Date) => match parse_date(data.as_str()) {
            Some(d) => ColumnValue::Date(d),
            None => ColumnValue::String(data.clone()),
        },
        Some(PgType::Timestamp) => match parse_timestamp(data.as_str()) {
            Some(t) => ColumnValue::Timestamp(t),
            None => ColumnValue::String(data.clone()),
        },
        Some(PgType::Timestamptz) => match parse_timestamptz(data.as_str()) {
            Some(t) => ColumnValue::TimestampTZ(t),
            None => ColumnValue::String(data.clone()),
        },
        _ => ColumnValue::String(data.clone()),
    }
}

/// The name and the type of a column, as the decoder keeps them.
#[derive(Debug, Clone)]
pub struct TypedColumn {
    pub name: String,
    /// The type, where it is known by its object id.
    pub pg_type: Option<PgType>,
}

/// Mathematical content of a `TypedColumn`.
pub struct TypedColumnView {
    pub name: Seq<char>,
    pub pg_type: Option<PgType>,
}

impl View for TypedColumn {
    type V = TypedColumnView;

    open spec fn view(&self) -> TypedColumnView {
        TypedColumnView { name: self.name@, pg_type: self.pg_type }
    }
}

/// The views of a run of typed columns.
pub open spec fn typed_columns_view(columns: Seq<TypedColumn>) -> Seq<TypedColumnView> {
    columns.map_values(|c: TypedColumn| c@)
}

/// The type that is known by the object id `oid`, or the empty error where
/// none is.
pub open spec fn spec_from_oid(oid: u32) -> Result<PgType, ()> {
    match spec_known_type(oid) {
        Some(t) => Ok(t),
        None => Err(()),
    }
}

/// The type that is known by the object id `oid`, if any.
pub open spec fn spec_known_type(oid: u32) -> Option<PgType> {
    if exists|t: PgType| t.spec_oid() == oid {
        Some(choose|t: PgType| t.spec_oid() == oid)
    } else {
        None
    }
}

/// No two types share an object id.
pub proof fn lemma_oids_are_distinct(a: PgType, b: PgType)
    requires
        a.spec_oid() == b.spec_oid(),
    ensures
        a == b,
{
}

/// The typed columns of a schema: each column with its name and its type.
pub open spec fn spec_typed_columns(columns: Seq<ColumnInfoView>) -> Seq<TypedColumnView> {
    Seq::new(
        columns.len(),
        |i: int|
            TypedColumnView {
                name: columns[i].column_name,
                pg_type: spec_known_type(columns[i].column_type),
            },
    )
}

/// A row with typed values: name and value of each column, in column order.
#[derive(Debug, Clone)]
pub struct ReplicationRow {
    pub column_values: Vec<(String, ColumnValue)>,
}

/// The views of the columns of a row.
pub open spec fn row_view(columns: Seq<(String, ColumnValue)>) -> Seq<(Seq<char>, ColumnValueView)> {
    columns.map_values(|c: (String, ColumnValue)| (c.0@, c.1@))
}

impl View for ReplicationRow {
    type V = Seq<(Seq<char>, ColumnValueView)>;

    open spec fn view(&self) -> Seq<(Seq<char>, ColumnValueView)> {
        row_view(self.column_values@)
    }
}

/// The value of the column called `name`; of several columns of that name
/// the last counts.
pub open spec fn spec_row_get(row: Seq<(Seq<char>, ColumnValueView)>, name: Seq<char>) -> Option<
    ColumnValueView,
>
    decreases row.len(),
{
    if row.len() == 0 {
        None
    } else if row.last().0 == name {
        Some(row.last().1)
    } else {
        spec_row_get(row.drop_last(), name)
    }
}

/// The lesser of two lengths.
pub open spec fn spec_shorter(a: nat, b: nat) -> nat {
    if a <= b {
        a
    } else {
        b
    }
}

/// The row that a tuple makes with the typed columns of its relation: each
/// cell with the name of its column and its typed value. Cells for which the
/// relation has no column are left out.
pub open spec fn spec_tuple_to_row(columns: Seq<TypedColumnView>, tuple: TupleDataView) -> Seq<
    (Seq<char>, ColumnValueView),
> {
    Seq::new(
        spec_shorter(tuple.columns.len(), columns.len()),
        |i: int| (columns[i].name, spec_column_value(columns[i].pg_type, tuple.columns[i].data)),
    )
}

/// The decoder's memory: the typed columns of each relation announced.
pub type DecoderRelations = Map<Oid, Seq<TypedColumnView>>;

/// The views of the relations that a decoder remembers.
pub open spec fn decoder_relations_view(relations: Map<Oid, Vec<TypedColumn>>) -> DecoderRelations {
    relations.map_values(|columns: Vec<TypedColumn>| typed_columns_view(columns@))
}

/// What the decoder remembers after a message: a Relation message stores its
/// typed columns under its object id; any other message changes nothing.
pub open spec fn spec_decoder_after(relations: DecoderRelations, message: MessageView) -> DecoderRelations {
    match message {
        MessageView::Relation { relation } => relations.insert(
            relation.oid,
            spec_typed_columns(relation.columns),
        ),
        _ => relations,
    }
}

/// The row that a message gives: an Insert gives its tuple and an Update its
/// new tuple, where their relation was announced; any other message gives
/// none.
pub open spec fn spec_decoded_row(relations: DecoderRelations, message: MessageView) -> Option<
    Seq<(Seq<char>, ColumnValueView)>,
> {
    match message {
        MessageView::Insert { relation_id, tuple_data, .. } => if relations.contains_key(
            relation_id,
        ) {
            Some(spec_tuple_to_row(relations[relation_id], tuple_data))
        } else {
            None
        },
        MessageView::Update { relation_id, new_tuple_data, .. } => if relations.contains_key(
            relation_id,
        ) {
            Some(spec_tuple_to_row(relations[relation_id], new_tuple_data))
        } else {
            None
        },
        _ => None,
    }
}

/// The view of a row that may be missing.
pub open spec fn row_option_view(r: Option<ReplicationRow>) -> Option<
    Seq<(Seq<char>, ColumnValueView)>,
> {
    match r {
        Some(r) => Some(r@),
        None => None,
    }
}

impl ReplicationRow {
    /// The value of the column called `name`; of several columns of that
    /// name the last counts.
    pub fn get(&self, name: &str) -> (r: Option<&ColumnValue>)
        ensures
            match r {
                Some(v) => spec_row_get(self@, name@) == Some(v@),
                None => spec_row_get(self@, name@) is None,
            },
    {
        let mut i: usize = self.column_values.len();
        assert(self@.take(i as int) =~= self@);
        while i > 0
            invariant
                i <= self.column_values@.len(),
                spec_row_get(self@, name@) == spec_row_get(self@.take(i as int), name@),
            decreases i,
        {
            i -= 1;
            assert(self@.take(i + 1).drop_last() =~= self@.take(i as int));
            assert(self@.take(i + 1).last() == (
                self.column_values@[i as int].0@,
                self.column_values@[i as int].1@,
            ));
            if str_equal(self.column_values[i].0.as_str(), name) {
                return Some(&self.column_values[i].1);
            }
        }
        None
    }
}

/// Turns replication messages into rows with typed values.
#[derive(Debug)]
pub struct ReplicationEventDecoder {
    /// The typed columns of each relation announced, by object id.
    pub relations: HashMap<Oid, Vec<TypedColumn>>,
}

impl View for ReplicationEventDecoder {
    type V = DecoderRelations;

    open spec fn view(&self) -> DecoderRelations {
        decoder_relations_view(self.relations@)
    }
}

impl ReplicationEventDecoder {
    /// A decoder that knows no relation.
    pub fn new() -> (d: Self)
        ensures
            d@ == Map::<Oid, Seq<TypedColumnView>>::empty(),
    {
        let d = Self { relations: HashMap::new() };
        assert(d@ =~= Map::<Oid, Seq<TypedColumnView>>::empty());
        d
    }

    /// The typed columns of a schema.
    fn typed_columns(columns: &Vec<ColumnInfo>) -> (typed: Vec<TypedColumn>)
        ensures
            typed_columns_view(typed@) == spec_typed_columns(column_infos_view(columns@)),
    {
        let mut typed: Vec<TypedColumn> = Vec::new();
        let mut i: usize = 0;
        while i < columns.len()
            invariant
                i <= columns@.len(),
                typed@.len() == i,
                forall|k: int|
                    0 <= k < i ==> (#[trigger] typed@[k])@ == (TypedColumnView {
                        name: columns@[k].column_name@,
                        pg_type: spec_known_type(columns@[k].column_type),
                    }),
            decreases columns@.len() - i,
        {
            let pg_type = match PgType::from_oid(columns[i].column_type) {
                Ok(t) => {
                    proof {
                        let chosen = choose|c: PgType|
                            c.spec_oid() == columns@[i as int].column_type;
                        lemma_oids_are_distinct(chosen, t);
                    }
                    Some(t)
                },
                Err(_) => None,
            };
            typed.push(TypedColumn { name: columns[i].column_name.clone(), pg_type });
            i += 1;
        }
        assert(typed_columns_view(typed@) =~= spec_typed_columns(column_infos_view(columns@)));
        typed
    }

    /// The row that a tuple of the relation `relation_id` makes, or nothing
    /// where the relation was not announced.
    pub fn tuple_to_row(&self, relation_id: Oid, tuple_data: &TupleData) -> (r: Option<
        ReplicationRow,
    >)
        ensures
            match r {
                Some(row) => self@.contains_key(relation_id) && row@ == spec_tuple_to_row(
                    self@[relation_id],
                    tuple_data@,
                ),
                None => !self@.contains_key(relation_id),
            },
    {
        let table = match self.relations.get(&relation_id) {
            Some(table) => table,
            None => {
                return None;
            },
        };
        assert(self@[relation_id] == typed_columns_view(table@));
        let count = if tuple_data.columns.len() <= table.len() {
            tuple_data.columns.len()
        } else {
            table.len()
        };
        let mut column_values: Vec<(String, ColumnValue)> = Vec::new();
        let mut i: usize = 0;
        while i < count
            invariant
                i <= count,
                count <= tuple_data.columns@.len(),
                count <= table@.len(),
                column_values@.len() == i,
                forall|k: int|
                    0 <= k < i ==> ((#[trigger] column_values@[k]).0@, column_values@[k].1@) == (
                        table@[k].name@,
                        spec_column_value(table@[k].pg_type, tuple_data.columns@[k].data@),
                    ),
            decreases count - i,
        {
            let value = column_value(table[i].pg_type, &tuple_data.columns[i].data);
            column_values.push((table[i].name.clone(), value));
            i += 1;
        }
        let row = ReplicationRow { column_values };
        assert(row@ =~= spec_tuple_to_row(typed_columns_view(table@), tuple_data@));
        Some(row)
    }

    /// Takes a message: remembers the typed columns of a relation, and gives
    /// the row of an Insert or of the new tuple of an Update.
    pub fn decode(&mut self, message: &ReplicationMessage) -> (r: Option<ReplicationRow>)
        ensures
            final(self)@ == spec_decoder_after(old(self)@, message@),
            row_option_view(r) == spec_decoded_row(old(self)@, message@),
    {
        match message {
            ReplicationMessage::Relation { relation } => {
                let typed = Self::typed_columns(&relation.columns);
                let ghost before = self.relations@;
                let ghost stored = typed;
                let _ = self.relations.insert(relation.oid, typed);
                assert(decoder_relations_view(before.insert(relation.oid, stored))
                    =~= decoder_relations_view(before).insert(
                    relation.oid,
                    typed_columns_view(stored@),
                ));
                None
            },
            ReplicationMessage::Insert { relation_id, tuple_data, .. } => self.tuple_to_row(
                *relation_id,
                tuple_data,
            ),
            ReplicationMessage::Update { relation_id, new_tuple_data, .. } => self.tuple_to_row(
                *relation_id,
                new_tuple_data,
            ),
            _ => None,
        }
    }
}

/// A converter of values to text and JSON that converts nothing yet.
#[derive(Debug, Clone, Copy, PartialEq, Eq, Structural)]
pub struct PgTypeConverter {}

impl PgTypeConverter {
    /// The converter.
    pub fn new() -> Self {
        Self {  }
    }

    /// The JSON for a value of the type `pg_type`: not offered, so always an
    /// error that says so.
    pub fn to_json(&self, value: &[u8], pg_type: &str) -> (r: Result<JsonDocument, String>)
        ensures
            r matches Err(e) && e@ == "Type conversion not yet implemented"@,
    {
        Err(String::from_str("Type conversion not yet implemented"))
    }

    /// The text for a value of the type `pg_type`: not offered, so always an
    /// error that says so.
    pub fn to_string(&self, value: &[u8], pg_type: &str) -> (r: Result<String, String>)
        ensures
            r matches Err(e) && e@ == "Type conversion not yet implemented"@,
    {
        Err(String::from_str("Type conversion not yet implemented"))
    }
}

} // verus!
