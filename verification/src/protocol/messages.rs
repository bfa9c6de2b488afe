//! The decoded form of the pgoutput logical replication messages, and the
//! mathematical view of each.

use vstd::prelude::*;
use crate::utils::binary::Oid;
use crate::utils::binary::Xid;

verus! {

/// Column kind of a NULL value.
pub const COLUMN_TYPE_NULL: char = 'n';

/// Column kind of a TOAST value that the change left as it was.
pub const COLUMN_TYPE_UNCHANGED_TOAST: char = 'u';

/// Column kind of a value sent as text.
pub const COLUMN_TYPE_TEXT: char = 't';

/// One column of a relation's schema.
#[derive(Debug, Clone)]
pub struct ColumnInfo {
    /// 1 if the column is part of the key, else 0.
    pub key_flag: i8,
    pub column_name: String,
    /// Object id of the column's type.
    pub column_type: Oid,
    /// Type modifier.
    pub atttypmod: i32,
}

/// Mathematical content of a `ColumnInfo`.
pub struct ColumnInfoView {
    pub key_flag: i8,
    pub column_name: Seq<char>,
    pub column_type: Oid,
    pub atttypmod: i32,
}

impl View for ColumnInfo {
    type V = ColumnInfoView;

    open spec fn view(&self) -> ColumnInfoView {
        ColumnInfoView {
            key_flag: self.key_flag,
            column_name: self.column_name@,
            column_type: self.column_type,
            atttypmod: self.atttypmod,
        }
    }
}

/// The views of a run of schema columns.
pub open spec fn column_infos_view(columns: Seq<ColumnInfo>) -> Seq<ColumnInfoView> {
    columns.map_values(|c: ColumnInfo| c@)
}

/// Appending a schema column appends its view.
pub proof fn lemma_column_infos_push(columns: Seq<ColumnInfo>, column: ColumnInfo)
    ensures
        column_infos_view(columns.push(column)) == column_infos_view(columns).push(column@),
{
    assert(column_infos_view(columns.push(column)) =~= column_infos_view(columns).push(column@));
}

/// Schema of a relation, as announced by the server.
#[derive(Debug, Clone)]
pub struct RelationInfo {
    pub oid: Oid,
    pub namespace: String,
    pub relation_name: String,
    /// Replica identity: `d` default, `n` nothing, `f` full, `i` index.
    pub replica_identity: char,
    /// Number of columns as declared on the wire.
    pub column_count: i16,
    pub columns: Vec<ColumnInfo>,
}

/// Mathematical content of a `RelationInfo`.
pub struct RelationInfoView {
    pub oid: Oid,
    pub namespace: Seq<char>,
    pub relation_name: Seq<char>,
    pub replica_identity: char,
    pub column_count: i16,
    pub columns: Seq<ColumnInfoView>,
}

impl View for RelationInfo {
    type V = RelationInfoView;

    open spec fn view(&self) -> RelationInfoView {
        RelationInfoView {
            oid: self.oid,
            namespace: self.namespace@,
            relation_name: self.relation_name@,
            replica_identity: self.replica_identity,
            column_count: self.column_count,
            columns: column_infos_view(self.columns@),
        }
    }
}

/// One cell of a tuple: its kind, and for a text value its declared length
/// and its text.
#[derive(Debug, Clone)]
pub struct ColumnData {
    /// `n` for NULL, `u` for an unchanged TOAST value, `t` for text.
    pub data_type: char,
    /// Length of the text on the wire, in bytes; 0 for the other kinds.
    pub length: i32,
    /// The text; empty for the other kinds.
    pub data: String,
}

/// Mathematical content of a `ColumnData`.
pub struct ColumnDataView {
    pub data_type: char,
    pub length: i32,
    pub data: Seq<char>,
}

impl View for ColumnData {
    type V = ColumnDataView;

    open spec fn view(&self) -> ColumnDataView {
        ColumnDataView { data_type: self.data_type, length: self.length, data: self.data@ }
    }
}

/// The views of a run of cells.
pub open spec fn column_data_view(columns: Seq<ColumnData>) -> Seq<ColumnDataView> {
    columns.map_values(|c: ColumnData| c@)
}

/// Appending a cell appends its view.
pub proof fn lemma_column_data_push(columns: Seq<ColumnData>, column: ColumnData)
    ensures
        column_data_view(columns.push(column)) == column_data_view(columns).push(column@),
{
    assert(column_data_view(columns.push(column)) =~= column_data_view(columns).push(column@));
}

/// A row image: its cells in column order.
#[derive(Debug, Clone)]
pub struct TupleData {
    /// Number of columns as declared on the wire.
    pub column_count: i16,
    pub columns: Vec<ColumnData>,
    /// Number of bytes the tuple took on the wire, its column count included.
    pub processed_length: usize,
}

/// Mathematical content of a `TupleData`.
pub struct TupleDataView {
    pub column_count: i16,
    pub columns: Seq<ColumnDataView>,
    pub processed_length: nat,
}

impl View for TupleData {
    type V = TupleDataView;

    open spec fn view(&self) -> TupleDataView {
        TupleDataView {
            column_count: self.column_count,
            columns: column_data_view(self.columns@),
            processed_length: self.processed_length as nat,
        }
    }
}

pub open spec fn opt_tuple_view(t: Option<TupleData>) -> Option<TupleDataView> {
    match t {
        Some(t) => Some(t@),
        None => None,
    }
}

/// A logical replication message.
#[derive(Debug, Clone)]
pub enum ReplicationMessage {
    /// Start of a transaction.
    Begin { final_lsn: u64, timestamp: i64, xid: Xid },
    /// End of a transaction.
    Commit { flags: u8, commit_lsn: u64, end_lsn: u64, timestamp: i64 },
    /// Schema of a relation that later messages refer to.
    Relation { relation: RelationInfo },
    /// A new row.
    Insert { relation_id: Oid, tuple_data: TupleData, is_stream: bool, xid: Option<Xid> },
    /// A changed row, with its key or its old image where the server sent
    /// one.
    Update {
        relation_id: Oid,
        key_type: Option<char>,
        old_tuple_data: Option<TupleData>,
        new_tuple_data: TupleData,
        is_stream: bool,
        xid: Option<Xid>,
    },
    /// A removed row, by its key or its old image.
    Delete {
        relation_id: Oid,
        key_type: char,
        tuple_data: TupleData,
        is_stream: bool,
        xid: Option<Xid>,
    },
    /// Relations emptied at once.
    Truncate { relation_ids: Vec<Oid>, flags: i8, is_stream: bool, xid: Option<Xid> },
    /// Start of a block of a streamed transaction.
    StreamStart { xid: Xid, first_segment: bool },
    /// End of a block of a streamed transaction.
    StreamStop,
    /// Commit of a streamed transaction.
    StreamCommit { xid: Xid, flags: u8, commit_lsn: u64, end_lsn: u64, timestamp: i64 },
    /// Abort of a streamed transaction or of one of its subtransactions.
    StreamAbort { xid: Xid, subtransaction_xid: Xid },
}

/// Mathematical content of a `ReplicationMessage`.
pub enum MessageView {
    Begin { final_lsn: u64, timestamp: i64, xid: Xid },
    Commit { flags: u8, commit_lsn: u64, end_lsn: u64, timestamp: i64 },
    Relation { relation: RelationInfoView },
    Insert { relation_id: Oid, tuple_data: TupleDataView, is_stream: bool, xid: Option<Xid> },
    Update {
        relation_id: Oid,
        key_type: Option<char>,
        old_tuple_data: Option<TupleDataView>,
        new_tuple_data: TupleDataView,
        is_stream: bool,
        xid: Option<Xid>,
    },
    Delete {
        relation_id: Oid,
        key_type: char,
        tuple_data: TupleDataView,
        is_stream: bool,
        xid: Option<Xid>,
    },
    Truncate { relation_ids: Seq<Oid>, flags: i8, is_stream: bool, xid: Option<Xid> },
    StreamStart { xid: Xid, first_segment: bool },
    StreamStop,
    StreamCommit { xid: Xid, flags: u8, commit_lsn: u64, end_lsn: u64, timestamp: i64 },
    StreamAbort { xid: Xid, subtransaction_xid: Xid },
}

impl View for ReplicationMessage {
    type V = MessageView;

    open spec fn view(&self) -> MessageView {
        match *self {
            ReplicationMessage::Begin { final_lsn, timestamp, xid } => MessageView::Begin {
                final_lsn,
                timestamp,
                xid,
            },
            ReplicationMessage::Commit {
                flags,
                commit_lsn,
                end_lsn,
                timestamp,
            } => MessageView::Commit { flags, commit_lsn, end_lsn, timestamp },
            ReplicationMessage::Relation { relation } => MessageView::Relation {
                relation: relation@,
            },
            ReplicationMessage::Insert {
                relation_id,
                tuple_data,
                is_stream,
                xid,
            } => MessageView::Insert { relation_id, tuple_data: tuple_data@, is_stream, xid },
            ReplicationMessage::Update {
                relation_id,
                key_type,
                old_tuple_data,
                new_tuple_data,
                is_stream,
                xid,
            } => MessageView::Update {
                relation_id,
                key_type,
                old_tuple_data: opt_tuple_view(old_tuple_data),
                new_tuple_data: new_tuple_data@,
                is_stream,
                xid,
            },
            ReplicationMessage::Delete {
                relation_id,
                key_type,
                tuple_data,
                is_stream,
                xid,
            } => MessageView::Delete {
                relation_id,
                key_type,
                tuple_data: tuple_data@,
                is_stream,
                xid,
            },
            ReplicationMessage::Truncate {
                relation_ids,
                flags,
                is_stream,
                xid,
            } => MessageView::Truncate { relation_ids: relation_ids@, flags, is_stream, xid },
            ReplicationMessage::StreamStart { xid, first_segment } => MessageView::StreamStart {
                xid,
                first_segment,
            },
            ReplicationMessage::StreamStop => MessageView::StreamStop,
            ReplicationMessage::StreamCommit {
                xid,
                flags,
                commit_lsn,
                end_lsn,
                timestamp,
            } => MessageView::StreamCommit { xid, flags, commit_lsn, end_lsn, timestamp },
            ReplicationMessage::StreamAbort {
                xid,
                subtransaction_xid,
            } => MessageView::StreamAbort { xid, subtransaction_xid },
        }
    }
}

impl MessageView {
    /// Name of the message's kind.
    pub open spec fn message_type(self) -> Seq<char> {
        match self {
            MessageView::Begin { .. } => "Begin"@,
            MessageView::Commit { .. } => "Commit"@,
            MessageView::Relation { .. } => "Relation"@,
            MessageView::Insert { .. } => "Insert"@,
            MessageView::Update { .. } => "Update"@,
            MessageView::Delete { .. } => "Delete"@,
            MessageView::Truncate { .. } => "Truncate"@,
            MessageView::StreamStart { .. } => "StreamStart"@,
            MessageView::StreamStop => "StreamStop"@,
            MessageView::StreamCommit { .. } => "StreamCommit"@,
            MessageView::StreamAbort { .. } => "StreamAbort"@,
        }
    }

    /// The relations that the message refers to by id.
    pub open spec fn referenced_relations(self) -> Seq<Oid> {
        match self {
            MessageView::Insert { relation_id, .. } => seq![relation_id],
            MessageView::Update { relation_id, .. } => seq![relation_id],
            MessageView::Delete { relation_id, .. } => seq![relation_id],
            MessageView::Truncate { relation_ids, .. } => relation_ids,
            _ => Seq::empty(),
        }
    }
}

impl ColumnInfo {
    /// A copy of the column.
    pub fn duplicate(&self) -> (c: Self)
        ensures
            c@ == self@,
    {
        ColumnInfo {
            key_flag: self.key_flag,
            column_name: self.column_name.clone(),
            column_type: self.column_type,
            atttypmod: self.atttypmod,
        }
    }
}

impl RelationInfo {
    /// A copy of the schema.
    pub fn duplicate(&self) -> (r: Self)
        ensures
            r@ == self@,
            r.oid == self.oid,
    {
        let mut columns: Vec<ColumnInfo> = Vec::new();
        assert(column_infos_view(columns@) =~= column_infos_view(self.columns@.take(0)));
        let mut i: usize = 0;
        while i < self.columns.len()
            invariant
                i <= self.columns@.len(),
                column_infos_view(columns@) == column_infos_view(self.columns@.take(i as int)),
            decreases self.columns@.len() - i,
        {
            let ghost done = columns@;
            let column = self.columns[i].duplicate();
            proof {
                lemma_column_infos_push(done, column);
                lemma_column_infos_push(self.columns@.take(i as int), self.columns@[i as int]);
                assert(self.columns@.take(i as int).push(self.columns@[i as int])
                    =~= self.columns@.take(i + 1));
            }
            columns.push(column);
            i += 1;
        }
        assert(self.columns@.take(i as int) =~= self.columns@);
        RelationInfo {
            oid: self.oid,
            namespace: self.namespace.clone(),
            relation_name: self.relation_name.clone(),
            replica_identity: self.replica_identity,
            column_count: self.column_count,
            columns,
        }
    }
}

impl ReplicationMessage {
    /// Name of the message's kind, for logs.
    pub fn message_type(&self) -> (name: &'static str)
        ensures
            name@ == self@.message_type(),
    {
        match self {
            ReplicationMessage::Begin { .. } => "Begin",
            ReplicationMessage::Commit { .. } => "Commit",
            ReplicationMessage::Relation { .. } => "Relation",
            ReplicationMessage::Insert { .. } => "Insert",
            ReplicationMessage::Update { .. } => "Update",
            ReplicationMessage::Delete { .. } => "Delete",
            ReplicationMessage::Truncate { .. } => "Truncate",
            ReplicationMessage::StreamStart { .. } => "StreamStart",
            ReplicationMessage::StreamStop => "StreamStop",
            ReplicationMessage::StreamCommit { .. } => "StreamCommit",
            ReplicationMessage::StreamAbort { .. } => "StreamAbort",
        }
    }
}

} // verus!
