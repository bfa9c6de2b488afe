//! Decoder of the pgoutput logical replication messages.
//!
//! The spec functions of this module are the grammar: they say which message
//! a payload holds, or why it holds none. The executable functions compute
//! exactly that.

use std::collections::HashMap;
use vstd::prelude::*;
use vstd::slice::slice_subrange;
use crate::errors::parse_error;
use crate::errors::protocol_error;
use crate::errors::ErrorView;
use crate::errors::ReplicationError;
use crate::protocol::buffer::find_nul;
use crate::protocol::buffer::lemma_find_nul_bounds;
use crate::protocol::buffer::lossy_text;
use crate::protocol::buffer::BufferReader;
use crate::protocol::buffer::ReaderView;
use crate::protocol::buffer::DEFAULT_MAX_STRING_LENGTH;
use crate::protocol::messages::column_data_view;
use crate::protocol::messages::column_infos_view;
use crate::protocol::messages::lemma_column_data_push;
use crate::protocol::messages::lemma_column_infos_push;
use crate::protocol::messages::ColumnData;
use crate::protocol::messages::ColumnDataView;
use crate::protocol::messages::ColumnInfo;
use crate::protocol::messages::ColumnInfoView;
use crate::protocol::messages::MessageView;
use crate::protocol::messages::RelationInfo;
use crate::protocol::messages::RelationInfoView;
use crate::protocol::messages::ReplicationMessage;
use crate::protocol::messages::TupleData;
use crate::protocol::messages::TupleDataView;
use crate::replication::state::relations_view;
use crate::utils::binary::buf_recv_i16;
use crate::utils::binary::buf_recv_i64;
use crate::utils::binary::buf_recv_i8;
use crate::utils::binary::buf_recv_u32;
use crate::utils::binary::buf_recv_u64;
use crate::utils::binary::spec_recv_i16;
use crate::utils::binary::spec_recv_i32;
use crate::utils::binary::spec_recv_i64;
use crate::utils::binary::spec_recv_i8;
use crate::utils::binary::spec_recv_u32;
use crate::utils::binary::spec_recv_u64;

verus! {

/// What a decoding step gives: a value and the offset behind it, or an error.
pub type Step<T> = Result<(T, int), ErrorView>;

/// A cursor at offset `position` of `bytes`.
pub open spec fn cursor(bytes: Seq<u8>, position: int, cap: nat) -> ReaderView {
    ReaderView { bytes, position: position as nat, max_string_length: cap }
}

/// The view of a decoded message or of the error in its place.
pub open spec fn message_result_view(r: Result<ReplicationMessage, ReplicationError>) -> Result<
    MessageView,
    ErrorView,
> {
    match r {
        Ok(m) => Ok(m@),
        Err(e) => Err(e@),
    }
}

/// The view of a decoded tuple or of the error in its place.
pub open spec fn tuple_result_view(r: Result<TupleData, ReplicationError>) -> Result<
    TupleDataView,
    ErrorView,
> {
    match r {
        Ok(t) => Ok(t@),
        Err(e) => Err(e@),
    }
}

/// A cell without a value, of kind `n` or `u`.
pub open spec fn empty_cell(kind: char) -> ColumnDataView {
    ColumnDataView { data_type: kind, length: 0, data: Seq::empty() }
}

/// The cell at offset `p`: a kind byte, and for a text cell a 32-bit length
/// and that many bytes of text.
pub open spec fn spec_column(b: Seq<u8>, p: int, cap: nat) -> Step<ColumnDataView> {
    if p >= b.len() {
        Err(parse_error("Tuple data truncated"@))
    } else if b[p] == 0x6E {
        Ok((empty_cell('n'), p + 1))
    } else if b[p] == 0x75 {
        Ok((empty_cell('u'), p + 1))
    } else if b[p] == 0x74 {
        let c = cursor(b, p + 1, cap);
        match c.length_prefixed_fault("Negative string length"@, "String data truncated"@) {
            Some(e) => Err(e),
            None => Ok(
                (
                    ColumnDataView {
                        data_type: 't',
                        length: c.declared_length(),
                        data: lossy_text(c.length_prefixed_payload()),
                    },
                    p + 5 + c.declared_length(),
                ),
            ),
        }
    } else {
        Err(protocol_error("Unknown tuple data type"@))
    }
}

/// The first `k` cells from offset `p` on.
pub open spec fn spec_columns(b: Seq<u8>, p: int, k: nat, cap: nat) -> Step<Seq<ColumnDataView>>
    decreases k,
{
    if k == 0 {
        Ok((Seq::empty(), p))
    } else {
        match spec_columns(b, p, (k - 1) as nat, cap) {
            Err(e) => Err(e),
            Ok((cells, q)) => match spec_column(b, q, cap) {
                Err(e) => Err(e),
                Ok((cell, next)) => Ok((cells.push(cell), next)),
            },
        }
    }
}

/// The number of items that a declared count stands for: none if it is
/// negative.
pub open spec fn counted(n: i16) -> nat {
    if n < 0 {
        0
    } else {
        n as nat
    }
}

/// The tuple that `b` begins with: a 16-bit column count and that many
/// cells.
pub open spec fn spec_parse_tuple_data(b: Seq<u8>, cap: nat) -> Result<TupleDataView, ErrorView> {
    if b.len() < 2 {
        Err(parse_error("Tuple data too short"@))
    } else {
        let n = spec_recv_i16(b);
        match spec_columns(b, 2, counted(n), cap) {
            Err(e) => Err(e),
            Ok((cells, end)) => Ok(
                TupleDataView { column_count: n, columns: cells, processed_length: end as nat },
            ),
        }
    }
}

/// Once decoding a run of cells has failed, asking for more cells fails in
/// the same way.
pub proof fn lemma_columns_error_sticks(b: Seq<u8>, p: int, k: nat, n: nat, cap: nat)
    requires
        k <= n,
        spec_columns(b, p, k, cap) is Err,
    ensures
        spec_columns(b, p, n, cap) == spec_columns(b, p, k, cap),
    decreases n,
{
    if k < n {
        lemma_columns_error_sticks(b, p, k, (n - 1) as nat, cap);
    }
}

/// A run of decoded cells ends within the buffer, no earlier than it began,
/// and holds as many cells as were asked for.
pub proof fn lemma_columns_bounds(b: Seq<u8>, p: int, k: nat, cap: nat)
    requires
        0 <= p <= b.len(),
    ensures
        spec_columns(b, p, k, cap) matches Ok((cells, end)) ==> p <= end <= b.len() && cells.len()
            == k,
    decreases k,
{
    if k > 0 {
        lemma_columns_bounds(b, p, (k - 1) as nat, cap);
    }
}

/// Begin: final position, commit time, transaction id.
pub open spec fn spec_parse_begin(b: Seq<u8>) -> Result<MessageView, ErrorView> {
    if b.len() < 21 {
        Err(parse_error("Begin message too short"@))
    } else {
        Ok(
            MessageView::Begin {
                final_lsn: spec_recv_u64(b.skip(1)),
                timestamp: spec_recv_i64(b.skip(9)),
                xid: spec_recv_u32(b.skip(17)),
            },
        )
    }
}

/// Commit: flags, commit position, end position, commit time.
pub open spec fn spec_parse_commit(b: Seq<u8>) -> Result<MessageView, ErrorView> {
    if b.len() < 26 {
        Err(parse_error("Commit message too short"@))
    } else {
        Ok(
            MessageView::Commit {
                flags: b[1],
                commit_lsn: spec_recv_u64(b.skip(2)),
                end_lsn: spec_recv_u64(b.skip(10)),
                timestamp: spec_recv_i64(b.skip(18)),
            },
        )
    }
}

/// Stream start: transaction id, and whether this is the first block.
pub open spec fn spec_parse_stream_start(b: Seq<u8>) -> Result<MessageView, ErrorView> {
    if b.len() < 6 {
        Err(parse_error("Stream start message too short"@))
    } else {
        Ok(MessageView::StreamStart { xid: spec_recv_u32(b.skip(1)), first_segment: b[5] == 1 })
    }
}

/// Stream commit: transaction id, then the fields of a commit.
pub open spec fn spec_parse_stream_commit(b: Seq<u8>) -> Result<MessageView, ErrorView> {
    if b.len() < 30 {
        Err(parse_error("Stream commit message too short"@))
    } else {
        Ok(
            MessageView::StreamCommit {
                xid: spec_recv_u32(b.skip(1)),
                flags: b[5],
                commit_lsn: spec_recv_u64(b.skip(6)),
                end_lsn: spec_recv_u64(b.skip(14)),
                timestamp: spec_recv_i64(b.skip(22)),
            },
        )
    }
}

/// Stream abort: transaction id and subtransaction id.
pub open spec fn spec_parse_stream_abort(b: Seq<u8>) -> Result<MessageView, ErrorView> {
    if b.len() < 9 {
        Err(parse_error("Stream abort message too short"@))
    } else {
        Ok(
            MessageView::StreamAbort {
                xid: spec_recv_u32(b.skip(1)),
                subtransaction_xid: spec_recv_u32(b.skip(5)),
            },
        )
    }
}

/// The zero-terminated text at offset `p` and the offset behind its
/// terminator, if there is a terminator.
pub open spec fn spec_cstring(b: Seq<u8>, p: int) -> Option<(Seq<char>, int)> {
    let end = find_nul(b, p as nat);
    if end < b.len() {
        Some((lossy_text(b.subrange(p, end as int)), end as int + 1))
    } else {
        None
    }
}

/// The schema column at offset `p`: key flag, name, type id, type modifier.
pub open spec fn spec_relation_column(b: Seq<u8>, p: int) -> Step<ColumnInfoView> {
    if p >= b.len() {
        Err(parse_error("Column data truncated"@))
    } else {
        match spec_cstring(b, p + 1) {
            None => Err(parse_error("Invalid column name"@)),
            Some((name, q)) => if q + 8 > b.len() {
                Err(parse_error("Column data truncated"@))
            } else {
                Ok(
                    (
                        ColumnInfoView {
                            key_flag: spec_recv_i8(b.skip(p)),
                            column_name: name,
                            column_type: spec_recv_u32(b.skip(q)),
                            atttypmod: spec_recv_i32(b.skip(q + 4)),
                        },
                        q + 8,
                    ),
                )
            },
        }
    }
}

/// The first `k` schema columns from offset `p` on.
pub open spec fn spec_relation_columns(b: Seq<u8>, p: int, k: nat) -> Step<Seq<ColumnInfoView>>
    decreases k,
{
    if k == 0 {
        Ok((Seq::empty(), p))
    } else {
        match spec_relation_columns(b, p, (k - 1) as nat) {
            Err(e) => Err(e),
            Ok((columns, q)) => match spec_relation_column(b, q) {
                Err(e) => Err(e),
                Ok((column, next)) => Ok((columns.push(column), next)),
            },
        }
    }
}

/// Once decoding a run of schema columns has failed, asking for more columns
/// fails in the same way.
pub proof fn lemma_relation_columns_error_sticks(b: Seq<u8>, p: int, k: nat, n: nat)
    requires
        k <= n,
        spec_relation_columns(b, p, k) is Err,
    ensures
        spec_relation_columns(b, p, n) == spec_relation_columns(b, p, k),
    decreases n,
{
    if k < n {
        lemma_relation_columns_error_sticks(b, p, k, (n - 1) as nat);
    }
}

/// The rest of a Relation message from offset `p` on, behind the two names:
/// replica identity, column count, columns.
pub open spec fn spec_relation_body(
    b: Seq<u8>,
    p: int,
    oid: u32,
    namespace: Seq<char>,
    relation_name: Seq<char>,
) -> Result<MessageView, ErrorView> {
    if p + 3 > b.len() {
        Err(parse_error("Relation message truncated"@))
    } else {
        let n = spec_recv_i16(b.skip(p + 1));
        match spec_relation_columns(b, p + 3, counted(n)) {
            Err(e) => Err(e),
            Ok((columns, _)) => Ok(
                MessageView::Relation {
                    relation: RelationInfoView {
                        oid,
                        namespace,
                        relation_name,
                        replica_identity: b[p] as char,
                        column_count: n,
                        columns,
                    },
                },
            ),
        }
    }
}

/// Relation: object id, schema name, relation name, replica identity, column
/// count, columns.
pub open spec fn spec_parse_relation(b: Seq<u8>) -> Result<MessageView, ErrorView> {
    if b.len() < 7 {
        Err(parse_error("Relation message too short"@))
    } else {
        match spec_cstring(b, 5) {
            None => Err(parse_error("Invalid namespace in relation message"@)),
            Some((namespace, after_namespace)) => match spec_cstring(b, after_namespace) {
                None => Err(parse_error("Invalid relation name in relation message"@)),
                Some((relation_name, after_name)) => spec_relation_body(
                    b,
                    after_name,
                    spec_recv_u32(b.skip(1)),
                    namespace,
                    relation_name,
                ),
            },
        }
    }
}

/// The marker of a new tuple.
pub const MARKER_NEW: u8 = 0x4E;

/// The marker of a key image.
pub const MARKER_KEY: u8 = 0x4B;

/// The marker of a full old row image.
pub const MARKER_OLD: u8 = 0x4F;

/// Whether `x` marks an old image: by key or in full.
pub open spec fn is_old_marker(x: u8) -> bool {
    x == MARKER_KEY || x == MARKER_OLD
}

/// Insert: the relation, the marker `N`, the new tuple. In a streamed
/// transaction the transaction id comes first; it is told from the relation
/// id by the byte behind the first integer, which is `N` only where no
/// transaction id was sent.
pub open spec fn spec_parse_insert(b: Seq<u8>, cap: nat) -> Result<MessageView, ErrorView> {
    if b.len() < 6 {
        Err(parse_error("Insert message too short"@))
    } else if b[5] == MARKER_NEW {
        match spec_parse_tuple_data(b.skip(6), cap) {
            Err(e) => Err(e),
            Ok(t) => Ok(
                MessageView::Insert {
                    relation_id: spec_recv_u32(b.skip(1)),
                    tuple_data: t,
                    is_stream: false,
                    xid: None,
                },
            ),
        }
    } else if b.len() < 9 {
        Err(parse_error("Insert message too short"@))
    } else if b.len() < 10 || b[9] != MARKER_NEW {
        Err(protocol_error("Expected 'N' marker in insert message"@))
    } else {
        match spec_parse_tuple_data(b.skip(10), cap) {
            Err(e) => Err(e),
            Ok(t) => Ok(
                MessageView::Insert {
                    relation_id: spec_recv_u32(b.skip(5)),
                    tuple_data: t,
                    is_stream: true,
                    xid: Some(spec_recv_u32(b.skip(1))),
                },
            ),
        }
    }
}

/// The tuples of an Update from the marker at offset `p` on: `N` and the new
/// tuple, or `K` or `O`, the old image, `N` and the new tuple.
pub open spec fn spec_update_body(
    b: Seq<u8>,
    p: int,
    relation_id: u32,
    is_stream: bool,
    xid: Option<u32>,
    cap: nat,
) -> Result<MessageView, ErrorView> {
    if p >= b.len() {
        Err(parse_error("Update message truncated"@))
    } else if b[p] == MARKER_NEW {
        match spec_parse_tuple_data(b.skip(p + 1), cap) {
            Err(e) => Err(e),
            Ok(t) => Ok(
                MessageView::Update {
                    relation_id,
                    key_type: None,
                    old_tuple_data: None,
                    new_tuple_data: t,
                    is_stream,
                    xid,
                },
            ),
        }
    } else if is_old_marker(b[p]) {
        match spec_parse_tuple_data(b.skip(p + 1), cap) {
            Err(e) => Err(e),
            Ok(old) => {
                let q = p + 1 + old.processed_length;
                if q >= b.len() || b[q] != MARKER_NEW {
                    Err(protocol_error("Expected 'N' marker after old tuple data"@))
                } else {
                    match spec_parse_tuple_data(b.skip(q + 1), cap) {
                        Err(e) => Err(e),
                        Ok(t) => Ok(
                            MessageView::Update {
                                relation_id,
                                key_type: Some(b[p] as char),
                                old_tuple_data: Some(old),
                                new_tuple_data: t,
                                is_stream,
                                xid,
                            },
                        ),
                    }
                }
            },
        }
    } else {
        Err(protocol_error("Invalid marker in update message"@))
    }
}

/// Update: the relation and the tuples. In a streamed transaction the
/// transaction id comes first; it is told from the relation id by the byte
/// behind the first integer, which is a marker only where no transaction id
/// was sent.
pub open spec fn spec_parse_update(b: Seq<u8>, cap: nat) -> Result<MessageView, ErrorView> {
    if b.len() < 6 {
        Err(parse_error("Update message too short"@))
    } else if b[5] == MARKER_NEW || is_old_marker(b[5]) {
        spec_update_body(b, 5, spec_recv_u32(b.skip(1)), false, None, cap)
    } else if b.len() < 9 {
        Err(parse_error("Update message too short"@))
    } else {
        spec_update_body(
            b,
            9,
            spec_recv_u32(b.skip(5)),
            true,
            Some(spec_recv_u32(b.skip(1))),
            cap,
        )
    }
}

/// Delete: the relation, `K` or `O`, and the key or the old row image. In a
/// streamed transaction the transaction id comes first; it is told from the
/// relation id by the byte behind the first integer, which is a marker only
/// where no transaction id was sent.
pub open spec fn spec_parse_delete(b: Seq<u8>, cap: nat) -> Result<MessageView, ErrorView> {
    if b.len() < 6 {
        Err(parse_error("Delete message too short"@))
    } else if is_old_marker(b[5]) {
        match spec_parse_tuple_data(b.skip(6), cap) {
            Err(e) => Err(e),
            Ok(t) => Ok(
                MessageView::Delete {
                    relation_id: spec_recv_u32(b.skip(1)),
                    key_type: b[5] as char,
                    tuple_data: t,
                    is_stream: false,
                    xid: None,
                },
            ),
        }
    } else if b.len() < 9 {
        Err(parse_error("Delete message too short"@))
    } else if b.len() < 10 {
        Err(parse_error("Delete message truncated"@))
    } else if !is_old_marker(b[9]) {
        Err(protocol_error("Invalid marker in delete message"@))
    } else {
        match spec_parse_tuple_data(b.skip(10), cap) {
            Err(e) => Err(e),
            Ok(t) => Ok(
                MessageView::Delete {
                    relation_id: spec_recv_u32(b.skip(5)),
                    key_type: b[9] as char,
                    tuple_data: t,
                    is_stream: true,
                    xid: Some(spec_recv_u32(b.skip(1))),
                },
            ),
        }
    }
}

/// The `n` relation ids that lie from offset `p` on.
pub open spec fn spec_relation_ids(b: Seq<u8>, p: int, n: nat) -> Seq<u32> {
    Seq::new(n, |i: int| spec_recv_u32(b.skip(p + 4 * i)))
}

/// Whether a Truncate message carries a transaction id: it does where the
/// bytes behind the first two integers are exactly one byte of flags and as
/// many relation ids as the second integer says.
pub open spec fn truncate_is_streamed(b: Seq<u8>) -> bool {
    b.len() - 9 == 1 + 4 * spec_recv_u32(b.skip(5))
}

/// Truncate: the number of relations, flags, and the relation ids; in a
/// streamed transaction the transaction id comes first.
pub open spec fn spec_parse_truncate(b: Seq<u8>) -> Result<MessageView, ErrorView> {
    if b.len() < 10 {
        Err(parse_error("Truncate message too short"@))
    } else {
        let streamed = truncate_is_streamed(b);
        let p: int = if streamed {
            9
        } else {
            5
        };
        let n = if streamed {
            spec_recv_u32(b.skip(5))
        } else {
            spec_recv_u32(b.skip(1))
        };
        if b.len() - (p + 1) < 4 * n {
            Err(parse_error("Truncate relation IDs truncated"@))
        } else {
            Ok(
                MessageView::Truncate {
                    relation_ids: spec_relation_ids(b, p + 1, n as nat),
                    flags: spec_recv_i8(b.skip(p)),
                    is_stream: streamed,
                    xid: if streamed {
                        Some(spec_recv_u32(b.skip(1)))
                    } else {
                        None
                    },
                },
            )
        }
    }
}

/// The message that the payload `b` holds, by its first byte, or why it
/// holds none. A text value longer than `cap` bytes is refused.
pub open spec fn spec_parse_wal_message(b: Seq<u8>, cap: nat) -> Result<MessageView, ErrorView> {
    if b.len() == 0 {
        Err(parse_error("Empty message buffer"@))
    } else if b[0] == 0x42 {
        spec_parse_begin(b)
    } else if b[0] == 0x43 {
        spec_parse_commit(b)
    } else if b[0] == 0x52 {
        spec_parse_relation(b)
    } else if b[0] == 0x49 {
        spec_parse_insert(b, cap)
    } else if b[0] == 0x55 {
        spec_parse_update(b, cap)
    } else if b[0] == 0x44 {
        spec_parse_delete(b, cap)
    } else if b[0] == 0x54 {
        spec_parse_truncate(b)
    } else if b[0] == 0x53 {
        spec_parse_stream_start(b)
    } else if b[0] == 0x45 {
        Ok(MessageView::StreamStop)
    } else if b[0] == 0x63 {
        spec_parse_stream_commit(b)
    } else if b[0] == 0x41 {
        spec_parse_stream_abort(b)
    } else {
        Err(protocol_error("Unknown message type"@))
    }
}

/// Why a tuple of the relation `relation_id` cannot be accepted, if it cannot:
/// the relation was never announced, or the tuple declares another number of
/// columns than the relation has.
pub open spec fn spec_tuple_fault(
    relations: Map<u32, RelationInfoView>,
    relation_id: u32,
    tuple: TupleDataView,
    unknown: Seq<char>,
) -> Option<ErrorView> {
    if !relations.contains_key(relation_id) {
        Some(protocol_error(unknown))
    } else if relations[relation_id].column_count != tuple.column_count {
        Some(protocol_error("Column count does not match the relation"@))
    } else {
        None
    }
}

/// Why a decoded message cannot be accepted against the relations announced
/// so far, if it cannot. Every relation that a change refers to must have
/// been announced, and every tuple must declare as many columns as its
/// relation has.
pub open spec fn spec_relation_fault(m: MessageView, relations: Map<u32, RelationInfoView>) -> Option<
    ErrorView,
> {
    match m {
        MessageView::Insert { relation_id, tuple_data, .. } => spec_tuple_fault(
            relations,
            relation_id,
            tuple_data,
            "Unknown relation ID in INSERT"@,
        ),
        MessageView::Update { relation_id, old_tuple_data, new_tuple_data, .. } => {
            match old_tuple_data {
                Some(old) => match spec_tuple_fault(
                    relations,
                    relation_id,
                    old,
                    "Unknown relation ID in UPDATE"@,
                ) {
                    Some(e) => Some(e),
                    None => spec_tuple_fault(
                        relations,
                        relation_id,
                        new_tuple_data,
                        "Unknown relation ID in UPDATE"@,
                    ),
                },
                None => spec_tuple_fault(
                    relations,
                    relation_id,
                    new_tuple_data,
                    "Unknown relation ID in UPDATE"@,
                ),
            }
        },
        MessageView::Delete { relation_id, tuple_data, .. } => spec_tuple_fault(
            relations,
            relation_id,
            tuple_data,
            "Unknown relation ID in DELETE"@,
        ),
        MessageView::Truncate { relation_ids, .. } => if forall|i: int|
            0 <= i < relation_ids.len() ==> relations.contains_key(#[trigger] relation_ids[i]) {
            None
        } else {
            Some(protocol_error("Unknown relation ID in TRUNCATE"@))
        },
        _ => None,
    }
}

/// The message that the payload `b` holds and that the relations announced so
/// far allow, or why there is none.
pub open spec fn spec_decode(b: Seq<u8>, cap: nat, relations: Map<u32, RelationInfoView>) -> Result<
    MessageView,
    ErrorView,
> {
    match spec_parse_wal_message(b, cap) {
        Err(e) => Err(e),
        Ok(m) => match spec_relation_fault(m, relations) {
            Some(e) => Err(e),
            None => Ok(m),
        },
    }
}

/// Every relation that a decoded change refers to was announced before.
pub proof fn lemma_decoded_relations_are_known(
    b: Seq<u8>,
    cap: nat,
    relations: Map<u32, RelationInfoView>,
)
    ensures
        spec_decode(b, cap, relations) matches Ok(m) ==> forall|i: int|
            0 <= i < m.referenced_relations().len() ==> relations.contains_key(
                #[trigger] m.referenced_relations()[i],
            ),
{
}

/// Decoding is a function of the bytes: two decodings of equal payloads
/// against equal relations give equal messages, or equal errors.
pub proof fn lemma_decoding_is_repeatable(
    first: Result<ReplicationMessage, ReplicationError>,
    second: Result<ReplicationMessage, ReplicationError>,
    b: Seq<u8>,
    cap: nat,
)
    requires
        message_result_view(first) == spec_parse_wal_message(b, cap),
        message_result_view(second) == spec_parse_wal_message(b, cap),
    ensures
        message_result_view(first) == message_result_view(second),
        first is Ok <==> second is Ok,
        first matches Ok(m1) ==> second matches Ok(m2) && m1@ == m2@,
{
}

/// A tuple that declares no columns has none, and ends right behind its
/// column count.
pub proof fn lemma_tuple_without_columns(b: Seq<u8>, cap: nat)
    requires
        b.len() >= 2,
        spec_recv_i16(b) == 0,
    ensures
        spec_parse_tuple_data(b, cap) == Ok::<_, ErrorView>(
            TupleDataView { column_count: 0, columns: Seq::empty(), processed_length: 2 },
        ),
{
}

/// The bytes of `buffer` from offset `from` on.
fn tail(buffer: &[u8], from: usize) -> (t: &[u8])
    requires
        from <= buffer@.len(),
    ensures
        t@ == buffer@.skip(from as int),
{
    slice_subrange(buffer, from, buffer.len())
}

/// Decoder of logical replication messages.
pub struct MessageParser;

impl MessageParser {
    /// Decodes the tuple that `buffer` begins with, with the default cap on
    /// the length of a text value.
    pub fn parse_tuple_data(buffer: &[u8]) -> (r: Result<TupleData, ReplicationError>)
        ensures
            tuple_result_view(r) == spec_parse_tuple_data(
                buffer@,
                DEFAULT_MAX_STRING_LENGTH as nat,
            ),
            r matches Ok(t) ==> 2 <= t.processed_length <= buffer@.len() && t.columns@.len()
                == counted(t.column_count),
    {
        Self::parse_tuple_data_with_limit(buffer, DEFAULT_MAX_STRING_LENGTH)
    }

    /// Decodes the tuple that `buffer` begins with. A text value longer than
    /// `cap` bytes is refused.
    pub fn parse_tuple_data_with_limit(buffer: &[u8], cap: usize) -> (r: Result<
        TupleData,
        ReplicationError,
    >)
        ensures
            tuple_result_view(r) == spec_parse_tuple_data(buffer@, cap as nat),
            r matches Ok(t) ==> 2 <= t.processed_length <= buffer@.len() && t.columns@.len()
                == counted(t.column_count),
    {
        if buffer.len() < 2 {
            return Err(ReplicationError::parse("Tuple data too short"));
        }
        let column_count = buf_recv_i16(buffer);
        let wanted: usize = if column_count < 0 {
            0
        } else {
            column_count as usize
        };
        let mut reader = BufferReader::new(buffer).with_max_string_length(cap);
        let _ = reader.set_position(2);
        let mut columns: Vec<ColumnData> = Vec::new();
        assert(column_data_view(columns@) =~= Seq::<ColumnDataView>::empty());
        let mut i: usize = 0;
        while i < wanted
            invariant
                i <= wanted,
                wanted == counted(column_count),
                buffer@.len() >= 2,
                column_count == spec_recv_i16(buffer@),
                reader@.bytes == buffer@,
                reader@.max_string_length == cap,
                reader@.wf(),
                spec_columns(buffer@, 2, i as nat, cap as nat) == Ok::<_, ErrorView>(
                    (column_data_view(columns@), reader@.position as int),
                ),
            decreases wanted - i,
        {
            let ghost before = reader@;
            let ghost cells = columns@;
            let kind = match reader.read_u8() {
                Ok(kind) => kind,
                Err(_) => {
                    proof {
                        assert(spec_column(buffer@, before.position as int, cap as nat) == Err::<
                            (ColumnDataView, int),
                            _,
                        >(parse_error("Tuple data truncated"@)));
                        assert(spec_columns(buffer@, 2, (i + 1) as nat, cap as nat) == Err::<
                            (Seq<ColumnDataView>, int),
                            _,
                        >(parse_error("Tuple data truncated"@)));
                        lemma_columns_error_sticks(
                            buffer@,
                            2,
                            (i + 1) as nat,
                            wanted as nat,
                            cap as nat,
                        );
                    }
                    return Err(ReplicationError::parse("Tuple data truncated"));
                },
            };
            assert(kind == buffer@[before.position as int]);
            assert(reader@ == cursor(buffer@, before.position as int + 1, cap as nat));
            let column = if kind == 0x6E {
                ColumnData { data_type: 'n', length: 0, data: String::new() }
            } else if kind == 0x75 {
                ColumnData { data_type: 'u', length: 0, data: String::new() }
            } else if kind == 0x74 {
                let start = reader.position();
                match reader.read_length_prefixed_string() {
                    Ok(text) => {
                        let length = (reader.position() - start - 4) as i32;
                        ColumnData { data_type: 't', length, data: text }
                    },
                    Err(e) => {
                        proof {
                            assert(spec_column(buffer@, before.position as int, cap as nat)
                                == Err::<(ColumnDataView, int), _>(e@));
                            assert(spec_columns(buffer@, 2, (i + 1) as nat, cap as nat) == Err::<
                                (Seq<ColumnDataView>, int),
                                _,
                            >(e@));
                            lemma_columns_error_sticks(
                                buffer@,
                                2,
                                (i + 1) as nat,
                                wanted as nat,
                                cap as nat,
                            );
                        }
                        return Err(e);
                    },
                }
            } else {
                proof {
                    assert(spec_column(buffer@, before.position as int, cap as nat) is Err);
                    assert(spec_columns(buffer@, 2, (i + 1) as nat, cap as nat) is Err);
                    lemma_columns_error_sticks(
                        buffer@,
                        2,
                        (i + 1) as nat,
                        wanted as nat,
                        cap as nat,
                    );
                }
                return Err(ReplicationError::protocol("Unknown tuple data type"));
            };
            proof {
                lemma_column_data_push(cells, column);
            }
            columns.push(column);
            i += 1;
        }
        let processed_length = reader.position();
        proof {
            lemma_columns_bounds(buffer@, 2, wanted as nat, cap as nat);
        }
        Ok(TupleData { column_count, columns, processed_length })
    }

    /// Decodes a Begin message.
    fn parse_begin_message(buffer: &[u8]) -> (r: Result<ReplicationMessage, ReplicationError>)
        ensures
            message_result_view(r) == spec_parse_begin(buffer@),
    {
        if buffer.len() < 21 {
            return Err(ReplicationError::parse("Begin message too short"));
        }
        let final_lsn = buf_recv_u64(tail(buffer, 1));
        let timestamp = buf_recv_i64(tail(buffer, 9));
        let xid = buf_recv_u32(tail(buffer, 17));
        Ok(ReplicationMessage::Begin { final_lsn, timestamp, xid })
    }

    /// Decodes a Commit message.
    fn parse_commit_message(buffer: &[u8]) -> (r: Result<ReplicationMessage, ReplicationError>)
        ensures
            message_result_view(r) == spec_parse_commit(buffer@),
    {
        if buffer.len() < 26 {
            return Err(ReplicationError::parse("Commit message too short"));
        }
        let flags = buffer[1];
        let commit_lsn = buf_recv_u64(tail(buffer, 2));
        let end_lsn = buf_recv_u64(tail(buffer, 10));
        let timestamp = buf_recv_i64(tail(buffer, 18));
        Ok(ReplicationMessage::Commit { flags, commit_lsn, end_lsn, timestamp })
    }

    /// Decodes a StreamStart message.
    fn parse_stream_start_message(buffer: &[u8]) -> (r: Result<
        ReplicationMessage,
        ReplicationError,
    >)
        ensures
            message_result_view(r) == spec_parse_stream_start(buffer@),
    {
        if buffer.len() < 6 {
            return Err(ReplicationError::parse("Stream start message too short"));
        }
        let xid = buf_recv_u32(tail(buffer, 1));
        let first_segment = buffer[5] == 1;
        Ok(ReplicationMessage::StreamStart { xid, first_segment })
    }

    /// Decodes a StreamCommit message.
    fn parse_stream_commit_message(buffer: &[u8]) -> (r: Result<
        ReplicationMessage,
        ReplicationError,
    >)
        ensures
            message_result_view(r) == spec_parse_stream_commit(buffer@),
    {
        if buffer.len() < 30 {
            return Err(ReplicationError::parse("Stream commit message too short"));
        }
        let xid = buf_recv_u32(tail(buffer, 1));
        let flags = buffer[5];
        let commit_lsn = buf_recv_u64(tail(buffer, 6));
        let end_lsn = buf_recv_u64(tail(buffer, 14));
        let timestamp = buf_recv_i64(tail(buffer, 22));
        Ok(ReplicationMessage::StreamCommit { xid, flags, commit_lsn, end_lsn, timestamp })
    }

    /// Decodes a StreamAbort message.
    fn parse_stream_abort_message(buffer: &[u8]) -> (r: Result<
        ReplicationMessage,
        ReplicationError,
    >)
        ensures
            message_result_view(r) == spec_parse_stream_abort(buffer@),
    {
        if buffer.len() < 9 {
            return Err(ReplicationError::parse("Stream abort message too short"));
        }
        let xid = buf_recv_u32(tail(buffer, 1));
        let subtransaction_xid = buf_recv_u32(tail(buffer, 5));
        Ok(ReplicationMessage::StreamAbort { xid, subtransaction_xid })
    }

    /// Decodes the columns of a Relation message from the cursor on.
    fn parse_relation_columns(reader: &mut BufferReader, wanted: usize) -> (r: Result<
        Vec<ColumnInfo>,
        ReplicationError,
    >)
        requires
            old(reader)@.wf(),
        ensures
            final(reader)@.bytes == old(reader)@.bytes,
            match r {
                Ok(columns) => spec_relation_columns(
                    old(reader)@.bytes,
                    old(reader)@.position as int,
                    wanted as nat,
                ) matches Ok((views, _)) && views == column_infos_view(columns@),
                Err(e) => spec_relation_columns(
                    old(reader)@.bytes,
                    old(reader)@.position as int,
                    wanted as nat,
                ) == Err::<(Seq<ColumnInfoView>, int), _>(e@),
            },
    {
        let ghost b = reader@.bytes;
        let ghost start = reader@.position as int;
        let mut columns: Vec<ColumnInfo> = Vec::new();
        assert(column_infos_view(columns@) =~= Seq::<ColumnInfoView>::empty());
        let mut i: usize = 0;
        while i < wanted
            invariant
                i <= wanted,
                reader@.bytes == b,
                b == old(reader)@.bytes,
                start == old(reader)@.position,
                reader@.wf(),
                spec_relation_columns(b, start, i as nat) == Ok::<_, ErrorView>(
                    (column_infos_view(columns@), reader@.position as int),
                ),
            decreases wanted - i,
        {
            let ghost p = reader@.position as int;
            let ghost done = columns@;
            let key_flag = match reader.read_i8() {
                Ok(v) => v,
                Err(_) => {
                    proof {
                        assert(spec_relation_column(b, p) == Err::<(ColumnInfoView, int), _>(
                            parse_error("Column data truncated"@),
                        ));
                        assert(spec_relation_columns(b, start, (i + 1) as nat) == Err::<
                            (Seq<ColumnInfoView>, int),
                            _,
                        >(parse_error("Column data truncated"@)));
                        lemma_relation_columns_error_sticks(
                            b,
                            start,
                            (i + 1) as nat,
                            wanted as nat,
                        );
                    }
                    return Err(ReplicationError::parse("Column data truncated"));
                },
            };
            assert(reader@.rest() =~= b.skip(p + 1));
            proof {
                lemma_find_nul_bounds(b, (p + 1) as nat);
            }
            let column_name = match reader.read_null_terminated_string() {
                Ok(v) => v,
                Err(_) => {
                    proof {
                        assert(spec_relation_column(b, p) == Err::<(ColumnInfoView, int), _>(
                            parse_error("Invalid column name"@),
                        ));
                        assert(spec_relation_columns(b, start, (i + 1) as nat) == Err::<
                            (Seq<ColumnInfoView>, int),
                            _,
                        >(parse_error("Invalid column name"@)));
                        lemma_relation_columns_error_sticks(
                            b,
                            start,
                            (i + 1) as nat,
                            wanted as nat,
                        );
                    }
                    return Err(ReplicationError::parse("Invalid column name"));
                },
            };
            let ghost q = reader@.position as int;
            if !reader.has_bytes(8) {
                proof {
                    assert(spec_relation_column(b, p) == Err::<(ColumnInfoView, int), _>(
                        parse_error("Column data truncated"@),
                    ));
                    assert(spec_relation_columns(b, start, (i + 1) as nat) == Err::<
                        (Seq<ColumnInfoView>, int),
                        _,
                    >(parse_error("Column data truncated"@)));
                    lemma_relation_columns_error_sticks(b, start, (i + 1) as nat, wanted as nat);
                }
                return Err(ReplicationError::parse("Column data truncated"));
            }
            assert(reader@.rest() =~= b.skip(q));
            let column_type = match reader.read_u32() {
                Ok(v) => v,
                Err(e) => {
                    return Err(e);
                },
            };
            assert(reader@.rest() =~= b.skip(q + 4));
            let atttypmod = match reader.read_i32() {
                Ok(v) => v,
                Err(e) => {
                    return Err(e);
                },
            };
            let column = ColumnInfo { key_flag, column_name, column_type, atttypmod };
            proof {
                assert(b.skip(p) =~= cursor(b, p, 0).rest());
                lemma_column_infos_push(done, column);
            }
            columns.push(column);
            i += 1;
        }
        Ok(columns)
    }

    /// Decodes a Relation message.
    fn parse_relation_message(buffer: &[u8]) -> (r: Result<ReplicationMessage, ReplicationError>)
        ensures
            message_result_view(r) == spec_parse_relation(buffer@),
    {
        if buffer.len() < 7 {
            return Err(ReplicationError::parse("Relation message too short"));
        }
        let oid = buf_recv_u32(tail(buffer, 1));
        let mut reader = BufferReader::new(buffer);
        let _ = reader.set_position(5);
        proof {
            lemma_find_nul_bounds(buffer@, 5);
        }
        let namespace = match reader.read_null_terminated_string() {
            Ok(v) => v,
            Err(_) => {
                return Err(ReplicationError::parse("Invalid namespace in relation message"));
            },
        };
        let ghost after_namespace = reader@.position as int;
        proof {
            lemma_find_nul_bounds(buffer@, after_namespace as nat);
        }
        let relation_name = match reader.read_null_terminated_string() {
            Ok(v) => v,
            Err(_) => {
                return Err(ReplicationError::parse("Invalid relation name in relation message"));
            },
        };
        let ghost after_name = reader@.position as int;
        if !reader.has_bytes(3) {
            return Err(ReplicationError::parse("Relation message truncated"));
        }
        assert(reader@.rest()[0] == buffer@[after_name]);
        let replica_identity = match reader.read_char() {
            Ok(v) => v,
            Err(e) => {
                return Err(e);
            },
        };
        assert(reader@.rest() =~= buffer@.skip(after_name + 1));
        let column_count = match reader.read_i16() {
            Ok(v) => v,
            Err(e) => {
                return Err(e);
            },
        };
        let wanted: usize = if column_count < 0 {
            0
        } else {
            column_count as usize
        };
        let columns = Self::parse_relation_columns(&mut reader, wanted)?;
        Ok(
            ReplicationMessage::Relation {
                relation: RelationInfo {
                    oid,
                    namespace,
                    relation_name,
                    replica_identity,
                    column_count,
                    columns,
                },
            },
        )
    }

    /// Decodes an Insert message.
    fn parse_insert_message(buffer: &[u8], cap: usize) -> (r: Result<
        ReplicationMessage,
        ReplicationError,
    >)
        ensures
            message_result_view(r) == spec_parse_insert(buffer@, cap as nat),
    {
        if buffer.len() < 6 {
            return Err(ReplicationError::parse("Insert message too short"));
        }
        let first = buf_recv_u32(tail(buffer, 1));
        if buffer[5] == MARKER_NEW {
            let tuple_data = Self::parse_tuple_data_with_limit(tail(buffer, 6), cap)?;
            return Ok(
                ReplicationMessage::Insert {
                    relation_id: first,
                    tuple_data,
                    is_stream: false,
                    xid: None,
                },
            );
        }
        if buffer.len() < 9 {
            return Err(ReplicationError::parse("Insert message too short"));
        }
        let relation_id = buf_recv_u32(tail(buffer, 5));
        if buffer.len() < 10 || buffer[9] != MARKER_NEW {
            return Err(ReplicationError::protocol("Expected 'N' marker in insert message"));
        }
        let tuple_data = Self::parse_tuple_data_with_limit(tail(buffer, 10), cap)?;
        Ok(ReplicationMessage::Insert { relation_id, tuple_data, is_stream: true, xid: Some(first) })
    }

    /// Decodes the tuples of an Update message from the marker at `offset`
    /// on.
    fn parse_update_body(
        buffer: &[u8],
        offset: usize,
        relation_id: u32,
        is_stream: bool,
        xid: Option<u32>,
        cap: usize,
    ) -> (r: Result<ReplicationMessage, ReplicationError>)
        ensures
            message_result_view(r) == spec_update_body(
                buffer@,
                offset as int,
                relation_id,
                is_stream,
                xid,
                cap as nat,
            ),
    {
        if offset >= buffer.len() {
            return Err(ReplicationError::parse("Update message truncated"));
        }
        let marker = buffer[offset];
        if marker == MARKER_NEW {
            let new_tuple_data = Self::parse_tuple_data_with_limit(tail(buffer, offset + 1), cap)?;
            return Ok(
                ReplicationMessage::Update {
                    relation_id,
                    key_type: None,
                    old_tuple_data: None,
                    new_tuple_data,
                    is_stream,
                    xid,
                },
            );
        }
        if marker == MARKER_KEY || marker == MARKER_OLD {
            let old = Self::parse_tuple_data_with_limit(tail(buffer, offset + 1), cap)?;
            let next = offset + 1 + old.processed_length;
            if next >= buffer.len() || buffer[next] != MARKER_NEW {
                return Err(
                    ReplicationError::protocol("Expected 'N' marker after old tuple data"),
                );
            }
            let new_tuple_data = Self::parse_tuple_data_with_limit(tail(buffer, next + 1), cap)?;
            return Ok(
                ReplicationMessage::Update {
                    relation_id,
                    key_type: Some(marker as char),
                    old_tuple_data: Some(old),
                    new_tuple_data,
                    is_stream,
                    xid,
                },
            );
        }
        Err(ReplicationError::protocol("Invalid marker in update message"))
    }

    /// Decodes an Update message.
    fn parse_update_message(buffer: &[u8], cap: usize) -> (r: Result<
        ReplicationMessage,
        ReplicationError,
    >)
        ensures
            message_result_view(r) == spec_parse_update(buffer@, cap as nat),
    {
        if buffer.len() < 6 {
            return Err(ReplicationError::parse("Update message too short"));
        }
        let first = buf_recv_u32(tail(buffer, 1));
        let marker = buffer[5];
        if marker == MARKER_NEW || marker == MARKER_KEY || marker == MARKER_OLD {
            return Self::parse_update_body(buffer, 5, first, false, None, cap);
        }
        if buffer.len() < 9 {
            return Err(ReplicationError::parse("Update message too short"));
        }
        let relation_id = buf_recv_u32(tail(buffer, 5));
        Self::parse_update_body(buffer, 9, relation_id, true, Some(first), cap)
    }

    /// Decodes a Delete message.
    fn parse_delete_message(buffer: &[u8], cap: usize) -> (r: Result<
        ReplicationMessage,
        ReplicationError,
    >)
        ensures
            message_result_view(r) == spec_parse_delete(buffer@, cap as nat),
    {
        if buffer.len() < 6 {
            return Err(ReplicationError::parse("Delete message too short"));
        }
        let first = buf_recv_u32(tail(buffer, 1));
        let marker = buffer[5];
        if marker == MARKER_KEY || marker == MARKER_OLD {
            let tuple_data = Self::parse_tuple_data_with_limit(tail(buffer, 6), cap)?;
            return Ok(
                ReplicationMessage::Delete {
                    relation_id: first,
                    key_type: marker as char,
                    tuple_data,
                    is_stream: false,
                    xid: None,
                },
            );
        }
        if buffer.len() < 9 {
            return Err(ReplicationError::parse("Delete message too short"));
        }
        let relation_id = buf_recv_u32(tail(buffer, 5));
        if buffer.len() < 10 {
            return Err(ReplicationError::parse("Delete message truncated"));
        }
        let key = buffer[9];
        if !(key == MARKER_KEY || key == MARKER_OLD) {
            return Err(ReplicationError::protocol("Invalid marker in delete message"));
        }
        let tuple_data = Self::parse_tuple_data_with_limit(tail(buffer, 10), cap)?;
        Ok(
            ReplicationMessage::Delete {
                relation_id,
                key_type: key as char,
                tuple_data,
                is_stream: true,
                xid: Some(first),
            },
        )
    }

    /// Decodes a Truncate message.
    fn parse_truncate_message(buffer: &[u8]) -> (r: Result<ReplicationMessage, ReplicationError>)
        ensures
            message_result_view(r) == spec_parse_truncate(buffer@),
    {
        if buffer.len() < 10 {
            return Err(ReplicationError::parse("Truncate message too short"));
        }
        let first = buf_recv_u32(tail(buffer, 1));
        let second = buf_recv_u32(tail(buffer, 5));
        let behind: u64 = (buffer.len() - 9) as u64;
        let streamed = behind == 1 + 4 * (second as u64);
        let offset: usize = if streamed {
            9
        } else {
            5
        };
        let count: u32 = if streamed {
            second
        } else {
            first
        };
        let xid = if streamed {
            Some(first)
        } else {
            None
        };
        let flags = buf_recv_i8(tail(buffer, offset));
        let room: u64 = (buffer.len() - (offset + 1)) as u64;
        if room < 4 * (count as u64) {
            return Err(ReplicationError::parse("Truncate relation IDs truncated"));
        }
        let mut relation_ids: Vec<u32> = Vec::new();
        let mut i: u32 = 0;
        while i < count
            invariant
                i <= count,
                offset + 1 + 4 * count <= buffer@.len() <= usize::MAX,
                relation_ids@.len() == i,
                forall|j: int|
                    0 <= j < i ==> relation_ids@[j] == spec_recv_u32(
                        buffer@.skip(offset + 1 + 4 * j),
                    ),
            decreases count - i,
        {
            let at: usize = offset + 1 + 4 * (i as usize);
            relation_ids.push(buf_recv_u32(tail(buffer, at)));
            i += 1;
        }
        assert(relation_ids@ =~= spec_relation_ids(buffer@, offset + 1, count as nat));
        Ok(ReplicationMessage::Truncate { relation_ids, flags, is_stream: streamed, xid })
    }

    /// Decodes the message that the payload `buffer` holds, with the default
    /// cap on the length of a text value.
    pub fn parse_wal_message(buffer: &[u8]) -> (r: Result<ReplicationMessage, ReplicationError>)
        ensures
            message_result_view(r) == spec_parse_wal_message(
                buffer@,
                DEFAULT_MAX_STRING_LENGTH as nat,
            ),
    {
        Self::parse_wal_message_with_limit(buffer, DEFAULT_MAX_STRING_LENGTH)
    }

    /// Decodes the message that the payload `buffer` holds. A text value
    /// longer than `cap` bytes is refused.
    pub fn parse_wal_message_with_limit(buffer: &[u8], cap: usize) -> (r: Result<
        ReplicationMessage,
        ReplicationError,
    >)
        ensures
            message_result_view(r) == spec_parse_wal_message(buffer@, cap as nat),
    {
        if buffer.len() == 0 {
            return Err(ReplicationError::parse("Empty message buffer"));
        }
        let tag = buffer[0];
        if tag == 0x42 {
            Self::parse_begin_message(buffer)
        } else if tag == 0x43 {
            Self::parse_commit_message(buffer)
        } else if tag == 0x52 {
            Self::parse_relation_message(buffer)
        } else if tag == 0x49 {
            Self::parse_insert_message(buffer, cap)
        } else if tag == 0x55 {
            Self::parse_update_message(buffer, cap)
        } else if tag == 0x44 {
            Self::parse_delete_message(buffer, cap)
        } else if tag == 0x54 {
            Self::parse_truncate_message(buffer)
        } else if tag == 0x53 {
            Self::parse_stream_start_message(buffer)
        } else if tag == 0x45 {
            Ok(ReplicationMessage::StreamStop)
        } else if tag == 0x63 {
            Self::parse_stream_commit_message(buffer)
        } else if tag == 0x41 {
            Self::parse_stream_abort_message(buffer)
        } else {
            Err(ReplicationError::protocol("Unknown message type"))
        }
    }

    /// Whether a tuple of the relation `relation_id` can be accepted.
    fn check_tuple(
        relations: &HashMap<u32, RelationInfo>,
        relation_id: u32,
        tuple: &TupleData,
        unknown: &str,
    ) -> (r: Result<(), ReplicationError>)
        ensures
            match r {
                Ok(_) => spec_tuple_fault(relations_view(relations@), relation_id, tuple@, unknown@)
                    is None,
                Err(e) => spec_tuple_fault(
                    relations_view(relations@),
                    relation_id,
                    tuple@,
                    unknown@,
                ) == Some(e@),
            },
    {
        match relations.get(&relation_id) {
            None => Err(ReplicationError::protocol(unknown)),
            Some(relation) => {
                if relation.column_count != tuple.column_count {
                    Err(ReplicationError::protocol("Column count does not match the relation"))
                } else {
                    Ok(())
                }
            },
        }
    }

    /// Whether every relation of `relation_ids` was announced.
    fn check_truncate(relations: &HashMap<u32, RelationInfo>, relation_ids: &Vec<u32>) -> (known:
        bool)
        ensures
            known == (forall|i: int|
                0 <= i < relation_ids@.len() ==> relations_view(relations@).contains_key(
                    #[trigger] relation_ids@[i],
                )),
    {
        let mut i: usize = 0;
        while i < relation_ids.len()
            invariant
                i <= relation_ids@.len(),
                forall|j: int|
                    0 <= j < i ==> relations_view(relations@).contains_key(
                        #[trigger] relation_ids@[j],
                    ),
            decreases relation_ids@.len() - i,
        {
            if relations.get(&relation_ids[i]).is_none() {
                return false;
            }
            i += 1;
        }
        true
    }

    /// Checks a decoded message against the relations announced so far.
    pub fn check_relations(message: &ReplicationMessage, relations: &HashMap<u32, RelationInfo>) -> (r:
        Result<(), ReplicationError>)
        ensures
            match r {
                Ok(_) => spec_relation_fault(message@, relations_view(relations@)) is None,
                Err(e) => spec_relation_fault(message@, relations_view(relations@)) == Some(e@),
            },
    {
        match message {
            ReplicationMessage::Insert { relation_id, tuple_data, .. } => Self::check_tuple(
                relations,
                *relation_id,
                tuple_data,
                "Unknown relation ID in INSERT",
            ),
            ReplicationMessage::Update { relation_id, old_tuple_data, new_tuple_data, .. } => {
                let checked_old = match old_tuple_data {
                    Some(old) => Self::check_tuple(
                        relations,
                        *relation_id,
                        old,
                        "Unknown relation ID in UPDATE",
                    ),
                    None => Ok(()),
                };
                match checked_old {
                    Err(e) => Err(e),
                    Ok(_) => Self::check_tuple(
                        relations,
                        *relation_id,
                        new_tuple_data,
                        "Unknown relation ID in UPDATE",
                    ),
                }
            },
            ReplicationMessage::Delete { relation_id, tuple_data, .. } => Self::check_tuple(
                relations,
                *relation_id,
                tuple_data,
                "Unknown relation ID in DELETE",
            ),
            ReplicationMessage::Truncate { relation_ids, .. } => {
                let known = Self::check_truncate(relations, relation_ids);
                assert(message@->Truncate_relation_ids == relation_ids@);
                if known {
                    Ok(())
                } else {
                    Err(ReplicationError::protocol("Unknown relation ID in TRUNCATE"))
                }
            },
            _ => Ok(()),
        }
    }

    /// Decodes the message that the payload `buffer` holds and checks it
    /// against the relations announced so far. A text value longer than `cap`
    /// bytes is refused. Every relation that the decoded message refers to is
    /// among `relations`.
    pub fn decode(buffer: &[u8], cap: usize, relations: &HashMap<u32, RelationInfo>) -> (r: Result<
        ReplicationMessage,
        ReplicationError,
    >)
        ensures
            message_result_view(r) == spec_decode(buffer@, cap as nat, relations_view(relations@)),
            r matches Ok(m) ==> forall|i: int|
                0 <= i < m@.referenced_relations().len() ==> relations@.contains_key(
                    #[trigger] m@.referenced_relations()[i],
                ),
    {
        let message = Self::parse_wal_message_with_limit(buffer, cap)?;
        Self::check_relations(&message, relations)?;
        Ok(message)
    }
}

} // verus!
