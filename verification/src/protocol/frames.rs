//! The frames that carry the replication stream: WAL data and keepalives
//! from the server, status updates and hot-standby feedback from the client.

use vstd::prelude::*;
use crate::errors::protocol_error;
use crate::errors::ErrorView;
use crate::errors::ReplicationError;
use crate::protocol::buffer::fixed_write;
use crate::protocol::buffer::BufferReader;
use crate::protocol::buffer::BufferWriter;
use crate::utils::binary::lemma_be_bytes_len;
use crate::utils::binary::lemma_be_value_prefix;
use crate::utils::binary::lemma_round_trip_i64;
use crate::utils::binary::lemma_round_trip_u32;
use crate::utils::binary::lemma_round_trip_u64;
use crate::utils::binary::spec_recv_i64;
use crate::utils::binary::spec_recv_u32;
use crate::utils::binary::spec_recv_u64;
use crate::utils::binary::spec_send_i64;
use crate::utils::binary::spec_send_u32;
use crate::utils::binary::spec_send_u64;
use crate::utils::binary::to_unsigned;

verus! {

/// Tag of a primary keepalive frame.
pub const TAG_KEEPALIVE: u8 = 0x6B;

/// Tag of a WAL data frame.
pub const TAG_XLOG_DATA: u8 = 0x77;

/// Tag of a standby status update frame.
pub const TAG_STANDBY_STATUS_UPDATE: u8 = 0x72;

/// Tag of a hot-standby feedback frame.
pub const TAG_HOT_STANDBY_FEEDBACK: u8 = 0x68;

/// Length of a primary keepalive frame.
pub const KEEPALIVE_LENGTH: usize = 18;

/// Length of the header of a WAL data frame.
pub const XLOG_DATA_HEADER_LENGTH: usize = 25;

/// Length of a standby status update frame.
pub const STANDBY_STATUS_UPDATE_LENGTH: usize = 34;

/// Length of a hot-standby feedback frame.
pub const HOT_STANDBY_FEEDBACK_LENGTH: usize = 25;

/// Primary keepalive: the server's end of WAL, its clock, and whether it
/// wants a reply at once.
#[derive(Debug, Clone, Copy, PartialEq, Eq, Structural)]
pub struct KeepaliveMessage {
    pub message_type: char,
    pub log_pos: u64,
    pub timestamp: i64,
    pub reply_requested: bool,
}

/// WAL data: the position of the payload, the server's end of WAL, its
/// clock, and the payload.
#[derive(Debug, Clone)]
pub struct XLogDataMessage {
    pub message_type: char,
    pub data_start: u64,
    pub wal_end: u64,
    pub send_time: i64,
    pub data: Vec<u8>,
}

/// Mathematical content of an `XLogDataMessage`.
pub struct XLogDataView {
    pub message_type: char,
    pub data_start: u64,
    pub wal_end: u64,
    pub send_time: i64,
    pub data: Seq<u8>,
}

impl View for XLogDataMessage {
    type V = XLogDataView;

    open spec fn view(&self) -> XLogDataView {
        XLogDataView {
            message_type: self.message_type,
            data_start: self.data_start,
            wal_end: self.wal_end,
            send_time: self.send_time,
            data: self.data@,
        }
    }
}

/// Standby status update: the positions received, flushed and applied, the
/// client's clock, and whether the client wants a reply at once.
#[derive(Debug, Clone, Copy, PartialEq, Eq, Structural)]
pub struct StandbyStatusUpdateMessage {
    pub message_type: char,
    pub reply_requested: u8,
    pub last_lsn: u64,
    pub flush_lsn: u64,
    pub apply_lsn: u64,
    pub send_time: i64,
}

/// Hot-standby feedback: the client's clock and its transaction horizons.
#[derive(Debug, Clone, Copy, PartialEq, Eq, Structural)]
pub struct HotStandbyFeedbackMessage {
    pub message_type: char,
    pub send_time: i64,
    pub xmin: u32,
    pub epoch: u32,
    pub catalog_xmin: u32,
    pub catalog_epoch: u32,
}

/// The keepalive that `data` holds, or why it holds none.
pub open spec fn spec_parse_keepalive(data: Seq<u8>) -> Result<KeepaliveMessage, ErrorView> {
    if data.len() < KEEPALIVE_LENGTH {
        Err(protocol_error("Keepalive message too short"@))
    } else {
        Ok(
            KeepaliveMessage {
                message_type: data[0] as char,
                log_pos: spec_recv_u64(data.skip(1)),
                timestamp: spec_recv_i64(data.skip(9)),
                reply_requested: data[17] != 0,
            },
        )
    }
}

/// The WAL data frame that `data` holds, or why it holds none.
pub open spec fn spec_parse_xlog_data(data: Seq<u8>) -> Result<XLogDataView, ErrorView> {
    if data.len() < XLOG_DATA_HEADER_LENGTH {
        Err(protocol_error("WAL message too short"@))
    } else {
        Ok(
            XLogDataView {
                message_type: data[0] as char,
                data_start: spec_recv_u64(data.skip(1)),
                wal_end: spec_recv_u64(data.skip(9)),
                send_time: spec_recv_i64(data.skip(17)),
                data: data.skip(25),
            },
        )
    }
}

/// The standby status update that `data` holds, or why it holds none.
pub open spec fn spec_parse_standby_status_update(data: Seq<u8>) -> Result<
    StandbyStatusUpdateMessage,
    ErrorView,
> {
    if data.len() < STANDBY_STATUS_UPDATE_LENGTH {
        Err(protocol_error("Status update message too short"@))
    } else {
        Ok(
            StandbyStatusUpdateMessage {
                message_type: data[0] as char,
                last_lsn: spec_recv_u64(data.skip(1)),
                flush_lsn: spec_recv_u64(data.skip(9)),
                apply_lsn: spec_recv_u64(data.skip(17)),
                send_time: spec_recv_i64(data.skip(25)),
                reply_requested: data[33],
            },
        )
    }
}

/// The hot-standby feedback that `data` holds, or why it holds none.
pub open spec fn spec_parse_hot_standby_feedback(data: Seq<u8>) -> Result<
    HotStandbyFeedbackMessage,
    ErrorView,
> {
    if data.len() < HOT_STANDBY_FEEDBACK_LENGTH {
        Err(protocol_error("Hot standby feedback message too short"@))
    } else {
        Ok(
            HotStandbyFeedbackMessage {
                message_type: data[0] as char,
                send_time: spec_recv_i64(data.skip(1)),
                xmin: spec_recv_u32(data.skip(9)),
                epoch: spec_recv_u32(data.skip(13)),
                catalog_xmin: spec_recv_u32(data.skip(17)),
                catalog_epoch: spec_recv_u32(data.skip(21)),
            },
        )
    }
}

impl KeepaliveMessage {
    /// The 18 bytes of the frame.
    pub open spec fn spec_bytes(self) -> Seq<u8> {
        seq![self.message_type as u8] + spec_send_u64(self.log_pos) + spec_send_i64(self.timestamp)
            + seq![if self.reply_requested { 1u8 } else { 0u8 }]
    }

    /// Reads a keepalive from the start of `data`.
    pub fn parse(data: &[u8]) -> (r: Result<Self, ReplicationError>)
        ensures
            match r {
                Ok(m) => spec_parse_keepalive(data@) == Ok::<_, ErrorView>(m),
                Err(e) => spec_parse_keepalive(data@) == Err::<KeepaliveMessage, _>(e@),
            },
    {
        if data.len() < KEEPALIVE_LENGTH {
            return Err(ReplicationError::protocol("Keepalive message too short"));
        }
        let mut reader = BufferReader::new(data);
        let ghost start = reader@;
        let message_type = reader.read_char()?;
        let log_pos = reader.read_u64()?;
        let timestamp = reader.read_i64()?;
        let reply = reader.read_u8()?;
        proof {
            assert(start.advanced(1).rest() =~= data@.skip(1));
            assert(start.advanced(1).advanced(8).rest() =~= data@.skip(9));
        }
        Ok(KeepaliveMessage { message_type, log_pos, timestamp, reply_requested: reply != 0 })
    }

    /// A frame that is written and parsed is the frame again.
    pub proof fn lemma_round_trip(self)
        requires
            (self.message_type as u32) < 256,
        ensures
            spec_parse_keepalive(self.spec_bytes()) == Ok::<_, ErrorView>(self),
    {
        let b = self.spec_bytes();
        lemma_be_bytes_len(self.log_pos as nat, 8);
        lemma_be_bytes_len(to_unsigned(self.timestamp as int, 0x8000_0000_0000_0000), 8);
        lemma_round_trip_u64(self.log_pos);
        lemma_round_trip_i64(self.timestamp);
        lemma_be_value_prefix(b.skip(1), spec_send_u64(self.log_pos), 8);
        lemma_be_value_prefix(b.skip(9), spec_send_i64(self.timestamp), 8);
        assert(b[0] == self.message_type as u8);
        assert(b[0] as char == self.message_type);
        assert(b[17] == (if self.reply_requested {
            1u8
        } else {
            0u8
        }));
    }

    /// Writes the frame at the cursor. The tag must be a one-byte character.
    pub fn write(&self, writer: &mut BufferWriter) -> (r: Result<(), ReplicationError>)
        requires
            (self.message_type as u32) < 256,
        ensures
            fixed_write(
                old(writer)@,
                final(writer)@,
                r,
                self.spec_bytes(),
                "Not enough space for keepalive"@,
            ),
    {
        proof {
            lemma_be_bytes_len(self.log_pos as nat, 8);
            lemma_be_bytes_len(to_unsigned(self.timestamp as int, 0x8000_0000_0000_0000), 8);
        }
        if !writer.has_space(KEEPALIVE_LENGTH) {
            return Err(ReplicationError::parse("Not enough space for keepalive"));
        }
        let reply: u8 = if self.reply_requested { 1 } else { 0 };
        writer.write_char(self.message_type)?;
        writer.write_u64(self.log_pos)?;
        writer.write_i64(self.timestamp)?;
        writer.write_u8(reply)?;
        assert(writer@.bytes =~= old(writer)@.put(self.spec_bytes()).bytes);
        Ok(())
    }
}


impl XLogDataMessage {
    /// Reads a WAL data frame from the start of `data`: the header, and as
    /// payload all that follows it.
    pub fn parse(data: &[u8]) -> (r: Result<Self, ReplicationError>)
        ensures
            match r {
                Ok(m) => spec_parse_xlog_data(data@) == Ok::<_, ErrorView>(m@),
                Err(e) => spec_parse_xlog_data(data@) == Err::<XLogDataView, _>(e@),
            },
    {
        if data.len() < XLOG_DATA_HEADER_LENGTH {
            return Err(ReplicationError::protocol("WAL message too short"));
        }
        let mut reader = BufferReader::new(data);
        let ghost start = reader@;
        let message_type = reader.read_char()?;
        let data_start = reader.read_u64()?;
        let wal_end = reader.read_u64()?;
        let send_time = reader.read_i64()?;
        let payload = reader.read_remaining_bytes()?;
        proof {
            assert(start.advanced(1).rest() =~= data@.skip(1));
            assert(start.advanced(1).advanced(8).rest() =~= data@.skip(9));
            assert(start.advanced(1).advanced(8).advanced(8).rest() =~= data@.skip(17));
            assert(start.advanced(1).advanced(8).advanced(8).advanced(8).rest() =~= data@.skip(25));
        }
        Ok(XLogDataMessage { message_type, data_start, wal_end, send_time, data: payload })
    }
}

impl StandbyStatusUpdateMessage {
    /// The 34 bytes of the frame: tag, received, flushed and applied
    /// positions, clock, reply flag.
    pub open spec fn spec_bytes(self) -> Seq<u8> {
        seq![self.message_type as u8] + spec_send_u64(self.last_lsn) + spec_send_u64(
            self.flush_lsn,
        ) + spec_send_u64(self.apply_lsn) + spec_send_i64(self.send_time) + seq![
            self.reply_requested,
        ]
    }

    /// The status update that reports `received_lsn` as written and flushed
    /// and `applied_lsn` as applied, at the time `send_time`, and asks for no
    /// reply.
    pub open spec fn spec_feedback(
        received_lsn: u64,
        applied_lsn: u64,
        send_time: i64,
    ) -> StandbyStatusUpdateMessage {
        StandbyStatusUpdateMessage {
            message_type: 'r',
            reply_requested: 0,
            last_lsn: received_lsn,
            flush_lsn: received_lsn,
            apply_lsn: applied_lsn,
            send_time,
        }
    }

    /// The status update that reports `received_lsn` as written and flushed
    /// and `applied_lsn` as applied, at the time `send_time`, and asks for no
    /// reply.
    pub fn feedback(received_lsn: u64, applied_lsn: u64, send_time: i64) -> (m: Self)
        ensures
            m == Self::spec_feedback(received_lsn, applied_lsn, send_time),
    {
        StandbyStatusUpdateMessage {
            message_type: 'r',
            reply_requested: 0,
            last_lsn: received_lsn,
            flush_lsn: received_lsn,
            apply_lsn: applied_lsn,
            send_time,
        }
    }

    /// Reads a status update from the start of `data`.
    pub fn parse(data: &[u8]) -> (r: Result<Self, ReplicationError>)
        ensures
            match r {
                Ok(m) => spec_parse_standby_status_update(data@) == Ok::<_, ErrorView>(m),
                Err(e) => spec_parse_standby_status_update(data@) == Err::<
                    StandbyStatusUpdateMessage,
                    _,
                >(e@),
            },
    {
        if data.len() < STANDBY_STATUS_UPDATE_LENGTH {
            return Err(ReplicationError::protocol("Status update message too short"));
        }
        let mut reader = BufferReader::new(data);
        let ghost start = reader@;
        let message_type = reader.read_char()?;
        let last_lsn = reader.read_u64()?;
        let flush_lsn = reader.read_u64()?;
        let apply_lsn = reader.read_u64()?;
        let send_time = reader.read_i64()?;
        let reply_requested = reader.read_u8()?;
        proof {
            assert(start.advanced(1).rest() =~= data@.skip(1));
            assert(start.advanced(1).advanced(8).rest() =~= data@.skip(9));
            assert(start.advanced(1).advanced(8).advanced(8).rest() =~= data@.skip(17));
            assert(start.advanced(1).advanced(8).advanced(8).advanced(8).rest() =~= data@.skip(25));
        }
        Ok(
            StandbyStatusUpdateMessage {
                message_type,
                reply_requested,
                last_lsn,
                flush_lsn,
                apply_lsn,
                send_time,
            },
        )
    }

    /// Writes the frame at the cursor. The tag must be a one-byte character.
    pub fn write(&self, writer: &mut BufferWriter) -> (r: Result<(), ReplicationError>)
        requires
            (self.message_type as u32) < 256,
        ensures
            fixed_write(
                old(writer)@,
                final(writer)@,
                r,
                self.spec_bytes(),
                "Not enough space for status update"@,
            ),
    {
        proof {
            self.lemma_length();
        }
        if !writer.has_space(STANDBY_STATUS_UPDATE_LENGTH) {
            return Err(ReplicationError::parse("Not enough space for status update"));
        }
        writer.write_char(self.message_type)?;
        writer.write_u64(self.last_lsn)?;
        writer.write_u64(self.flush_lsn)?;
        writer.write_u64(self.apply_lsn)?;
        writer.write_i64(self.send_time)?;
        writer.write_u8(self.reply_requested)?;
        assert(writer@.bytes =~= old(writer)@.put(self.spec_bytes()).bytes);
        Ok(())
    }

    /// The frame as bytes of its own. The tag must be a one-byte character.
    pub fn to_bytes(&self) -> (bytes: Vec<u8>)
        requires
            (self.message_type as u32) < 256,
        ensures
            bytes@ == self.spec_bytes(),
            bytes@.len() == STANDBY_STATUS_UPDATE_LENGTH,
    {
        proof {
            self.lemma_length();
        }
        let mut frame = [0u8; 34];
        let mut writer = BufferWriter::new(&mut frame);
        let _ = self.write(&mut writer);
        let bytes = writer.written();
        assert(bytes@ =~= self.spec_bytes());
        bytes
    }

    /// The frame is 34 bytes long.
    pub proof fn lemma_length(self)
        ensures
            self.spec_bytes().len() == STANDBY_STATUS_UPDATE_LENGTH,
    {
        lemma_be_bytes_len(self.last_lsn as nat, 8);
        lemma_be_bytes_len(self.flush_lsn as nat, 8);
        lemma_be_bytes_len(self.apply_lsn as nat, 8);
        lemma_be_bytes_len(to_unsigned(self.send_time as int, 0x8000_0000_0000_0000), 8);
    }

    /// A frame that is written and parsed is the frame again.
    pub proof fn lemma_round_trip(self)
        requires
            (self.message_type as u32) < 256,
        ensures
            spec_parse_standby_status_update(self.spec_bytes()) == Ok::<_, ErrorView>(self),
    {
        self.lemma_length();
        let b = self.spec_bytes();
        lemma_be_bytes_len(self.last_lsn as nat, 8);
        lemma_be_bytes_len(self.flush_lsn as nat, 8);
        lemma_be_bytes_len(self.apply_lsn as nat, 8);
        lemma_be_bytes_len(to_unsigned(self.send_time as int, 0x8000_0000_0000_0000), 8);
        lemma_round_trip_u64(self.last_lsn);
        lemma_round_trip_u64(self.flush_lsn);
        lemma_round_trip_u64(self.apply_lsn);
        lemma_round_trip_i64(self.send_time);
        lemma_be_value_prefix(b.skip(1), spec_send_u64(self.last_lsn), 8);
        lemma_be_value_prefix(b.skip(9), spec_send_u64(self.flush_lsn), 8);
        lemma_be_value_prefix(b.skip(17), spec_send_u64(self.apply_lsn), 8);
        lemma_be_value_prefix(b.skip(25), spec_send_i64(self.send_time), 8);
        assert(b[0] == self.message_type as u8);
        assert(b[33] == self.reply_requested);
        assert(b[0] as char == self.message_type);
    }
}

impl HotStandbyFeedbackMessage {
    /// The 25 bytes of the frame.
    pub open spec fn spec_bytes(self) -> Seq<u8> {
        seq![self.message_type as u8] + spec_send_i64(self.send_time) + spec_send_u32(self.xmin)
            + spec_send_u32(self.epoch) + spec_send_u32(self.catalog_xmin) + spec_send_u32(
            self.catalog_epoch,
        )
    }

    /// Reads a hot-standby feedback from the start of `data`.
    pub fn parse(data: &[u8]) -> (r: Result<Self, ReplicationError>)
        ensures
            match r {
                Ok(m) => spec_parse_hot_standby_feedback(data@) == Ok::<_, ErrorView>(m),
                Err(e) => spec_parse_hot_standby_feedback(data@) == Err::<
                    HotStandbyFeedbackMessage,
                    _,
                >(e@),
            },
    {
        if data.len() < HOT_STANDBY_FEEDBACK_LENGTH {
            return Err(ReplicationError::protocol("Hot standby feedback message too short"));
        }
        let mut reader = BufferReader::new(data);
        let ghost start = reader@;
        let message_type = reader.read_char()?;
        let send_time = reader.read_i64()?;
        let xmin = reader.read_u32()?;
        let epoch = reader.read_u32()?;
        let catalog_xmin = reader.read_u32()?;
        let catalog_epoch = reader.read_u32()?;
        proof {
            assert(start.advanced(1).rest() =~= data@.skip(1));
            assert(start.advanced(1).advanced(8).rest() =~= data@.skip(9));
            assert(start.advanced(1).advanced(8).advanced(4).rest() =~= data@.skip(13));
            assert(start.advanced(1).advanced(8).advanced(4).advanced(4).rest() =~= data@.skip(17));
            assert(start.advanced(1).advanced(8).advanced(4).advanced(4).advanced(4).rest()
                =~= data@.skip(21));
        }
        Ok(
            HotStandbyFeedbackMessage {
                message_type,
                send_time,
                xmin,
                epoch,
                catalog_xmin,
                catalog_epoch,
            },
        )
    }

    /// A frame that is written and parsed is the frame again.
    pub proof fn lemma_round_trip(self)
        requires
            (self.message_type as u32) < 256,
        ensures
            spec_parse_hot_standby_feedback(self.spec_bytes()) == Ok::<_, ErrorView>(self),
    {
        let b = self.spec_bytes();
        lemma_be_bytes_len(to_unsigned(self.send_time as int, 0x8000_0000_0000_0000), 8);
        lemma_be_bytes_len(self.xmin as nat, 4);
        lemma_be_bytes_len(self.epoch as nat, 4);
        lemma_be_bytes_len(self.catalog_xmin as nat, 4);
        lemma_be_bytes_len(self.catalog_epoch as nat, 4);
        lemma_round_trip_i64(self.send_time);
        lemma_round_trip_u32(self.xmin);
        lemma_round_trip_u32(self.epoch);
        lemma_round_trip_u32(self.catalog_xmin);
        lemma_round_trip_u32(self.catalog_epoch);
        lemma_be_value_prefix(b.skip(1), spec_send_i64(self.send_time), 8);
        lemma_be_value_prefix(b.skip(9), spec_send_u32(self.xmin), 4);
        lemma_be_value_prefix(b.skip(13), spec_send_u32(self.epoch), 4);
        lemma_be_value_prefix(b.skip(17), spec_send_u32(self.catalog_xmin), 4);
        lemma_be_value_prefix(b.skip(21), spec_send_u32(self.catalog_epoch), 4);
        assert(b[0] == self.message_type as u8);
        assert(b[0] as char == self.message_type);
    }

    /// Writes the frame at the cursor. The tag must be a one-byte character.
    pub fn write(&self, writer: &mut BufferWriter) -> (r: Result<(), ReplicationError>)
        requires
            (self.message_type as u32) < 256,
        ensures
            fixed_write(
                old(writer)@,
                final(writer)@,
                r,
                self.spec_bytes(),
                "Not enough space for hot standby feedback"@,
            ),
    {
        proof {
            lemma_be_bytes_len(to_unsigned(self.send_time as int, 0x8000_0000_0000_0000), 8);
            lemma_be_bytes_len(self.xmin as nat, 4);
            lemma_be_bytes_len(self.epoch as nat, 4);
            lemma_be_bytes_len(self.catalog_xmin as nat, 4);
            lemma_be_bytes_len(self.catalog_epoch as nat, 4);
        }
        if !writer.has_space(HOT_STANDBY_FEEDBACK_LENGTH) {
            return Err(ReplicationError::parse("Not enough space for hot standby feedback"));
        }
        writer.write_char(self.message_type)?;
        writer.write_i64(self.send_time)?;
        writer.write_u32(self.xmin)?;
        writer.write_u32(self.epoch)?;
        writer.write_u32(self.catalog_xmin)?;
        writer.write_u32(self.catalog_epoch)?;
        assert(writer@.bytes =~= old(writer)@.put(self.spec_bytes()).bytes);
        Ok(())
    }
}

/// What can be read from the start of a run of bytes.
pub trait FromBufferReader: Sized {
    /// Whether `r` is what reading `data` gives.
    spec fn parses_to(data: Seq<u8>, r: Result<Self, ReplicationError>) -> bool;

    /// Reads a value from the start of `data`.
    fn parse(data: &[u8]) -> (r: Result<Self, ReplicationError>)
        ensures
            Self::parses_to(data@, r),
    ;
}

/// What can be written at a cursor.
pub trait ToBufferWriter {
    /// Whether the value has bytes to be written as.
    spec fn writable(&self) -> bool;

    /// The bytes that the value is written as.
    spec fn frame_bytes(&self) -> Seq<u8>;

    /// What the error says where the bytes do not fit.
    spec fn frame_fault(&self) -> Seq<char>;

    /// Writes the value at the cursor, or nothing where it does not fit.
    fn write(&self, writer: &mut BufferWriter) -> (r: Result<(), ReplicationError>)
        requires
            self.writable(),
        ensures
            fixed_write(old(writer)@, final(writer)@, r, self.frame_bytes(), self.frame_fault()),
    ;
}

impl FromBufferReader for KeepaliveMessage {
    open spec fn parses_to(data: Seq<u8>, r: Result<Self, ReplicationError>) -> bool {
        match r {
            Ok(m) => spec_parse_keepalive(data) == Ok::<_, ErrorView>(m),
            Err(e) => spec_parse_keepalive(data) == Err::<KeepaliveMessage, _>(e@),
        }
    }

    fn parse(data: &[u8]) -> (r: Result<Self, ReplicationError>) {
        KeepaliveMessage::parse(data)
    }
}

impl FromBufferReader for XLogDataMessage {
    open spec fn parses_to(data: Seq<u8>, r: Result<Self, ReplicationError>) -> bool {
        match r {
            Ok(m) => spec_parse_xlog_data(data) == Ok::<_, ErrorView>(m@),
            Err(e) => spec_parse_xlog_data(data) == Err::<XLogDataView, _>(e@),
        }
    }

    fn parse(data: &[u8]) -> (r: Result<Self, ReplicationError>) {
        XLogDataMessage::parse(data)
    }
}

impl FromBufferReader for StandbyStatusUpdateMessage {
    open spec fn parses_to(data: Seq<u8>, r: Result<Self, ReplicationError>) -> bool {
        match r {
            Ok(m) => spec_parse_standby_status_update(data) == Ok::<_, ErrorView>(m),
            Err(e) => spec_parse_standby_status_update(data) == Err::<
                StandbyStatusUpdateMessage,
                _,
            >(e@),
        }
    }

    fn parse(data: &[u8]) -> (r: Result<Self, ReplicationError>) {
        StandbyStatusUpdateMessage::parse(data)
    }
}

impl FromBufferReader for HotStandbyFeedbackMessage {
    open spec fn parses_to(data: Seq<u8>, r: Result<Self, ReplicationError>) -> bool {
        match r {
            Ok(m) => spec_parse_hot_standby_feedback(data) == Ok::<_, ErrorView>(m),
            Err(e) => spec_parse_hot_standby_feedback(data) == Err::<
                HotStandbyFeedbackMessage,
                _,
            >(e@),
        }
    }

    fn parse(data: &[u8]) -> (r: Result<Self, ReplicationError>) {
        HotStandbyFeedbackMessage::parse(data)
    }
}

impl ToBufferWriter for KeepaliveMessage {
    open spec fn writable(&self) -> bool {
        (self.message_type as u32) < 256
    }

    open spec fn frame_bytes(&self) -> Seq<u8> {
        self.spec_bytes()
    }

    open spec fn frame_fault(&self) -> Seq<char> {
        "Not enough space for keepalive"@
    }

    fn write(&self, writer: &mut BufferWriter) -> (r: Result<(), ReplicationError>) {
        KeepaliveMessage::write(self, writer)
    }
}

impl ToBufferWriter for StandbyStatusUpdateMessage {
    open spec fn writable(&self) -> bool {
        (self.message_type as u32) < 256
    }

    open spec fn frame_bytes(&self) -> Seq<u8> {
        self.spec_bytes()
    }

    open spec fn frame_fault(&self) -> Seq<char> {
        "Not enough space for status update"@
    }

    fn write(&self, writer: &mut BufferWriter) -> (r: Result<(), ReplicationError>) {
        StandbyStatusUpdateMessage::write(self, writer)
    }
}

impl ToBufferWriter for HotStandbyFeedbackMessage {
    open spec fn writable(&self) -> bool {
        (self.message_type as u32) < 256
    }

    open spec fn frame_bytes(&self) -> Seq<u8> {
        self.spec_bytes()
    }

    open spec fn frame_fault(&self) -> Seq<char> {
        "Not enough space for hot standby feedback"@
    }

    fn write(&self, writer: &mut BufferWriter) -> (r: Result<(), ReplicationError>) {
        HotStandbyFeedbackMessage::write(self, writer)
    }
}

} // verus!
