//! Bounds-checked cursors over byte buffers.
//!
//! A `BufferReader` walks an immutable buffer, a `BufferWriter` fills a
//! mutable one. Every operation either succeeds and moves the cursor by the
//! number of bytes it consumed or produced, or fails and leaves the cursor
//! where it was.

use vstd::prelude::*;
use vstd::slice::slice_subrange;
use vstd::slice::slice_to_vec;
use vstd::string::StringSliceAdditionalSpecFns;
use vstd::utf8::decode_utf8;
use vstd::utf8::encode_utf8;
use vstd::utf8::encode_utf8_decode_utf8;
use vstd::utf8::encode_utf8_valid_utf8;
use vstd::utf8::is_ascii_chars_encode_utf8;
use vstd::utf8::valid_utf8;
use crate::errors::parse_error;
use crate::errors::ErrorView;
use crate::errors::ReplicationError;
use crate::utils::binary::buf_recv_i16;
use crate::utils::binary::buf_recv_i32;
use crate::utils::binary::buf_recv_i64;
use crate::utils::binary::buf_recv_i8;
use crate::utils::binary::buf_recv_u16;
use crate::utils::binary::buf_recv_u32;
use crate::utils::binary::buf_recv_u64;
use crate::utils::binary::buf_send_i16;
use crate::utils::binary::buf_send_i32;
use crate::utils::binary::buf_send_i64;
use crate::utils::binary::buf_send_u16;
use crate::utils::binary::buf_send_u32;
use crate::utils::binary::buf_send_u64;
use crate::utils::binary::lemma_be_bytes_len;
use crate::utils::binary::lemma_be_value_prefix;
use crate::utils::binary::lemma_round_trip_i16;
use crate::utils::binary::lemma_round_trip_i32;
use crate::utils::binary::lemma_round_trip_i64;
use crate::utils::binary::lemma_round_trip_u16;
use crate::utils::binary::lemma_round_trip_u32;
use crate::utils::binary::lemma_round_trip_u64;
use crate::utils::binary::spec_send_u8;
use crate::utils::binary::spec_recv_i16;
use crate::utils::binary::spec_recv_i32;
use crate::utils::binary::spec_recv_i64;
use crate::utils::binary::spec_recv_i8;
use crate::utils::binary::spec_recv_u16;
use crate::utils::binary::spec_recv_u32;
use crate::utils::binary::spec_recv_u64;
use crate::utils::binary::spec_send_i16;
use crate::utils::binary::spec_send_i32;
use crate::utils::binary::spec_send_i64;
use crate::utils::binary::spec_send_i8;
use crate::utils::binary::spec_send_u16;
use crate::utils::binary::spec_send_u32;
use crate::utils::binary::spec_send_u64;
use crate::utils::binary::to_unsigned;
use crate::utils::binary::unsigned_of_i8;

verus! {

/// Longest length-prefixed string a reader accepts unless told otherwise:
/// one mebibyte.
pub const DEFAULT_MAX_STRING_LENGTH: usize = 1_048_576;

/// The text that a run of bytes decodes to when every invalid UTF-8 sequence
/// is replaced by U+FFFD.
pub uninterp spec fn utf8_lossy(bytes: Seq<u8>) -> Seq<char>;

/// `String::from_utf8_lossy`, made into an owned string. The result is the
/// lossy decoding of the bytes; where the bytes are valid UTF-8 nothing is
/// replaced and it is their plain decoding.
#[verifier::external_body]
pub(crate) fn string_from_utf8_lossy(bytes: &[u8]) -> (s: String)
    ensures
        s@ == utf8_lossy(bytes@),
        valid_utf8(bytes@) ==> s@ == decode_utf8(bytes@),
{
    String::from_utf8_lossy(bytes).into_owned()
}

/// The text that a run of bytes is read as: the text that the bytes encode
/// where they are valid UTF-8, and else that text with every invalid
/// sequence replaced by U+FFFD.
pub open spec fn lossy_text(bytes: Seq<u8>) -> Seq<char> {
    if valid_utf8(bytes) {
        decode_utf8(bytes)
    } else {
        utf8_lossy(bytes)
    }
}

/// The text that a run of bytes is read as.
pub(crate) fn text_of(bytes: &[u8]) -> (s: String)
    ensures
        s@ == lossy_text(bytes@),
{
    string_from_utf8_lossy(bytes)
}

/// The characters of a run of bytes below 0x80, one for each byte.
pub open spec fn ascii_text(bytes: Seq<u8>) -> Seq<char> {
    Seq::new(bytes.len(), |i: int| bytes[i] as char)
}

/// Bytes below 0x80 are read as the characters of ASCII that they are.
pub proof fn lemma_ascii_text(bytes: Seq<u8>)
    requires
        forall|i: int| 0 <= i < bytes.len() ==> #[trigger] bytes[i] < 0x80,
    ensures
        valid_utf8(bytes),
        lossy_text(bytes) == ascii_text(bytes),
{
    let chars = ascii_text(bytes);
    assert forall|i: int| 0 <= i < chars.len() implies '\0' <= #[trigger] chars[i]
        <= '\u{7f}' by {
        assert(bytes[i] < 0x80);
    }
    is_ascii_chars_encode_utf8(chars);
    assert(encode_utf8(chars) =~= bytes) by {
        assert forall|i: int| 0 <= i < bytes.len() implies encode_utf8(chars)[i] == bytes[i] by {
            assert(bytes[i] < 0x80);
            assert(chars[i] as u8 == bytes[i]);
        }
    }
    encode_utf8_valid_utf8(chars);
    encode_utf8_decode_utf8(chars);
}

/// No bytes are valid UTF-8 and decode to no text.
pub proof fn lemma_utf8_of_nothing()
    ensures
        valid_utf8(Seq::<u8>::empty()),
        decode_utf8(Seq::<u8>::empty()) == Seq::<char>::empty(),
{
    assert(decode_utf8(Seq::<u8>::empty()) =~= Seq::<char>::empty());
}

/// Offset of the first zero byte of `bytes` at or after `from`, or the length
/// of `bytes` if there is none.
pub open spec fn find_nul(bytes: Seq<u8>, from: nat) -> nat
    decreases bytes.len() - from,
{
    if from >= bytes.len() {
        bytes.len()
    } else if bytes[from as int] == 0 {
        from
    } else {
        find_nul(bytes, from + 1)
    }
}

/// The first zero byte at or after `from` is at or after `from`, and no
/// further than the end.
pub proof fn lemma_find_nul_bounds(bytes: Seq<u8>, from: nat)
    requires
        from <= bytes.len(),
    ensures
        from <= find_nul(bytes, from) <= bytes.len(),
        find_nul(bytes, from) < bytes.len() ==> bytes[find_nul(bytes, from) as int] == 0,
    decreases bytes.len() - from,
{
    if from < bytes.len() && bytes[from as int] != 0 {
        lemma_find_nul_bounds(bytes, from + 1);
    }
}

/// State of a read cursor: the buffer, the offset of the next byte, and the
/// cap on length-prefixed strings.
pub struct ReaderView {
    pub bytes: Seq<u8>,
    pub position: nat,
    pub max_string_length: nat,
}

impl ReaderView {
    /// The cursor lies within the buffer, and the buffer fits in memory.
    pub open spec fn wf(self) -> bool {
        self.position <= self.bytes.len() <= usize::MAX
    }

    /// Number of bytes that are left to read.
    pub open spec fn remaining(self) -> nat {
        if self.position < self.bytes.len() {
            (self.bytes.len() - self.position) as nat
        } else {
            0
        }
    }

    /// The bytes that are left to read.
    pub open spec fn rest(self) -> Seq<u8> {
        self.bytes.skip(self.position as int)
    }

    /// The same cursor `n` bytes further.
    pub open spec fn advanced(self, n: nat) -> ReaderView {
        ReaderView { position: self.position + n, ..self }
    }

    /// The same cursor at offset `position`.
    pub open spec fn at(self, position: nat) -> ReaderView {
        ReaderView { position, ..self }
    }

    /// Offset of the first zero byte at or after `from`, or the buffer's
    /// length if there is none.
    pub open spec fn find_nul(self, from: nat) -> nat {
        find_nul(self.bytes, from)
    }

    /// Declared length of the length-prefixed item at the cursor.
    pub open spec fn declared_length(self) -> i32 {
        spec_recv_i32(self.rest())
    }

    /// Why a length-prefixed string cannot be read at the cursor, if it
    /// cannot. `negative` and `truncated` are the messages for a negative
    /// length and for a payload that runs past the buffer.
    pub open spec fn length_prefixed_fault(self, negative: Seq<char>, truncated: Seq<char>) -> Option<ErrorView> {
        if self.remaining() < 4 {
            Some(parse_error("Not enough bytes for i32"@))
        } else if self.declared_length() < 0 {
            Some(parse_error(negative))
        } else if self.declared_length() > self.max_string_length {
            Some(parse_error("Length exceeds the configured limit"@))
        } else if self.remaining() < 4 + self.declared_length() {
            Some(parse_error(truncated))
        } else {
            None
        }
    }

    /// Why a length-prefixed byte array cannot be read at the cursor, if it
    /// cannot: the length is not all there, it is negative, or the bytes run
    /// past the buffer. The cap on strings does not bind byte arrays.
    pub open spec fn length_prefixed_bytes_fault(self) -> Option<ErrorView> {
        if self.remaining() < 4 {
            Some(parse_error("Not enough bytes for i32"@))
        } else if self.declared_length() < 0 {
            Some(parse_error("Negative byte array length"@))
        } else if self.remaining() < 4 + self.declared_length() {
            Some(parse_error("Byte array data truncated"@))
        } else {
            None
        }
    }

    /// The payload of the length-prefixed item at the cursor.
    pub open spec fn length_prefixed_payload(self) -> Seq<u8> {
        self.bytes.subrange(self.position as int + 4, self.position as int + 4 + self.declared_length())
    }
}

/// A read cursor over a borrowed byte buffer.
#[derive(Debug)]
pub struct BufferReader<'a> {
    buffer: &'a [u8],
    position: usize,
    max_string_length: usize,
}

impl<'a> View for BufferReader<'a> {
    type V = ReaderView;

    closed spec fn view(&self) -> ReaderView {
        ReaderView {
            bytes: self.buffer@,
            position: self.position as nat,
            max_string_length: self.max_string_length as nat,
        }
    }
}

/// What a read of `n` bytes leaves behind: the value and the cursor `n` bytes
/// further if the bytes are there, else the error `fault` and the cursor
/// unchanged.
pub open spec fn fixed_read<T>(
    before: ReaderView,
    after: ReaderView,
    r: Result<T, ReplicationError>,
    n: nat,
    value: T,
    fault: Seq<char>,
) -> bool {
    match r {
        Ok(v) => before.remaining() >= n && v == value && after == before.advanced(n),
        Err(e) => before.remaining() < n && e@ == parse_error(fault) && after == before,
    }
}

impl<'a> BufferReader<'a> {
    #[verifier::type_invariant]
    spec fn in_bounds(self) -> bool {
        self.position <= self.buffer@.len()
    }

    /// A reader at the start of `buffer`, with the default cap on
    /// length-prefixed strings.
    pub fn new(buffer: &'a [u8]) -> (r: Self)
        ensures
            r@ == (ReaderView {
                bytes: buffer@,
                position: 0,
                max_string_length: DEFAULT_MAX_STRING_LENGTH as nat,
            }),
    {
        Self { buffer, position: 0, max_string_length: DEFAULT_MAX_STRING_LENGTH }
    }

    /// The same reader with another cap on length-prefixed strings.
    pub fn with_max_string_length(self, max_string_length: usize) -> (r: Self)
        ensures
            r@ == (ReaderView { max_string_length: max_string_length as nat, ..self@ }),
    {
        proof {
            use_type_invariant(&self);
        }
        Self { buffer: self.buffer, position: self.position, max_string_length }
    }

    /// Offset of the next byte, which never lies beyond the buffer.
    pub fn position(&self) -> (p: usize)
        ensures
            p == self@.position,
            self@.wf(),
    {
        proof {
            use_type_invariant(self);
        }
        let _ = self.buffer.len();
        self.position
    }

    /// Cap on the declared length of a length-prefixed string.
    pub fn max_string_length(&self) -> (m: usize)
        ensures
            m == self@.max_string_length,
    {
        self.max_string_length
    }

    /// Number of bytes left.
    pub fn remaining(&self) -> (n: usize)
        ensures
            n == self@.remaining(),
            self@.wf(),
    {
        proof {
            use_type_invariant(self);
        }
        if self.position < self.buffer.len() {
            self.buffer.len() - self.position
        } else {
            0
        }
    }

    /// Whether at least `count` bytes are left.
    pub fn has_bytes(&self, count: usize) -> (b: bool)
        ensures
            b == (self@.remaining() >= count),
            self@.wf(),
    {
        self.remaining() >= count
    }

    /// The bytes from the cursor to the end.
    fn rest(&self) -> (s: &[u8])
        ensures
            s@ == self@.rest(),
    {
        proof {
            use_type_invariant(self);
        }
        slice_subrange(self.buffer, self.position, self.buffer.len())
    }

    /// Reads the frame tag: the first byte of the buffer, wherever the cursor
    /// is, and puts the cursor just after it.
    pub fn skip_message_type(&mut self) -> (r: Result<char, ReplicationError>)
        ensures
            match r {
                Ok(c) => old(self)@.bytes.len() > 0 && c == old(self)@.bytes[0] as char
                    && final(self)@ == old(self)@.at(1),
                Err(e) => old(self)@.bytes.len() == 0 && e@ == parse_error("Empty buffer"@)
                    && final(self)@ == old(self)@,
            },
    {
        if self.buffer.len() == 0 {
            return Err(ReplicationError::parse("Empty buffer"));
        }
        let msg_type = self.buffer[0] as char;
        self.position = 1;
        Ok(msg_type)
    }

    /// Reads one byte.
    pub fn read_u8(&mut self) -> (r: Result<u8, ReplicationError>)
        ensures
            fixed_read(
                old(self)@,
                final(self)@,
                r,
                1,
                old(self)@.rest()[0],
                "Not enough bytes for u8"@,
            ),
    {
        if !self.has_bytes(1) {
            return Err(ReplicationError::parse("Not enough bytes for u8"));
        }
        let value = self.buffer[self.position];
        self.position += 1;
        Ok(value)
    }

    /// Reads one byte as a character.
    pub fn read_char(&mut self) -> (r: Result<char, ReplicationError>)
        ensures
            fixed_read(
                old(self)@,
                final(self)@,
                r,
                1,
                old(self)@.rest()[0] as char,
                "Not enough bytes for char"@,
            ),
    {
        if !self.has_bytes(1) {
            return Err(ReplicationError::parse("Not enough bytes for char"));
        }
        let value = self.buffer[self.position];
        self.position += 1;
        Ok(value as char)
    }

    /// Reads a signed 8-bit integer.
    pub fn read_i8(&mut self) -> (r: Result<i8, ReplicationError>)
        ensures
            fixed_read(
                old(self)@,
                final(self)@,
                r,
                1,
                spec_recv_i8(old(self)@.rest()),
                "Not enough bytes for i8"@,
            ),
    {
        if !self.has_bytes(1) {
            return Err(ReplicationError::parse("Not enough bytes for i8"));
        }
        let value = buf_recv_i8(self.rest());
        self.position += 1;
        Ok(value)
    }

    /// Reads an unsigned 16-bit integer in network byte order.
    pub fn read_u16(&mut self) -> (r: Result<u16, ReplicationError>)
        ensures
            fixed_read(
                old(self)@,
                final(self)@,
                r,
                2,
                spec_recv_u16(old(self)@.rest()),
                "Not enough bytes for u16"@,
            ),
    {
        if !self.has_bytes(2) {
            return Err(ReplicationError::parse("Not enough bytes for u16"));
        }
        let value = buf_recv_u16(self.rest());
        self.position += 2;
        Ok(value)
    }

    /// Reads a signed 16-bit integer in network byte order.
    pub fn read_i16(&mut self) -> (r: Result<i16, ReplicationError>)
        ensures
            fixed_read(
                old(self)@,
                final(self)@,
                r,
                2,
                spec_recv_i16(old(self)@.rest()),
                "Not enough bytes for i16"@,
            ),
    {
        if !self.has_bytes(2) {
            return Err(ReplicationError::parse("Not enough bytes for i16"));
        }
        let value = buf_recv_i16(self.rest());
        self.position += 2;
        Ok(value)
    }

    /// Reads an unsigned 32-bit integer in network byte order.
    pub fn read_u32(&mut self) -> (r: Result<u32, ReplicationError>)
        ensures
            fixed_read(
                old(self)@,
                final(self)@,
                r,
                4,
                spec_recv_u32(old(self)@.rest()),
                "Not enough bytes for u32"@,
            ),
    {
        if !self.has_bytes(4) {
            return Err(ReplicationError::parse("Not enough bytes for u32"));
        }
        let value = buf_recv_u32(self.rest());
        self.position += 4;
        Ok(value)
    }

    /// Reads a signed 32-bit integer in network byte order.
    pub fn read_i32(&mut self) -> (r: Result<i32, ReplicationError>)
        ensures
            fixed_read(
                old(self)@,
                final(self)@,
                r,
                4,
                spec_recv_i32(old(self)@.rest()),
                "Not enough bytes for i32"@,
            ),
    {
        if !self.has_bytes(4) {
            return Err(ReplicationError::parse("Not enough bytes for i32"));
        }
        let value = buf_recv_i32(self.rest());
        self.position += 4;
        Ok(value)
    }

    /// Reads an unsigned 64-bit integer in network byte order.
    pub fn read_u64(&mut self) -> (r: Result<u64, ReplicationError>)
        ensures
            fixed_read(
                old(self)@,
                final(self)@,
                r,
                8,
                spec_recv_u64(old(self)@.rest()),
                "Not enough bytes for u64"@,
            ),
    {
        if !self.has_bytes(8) {
            return Err(ReplicationError::parse("Not enough bytes for u64"));
        }
        let value = buf_recv_u64(self.rest());
        self.position += 8;
        Ok(value)
    }

    /// Reads a signed 64-bit integer in network byte order.
    pub fn read_i64(&mut self) -> (r: Result<i64, ReplicationError>)
        ensures
            fixed_read(
                old(self)@,
                final(self)@,
                r,
                8,
                spec_recv_i64(old(self)@.rest()),
                "Not enough bytes for i64"@,
            ),
    {
        if !self.has_bytes(8) {
            return Err(ReplicationError::parse("Not enough bytes for i64"));
        }
        let value = buf_recv_i64(self.rest());
        self.position += 8;
        Ok(value)
    }

    /// Reads the text up to the next zero byte and steps over that byte.
    /// Invalid UTF-8 is replaced, never refused.
    pub fn read_null_terminated_string(&mut self) -> (r: Result<String, ReplicationError>)
        ensures
            match r {
                Ok(s) => {
                    let end = old(self)@.find_nul(old(self)@.position);
                    &&& end < old(self)@.bytes.len()
                    &&& s@ == lossy_text(
                        old(self)@.bytes.subrange(old(self)@.position as int, end as int),
                    )
                    &&& final(self)@ == old(self)@.at(end + 1)
                },
                Err(e) => old(self)@.find_nul(old(self)@.position) >= old(self)@.bytes.len() && e@
                    == parse_error("String not null-terminated"@) && final(self)@ == old(self)@,
            },
    {
        proof {
            use_type_invariant(&*self);
        }
        let start_pos = self.position;
        let mut end = self.position;
        while end < self.buffer.len() && self.buffer[end] != 0
            invariant
                start_pos <= end <= self.buffer@.len(),
                self@.find_nul(start_pos as nat) == self@.find_nul(end as nat),
                self@ == old(self)@,
                start_pos == self.position,
            decreases self.buffer@.len() - end,
        {
            end += 1;
        }
        if end >= self.buffer.len() {
            return Err(ReplicationError::parse("String not null-terminated"));
        }
        let string_value = text_of(slice_subrange(self.buffer, start_pos, end));
        self.position = end + 1;
        Ok(string_value)
    }

    /// Reads a 32-bit length and then that many bytes of text. Invalid UTF-8
    /// is replaced, never refused. A negative length, a length over the cap
    /// and a length that runs past the buffer are refused.
    pub fn read_length_prefixed_string(&mut self) -> (r: Result<String, ReplicationError>)
        ensures
            match r {
                Ok(s) => {
                    &&& old(self)@.length_prefixed_fault(
                        "Negative string length"@,
                        "String data truncated"@,
                    ) is None
                    &&& s@ == lossy_text(old(self)@.length_prefixed_payload())
                    &&& (old(self)@.declared_length() == 0 ==> s@ == Seq::<char>::empty())
                    &&& final(self)@ == old(self)@.advanced(
                        (4 + old(self)@.declared_length()) as nat,
                    )
                },
                Err(e) => old(self)@.length_prefixed_fault(
                    "Negative string length"@,
                    "String data truncated"@,
                ) == Some(e@) && final(self)@ == old(self)@,
            },
    {
        proof {
            use_type_invariant(&*self);
        }
        if !self.has_bytes(4) {
            return Err(ReplicationError::parse("Not enough bytes for i32"));
        }
        let length = buf_recv_i32(self.rest());
        if length < 0 {
            return Err(ReplicationError::parse("Negative string length"));
        }
        let length = length as usize;
        if length > self.max_string_length {
            return Err(ReplicationError::parse("Length exceeds the configured limit"));
        }
        if self.remaining() - 4 < length {
            return Err(ReplicationError::parse("String data truncated"));
        }
        let start = self.position + 4;
        let string_value = text_of(slice_subrange(self.buffer, start, start + length));
        proof {
            if length == 0 {
                lemma_utf8_of_nothing();
            }
        }
        self.position = start + length;
        Ok(string_value)
    }

    /// Reads a 32-bit length and then that many bytes. A negative length and
    /// a length that runs past the buffer are refused; the cap on strings
    /// does not bind byte arrays.
    pub fn read_length_prefixed_bytes(&mut self) -> (r: Result<Vec<u8>, ReplicationError>)
        ensures
            match r {
                Ok(v) => {
                    &&& old(self)@.length_prefixed_bytes_fault() is None
                    &&& v@ == old(self)@.length_prefixed_payload()
                    &&& final(self)@ == old(self)@.advanced(
                        (4 + old(self)@.declared_length()) as nat,
                    )
                },
                Err(e) => old(self)@.length_prefixed_bytes_fault() == Some(e@) && final(self)@
                    == old(self)@,
            },
    {
        proof {
            use_type_invariant(&*self);
        }
        if !self.has_bytes(4) {
            return Err(ReplicationError::parse("Not enough bytes for i32"));
        }
        let length = buf_recv_i32(self.rest());
        if length < 0 {
            return Err(ReplicationError::parse("Negative byte array length"));
        }
        let length = length as usize;
        if self.remaining() - 4 < length {
            return Err(ReplicationError::parse("Byte array data truncated"));
        }
        let start = self.position + 4;
        let bytes = slice_to_vec(slice_subrange(self.buffer, start, start + length));
        self.position = start + length;
        Ok(bytes)
    }

    /// Reads exactly `count` bytes.
    pub fn read_bytes(&mut self, count: usize) -> (r: Result<Vec<u8>, ReplicationError>)
        ensures
            match r {
                Ok(v) => old(self)@.remaining() >= count && v@ == old(self)@.rest().take(
                    count as int,
                ) && final(self)@ == old(self)@.advanced(count as nat),
                Err(e) => old(self)@.remaining() < count && e@ == parse_error(
                    "Not enough bytes"@,
                ) && final(self)@ == old(self)@,
            },
    {
        proof {
            use_type_invariant(&*self);
        }
        if !self.has_bytes(count) {
            return Err(ReplicationError::parse("Not enough bytes"));
        }
        let bytes = slice_to_vec(
            slice_subrange(self.buffer, self.position, self.position + count),
        );
        self.position += count;
        Ok(bytes)
    }

    /// Reads every byte that is left. Never fails.
    pub fn read_remaining_bytes(&mut self) -> (r: Result<Vec<u8>, ReplicationError>)
        ensures
            r matches Ok(v) && v@ == old(self)@.rest() && final(self)@ == old(self)@.advanced(
                old(self)@.remaining(),
            ),
    {
        proof {
            use_type_invariant(&*self);
        }
        let remaining = self.remaining();
        if remaining == 0 {
            assert(self@.rest() =~= Seq::<u8>::empty());
            return Ok(Vec::new());
        }
        let bytes = slice_to_vec(self.rest());
        self.position = self.buffer.len();
        Ok(bytes)
    }

    /// Checks that the cursor lies within the buffer: the answer is `Ok`
    /// where it does, and where it does not, an error that names `context`.
    /// The cursor of a reader always does.
    pub fn validate_position(&self, context: &str) -> (r: Result<(), ReplicationError>)
        ensures
            self@.wf(),
            match r {
                Ok(_) => self@.position <= self@.bytes.len(),
                Err(e) => self@.position > self@.bytes.len() && e@ == (ErrorView::MessageParsing {
                    message: "Buffer position exceeds bounds"@,
                    context: Some(context@),
                }),
            },
    {
        proof {
            use_type_invariant(self);
        }
        if self.position > self.buffer.len() {
            return Err(
                ReplicationError::parse_with_context("Buffer position exceeds bounds", context),
            );
        }
        Ok(())
    }

    /// The next byte, without moving the cursor.
    pub fn peek_u8(&self) -> (r: Result<u8, ReplicationError>)
        ensures
            match r {
                Ok(v) => self@.remaining() >= 1 && v == self@.rest()[0],
                Err(e) => self@.remaining() < 1 && e@ == parse_error("No bytes to peek"@),
            },
    {
        if !self.has_bytes(1) {
            return Err(ReplicationError::parse("No bytes to peek"));
        }
        Ok(self.buffer[self.position])
    }

    /// Moves the cursor to `position`, which may be the end of the buffer but
    /// not beyond it.
    pub fn set_position(&mut self, position: usize) -> (r: Result<(), ReplicationError>)
        ensures
            match r {
                Ok(_) => position <= old(self)@.bytes.len() && final(self)@ == old(self)@.at(
                    position as nat,
                ),
                Err(e) => position > old(self)@.bytes.len() && e@ == parse_error(
                    "Position out of bounds"@,
                ) && final(self)@ == old(self)@,
            },
    {
        if position > self.buffer.len() {
            return Err(ReplicationError::parse("Position out of bounds"));
        }
        self.position = position;
        Ok(())
    }
}


/// State of a write cursor: the buffer as it stands and the offset of the
/// next byte to write.
pub struct WriterView {
    pub bytes: Seq<u8>,
    pub position: nat,
}

impl WriterView {
    /// The cursor lies within the buffer, and the buffer fits in memory.
    pub open spec fn wf(self) -> bool {
        self.position <= self.bytes.len() <= usize::MAX
    }

    /// Number of bytes that can still be written.
    pub open spec fn remaining(self) -> nat {
        if self.position < self.bytes.len() {
            (self.bytes.len() - self.position) as nat
        } else {
            0
        }
    }

    /// The bytes written so far.
    pub open spec fn written(self) -> Seq<u8> {
        self.bytes.take(self.position as int)
    }

    /// The cursor after `data` has been written at it.
    pub open spec fn put(self, data: Seq<u8>) -> WriterView {
        WriterView {
            bytes: self.bytes.take(self.position as int) + data + self.bytes.skip(
                (self.position + data.len()) as int,
            ),
            position: self.position + data.len(),
        }
    }
}

/// What a write of `data` leaves behind: the bytes in place and the cursor
/// behind them if there was room, else the error `fault` and nothing changed.
pub open spec fn fixed_write(
    before: WriterView,
    after: WriterView,
    r: Result<(), ReplicationError>,
    data: Seq<u8>,
    fault: Seq<char>,
) -> bool {
    match r {
        Ok(_) => before.remaining() >= data.len() && after == before.put(data),
        Err(e) => before.remaining() < data.len() && e@ == parse_error(fault) && after == before,
    }
}

/// The bytes of a length-prefixed string: the length of the UTF-8 encoding
/// as a signed 32-bit integer, then the encoding.
pub open spec fn spec_length_prefixed(text: Seq<u8>) -> Seq<u8> {
    spec_send_i32(text.len() as i32) + text
}

/// A write cursor over a borrowed byte buffer.
#[derive(Debug)]
pub struct BufferWriter<'a> {
    buffer: &'a mut [u8],
    position: usize,
}

impl<'a> View for BufferWriter<'a> {
    type V = WriterView;

    closed spec fn view(&self) -> WriterView {
        WriterView { bytes: self.buffer@, position: self.position as nat }
    }
}

impl<'a> BufferWriter<'a> {
    #[verifier::type_invariant]
    spec fn in_bounds(self) -> bool {
        self.position <= self.buffer@.len()
    }

    /// A writer at the start of `buffer`.
    pub fn new(buffer: &'a mut [u8]) -> (w: Self)
        ensures
            w@ == (WriterView { bytes: old(buffer)@, position: 0 }),
    {
        Self { buffer, position: 0 }
    }

    /// Number of bytes that can still be written.
    pub fn remaining(&self) -> (n: usize)
        ensures
            n == self@.remaining(),
            self@.wf(),
    {
        proof {
            use_type_invariant(self);
        }
        if self.position < self.buffer.len() {
            self.buffer.len() - self.position
        } else {
            0
        }
    }

    /// Whether at least `count` bytes can still be written.
    pub fn has_space(&self, count: usize) -> (b: bool)
        ensures
            b == (self@.remaining() >= count),
            self@.wf(),
    {
        self.remaining() >= count
    }

    /// Number of bytes written so far.
    pub fn bytes_written(&self) -> (n: usize)
        ensures
            n == self@.position,
            self@.wf(),
    {
        proof {
            use_type_invariant(self);
        }
        let _ = self.buffer.len();
        self.position
    }

    /// A copy of the bytes written so far.
    pub fn written(&self) -> (v: Vec<u8>)
        ensures
            v@ == self@.written(),
    {
        proof {
            use_type_invariant(self);
        }
        slice_to_vec(slice_subrange(self.buffer, 0, self.position))
    }

    /// Writes one byte.
    pub fn write_u8(&mut self, value: u8) -> (r: Result<(), ReplicationError>)
        ensures
            fixed_write(old(self)@, final(self)@, r, seq![value], "Not enough space for u8"@),
    {
        if !self.has_space(1) {
            return Err(ReplicationError::parse("Not enough space for u8"));
        }
        self.buffer[self.position] = value;
        self.position += 1;
        assert(self@.bytes =~= old(self)@.put(seq![value]).bytes);
        Ok(())
    }

    /// Writes a character of one byte. The character must be below U+0100.
    pub fn write_char(&mut self, value: char) -> (r: Result<(), ReplicationError>)
        requires
            (value as u32) < 256,
        ensures
            fixed_write(
                old(self)@,
                final(self)@,
                r,
                seq![value as u8],
                "Not enough space for char"@,
            ),
    {
        if !self.has_space(1) {
            return Err(ReplicationError::parse("Not enough space for char"));
        }
        self.buffer[self.position] = value as u8;
        self.position += 1;
        assert(self@.bytes =~= old(self)@.put(seq![value as u8]).bytes);
        Ok(())
    }

    /// Writes a signed 8-bit integer.
    pub fn write_i8(&mut self, value: i8) -> (r: Result<(), ReplicationError>)
        ensures
            fixed_write(old(self)@, final(self)@, r, spec_send_i8(value), "Not enough space for i8"@),
    {
        if !self.has_space(1) {
            return Err(ReplicationError::parse("Not enough space for i8"));
        }
        self.buffer[self.position] = unsigned_of_i8(value);
        self.position += 1;
        assert(self@.bytes =~= old(self)@.put(spec_send_i8(value)).bytes);
        Ok(())
    }

    /// Writes an unsigned 16-bit integer in network byte order.
    pub fn write_u16(&mut self, value: u16) -> (r: Result<(), ReplicationError>)
        ensures
            fixed_write(
                old(self)@,
                final(self)@,
                r,
                spec_send_u16(value),
                "Not enough space for u16"@,
            ),
    {
        proof {
            lemma_be_bytes_len(value as nat, 2);
        }
        if !self.has_space(2) {
            return Err(ReplicationError::parse("Not enough space for u16"));
        }
        let mut encoded = [0u8; 2];
        buf_send_u16(value, &mut encoded);
        assert(encoded@ =~= spec_send_u16(value));
        self.put(encoded.as_slice());
        Ok(())
    }

    /// Writes a signed 16-bit integer in network byte order.
    pub fn write_i16(&mut self, value: i16) -> (r: Result<(), ReplicationError>)
        ensures
            fixed_write(
                old(self)@,
                final(self)@,
                r,
                spec_send_i16(value),
                "Not enough space for i16"@,
            ),
    {
        proof {
            lemma_be_bytes_len(to_unsigned(value as int, 0x8000), 2);
        }
        if !self.has_space(2) {
            return Err(ReplicationError::parse("Not enough space for i16"));
        }
        let mut encoded = [0u8; 2];
        buf_send_i16(value, &mut encoded);
        assert(encoded@ =~= spec_send_i16(value));
        self.put(encoded.as_slice());
        Ok(())
    }

    /// Writes an unsigned 32-bit integer in network byte order.
    pub fn write_u32(&mut self, value: u32) -> (r: Result<(), ReplicationError>)
        ensures
            fixed_write(
                old(self)@,
                final(self)@,
                r,
                spec_send_u32(value),
                "Not enough space for u32"@,
            ),
    {
        proof {
            lemma_be_bytes_len(value as nat, 4);
        }
        if !self.has_space(4) {
            return Err(ReplicationError::parse("Not enough space for u32"));
        }
        let mut encoded = [0u8; 4];
        buf_send_u32(value, &mut encoded);
        assert(encoded@ =~= spec_send_u32(value));
        self.put(encoded.as_slice());
        Ok(())
    }

    /// Writes a signed 32-bit integer in network byte order.
    pub fn write_i32(&mut self, value: i32) -> (r: Result<(), ReplicationError>)
        ensures
            fixed_write(
                old(self)@,
                final(self)@,
                r,
                spec_send_i32(value),
                "Not enough space for i32"@,
            ),
    {
        proof {
            lemma_be_bytes_len(to_unsigned(value as int, 0x8000_0000), 4);
        }
        if !self.has_space(4) {
            return Err(ReplicationError::parse("Not enough space for i32"));
        }
        let mut encoded = [0u8; 4];
        buf_send_i32(value, &mut encoded);
        assert(encoded@ =~= spec_send_i32(value));
        self.put(encoded.as_slice());
        Ok(())
    }

    /// Writes an unsigned 64-bit integer in network byte order.
    pub fn write_u64(&mut self, value: u64) -> (r: Result<(), ReplicationError>)
        ensures
            fixed_write(
                old(self)@,
                final(self)@,
                r,
                spec_send_u64(value),
                "Not enough space for u64"@,
            ),
    {
        proof {
            lemma_be_bytes_len(value as nat, 8);
        }
        if !self.has_space(8) {
            return Err(ReplicationError::parse("Not enough space for u64"));
        }
        let mut encoded = [0u8; 8];
        buf_send_u64(value, &mut encoded);
        assert(encoded@ =~= spec_send_u64(value));
        self.put(encoded.as_slice());
        Ok(())
    }

    /// Writes a signed 64-bit integer in network byte order.
    pub fn write_i64(&mut self, value: i64) -> (r: Result<(), ReplicationError>)
        ensures
            fixed_write(
                old(self)@,
                final(self)@,
                r,
                spec_send_i64(value),
                "Not enough space for i64"@,
            ),
    {
        proof {
            lemma_be_bytes_len(to_unsigned(value as int, 0x8000_0000_0000_0000), 8);
        }
        if !self.has_space(8) {
            return Err(ReplicationError::parse("Not enough space for i64"));
        }
        let mut encoded = [0u8; 8];
        buf_send_i64(value, &mut encoded);
        assert(encoded@ =~= spec_send_i64(value));
        self.put(encoded.as_slice());
        Ok(())
    }

    /// Copies `data` to the cursor and moves the cursor behind it.
    fn put(&mut self, data: &[u8])
        requires
            old(self)@.remaining() >= data@.len(),
        ensures
            final(self)@ == old(self)@.put(data@),
    {
        proof {
            use_type_invariant(&*self);
        }
        let start = self.position;
        let _ = self.buffer.len();
        let mut i: usize = 0;
        while i < data.len()
            invariant
                i <= data@.len(),
                start + data@.len() <= self.buffer@.len() <= usize::MAX,
                self.position == start,
                self.buffer@.len() == old(self)@.bytes.len(),
                start == old(self)@.position,
                forall|k: int| 0 <= k < start ==> self.buffer@[k] == old(self)@.bytes[k],
                forall|k: int| 0 <= k < i ==> self.buffer@[start + k] == data@[k],
                forall|k: int|
                    start + i <= k < self.buffer@.len() ==> self.buffer@[k] == old(self)@.bytes[k],
            decreases data@.len() - i,
        {
            self.buffer[start + i] = data[i];
            i += 1;
        }
        self.position = start + data.len();
        assert(self@.bytes =~= old(self)@.put(data@).bytes);
    }

    /// Writes raw bytes.
    pub fn write_bytes(&mut self, bytes: &[u8]) -> (r: Result<(), ReplicationError>)
        ensures
            fixed_write(old(self)@, final(self)@, r, bytes@, "Not enough space for bytes"@),
    {
        if !self.has_space(bytes.len()) {
            return Err(ReplicationError::parse("Not enough space for bytes"));
        }
        self.put(bytes);
        Ok(())
    }

    /// Writes a string as a signed 32-bit length and the bytes of its UTF-8
    /// encoding. A string whose encoding is longer than `i32::MAX` bytes has
    /// no length that can be written, and is refused like one that does not
    /// fit.
    pub fn write_length_prefixed_string(&mut self, value: &str) -> (r: Result<
        (),
        ReplicationError,
    >)
        ensures
            match r {
                Ok(_) => value.spec_bytes().len() <= i32::MAX && old(self)@.remaining() >= 4
                    + value.spec_bytes().len() && final(self)@ == old(self)@.put(
                    spec_length_prefixed(value.spec_bytes()),
                ),
                Err(e) => (value.spec_bytes().len() > i32::MAX || old(self)@.remaining() < 4
                    + value.spec_bytes().len()) && e@ == parse_error(
                    "Not enough space for length-prefixed string"@,
                ) && final(self)@ == old(self)@,
            },
    {
        let bytes = value.as_bytes();
        if bytes.len() > i32::MAX as usize || self.remaining() < 4 || self.remaining() - 4
            < bytes.len() {
            return Err(ReplicationError::parse("Not enough space for length-prefixed string"));
        }
        let length = bytes.len() as i32;
        proof {
            lemma_be_bytes_len(to_unsigned(length as int, 0x8000_0000), 4);
        }
        let ghost before = self@;
        let _ = self.write_i32(length);
        let _ = self.write_bytes(bytes);
        assert(self@.bytes =~= before.put(spec_length_prefixed(value.spec_bytes())).bytes);
        Ok(())
    }
}


/// At the boundaries of a length-prefixed byte array: a declared length of
/// zero is accepted and has no payload, a negative length is refused, and
/// any other length is accepted exactly where that many bytes follow it,
/// however many they are.
pub proof fn lemma_length_prefixed_bytes_boundaries(cursor: ReaderView)
    requires
        cursor.remaining() >= 4,
    ensures
        cursor.declared_length() == 0 ==> cursor.length_prefixed_bytes_fault() is None
            && cursor.length_prefixed_payload() == Seq::<u8>::empty(),
        cursor.declared_length() < 0 ==> cursor.length_prefixed_bytes_fault() == Some(
            parse_error("Negative byte array length"@),
        ),
        cursor.declared_length() >= 0 ==> (cursor.length_prefixed_bytes_fault() is None
            <==> cursor.remaining() >= 4 + cursor.declared_length()),
{
    if cursor.declared_length() == 0 {
        assert(cursor.length_prefixed_payload() =~= Seq::<u8>::empty());
    }
}

/// At the boundaries of a length-prefixed string: a declared length of zero
/// is accepted and has no payload, a negative length is refused, and so is a
/// length above the cap.
pub proof fn lemma_length_prefixed_boundaries(
    cursor: ReaderView,
    negative: Seq<char>,
    truncated: Seq<char>,
)
    requires
        cursor.remaining() >= 4,
    ensures
        cursor.declared_length() == 0 ==> cursor.length_prefixed_fault(negative, truncated) is None
            && cursor.length_prefixed_payload() == Seq::<u8>::empty(),
        cursor.declared_length() < 0 ==> cursor.length_prefixed_fault(negative, truncated) == Some(
            parse_error(negative),
        ),
        cursor.declared_length() > cursor.max_string_length ==> cursor.length_prefixed_fault(
            negative,
            truncated,
        ) == Some(parse_error("Length exceeds the configured limit"@)),
{
    if cursor.declared_length() == 0 {
        assert(cursor.length_prefixed_payload() =~= Seq::<u8>::empty());
    }
}

/// The bytes that a read at the place of a write sees begin with what was
/// written.
pub proof fn lemma_read_sees_write(w: WriterView, data: Seq<u8>, max_string_length: nat)
    requires
        w.wf(),
        w.remaining() >= data.len(),
    ensures
        (ReaderView { bytes: w.put(data).bytes, position: w.position, max_string_length }).rest().take(
            data.len() as int,
        ) == data,
        w.put(data).wf(),
{
    let r = ReaderView { bytes: w.put(data).bytes, position: w.position, max_string_length };
    assert(r.rest().take(data.len() as int) =~= data);
}

/// The reader that looks at the buffer of a writer from the place where the
/// writer stood before its last write.
pub open spec fn reader_at(written: WriterView, start: WriterView) -> ReaderView {
    ReaderView {
        bytes: written.bytes,
        position: start.position,
        max_string_length: DEFAULT_MAX_STRING_LENGTH as nat,
    }
}

/// A byte written with `write_u8` is read back by `read_u8`.
pub proof fn lemma_write_read_u8(w: WriterView, v: u8)
    requires
        w.wf(),
        w.remaining() >= 1,
    ensures
        reader_at(w.put(spec_send_u8(v)), w).remaining() >= 1,
        reader_at(w.put(spec_send_u8(v)), w).rest()[0] == v,
{
    lemma_read_sees_write(w, spec_send_u8(v), DEFAULT_MAX_STRING_LENGTH as nat);
    let r = reader_at(w.put(spec_send_u8(v)), w);
    assert(r.rest().take(1)[0] == r.rest()[0]);
}

/// A value written with `write_i8` is read back by `read_i8`.
pub proof fn lemma_write_read_i8(w: WriterView, v: i8)
    requires
        w.wf(),
        w.remaining() >= 1,
    ensures
        reader_at(w.put(spec_send_i8(v)), w).remaining() >= 1,
        spec_recv_i8(reader_at(w.put(spec_send_i8(v)), w).rest()) == v,
{
    lemma_read_sees_write(w, spec_send_i8(v), DEFAULT_MAX_STRING_LENGTH as nat);
    let r = reader_at(w.put(spec_send_i8(v)), w);
    assert(r.rest().take(1)[0] == r.rest()[0]);
}

/// A value written with `write_u16` is read back by `read_u16`.
pub proof fn lemma_write_read_u16(w: WriterView, v: u16)
    requires
        w.wf(),
        w.remaining() >= 2,
    ensures
        reader_at(w.put(spec_send_u16(v)), w).remaining() >= 2,
        spec_recv_u16(reader_at(w.put(spec_send_u16(v)), w).rest()) == v,
{
    lemma_round_trip_u16(v);
    lemma_read_sees_write(w, spec_send_u16(v), DEFAULT_MAX_STRING_LENGTH as nat);
    let r = reader_at(w.put(spec_send_u16(v)), w);
    lemma_be_value_prefix(r.rest(), spec_send_u16(v), 2);
}

/// A value written with `write_i16` is read back by `read_i16`.
pub proof fn lemma_write_read_i16(w: WriterView, v: i16)
    requires
        w.wf(),
        w.remaining() >= 2,
    ensures
        reader_at(w.put(spec_send_i16(v)), w).remaining() >= 2,
        spec_recv_i16(reader_at(w.put(spec_send_i16(v)), w).rest()) == v,
{
    lemma_round_trip_i16(v);
    lemma_read_sees_write(w, spec_send_i16(v), DEFAULT_MAX_STRING_LENGTH as nat);
    let r = reader_at(w.put(spec_send_i16(v)), w);
    lemma_be_value_prefix(r.rest(), spec_send_i16(v), 2);
}

/// A value written with `write_u32` is read back by `read_u32`.
pub proof fn lemma_write_read_u32(w: WriterView, v: u32)
    requires
        w.wf(),
        w.remaining() >= 4,
    ensures
        reader_at(w.put(spec_send_u32(v)), w).remaining() >= 4,
        spec_recv_u32(reader_at(w.put(spec_send_u32(v)), w).rest()) == v,
{
    lemma_round_trip_u32(v);
    lemma_read_sees_write(w, spec_send_u32(v), DEFAULT_MAX_STRING_LENGTH as nat);
    let r = reader_at(w.put(spec_send_u32(v)), w);
    lemma_be_value_prefix(r.rest(), spec_send_u32(v), 4);
}

/// A value written with `write_i32` is read back by `read_i32`.
pub proof fn lemma_write_read_i32(w: WriterView, v: i32)
    requires
        w.wf(),
        w.remaining() >= 4,
    ensures
        reader_at(w.put(spec_send_i32(v)), w).remaining() >= 4,
        spec_recv_i32(reader_at(w.put(spec_send_i32(v)), w).rest()) == v,
{
    lemma_round_trip_i32(v);
    lemma_read_sees_write(w, spec_send_i32(v), DEFAULT_MAX_STRING_LENGTH as nat);
    let r = reader_at(w.put(spec_send_i32(v)), w);
    lemma_be_value_prefix(r.rest(), spec_send_i32(v), 4);
}

/// A value written with `write_u64` is read back by `read_u64`.
pub proof fn lemma_write_read_u64(w: WriterView, v: u64)
    requires
        w.wf(),
        w.remaining() >= 8,
    ensures
        reader_at(w.put(spec_send_u64(v)), w).remaining() >= 8,
        spec_recv_u64(reader_at(w.put(spec_send_u64(v)), w).rest()) == v,
{
    lemma_round_trip_u64(v);
    lemma_read_sees_write(w, spec_send_u64(v), DEFAULT_MAX_STRING_LENGTH as nat);
    let r = reader_at(w.put(spec_send_u64(v)), w);
    lemma_be_value_prefix(r.rest(), spec_send_u64(v), 8);
}

/// A value written with `write_i64` is read back by `read_i64`.
pub proof fn lemma_write_read_i64(w: WriterView, v: i64)
    requires
        w.wf(),
        w.remaining() >= 8,
    ensures
        reader_at(w.put(spec_send_i64(v)), w).remaining() >= 8,
        spec_recv_i64(reader_at(w.put(spec_send_i64(v)), w).rest()) == v,
{
    lemma_round_trip_i64(v);
    lemma_read_sees_write(w, spec_send_i64(v), DEFAULT_MAX_STRING_LENGTH as nat);
    let r = reader_at(w.put(spec_send_i64(v)), w);
    lemma_be_value_prefix(r.rest(), spec_send_i64(v), 8);
}

/// A read either succeeds and moves the cursor forward by the bytes it
/// consumed, within the same buffer, or fails and leaves the cursor as it
/// was.
pub proof fn lemma_read_moves_or_stays<T>(
    before: ReaderView,
    after: ReaderView,
    r: Result<T, ReplicationError>,
    n: nat,
    value: T,
    fault: Seq<char>,
)
    requires
        before.wf(),
        fixed_read(before, after, r, n, value, fault),
    ensures
        r is Ok ==> after.position == before.position + n && after.wf(),
        r is Err ==> after == before,
        after.bytes == before.bytes,
{
}

/// A write either succeeds and moves the cursor forward by the bytes it
/// produced, within a buffer of the same length, or fails and leaves the
/// cursor and the buffer as they were.
pub proof fn lemma_write_moves_or_stays(
    before: WriterView,
    after: WriterView,
    r: Result<(), ReplicationError>,
    data: Seq<u8>,
    fault: Seq<char>,
)
    requires
        before.wf(),
        fixed_write(before, after, r, data, fault),
    ensures
        r is Ok ==> after.position == before.position + data.len() && after.wf(),
        r is Err ==> after == before,
        after.bytes.len() == before.bytes.len(),
{
}

} // verus!
