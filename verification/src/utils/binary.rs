//! Fixed-width integers in network byte order.
//!
//! Every multi-byte integer of the replication protocol is big-endian. The
//! spec functions of this module say what a run of bytes means as a number and
//! which bytes a number is written as; the executable functions compute both.

use vstd::prelude::*;

verus! {

/// WAL location pointer.
pub type XLogRecPtr = u64;

/// Transaction id.
pub type Xid = u32;

/// Object id.
pub type Oid = u32;

/// Microseconds since 2000-01-01 00:00:00 UTC.
pub type TimestampTz = i64;

/// The WAL position that means "none".
pub const INVALID_XLOG_REC_PTR: XLogRecPtr = 0;

/// The number that `width` leading bytes of `b` spell in base 256, most
/// significant byte first.
pub open spec fn be_value(b: Seq<u8>, width: nat) -> nat
    decreases width,
{
    if width == 0 {
        0
    } else {
        be_value(b, (width - 1) as nat) * 256 + b[width - 1] as nat
    }
}

/// The `width` bytes that spell `v` in base 256, most significant byte first.
pub open spec fn be_bytes(v: nat, width: nat) -> Seq<u8>
    decreases width,
{
    if width == 0 {
        Seq::empty()
    } else {
        be_bytes(v / 256, (width - 1) as nat).push((v % 256) as u8)
    }
}

/// Two's complement reading of an unsigned number whose sign bit weighs `half`.
pub open spec fn to_signed(v: nat, half: nat) -> int {
    if v >= half {
        v - 2 * half
    } else {
        v as int
    }
}

/// The unsigned number whose two's complement reading is `v`, for a sign bit
/// that weighs `half`.
pub open spec fn to_unsigned(v: int, half: nat) -> nat {
    if v < 0 {
        (v + 2 * half) as nat
    } else {
        v as nat
    }
}

pub open spec fn spec_recv_u8(b: Seq<u8>) -> u8 {
    b[0]
}

pub open spec fn spec_recv_i8(b: Seq<u8>) -> i8 {
    to_signed(b[0] as nat, 0x80) as i8
}

pub open spec fn spec_recv_u16(b: Seq<u8>) -> u16 {
    be_value(b, 2) as u16
}

pub open spec fn spec_recv_u32(b: Seq<u8>) -> u32 {
    be_value(b, 4) as u32
}

pub open spec fn spec_recv_u64(b: Seq<u8>) -> u64 {
    be_value(b, 8) as u64
}

pub open spec fn spec_recv_i16(b: Seq<u8>) -> i16 {
    to_signed(be_value(b, 2), 0x8000) as i16
}

pub open spec fn spec_recv_i32(b: Seq<u8>) -> i32 {
    to_signed(be_value(b, 4), 0x8000_0000) as i32
}

pub open spec fn spec_recv_i64(b: Seq<u8>) -> i64 {
    to_signed(be_value(b, 8), 0x8000_0000_0000_0000) as i64
}

pub open spec fn spec_send_u8(v: u8) -> Seq<u8> {
    seq![v]
}

pub open spec fn spec_send_i8(v: i8) -> Seq<u8> {
    seq![to_unsigned(v as int, 0x80) as u8]
}

pub open spec fn spec_send_u16(v: u16) -> Seq<u8> {
    be_bytes(v as nat, 2)
}

pub open spec fn spec_send_u32(v: u32) -> Seq<u8> {
    be_bytes(v as nat, 4)
}

pub open spec fn spec_send_u64(v: u64) -> Seq<u8> {
    be_bytes(v as nat, 8)
}

pub open spec fn spec_send_i16(v: i16) -> Seq<u8> {
    be_bytes(to_unsigned(v as int, 0x8000), 2)
}

pub open spec fn spec_send_i32(v: i32) -> Seq<u8> {
    be_bytes(to_unsigned(v as int, 0x8000_0000), 4)
}

pub open spec fn spec_send_i64(v: i64) -> Seq<u8> {
    be_bytes(to_unsigned(v as int, 0x8000_0000_0000_0000), 8)
}

/// 256 to the power `width`.
pub open spec fn pow256(width: nat) -> nat
    decreases width,
{
    if width == 0 {
        1
    } else {
        256 * pow256((width - 1) as nat)
    }
}

/// A run of `width` bytes spells a number below 256^width.
pub proof fn lemma_be_value_bound(b: Seq<u8>, width: nat)
    ensures
        be_value(b, width) < pow256(width),
    decreases width,
{
    if width > 0 {
        lemma_be_value_bound(b, (width - 1) as nat);
    }
}

/// `be_value` reads only the first `width` bytes.
pub proof fn lemma_be_value_prefix(a: Seq<u8>, b: Seq<u8>, width: nat)
    requires
        forall|i: int| 0 <= i < width ==> a[i] == b[i],
    ensures
        be_value(a, width) == be_value(b, width),
    decreases width,
{
    if width > 0 {
        lemma_be_value_prefix(a, b, (width - 1) as nat);
    }
}

/// `be_bytes` gives exactly `width` bytes.
pub proof fn lemma_be_bytes_len(v: nat, width: nat)
    ensures
        be_bytes(v, width).len() == width,
    decreases width,
{
    if width > 0 {
        lemma_be_bytes_len(v / 256, (width - 1) as nat);
    }
}

/// Reading back the bytes that a number below 256^width was written as gives
/// the number.
pub proof fn lemma_be_round_trip(v: nat, width: nat)
    requires
        v < pow256(width),
    ensures
        be_value(be_bytes(v, width), width) == v,
    decreases width,
{
    if width > 0 {
        let w = (width - 1) as nat;
        lemma_be_bytes_len(v / 256, w);
        lemma_be_round_trip(v / 256, w);
        lemma_be_value_prefix(be_bytes(v, width), be_bytes(v / 256, w), w);
    }
}

/// Writing the number that `width` bytes spell gives those bytes back.
pub proof fn lemma_be_bytes_of_value(b: Seq<u8>, width: nat)
    requires
        b.len() == width,
    ensures
        be_bytes(be_value(b, width), width) == b,
    decreases width,
{
    if width > 0 {
        let w = (width - 1) as nat;
        let head = b.subrange(0, w as int);
        lemma_be_value_prefix(b, head, w);
        lemma_be_bytes_of_value(head, w);
        assert(be_bytes(be_value(b, width), width) =~= b);
    } else {
        assert(be_bytes(be_value(b, width), width) =~= b);
    }
}


/// Concrete values of the first powers of 256.
pub proof fn lemma_pow256_values()
    ensures
        pow256(1) == 0x100,
        pow256(2) == 0x1_0000,
        pow256(4) == 0x1_0000_0000,
        pow256(8) == 0x1_0000_0000_0000_0000,
{
    reveal_with_fuel(pow256, 9);
}

/// Reads an unsigned 16-bit integer in network byte order from the start of
/// `buf`.
pub fn buf_recv_u16(buf: &[u8]) -> (v: u16)
    requires
        buf@.len() >= 2,
    ensures
        v == spec_recv_u16(buf@),
{
    proof {
        reveal_with_fuel(be_value, 3);
    }
    let b0: u16 = buf[0] as u16;
    let b1: u16 = buf[1] as u16;
    b0 * 256 + b1
}

/// Reads an unsigned 32-bit integer in network byte order from the start of
/// `buf`.
pub fn buf_recv_u32(buf: &[u8]) -> (v: u32)
    requires
        buf@.len() >= 4,
    ensures
        v == spec_recv_u32(buf@),
{
    proof {
        reveal_with_fuel(be_value, 5);
    }
    let b0: u32 = buf[0] as u32;
    let b1: u32 = buf[1] as u32;
    let b2: u32 = buf[2] as u32;
    let b3: u32 = buf[3] as u32;
    ((b0 * 256 + b1) * 256 + b2) * 256 + b3
}

/// Reads an unsigned 64-bit integer in network byte order from the start of
/// `buf`.
pub fn buf_recv_u64(buf: &[u8]) -> (v: u64)
    requires
        buf@.len() >= 8,
    ensures
        v == spec_recv_u64(buf@),
{
    proof {
        reveal_with_fuel(be_value, 9);
    }
    let b0: u64 = buf[0] as u64;
    let b1: u64 = buf[1] as u64;
    let b2: u64 = buf[2] as u64;
    let b3: u64 = buf[3] as u64;
    let b4: u64 = buf[4] as u64;
    let b5: u64 = buf[5] as u64;
    let b6: u64 = buf[6] as u64;
    let b7: u64 = buf[7] as u64;
    let hi: u64 = ((b0 * 256 + b1) * 256 + b2) * 256 + b3;
    let lo: u64 = ((b4 * 256 + b5) * 256 + b6) * 256 + b7;
    hi * 0x1_0000_0000 + lo
}

/// Reads a signed 8-bit integer from the start of `buf`.
pub fn buf_recv_i8(buf: &[u8]) -> (v: i8)
    requires
        buf@.len() >= 1,
    ensures
        v == spec_recv_i8(buf@),
{
    let u: u8 = buf[0];
    if u >= 0x80 {
        ((u - 0x80) as i8) + i8::MIN
    } else {
        u as i8
    }
}

/// Reads a signed 16-bit integer in network byte order from the start of
/// `buf`.
pub fn buf_recv_i16(buf: &[u8]) -> (v: i16)
    requires
        buf@.len() >= 2,
    ensures
        v == spec_recv_i16(buf@),
{
    let u: u16 = buf_recv_u16(buf);
    proof {
        lemma_be_value_bound(buf@, 2);
        lemma_pow256_values();
    }
    if u >= 0x8000 {
        ((u - 0x8000) as i16) + i16::MIN
    } else {
        u as i16
    }
}

/// Reads a signed 32-bit integer in network byte order from the start of
/// `buf`.
pub fn buf_recv_i32(buf: &[u8]) -> (v: i32)
    requires
        buf@.len() >= 4,
    ensures
        v == spec_recv_i32(buf@),
{
    let u: u32 = buf_recv_u32(buf);
    proof {
        lemma_be_value_bound(buf@, 4);
        lemma_pow256_values();
    }
    if u >= 0x8000_0000 {
        ((u - 0x8000_0000) as i32) + i32::MIN
    } else {
        u as i32
    }
}

/// Reads a signed 64-bit integer in network byte order from the start of
/// `buf`.
pub fn buf_recv_i64(buf: &[u8]) -> (v: i64)
    requires
        buf@.len() >= 8,
    ensures
        v == spec_recv_i64(buf@),
{
    let u: u64 = buf_recv_u64(buf);
    proof {
        lemma_be_value_bound(buf@, 8);
        lemma_pow256_values();
    }
    if u >= 0x8000_0000_0000_0000 {
        ((u - 0x8000_0000_0000_0000) as i64) + i64::MIN
    } else {
        u as i64
    }
}

/// What `buf` holds once `bytes` has been written over its start.
pub open spec fn overwritten(buf: Seq<u8>, bytes: Seq<u8>) -> Seq<u8> {
    bytes + buf.subrange(bytes.len() as int, buf.len() as int)
}

/// Writes `val` in network byte order over the first two bytes of `buf`.
pub fn buf_send_u16(val: u16, buf: &mut [u8])
    requires
        old(buf)@.len() >= 2,
    ensures
        final(buf)@ == overwritten(old(buf)@, spec_send_u16(val)),
{
    proof {
        reveal_with_fuel(be_bytes, 3);
    }
    buf[1] = (val % 256) as u8;
    buf[0] = ((val / 256) % 256) as u8;
    assert(buf@ =~= overwritten(old(buf)@, spec_send_u16(val)));
}

/// Writes `val` in network byte order over the first four bytes of `buf`.
pub fn buf_send_u32(val: u32, buf: &mut [u8])
    requires
        old(buf)@.len() >= 4,
    ensures
        final(buf)@ == overwritten(old(buf)@, spec_send_u32(val)),
{
    proof {
        reveal_with_fuel(be_bytes, 5);
    }
    let v1: u32 = val / 256;
    let v2: u32 = v1 / 256;
    let v3: u32 = v2 / 256;
    buf[3] = (val % 256) as u8;
    buf[2] = (v1 % 256) as u8;
    buf[1] = (v2 % 256) as u8;
    buf[0] = (v3 % 256) as u8;
    assert(buf@ =~= overwritten(old(buf)@, spec_send_u32(val)));
}

/// Writes `val` in network byte order over the first eight bytes of `buf`.
pub fn buf_send_u64(val: u64, buf: &mut [u8])
    requires
        old(buf)@.len() >= 8,
    ensures
        final(buf)@ == overwritten(old(buf)@, spec_send_u64(val)),
{
    proof {
        reveal_with_fuel(be_bytes, 9);
    }
    let v1: u64 = val / 256;
    let v2: u64 = v1 / 256;
    let v3: u64 = v2 / 256;
    let v4: u64 = v3 / 256;
    let v5: u64 = v4 / 256;
    let v6: u64 = v5 / 256;
    let v7: u64 = v6 / 256;
    buf[7] = (val % 256) as u8;
    buf[6] = (v1 % 256) as u8;
    buf[5] = (v2 % 256) as u8;
    buf[4] = (v3 % 256) as u8;
    buf[3] = (v4 % 256) as u8;
    buf[2] = (v5 % 256) as u8;
    buf[1] = (v6 % 256) as u8;
    buf[0] = (v7 % 256) as u8;
    assert(buf@ =~= overwritten(old(buf)@, spec_send_u64(val)));
}

/// The unsigned 8-bit pattern of a signed 8-bit integer.
pub fn unsigned_of_i8(val: i8) -> (u: u8)
    ensures
        u == to_unsigned(val as int, 0x80),
{
    if val < 0 {
        ((val - i8::MIN) as u8) + 0x80
    } else {
        val as u8
    }
}

/// The unsigned 16-bit pattern of a signed 16-bit integer.
pub fn unsigned_of_i16(val: i16) -> (u: u16)
    ensures
        u == to_unsigned(val as int, 0x8000),
{
    if val < 0 {
        ((val - i16::MIN) as u16) + 0x8000
    } else {
        val as u16
    }
}

/// The unsigned 32-bit pattern of a signed 32-bit integer.
pub fn unsigned_of_i32(val: i32) -> (u: u32)
    ensures
        u == to_unsigned(val as int, 0x8000_0000),
{
    if val < 0 {
        ((val - i32::MIN) as u32) + 0x8000_0000
    } else {
        val as u32
    }
}

/// The unsigned 64-bit pattern of a signed 64-bit integer.
pub fn unsigned_of_i64(val: i64) -> (u: u64)
    ensures
        u == to_unsigned(val as int, 0x8000_0000_0000_0000),
{
    if val < 0 {
        ((val - i64::MIN) as u64) + 0x8000_0000_0000_0000
    } else {
        val as u64
    }
}

/// Writes `val` in network byte order over the first two bytes of `buf`.
pub fn buf_send_i16(val: i16, buf: &mut [u8])
    requires
        old(buf)@.len() >= 2,
    ensures
        final(buf)@ == overwritten(old(buf)@, spec_send_i16(val)),
{
    buf_send_u16(unsigned_of_i16(val), buf);
}

/// Writes `val` in network byte order over the first four bytes of `buf`.
pub fn buf_send_i32(val: i32, buf: &mut [u8])
    requires
        old(buf)@.len() >= 4,
    ensures
        final(buf)@ == overwritten(old(buf)@, spec_send_i32(val)),
{
    buf_send_u32(unsigned_of_i32(val), buf);
}

/// Writes `val` in network byte order over the first eight bytes of `buf`.
pub fn buf_send_i64(val: i64, buf: &mut [u8])
    requires
        old(buf)@.len() >= 8,
    ensures
        final(buf)@ == overwritten(old(buf)@, spec_send_i64(val)),
{
    buf_send_u64(unsigned_of_i64(val), buf);
}

/// Two's complement is a bijection: reading a written pattern gives the
/// number back.
pub proof fn lemma_signed_round_trip(v: int, half: nat)
    requires
        -half <= v < half,
    ensures
        to_unsigned(v, half) < 2 * half,
        to_signed(to_unsigned(v, half), half) == v,
{
}

/// An unsigned 8-bit integer that is written and read back is unchanged.
pub proof fn lemma_round_trip_u8(v: u8)
    ensures
        spec_recv_u8(spec_send_u8(v)) == v,
{
}

/// A signed 8-bit integer that is written and read back is unchanged.
pub proof fn lemma_round_trip_i8(v: i8)
    ensures
        spec_recv_i8(spec_send_i8(v)) == v,
{
}

/// An unsigned 16-bit integer that is written and read back is unchanged.
pub proof fn lemma_round_trip_u16(v: u16)
    ensures
        spec_send_u16(v).len() == 2,
        spec_recv_u16(spec_send_u16(v)) == v,
{
    lemma_pow256_values();
    lemma_be_bytes_len(v as nat, 2);
    lemma_be_round_trip(v as nat, 2);
}

/// An unsigned 32-bit integer that is written and read back is unchanged.
pub proof fn lemma_round_trip_u32(v: u32)
    ensures
        spec_send_u32(v).len() == 4,
        spec_recv_u32(spec_send_u32(v)) == v,
{
    lemma_pow256_values();
    lemma_be_bytes_len(v as nat, 4);
    lemma_be_round_trip(v as nat, 4);
}

/// An unsigned 64-bit integer that is written and read back is unchanged.
pub proof fn lemma_round_trip_u64(v: u64)
    ensures
        spec_send_u64(v).len() == 8,
        spec_recv_u64(spec_send_u64(v)) == v,
{
    lemma_pow256_values();
    lemma_be_bytes_len(v as nat, 8);
    lemma_be_round_trip(v as nat, 8);
}

/// A signed 16-bit integer that is written and read back is unchanged.
pub proof fn lemma_round_trip_i16(v: i16)
    ensures
        spec_send_i16(v).len() == 2,
        spec_recv_i16(spec_send_i16(v)) == v,
{
    lemma_pow256_values();
    let u = to_unsigned(v as int, 0x8000);
    lemma_signed_round_trip(v as int, 0x8000);
    lemma_be_bytes_len(u, 2);
    lemma_be_round_trip(u, 2);
}

/// A signed 32-bit integer that is written and read back is unchanged.
pub proof fn lemma_round_trip_i32(v: i32)
    ensures
        spec_send_i32(v).len() == 4,
        spec_recv_i32(spec_send_i32(v)) == v,
{
    lemma_pow256_values();
    let u = to_unsigned(v as int, 0x8000_0000);
    lemma_signed_round_trip(v as int, 0x8000_0000);
    lemma_be_bytes_len(u, 4);
    lemma_be_round_trip(u, 4);
}

/// A signed 64-bit integer that is written and read back is unchanged.
pub proof fn lemma_round_trip_i64(v: i64)
    ensures
        spec_send_i64(v).len() == 8,
        spec_recv_i64(spec_send_i64(v)) == v,
{
    lemma_pow256_values();
    let u = to_unsigned(v as int, 0x8000_0000_0000_0000);
    lemma_signed_round_trip(v as int, 0x8000_0000_0000_0000);
    lemma_be_bytes_len(u, 8);
    lemma_be_round_trip(u, 8);
}

} // verus!
