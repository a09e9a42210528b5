//! The wire format of the buffers that cross the boundary.
//!
//! Multi-byte integers are big-endian; signed integers travel as their
//! two's-complement bit pattern. Strings are a signed 32-bit byte-count
//! prefix followed by UTF-8 bytes; negative counts are invalid. Optionals
//! are a one-byte tag, `0` for absent and `1` for present followed by the
//! payload. A record is the concatenation of its fields in declared order.
//!
//! Every writer appends the encoding of its value to the end of a buffer;
//! every reader takes a buffer and a position and returns the decoded value
//! together with the position just past it, or says exactly why the bytes at
//! that position are not a valid encoding.

use vstd::prelude::*;
use vstd::string::StrSliceExecFns;

verus! {

broadcast use vstd::utf8::encode_utf8_valid_utf8, vstd::utf8::encode_utf8_decode_utf8;

/// Why a read failed.
#[derive(Clone, Copy, PartialEq, Eq, Structural, Debug)]
pub enum DecodeError {
    /// The buffer ends before the encoding does.
    ShortBuffer,
    /// A string carried a negative byte count.
    NegativeLength,
    /// String payload bytes are not valid UTF-8.
    InvalidUtf8,
    /// An optional carried a tag other than `0` or `1`.
    InvalidTag,
}

// ---------------------------------------------------------------------------
// Specification: encodings as byte sequences.
// ---------------------------------------------------------------------------

/// Encoding of a bool: one byte, `0x00` or `0x01`.
pub open spec fn enc_bool(v: bool) -> Seq<u8> {
    seq![if v { 1u8 } else { 0u8 }]
}

/// Encoding of an unsigned 8-bit integer: the byte itself.
pub open spec fn enc_u8(v: u8) -> Seq<u8> {
    seq![v]
}

/// Big-endian encoding of an unsigned 16-bit integer.
pub open spec fn enc_u16(v: u16) -> Seq<u8> {
    seq![((v >> 8) & 0xff) as u8, (v & 0xff) as u8]
}

/// Big-endian encoding of an unsigned 32-bit integer.
pub open spec fn enc_u32(v: u32) -> Seq<u8> {
    seq![
        ((v >> 24) & 0xff) as u8,
        ((v >> 16) & 0xff) as u8,
        ((v >> 8) & 0xff) as u8,
        (v & 0xff) as u8,
    ]
}

/// Big-endian encoding of an unsigned 64-bit integer.
pub open spec fn enc_u64(v: u64) -> Seq<u8> {
    seq![
        ((v >> 56) & 0xff) as u8,
        ((v >> 48) & 0xff) as u8,
        ((v >> 40) & 0xff) as u8,
        ((v >> 32) & 0xff) as u8,
        ((v >> 24) & 0xff) as u8,
        ((v >> 16) & 0xff) as u8,
        ((v >> 8) & 0xff) as u8,
        (v & 0xff) as u8,
    ]
}

/// The unsigned 8-bit pattern of a signed 8-bit integer (two's complement).
pub open spec fn bits_of_i8(v: i8) -> u8 {
    if v >= 0 {
        v as u8
    } else {
        (v + 0x100) as u8
    }
}

/// The unsigned 16-bit pattern of a signed 16-bit integer (two's complement).
pub open spec fn bits_of_i16(v: i16) -> u16 {
    if v >= 0 {
        v as u16
    } else {
        (v + 0x1_0000) as u16
    }
}

/// The unsigned 32-bit pattern of a signed 32-bit integer (two's complement).
pub open spec fn bits_of_i32(v: i32) -> u32 {
    if v >= 0 {
        v as u32
    } else {
        (v + 0x1_0000_0000) as u32
    }
}

/// The unsigned 64-bit pattern of a signed 64-bit integer (two's complement).
pub open spec fn bits_of_i64(v: i64) -> u64 {
    if v >= 0 {
        v as u64
    } else {
        (v + 0x1_0000_0000_0000_0000) as u64
    }
}

/// The signed 8-bit integer whose two's-complement pattern is the argument.
pub open spec fn i8_of_bits(b: u8) -> i8 {
    if b < 0x80 {
        b as i8
    } else {
        (b - 0x100) as i8
    }
}

/// The signed 16-bit integer whose two's-complement pattern is the argument.
pub open spec fn i16_of_bits(b: u16) -> i16 {
    if b < 0x8000 {
        b as i16
    } else {
        (b - 0x1_0000) as i16
    }
}

/// The signed 32-bit integer whose two's-complement pattern is the argument.
pub open spec fn i32_of_bits(b: u32) -> i32 {
    if b < 0x8000_0000 {
        b as i32
    } else {
        (b - 0x1_0000_0000) as i32
    }
}

/// The signed 64-bit integer whose two's-complement pattern is the argument.
pub open spec fn i64_of_bits(b: u64) -> i64 {
    if b < 0x8000_0000_0000_0000 {
        b as i64
    } else {
        (b - 0x1_0000_0000_0000_0000) as i64
    }
}

/// Encoding of a signed 8-bit integer: its two's-complement byte.
pub open spec fn enc_i8(v: i8) -> Seq<u8> {
    enc_u8(bits_of_i8(v))
}

/// Encoding of a signed 16-bit integer: its two's-complement pattern,
/// big-endian.
pub open spec fn enc_i16(v: i16) -> Seq<u8> {
    enc_u16(bits_of_i16(v))
}

/// Encoding of a signed 32-bit integer: its two's-complement pattern,
/// big-endian.
pub open spec fn enc_i32(v: i32) -> Seq<u8> {
    enc_u32(bits_of_i32(v))
}

/// Encoding of a signed 64-bit integer: its two's-complement pattern,
/// big-endian.
pub open spec fn enc_i64(v: i64) -> Seq<u8> {
    enc_u64(bits_of_i64(v))
}

// ---------------------------------------------------------------------------
// Specification: readers. Each takes the whole buffer and a position and
// yields the value together with the position just past its encoding.
// ---------------------------------------------------------------------------

/// Reads one byte.
pub open spec fn read_u8_at(b: Seq<u8>, pos: int) -> Option<(u8, int)> {
    if 0 <= pos && pos + 1 <= b.len() {
        Some((b[pos], pos + 1))
    } else {
        None
    }
}

/// Reads a bool: only the bytes `0` and `1` are accepted.
pub open spec fn read_bool_at(b: Seq<u8>, pos: int) -> Option<(bool, int)> {
    match read_u8_at(b, pos) {
        Some((t, end)) => if t == 0 {
            Some((false, end))
        } else if t == 1 {
            Some((true, end))
        } else {
            None
        },
        None => None,
    }
}

/// Combines two bytes big-endian.
pub open spec fn combine16(b0: u8, b1: u8) -> u16 {
    ((b0 as u16) << 8) | (b1 as u16)
}

/// Combines four bytes big-endian.
pub open spec fn combine32(b0: u8, b1: u8, b2: u8, b3: u8) -> u32 {
    ((b0 as u32) << 24) | ((b1 as u32) << 16) | ((b2 as u32) << 8) | (b3 as u32)
}

/// Combines eight bytes big-endian.
pub open spec fn combine64(b0: u8, b1: u8, b2: u8, b3: u8, b4: u8, b5: u8, b6: u8, b7: u8) -> u64 {
    ((b0 as u64) << 56) | ((b1 as u64) << 48) | ((b2 as u64) << 40) | ((b3 as u64) << 32) | ((
    b4 as u64) << 24) | ((b5 as u64) << 16) | ((b6 as u64) << 8) | (b7 as u64)
}

/// Reads a big-endian unsigned 16-bit integer.
pub open spec fn read_u16_at(b: Seq<u8>, pos: int) -> Option<(u16, int)> {
    if 0 <= pos && pos + 2 <= b.len() {
        Some((combine16(b[pos], b[pos + 1]), pos + 2))
    } else {
        None
    }
}

/// Reads a big-endian unsigned 32-bit integer.
pub open spec fn read_u32_at(b: Seq<u8>, pos: int) -> Option<(u32, int)> {
    if 0 <= pos && pos + 4 <= b.len() {
        Some((combine32(b[pos], b[pos + 1], b[pos + 2], b[pos + 3]), pos + 4))
    } else {
        None
    }
}

/// Reads a big-endian unsigned 64-bit integer.
pub open spec fn read_u64_at(b: Seq<u8>, pos: int) -> Option<(u64, int)> {
    if 0 <= pos && pos + 8 <= b.len() {
        Some(
            (
                combine64(
                    b[pos],
                    b[pos + 1],
                    b[pos + 2],
                    b[pos + 3],
                    b[pos + 4],
                    b[pos + 5],
                    b[pos + 6],
                    b[pos + 7],
                ),
                pos + 8,
            ),
        )
    } else {
        None
    }
}

/// Reads a signed 8-bit integer.
pub open spec fn read_i8_at(b: Seq<u8>, pos: int) -> Option<(i8, int)> {
    match read_u8_at(b, pos) {
        Some((v, end)) => Some((i8_of_bits(v), end)),
        None => None,
    }
}

/// Reads a big-endian signed 16-bit integer.
pub open spec fn read_i16_at(b: Seq<u8>, pos: int) -> Option<(i16, int)> {
    match read_u16_at(b, pos) {
        Some((v, end)) => Some((i16_of_bits(v), end)),
        None => None,
    }
}

/// Reads a big-endian signed 32-bit integer.
pub open spec fn read_i32_at(b: Seq<u8>, pos: int) -> Option<(i32, int)> {
    match read_u32_at(b, pos) {
        Some((v, end)) => Some((i32_of_bits(v), end)),
        None => None,
    }
}

/// Reads a big-endian signed 64-bit integer.
pub open spec fn read_i64_at(b: Seq<u8>, pos: int) -> Option<(i64, int)> {
    match read_u64_at(b, pos) {
        Some((v, end)) => Some((i64_of_bits(v), end)),
        None => None,
    }
}

// ---------------------------------------------------------------------------
// Executable writers.
// ---------------------------------------------------------------------------

/// Appends the encoding of a bool.
pub fn write_bool(buf: &mut Vec<u8>, v: bool)
    ensures
        final(buf)@ == old(buf)@ + enc_bool(v),
{
    buf.push(if v { 1u8 } else { 0u8 });
    proof {
        assert(final(buf)@ =~= old(buf)@ + enc_bool(v));
    }
}

/// Appends the encoding of an unsigned 8-bit integer.
pub fn write_u8(buf: &mut Vec<u8>, v: u8)
    ensures
        final(buf)@ == old(buf)@ + enc_u8(v),
{
    buf.push(v);
    proof {
        assert(final(buf)@ =~= old(buf)@ + enc_u8(v));
    }
}

/// Appends the big-endian encoding of an unsigned 16-bit integer.
pub fn write_u16(buf: &mut Vec<u8>, v: u16)
    ensures
        final(buf)@ == old(buf)@ + enc_u16(v),
{
    buf.push(((v >> 8) & 0xff) as u8);
    buf.push((v & 0xff) as u8);
    proof {
        assert(final(buf)@ =~= old(buf)@ + enc_u16(v));
    }
}

/// Appends the big-endian encoding of an unsigned 32-bit integer.
pub fn write_u32(buf: &mut Vec<u8>, v: u32)
    ensures
        final(buf)@ == old(buf)@ + enc_u32(v),
{
    buf.push(((v >> 24) & 0xff) as u8);
    buf.push(((v >> 16) & 0xff) as u8);
    buf.push(((v >> 8) & 0xff) as u8);
    buf.push((v & 0xff) as u8);
    proof {
        assert(final(buf)@ =~= old(buf)@ + enc_u32(v));
    }
}

/// Appends the big-endian encoding of an unsigned 64-bit integer.
pub fn write_u64(buf: &mut Vec<u8>, v: u64)
    ensures
        final(buf)@ == old(buf)@ + enc_u64(v),
{
    buf.push(((v >> 56) & 0xff) as u8);
    buf.push(((v >> 48) & 0xff) as u8);
    buf.push(((v >> 40) & 0xff) as u8);
    buf.push(((v >> 32) & 0xff) as u8);
    buf.push(((v >> 24) & 0xff) as u8);
    buf.push(((v >> 16) & 0xff) as u8);
    buf.push(((v >> 8) & 0xff) as u8);
    buf.push((v & 0xff) as u8);
    proof {
        assert(final(buf)@ =~= old(buf)@ + enc_u64(v));
    }
}

/// The two's-complement byte of a signed 8-bit integer.
pub fn i8_bits(v: i8) -> (bits: u8)
    ensures
        bits == bits_of_i8(v),
{
    proof {
        assert(v >= 0 ==> #[verifier::truncate] (v as u8) == bits_of_i8(v)) by (bit_vector);
        assert(v < 0 ==> #[verifier::truncate] (v as u8) == bits_of_i8(v)) by (bit_vector);
    }
    #[verifier::truncate] (v as u8)
}

/// The two's-complement pattern of a signed 16-bit integer.
pub fn i16_bits(v: i16) -> (bits: u16)
    ensures
        bits == bits_of_i16(v),
{
    proof {
        assert(v >= 0 ==> #[verifier::truncate] (v as u16) == bits_of_i16(v)) by (bit_vector);
        assert(v < 0 ==> #[verifier::truncate] (v as u16) == bits_of_i16(v)) by (bit_vector);
    }
    #[verifier::truncate] (v as u16)
}

/// The two's-complement pattern of a signed 32-bit integer.
pub fn i32_bits(v: i32) -> (bits: u32)
    ensures
        bits == bits_of_i32(v),
{
    proof {
        assert(v >= 0 ==> #[verifier::truncate] (v as u32) == bits_of_i32(v)) by (bit_vector);
        assert(v < 0 ==> #[verifier::truncate] (v as u32) == bits_of_i32(v)) by (bit_vector);
    }
    #[verifier::truncate] (v as u32)
}

/// The two's-complement pattern of a signed 64-bit integer.
pub fn i64_bits(v: i64) -> (bits: u64)
    ensures
        bits == bits_of_i64(v),
{
    proof {
        assert(v >= 0 ==> #[verifier::truncate] (v as u64) == bits_of_i64(v)) by (bit_vector);
        assert(v < 0 ==> #[verifier::truncate] (v as u64) == bits_of_i64(v)) by (bit_vector);
    }
    #[verifier::truncate] (v as u64)
}

/// Appends the encoding of a signed 8-bit integer.
pub fn write_i8(buf: &mut Vec<u8>, v: i8)
    ensures
        final(buf)@ == old(buf)@ + enc_i8(v),
{
    let bits = i8_bits(v);
    write_u8(buf, bits);
}

/// Appends the big-endian encoding of a signed 16-bit integer.
pub fn write_i16(buf: &mut Vec<u8>, v: i16)
    ensures
        final(buf)@ == old(buf)@ + enc_i16(v),
{
    let bits = i16_bits(v);
    write_u16(buf, bits);
}

/// Appends the big-endian encoding of a signed 32-bit integer.
pub fn write_i32(buf: &mut Vec<u8>, v: i32)
    ensures
        final(buf)@ == old(buf)@ + enc_i32(v),
{
    let bits = i32_bits(v);
    write_u32(buf, bits);
}

/// Appends the big-endian encoding of a signed 64-bit integer.
pub fn write_i64(buf: &mut Vec<u8>, v: i64)
    ensures
        final(buf)@ == old(buf)@ + enc_i64(v),
{
    let bits = i64_bits(v);
    write_u64(buf, bits);
}

// ---------------------------------------------------------------------------
// Executable readers.
// ---------------------------------------------------------------------------

/// Reads one byte at `pos`.
pub fn read_u8(buf: &Vec<u8>, pos: usize) -> (r: Result<(u8, usize), DecodeError>)
    ensures
        match read_u8_at(buf@, pos as int) {
            Some((v, end)) => r == Ok::<(u8, usize), DecodeError>((v, end as usize)),
            None => r == Err::<(u8, usize), DecodeError>(DecodeError::ShortBuffer),
        },
{
    if pos < buf.len() {
        Ok((buf[pos], pos + 1))
    } else {
        Err(DecodeError::ShortBuffer)
    }
}

/// Reads a bool at `pos`; only the bytes `0` and `1` are accepted.
pub fn read_bool(buf: &Vec<u8>, pos: usize) -> (r: Result<(bool, usize), DecodeError>)
    ensures
        match read_bool_at(buf@, pos as int) {
            Some((v, end)) => r == Ok::<(bool, usize), DecodeError>((v, end as usize)),
            None => r is Err,
        },
        r is Err ==> read_bool_at(buf@, pos as int) is None,
        r == Err::<(bool, usize), DecodeError>(DecodeError::ShortBuffer) <==> read_u8_at(
            buf@,
            pos as int,
        ) is None,
{
    if pos < buf.len() {
        let t = buf[pos];
        if t == 0 {
            Ok((false, pos + 1))
        } else if t == 1 {
            Ok((true, pos + 1))
        } else {
            Err(DecodeError::InvalidTag)
        }
    } else {
        Err(DecodeError::ShortBuffer)
    }
}

/// Reads a big-endian unsigned 16-bit integer at `pos`.
pub fn read_u16(buf: &Vec<u8>, pos: usize) -> (r: Result<(u16, usize), DecodeError>)
    ensures
        match read_u16_at(buf@, pos as int) {
            Some((v, end)) => r == Ok::<(u16, usize), DecodeError>((v, end as usize)),
            None => r == Err::<(u16, usize), DecodeError>(DecodeError::ShortBuffer),
        },
{
    if pos < buf.len() && 2 <= buf.len() - pos {
        let v = combine16_exec(buf[pos], buf[pos + 1]);
        Ok((v, pos + 2))
    } else {
        Err(DecodeError::ShortBuffer)
    }
}

/// Combines two bytes big-endian.
pub fn combine16_exec(b0: u8, b1: u8) -> (v: u16)
    ensures
        v == combine16(b0, b1),
{
    proof {
        assert(((b0 as u16) << 8) | (b1 as u16) <= 0xffff) by (bit_vector);
    }
    ((b0 as u16) << 8) | (b1 as u16)
}

/// Combines four bytes big-endian.
pub fn combine32_exec(b0: u8, b1: u8, b2: u8, b3: u8) -> (v: u32)
    ensures
        v == combine32(b0, b1, b2, b3),
{
    ((b0 as u32) << 24) | ((b1 as u32) << 16) | ((b2 as u32) << 8) | (b3 as u32)
}

/// Combines eight bytes big-endian.
pub fn combine64_exec(b0: u8, b1: u8, b2: u8, b3: u8, b4: u8, b5: u8, b6: u8, b7: u8) -> (v: u64)
    ensures
        v == combine64(b0, b1, b2, b3, b4, b5, b6, b7),
{
    ((b0 as u64) << 56) | ((b1 as u64) << 48) | ((b2 as u64) << 40) | ((b3 as u64) << 32) | ((
    b4 as u64) << 24) | ((b5 as u64) << 16) | ((b6 as u64) << 8) | (b7 as u64)
}

/// Reads a big-endian unsigned 32-bit integer at `pos`.
pub fn read_u32(buf: &Vec<u8>, pos: usize) -> (r: Result<(u32, usize), DecodeError>)
    ensures
        match read_u32_at(buf@, pos as int) {
            Some((v, end)) => r == Ok::<(u32, usize), DecodeError>((v, end as usize)),
            None => r == Err::<(u32, usize), DecodeError>(DecodeError::ShortBuffer),
        },
{
    if pos < buf.len() && 4 <= buf.len() - pos {
        let v = combine32_exec(buf[pos], buf[pos + 1], buf[pos + 2], buf[pos + 3]);
        Ok((v, pos + 4))
    } else {
        Err(DecodeError::ShortBuffer)
    }
}

/// Reads a big-endian unsigned 64-bit integer at `pos`.
pub fn read_u64(buf: &Vec<u8>, pos: usize) -> (r: Result<(u64, usize), DecodeError>)
    ensures
        match read_u64_at(buf@, pos as int) {
            Some((v, end)) => r == Ok::<(u64, usize), DecodeError>((v, end as usize)),
            None => r == Err::<(u64, usize), DecodeError>(DecodeError::ShortBuffer),
        },
{
    if pos < buf.len() && 8 <= buf.len() - pos {
        let v = combine64_exec(
            buf[pos],
            buf[pos + 1],
            buf[pos + 2],
            buf[pos + 3],
            buf[pos + 4],
            buf[pos + 5],
            buf[pos + 6],
            buf[pos + 7],
        );
        Ok((v, pos + 8))
    } else {
        Err(DecodeError::ShortBuffer)
    }
}

/// The signed 8-bit integer with the given two's-complement byte.
pub fn i8_from_bits(bits: u8) -> (v: i8)
    ensures
        v == i8_of_bits(bits),
{
    proof {
        assert(bits < 0x80 ==> #[verifier::truncate] (bits as i8) == i8_of_bits(bits))
            by (bit_vector);
        assert(bits >= 0x80 ==> #[verifier::truncate] (bits as i8) == i8_of_bits(bits))
            by (bit_vector);
    }
    #[verifier::truncate] (bits as i8)
}

/// The signed 16-bit integer with the given two's-complement pattern.
pub fn i16_from_bits(bits: u16) -> (v: i16)
    ensures
        v == i16_of_bits(bits),
{
    proof {
        assert(bits < 0x8000 ==> #[verifier::truncate] (bits as i16) == i16_of_bits(bits))
            by (bit_vector);
        assert(bits >= 0x8000 ==> #[verifier::truncate] (bits as i16) == i16_of_bits(bits))
            by (bit_vector);
    }
    #[verifier::truncate] (bits as i16)
}

/// The signed 32-bit integer with the given two's-complement pattern.
pub fn i32_from_bits(bits: u32) -> (v: i32)
    ensures
        v == i32_of_bits(bits),
{
    proof {
        assert(bits < 0x8000_0000 ==> #[verifier::truncate] (bits as i32) == i32_of_bits(bits))
            by (bit_vector);
        assert(bits >= 0x8000_0000 ==> #[verifier::truncate] (bits as i32) == i32_of_bits(bits))
            by (bit_vector);
    }
    #[verifier::truncate] (bits as i32)
}

/// The signed 64-bit integer with the given two's-complement pattern.
pub fn i64_from_bits(bits: u64) -> (v: i64)
    ensures
        v == i64_of_bits(bits),
{
    proof {
        assert(bits < 0x8000_0000_0000_0000 ==> #[verifier::truncate] (bits as i64) == i64_of_bits(
            bits,
        )) by (bit_vector);
        assert(bits >= 0x8000_0000_0000_0000 ==> #[verifier::truncate] (bits as i64) == i64_of_bits(
            bits,
        )) by (bit_vector);
    }
    #[verifier::truncate] (bits as i64)
}

/// Reads a signed 8-bit integer at `pos`.
pub fn read_i8(buf: &Vec<u8>, pos: usize) -> (r: Result<(i8, usize), DecodeError>)
    ensures
        match read_i8_at(buf@, pos as int) {
            Some((v, end)) => r == Ok::<(i8, usize), DecodeError>((v, end as usize)),
            None => r == Err::<(i8, usize), DecodeError>(DecodeError::ShortBuffer),
        },
{
    match read_u8(buf, pos) {
        Ok((bits, end)) => Ok((i8_from_bits(bits), end)),
        Err(e) => Err(e),
    }
}

/// Reads a big-endian signed 16-bit integer at `pos`.
pub fn read_i16(buf: &Vec<u8>, pos: usize) -> (r: Result<(i16, usize), DecodeError>)
    ensures
        match read_i16_at(buf@, pos as int) {
            Some((v, end)) => r == Ok::<(i16, usize), DecodeError>((v, end as usize)),
            None => r == Err::<(i16, usize), DecodeError>(DecodeError::ShortBuffer),
        },
{
    match read_u16(buf, pos) {
        Ok((bits, end)) => Ok((i16_from_bits(bits), end)),
        Err(e) => Err(e),
    }
}

/// Reads a big-endian signed 32-bit integer at `pos`.
pub fn read_i32(buf: &Vec<u8>, pos: usize) -> (r: Result<(i32, usize), DecodeError>)
    ensures
        match read_i32_at(buf@, pos as int) {
            Some((v, end)) => r == Ok::<(i32, usize), DecodeError>((v, end as usize)),
            None => r == Err::<(i32, usize), DecodeError>(DecodeError::ShortBuffer),
        },
{
    match read_u32(buf, pos) {
        Ok((bits, end)) => Ok((i32_from_bits(bits), end)),
        Err(e) => Err(e),
    }
}

/// Reads a big-endian signed 64-bit integer at `pos`.
pub fn read_i64(buf: &Vec<u8>, pos: usize) -> (r: Result<(i64, usize), DecodeError>)
    ensures
        match read_i64_at(buf@, pos as int) {
            Some((v, end)) => r == Ok::<(i64, usize), DecodeError>((v, end as usize)),
            None => r == Err::<(i64, usize), DecodeError>(DecodeError::ShortBuffer),
        },
{
    match read_u64(buf, pos) {
        Ok((bits, end)) => Ok((i64_from_bits(bits), end)),
        Err(e) => Err(e),
    }
}

// ---------------------------------------------------------------------------
// Round-trip laws: reading an encoding, wherever it stands in a buffer,
// yields the encoded value and consumes exactly its bytes.
// ---------------------------------------------------------------------------

/// Law: bool encodings read back to the encoded value.
pub proof fn lemma_roundtrip_bool(v: bool, rest: Seq<u8>)
    ensures
        read_bool_at(enc_bool(v) + rest, 0) == Some((v, 1int)),
{
    assert((enc_bool(v) + rest)[0] == enc_bool(v)[0]);
}

/// Law: unsigned 8-bit encodings read back to the encoded value.
pub proof fn lemma_roundtrip_u8(v: u8, rest: Seq<u8>)
    ensures
        read_u8_at(enc_u8(v) + rest, 0) == Some((v, 1int)),
{
    assert((enc_u8(v) + rest)[0] == v);
}

/// Law: unsigned 16-bit encodings read back to the encoded value.
pub proof fn lemma_roundtrip_u16(v: u16, rest: Seq<u8>)
    ensures
        read_u16_at(enc_u16(v) + rest, 0) == Some((v, 2int)),
{
    let b = enc_u16(v) + rest;
    assert(b[0] == enc_u16(v)[0] && b[1] == enc_u16(v)[1]);
    assert(combine16(((v >> 8) & 0xff) as u8, (v & 0xff) as u8) == v) by (bit_vector);
}

/// Law: unsigned 32-bit encodings read back to the encoded value.
pub proof fn lemma_roundtrip_u32(v: u32, rest: Seq<u8>)
    ensures
        read_u32_at(enc_u32(v) + rest, 0) == Some((v, 4int)),
{
    let b = enc_u32(v) + rest;
    assert(b[0] == enc_u32(v)[0] && b[1] == enc_u32(v)[1] && b[2] == enc_u32(v)[2] && b[3]
        == enc_u32(v)[3]);
    assert(combine32(
        ((v >> 24) & 0xff) as u8,
        ((v >> 16) & 0xff) as u8,
        ((v >> 8) & 0xff) as u8,
        (v & 0xff) as u8,
    ) == v) by (bit_vector);
}

/// Law: unsigned 64-bit encodings read back to the encoded value.
pub proof fn lemma_roundtrip_u64(v: u64, rest: Seq<u8>)
    ensures
        read_u64_at(enc_u64(v) + rest, 0) == Some((v, 8int)),
{
    let b = enc_u64(v) + rest;
    assert(b[0] == enc_u64(v)[0] && b[1] == enc_u64(v)[1] && b[2] == enc_u64(v)[2] && b[3]
        == enc_u64(v)[3] && b[4] == enc_u64(v)[4] && b[5] == enc_u64(v)[5] && b[6] == enc_u64(v)[6]
        && b[7] == enc_u64(v)[7]);
    assert(combine64(
        ((v >> 56) & 0xff) as u8,
        ((v >> 48) & 0xff) as u8,
        ((v >> 40) & 0xff) as u8,
        ((v >> 32) & 0xff) as u8,
        ((v >> 24) & 0xff) as u8,
        ((v >> 16) & 0xff) as u8,
        ((v >> 8) & 0xff) as u8,
        (v & 0xff) as u8,
    ) == v) by (bit_vector);
}

/// Two's-complement patterns invert: the pattern of a value reads back to
/// the value.
pub proof fn lemma_bits_of_i8_inverts(v: i8)
    ensures
        i8_of_bits(bits_of_i8(v)) == v,
{
}

/// Two's-complement patterns invert for 16-bit values.
pub proof fn lemma_bits_of_i16_inverts(v: i16)
    ensures
        i16_of_bits(bits_of_i16(v)) == v,
{
}

/// Two's-complement patterns invert for 32-bit values.
pub proof fn lemma_bits_of_i32_inverts(v: i32)
    ensures
        i32_of_bits(bits_of_i32(v)) == v,
{
}

/// Two's-complement patterns invert for 64-bit values.
pub proof fn lemma_bits_of_i64_inverts(v: i64)
    ensures
        i64_of_bits(bits_of_i64(v)) == v,
{
}

/// Law: signed 8-bit encodings read back to the encoded value.
pub proof fn lemma_roundtrip_i8(v: i8, rest: Seq<u8>)
    ensures
        read_i8_at(enc_i8(v) + rest, 0) == Some((v, 1int)),
{
    lemma_roundtrip_u8(bits_of_i8(v), rest);
    lemma_bits_of_i8_inverts(v);
}

/// Law: signed 16-bit encodings read back to the encoded value.
pub proof fn lemma_roundtrip_i16(v: i16, rest: Seq<u8>)
    ensures
        read_i16_at(enc_i16(v) + rest, 0) == Some((v, 2int)),
{
    lemma_roundtrip_u16(bits_of_i16(v), rest);
    lemma_bits_of_i16_inverts(v);
}

/// Law: signed 32-bit encodings read back to the encoded value.
pub proof fn lemma_roundtrip_i32(v: i32, rest: Seq<u8>)
    ensures
        read_i32_at(enc_i32(v) + rest, 0) == Some((v, 4int)),
{
    lemma_roundtrip_u32(bits_of_i32(v), rest);
    lemma_bits_of_i32_inverts(v);
}

/// Law: signed 64-bit encodings read back to the encoded value.
pub proof fn lemma_roundtrip_i64(v: i64, rest: Seq<u8>)
    ensures
        read_i64_at(enc_i64(v) + rest, 0) == Some((v, 8int)),
{
    lemma_roundtrip_u64(bits_of_i64(v), rest);
    lemma_bits_of_i64_inverts(v);
}


/// Byte count of a string on the wire must fit the signed 32-bit prefix.
pub open spec fn string_len_fits(s: Seq<char>) -> bool {
    vstd::utf8::encode_utf8(s).len() <= 0x7fff_ffff
}

/// Encoding of a string: signed 32-bit byte count, then UTF-8 bytes.
pub open spec fn enc_string(s: Seq<char>) -> Seq<u8> {
    enc_i32(vstd::utf8::encode_utf8(s).len() as i32) + vstd::utf8::encode_utf8(s)
}

/// The character sequences of an optional string value.
pub open spec fn view_opt_string(v: Option<String>) -> Option<Seq<char>> {
    match v {
        Some(s) => Some(s@),
        None => None,
    }
}

/// An optional string fits the wire format when its payload, if present,
/// fits the signed 32-bit byte-count prefix.
pub open spec fn opt_string_fits(v: Option<Seq<char>>) -> bool {
    match v {
        Some(s) => string_len_fits(s),
        None => true,
    }
}

/// Encoding of an optional string: `0` for absent; `1` then the string.
pub open spec fn enc_opt_string(v: Option<Seq<char>>) -> Seq<u8> {
    match v {
        None => seq![0u8],
        Some(s) => seq![1u8] + enc_string(s),
    }
}

/// Reads a string at `pos`: a non-negative byte count whose payload is in
/// the buffer and is valid UTF-8.
pub open spec fn read_string_at(b: Seq<u8>, pos: int) -> Result<(Seq<char>, int), DecodeError> {
    match read_i32_at(b, pos) {
        None => Err(DecodeError::ShortBuffer),
        Some((n, p)) => if n < 0 {
            Err(DecodeError::NegativeLength)
        } else if p + n > b.len() {
            Err(DecodeError::ShortBuffer)
        } else {
            let payload = b.subrange(p, p + n);
            if vstd::utf8::valid_utf8(payload) {
                Ok((vstd::utf8::decode_utf8(payload), p + n))
            } else {
                Err(DecodeError::InvalidUtf8)
            }
        },
    }
}

/// Reads an optional string at `pos`: a tag byte `0` or `1`, then for `1`
/// the string.
pub open spec fn read_opt_string_at(b: Seq<u8>, pos: int) -> Result<
    (Option<Seq<char>>, int),
    DecodeError,
> {
    match read_u8_at(b, pos) {
        None => Err(DecodeError::ShortBuffer),
        Some((tag, p)) => if tag == 0 {
            Ok((None, p))
        } else if tag == 1 {
            match read_string_at(b, p) {
                Ok((s, end)) => Ok((Some(s), end)),
                Err(e) => Err(e),
            }
        } else {
            Err(DecodeError::InvalidTag)
        },
    }
}

/// Relies on `String::from_utf8`: it succeeds exactly on valid UTF-8 input
/// and returns the string whose UTF-8 encoding is that input.
#[verifier::external_body]
fn string_from_utf8(bytes: Vec<u8>) -> (r: Option<String>)
    ensures
        r is Some <==> vstd::utf8::valid_utf8(bytes@),
        r matches Some(s) ==> vstd::utf8::encode_utf8(s@) == bytes@,
{
    match String::from_utf8(bytes) {
        Ok(s) => Some(s),
        Err(_) => None,
    }
}

/// Decides whether a string fits the wire format's signed 32-bit byte-count
/// prefix.
pub fn string_fits(s: &str) -> (fits: bool)
    ensures
        fits == string_len_fits(s@),
{
    s.as_bytes().len() <= 0x7fff_ffff
}

/// Appends the encoding of a string.
pub fn write_string(buf: &mut Vec<u8>, s: &str)
    requires
        string_len_fits(s@),
    ensures
        final(buf)@ == old(buf)@ + enc_string(s@),
{
    let n = s.len();
    write_i32(buf, n as i32);
    buf.extend_from_slice(s.as_bytes());
    proof {
        assert(final(buf)@ =~= old(buf)@ + enc_string(s@));
    }
}

/// Appends the encoding of an optional string.
pub fn write_opt_string(buf: &mut Vec<u8>, v: &Option<String>)
    requires
        opt_string_fits(view_opt_string(*v)),
    ensures
        final(buf)@ == old(buf)@ + enc_opt_string(view_opt_string(*v)),
{
    match v {
        None => {
            buf.push(0u8);
            proof {
                assert(final(buf)@ =~= old(buf)@ + enc_opt_string(None));
            }
        },
        Some(s) => {
            buf.push(1u8);
            write_string(buf, s.as_str());
            proof {
                assert(final(buf)@ =~= old(buf)@ + enc_opt_string(Some(s@)));
            }
        },
    }
}

/// Reads a string at `pos`.
pub fn read_string(buf: &Vec<u8>, pos: usize) -> (r: Result<(String, usize), DecodeError>)
    ensures
        match read_string_at(buf@, pos as int) {
            Ok((s, end)) => r matches Ok(v) && v.0@ == s && v.1 == end,
            Err(e) => r == Err::<(String, usize), DecodeError>(e),
        },
{
    let (n, p) = match read_i32(buf, pos) {
        Ok(v) => v,
        Err(e) => {
            return Err(e);
        },
    };
    if n < 0 {
        return Err(DecodeError::NegativeLength);
    }
    let n = n as usize;
    if n > buf.len() - p {
        return Err(DecodeError::ShortBuffer);
    }
    let sub = vstd::slice::slice_subrange(buf.as_slice(), p, p + n);
    let bytes = vstd::slice::slice_to_vec(sub);
    match string_from_utf8(bytes) {
        Some(s) => {
            proof {
                assert(vstd::utf8::decode_utf8(buf@.subrange(p as int, p + n)) == s@);
            }
            Ok((s, p + n))
        },
        None => Err(DecodeError::InvalidUtf8),
    }
}

/// Reads an optional string at `pos`.
pub fn read_opt_string(buf: &Vec<u8>, pos: usize) -> (r: Result<
    (Option<String>, usize),
    DecodeError,
>)
    ensures
        match read_opt_string_at(buf@, pos as int) {
            Ok((v, end)) => r matches Ok(got) && got.1 == end && (match v {
                Some(s) => got.0 matches Some(gs) && gs@ == s,
                None => got.0 is None,
            }),
            Err(e) => r == Err::<(Option<String>, usize), DecodeError>(e),
        },
{
    proof {
        // Pins the buffer length into machine range, so that spec positions
        // and executable positions coincide.
        assert(buf@.len() == buf.len());
    }
    let (tag, p) = match read_u8(buf, pos) {
        Ok(v) => v,
        Err(e) => {
            return Err(e);
        },
    };
    if tag == 0 {
        Ok((None, p))
    } else if tag == 1 {
        match read_string(buf, p) {
            Ok((s, end)) => Ok((Some(s), end)),
            Err(e) => Err(e),
        }
    } else {
        Err(DecodeError::InvalidTag)
    }
}

/// Law: string encodings read back to the encoded string and consume
/// exactly their bytes.
pub proof fn lemma_roundtrip_string(s: Seq<char>, rest: Seq<u8>)
    requires
        string_len_fits(s),
    ensures
        read_string_at(enc_string(s) + rest, 0) == Ok::<_, DecodeError>(
            (s, enc_string(s).len() as int),
        ),
{
    let payload = vstd::utf8::encode_utf8(s);
    let n = payload.len() as i32;
    lemma_roundtrip_i32(n, payload + rest);
    let b = enc_string(s) + rest;
    assert(b =~= enc_i32(n) + (payload + rest));
    assert(read_i32_at(b, 0) == Some((n, 4int)));
    assert(b.subrange(4, 4 + n as int) =~= payload);
}

/// Law: optional-string encodings read back to the encoded value and
/// consume exactly their bytes.
pub proof fn lemma_roundtrip_opt_string(v: Option<Seq<char>>, rest: Seq<u8>)
    requires
        v matches Some(s) ==> string_len_fits(s),
    ensures
        read_opt_string_at(enc_opt_string(v) + rest, 0) == Ok::<_, DecodeError>(
            (v, enc_opt_string(v).len() as int),
        ),
{
    let b = enc_opt_string(v) + rest;
    match v {
        None => {
            assert(b[0] == 0u8);
        },
        Some(s) => {
            assert(b[0] == 1u8);
            lemma_roundtrip_string(s, rest);
            assert(b =~= seq![1u8] + (enc_string(s) + rest));
            lemma_read_string_prefix(seq![1u8], enc_string(s) + rest, 0);
        },
    }
}

/// A string read is unaffected by the bytes before it: reading at
/// `pre.len() + pos` in `pre + tail` sees what a read at `pos` in `tail`
/// sees, shifted by the prefix length.
pub proof fn lemma_read_string_prefix(pre: Seq<u8>, tail: Seq<u8>, pos: int)
    requires
        0 <= pos,
    ensures
        read_string_at(pre + tail, pre.len() + pos) == (match read_string_at(tail, pos) {
            Ok((s, end)) => Ok::<_, DecodeError>((s, end + pre.len())),
            Err(e) => Err(e),
        }),
{
    let b = pre + tail;
    let shift = pre.len() as int;
    assert(forall|i: int| 0 <= i < tail.len() ==> b[shift + i] == tail[i]);
    match read_i32_at(tail, pos) {
        None => {
            assert(read_i32_at(b, shift + pos) is None);
        },
        Some((n, p)) => {
            assert(combine32(b[shift + pos], b[shift + pos + 1], b[shift + pos + 2], b[shift + pos
                + 3]) == combine32(tail[pos], tail[pos + 1], tail[pos + 2], tail[pos + 3]));
            assert(read_i32_at(b, shift + pos) == Some((n, shift + p)));
            if n >= 0 && p + n <= tail.len() {
                assert(b.subrange(shift + p, shift + p + n) =~= tail.subrange(p, p + n));
            }
        },
    }
}

/// An optional-string read is unaffected by the bytes before it.
pub proof fn lemma_read_opt_string_prefix(pre: Seq<u8>, tail: Seq<u8>, pos: int)
    requires
        0 <= pos,
    ensures
        read_opt_string_at(pre + tail, pre.len() + pos) == (match read_opt_string_at(tail, pos) {
            Ok((v, end)) => Ok::<_, DecodeError>((v, end + pre.len())),
            Err(e) => Err(e),
        }),
{
    let b = pre + tail;
    let shift = pre.len() as int;
    match read_u8_at(tail, pos) {
        None => {
            assert(read_u8_at(b, shift + pos) is None);
        },
        Some((tag, p)) => {
            assert(b[shift + pos] == tail[pos]);
            assert(read_u8_at(b, shift + pos) == Some((tag, shift + p)));
            if tag == 1 {
                lemma_read_string_prefix(pre, tail, p);
            }
        },
    }
}

} // verus!
