//! The primitives of the wire format: single bytes and little-endian
//! integers of two and four bytes, signed ones in two's complement.
//!
//! The conversions are opaque to the solver, so that a record of many fields
//! is verified over their names alone; the lemmas below say what a record
//! needs of them, and `reveal` gives the definitions themselves.

use vstd::prelude::*;
use crate::error::{DecodeError, spec_truncated};

verus! {

/// Whether `width` bytes starting at `at` lie inside `b`.
pub open spec fn spec_fits(b: Seq<u8>, at: int, width: int) -> bool {
    0 <= at && at + width <= b.len()
}

/// The signed byte that the bit pattern `x` stands for.
#[verifier::opaque]
pub open spec fn spec_i8_of(x: u8) -> i8 {
    if x < 0x80 {
        x as i8
    } else {
        (x - 0x100) as i8
    }
}

/// The bit pattern of the signed byte `v`.
#[verifier::opaque]
pub open spec fn spec_u8_of(v: i8) -> u8 {
    if v >= 0 {
        v as u8
    } else {
        (v + 0x100) as u8
    }
}

/// The signed 16-bit integer that the bit pattern `x` stands for.
#[verifier::opaque]
pub open spec fn spec_i16_of(x: u16) -> i16 {
    if x < 0x8000 {
        x as i16
    } else {
        (x - 0x1_0000) as i16
    }
}

/// The bit pattern of the signed 16-bit integer `v`.
#[verifier::opaque]
pub open spec fn spec_u16_of(v: i16) -> u16 {
    if v >= 0 {
        v as u16
    } else {
        (v + 0x1_0000) as u16
    }
}

/// The signed 32-bit integer that the bit pattern `x` stands for.
#[verifier::opaque]
pub open spec fn spec_i32_of(x: u32) -> i32 {
    if x < 0x8000_0000 {
        x as i32
    } else {
        (x - 0x1_0000_0000) as i32
    }
}

/// The bit pattern of the signed 32-bit integer `v`.
#[verifier::opaque]
pub open spec fn spec_u32_of(v: i32) -> u32 {
    if v >= 0 {
        v as u32
    } else {
        (v + 0x1_0000_0000) as u32
    }
}

/// The signed byte at `at`.
pub open spec fn spec_i8_at(b: Seq<u8>, at: int) -> i8 {
    spec_i8_of(b[at])
}

/// The unsigned 16-bit integer whose low byte is at `at`.
#[verifier::opaque]
pub open spec fn spec_u16_at(b: Seq<u8>, at: int) -> u16 {
    (b[at] + 0x100 * b[at + 1]) as u16
}

/// The signed 16-bit integer whose low byte is at `at`.
pub open spec fn spec_i16_at(b: Seq<u8>, at: int) -> i16 {
    spec_i16_of(spec_u16_at(b, at))
}

/// The unsigned 32-bit integer whose lowest byte is at `at`.
#[verifier::opaque]
pub open spec fn spec_u32_at(b: Seq<u8>, at: int) -> u32 {
    (b[at] + 0x100 * b[at + 1] + 0x1_0000 * b[at + 2] + 0x100_0000 * b[at + 3]) as u32
}

/// The signed 32-bit integer whose lowest byte is at `at`.
pub open spec fn spec_i32_at(b: Seq<u8>, at: int) -> i32 {
    spec_i32_of(spec_u32_at(b, at))
}

/// Byte `j` of the little-endian form of `x`, counted from the lowest.
#[verifier::opaque]
pub open spec fn spec_le_byte(x: u32, j: int) -> u8 {
    if j == 0 {
        (x % 0x100) as u8
    } else if j == 1 {
        (x / 0x100 % 0x100) as u8
    } else if j == 2 {
        (x / 0x1_0000 % 0x100) as u8
    } else {
        (x / 0x100_0000) as u8
    }
}

/// The two bytes of `v`, low byte first.
pub open spec fn spec_u16_bytes(v: u16) -> Seq<u8> {
    seq![spec_le_byte(v as u32, 0), spec_le_byte(v as u32, 1)]
}

/// The two bytes of the bit pattern of `v`, low byte first.
pub open spec fn spec_i16_bytes(v: i16) -> Seq<u8> {
    spec_u16_bytes(spec_u16_of(v))
}

/// The four bytes of `v`, lowest byte first.
pub open spec fn spec_u32_bytes(v: u32) -> Seq<u8> {
    seq![spec_le_byte(v, 0), spec_le_byte(v, 1), spec_le_byte(v, 2), spec_le_byte(v, 3)]
}

/// The four bytes of the bit pattern of `v`, lowest byte first.
pub open spec fn spec_i32_bytes(v: i32) -> Seq<u8> {
    spec_u32_bytes(spec_u32_of(v))
}

/// What reading one byte at `at` gives.
pub open spec fn spec_read_u8(b: Seq<u8>, at: int) -> Result<u8, DecodeError> {
    if spec_fits(b, at, 1) {
        Ok(b[at])
    } else {
        Err(spec_truncated(at, 1))
    }
}

/// What reading a signed byte at `at` gives.
pub open spec fn spec_read_i8(b: Seq<u8>, at: int) -> Result<i8, DecodeError> {
    if spec_fits(b, at, 1) {
        Ok(spec_i8_at(b, at))
    } else {
        Err(spec_truncated(at, 1))
    }
}

/// What reading an unsigned 16-bit integer at `at` gives.
pub open spec fn spec_read_u16(b: Seq<u8>, at: int) -> Result<u16, DecodeError> {
    if spec_fits(b, at, 2) {
        Ok(spec_u16_at(b, at))
    } else {
        Err(spec_truncated(at, 2))
    }
}

/// What reading a signed 16-bit integer at `at` gives.
pub open spec fn spec_read_i16(b: Seq<u8>, at: int) -> Result<i16, DecodeError> {
    if spec_fits(b, at, 2) {
        Ok(spec_i16_at(b, at))
    } else {
        Err(spec_truncated(at, 2))
    }
}

/// What reading an unsigned 32-bit integer at `at` gives.
pub open spec fn spec_read_u32(b: Seq<u8>, at: int) -> Result<u32, DecodeError> {
    if spec_fits(b, at, 4) {
        Ok(spec_u32_at(b, at))
    } else {
        Err(spec_truncated(at, 4))
    }
}

/// What reading a signed 32-bit integer at `at` gives.
pub open spec fn spec_read_i32(b: Seq<u8>, at: int) -> Result<i32, DecodeError> {
    if spec_fits(b, at, 4) {
        Ok(spec_i32_at(b, at))
    } else {
        Err(spec_truncated(at, 4))
    }
}

/// Splitting the value of four little-endian bytes gives the four bytes back.
pub proof fn lemma_split(b0: u8, b1: u8, b2: u8, b3: u8)
    ensures
        (b0 + 0x100 * b1 + 0x1_0000 * b2 + 0x100_0000 * b3) % 0x100 == b0,
        (b0 + 0x100 * b1 + 0x1_0000 * b2 + 0x100_0000 * b3) / 0x100 % 0x100 == b1,
        (b0 + 0x100 * b1 + 0x1_0000 * b2 + 0x100_0000 * b3) / 0x1_0000 % 0x100 == b2,
        (b0 + 0x100 * b1 + 0x1_0000 * b2 + 0x100_0000 * b3) / 0x100_0000 == b3,
{
    let upper = b1 + 0x100 * b2 + 0x1_0000 * b3;
    let x = b0 + 0x100 * upper;
    assert(x % 0x100 == b0 && x / 0x100 == upper);
    let top = b2 + 0x100 * b3;
    assert(upper == b1 + 0x100 * top);
    assert(upper % 0x100 == b1 && upper / 0x100 == top);
    assert(top % 0x100 == b2 && top / 0x100 == b3);
    assert(x / 0x1_0000 == top);
    assert(x / 0x100_0000 == b3);
}

/// Joining the little-endian bytes of an integer gives the integer back.
pub proof fn lemma_join(v: u32)
    ensures
        v == spec_le_byte(v, 0) + 0x100 * spec_le_byte(v, 1) + 0x1_0000 * spec_le_byte(v, 2)
            + 0x100_0000 * spec_le_byte(v, 3),
        v < 0x1_0000 ==> spec_le_byte(v, 2) == 0 && spec_le_byte(v, 3) == 0,
{
    reveal(spec_le_byte);
    let q1 = v / 0x100;
    let q2 = v / 0x1_0000;
    let q3 = v / 0x100_0000;
    assert(v == v % 0x100 + 0x100 * q1);
    assert(q2 == q1 / 0x100 && q1 == q1 % 0x100 + 0x100 * q2);
    assert(q3 == q2 / 0x100 && q2 == q2 % 0x100 + 0x100 * q3);
}

/// Where the byte of `b` at `at` is the bit pattern of `v`, reading it gives
/// `v`.
pub proof fn lemma_i8_read(v: i8, b: Seq<u8>, at: int)
    requires
        b[at] == spec_u8_of(v),
    ensures
        spec_i8_at(b, at) == v,
{
    reveal(spec_i8_of);
    reveal(spec_u8_of);
}

/// Writing the signed byte read at `at` gives the byte at `at`.
pub proof fn lemma_i8_written(b: Seq<u8>, at: int)
    ensures
        spec_u8_of(spec_i8_at(b, at)) == b[at],
{
    reveal(spec_i8_of);
    reveal(spec_u8_of);
}

/// Where two bytes of `b` at `at` are the bytes of `v`, reading them gives `v`.
pub proof fn lemma_u16_read(v: u16, b: Seq<u8>, at: int)
    requires
        b[at] == spec_u16_bytes(v)[0],
        b[at + 1] == spec_u16_bytes(v)[1],
    ensures
        spec_u16_at(b, at) == v,
{
    reveal(spec_u16_at);
    lemma_join(v as u32);
}

/// Where two bytes of `b` at `at` are the bytes of the bit pattern of `v`,
/// reading them as a signed integer gives `v`.
pub proof fn lemma_i16_read(v: i16, b: Seq<u8>, at: int)
    requires
        b[at] == spec_i16_bytes(v)[0],
        b[at + 1] == spec_i16_bytes(v)[1],
    ensures
        spec_i16_at(b, at) == v,
{
    lemma_u16_read(spec_u16_of(v), b, at);
    reveal(spec_i16_of);
    reveal(spec_u16_of);
}

/// Where four bytes of `b` at `at` are the bytes of `v`, reading them gives `v`.
pub proof fn lemma_u32_read(v: u32, b: Seq<u8>, at: int)
    requires
        b[at] == spec_u32_bytes(v)[0],
        b[at + 1] == spec_u32_bytes(v)[1],
        b[at + 2] == spec_u32_bytes(v)[2],
        b[at + 3] == spec_u32_bytes(v)[3],
    ensures
        spec_u32_at(b, at) == v,
{
    reveal(spec_u32_at);
    lemma_join(v);
}

/// Where four bytes of `b` at `at` are the bytes of the bit pattern of `v`,
/// reading them as a signed integer gives `v`.
pub proof fn lemma_i32_read(v: i32, b: Seq<u8>, at: int)
    requires
        b[at] == spec_i32_bytes(v)[0],
        b[at + 1] == spec_i32_bytes(v)[1],
        b[at + 2] == spec_i32_bytes(v)[2],
        b[at + 3] == spec_i32_bytes(v)[3],
    ensures
        spec_i32_at(b, at) == v,
{
    lemma_u32_read(spec_u32_of(v), b, at);
    reveal(spec_i32_of);
    reveal(spec_u32_of);
}

/// Writing the integer read from two bytes of `b` at `at` gives those bytes.
pub proof fn lemma_u16_written(b: Seq<u8>, at: int)
    ensures
        spec_u16_bytes(spec_u16_at(b, at))[0] == b[at],
        spec_u16_bytes(spec_u16_at(b, at))[1] == b[at + 1],
{
    reveal(spec_u16_at);
    reveal(spec_le_byte);
    lemma_split(b[at], b[at + 1], 0, 0);
}

/// Writing the signed integer read from two bytes of `b` at `at` gives those
/// bytes.
pub proof fn lemma_i16_written(b: Seq<u8>, at: int)
    ensures
        spec_i16_bytes(spec_i16_at(b, at))[0] == b[at],
        spec_i16_bytes(spec_i16_at(b, at))[1] == b[at + 1],
{
    lemma_u16_written(b, at);
    reveal(spec_i16_of);
    reveal(spec_u16_of);
    assert(spec_u16_of(spec_i16_of(spec_u16_at(b, at))) == spec_u16_at(b, at));
}

/// Writing the integer read from four bytes of `b` at `at` gives those bytes.
pub proof fn lemma_u32_written(b: Seq<u8>, at: int)
    ensures
        spec_u32_bytes(spec_u32_at(b, at))[0] == b[at],
        spec_u32_bytes(spec_u32_at(b, at))[1] == b[at + 1],
        spec_u32_bytes(spec_u32_at(b, at))[2] == b[at + 2],
        spec_u32_bytes(spec_u32_at(b, at))[3] == b[at + 3],
{
    reveal(spec_u32_at);
    reveal(spec_le_byte);
    lemma_split(b[at], b[at + 1], b[at + 2], b[at + 3]);
}

/// Writing the signed integer read from four bytes of `b` at `at` gives those
/// bytes.
pub proof fn lemma_i32_written(b: Seq<u8>, at: int)
    ensures
        spec_i32_bytes(spec_i32_at(b, at))[0] == b[at],
        spec_i32_bytes(spec_i32_at(b, at))[1] == b[at + 1],
        spec_i32_bytes(spec_i32_at(b, at))[2] == b[at + 2],
        spec_i32_bytes(spec_i32_at(b, at))[3] == b[at + 3],
{
    lemma_u32_written(b, at);
    reveal(spec_i32_of);
    reveal(spec_u32_of);
    assert(spec_u32_of(spec_i32_of(spec_u32_at(b, at))) == spec_u32_at(b, at));
}

/// Reads the byte at `at`.
pub fn read_u8(bytes: &[u8], at: usize) -> (r: Result<u8, DecodeError>)
    ensures
        r == spec_read_u8(bytes@, at as int),
{
    if at < bytes.len() {
        Ok(bytes[at])
    } else {
        Err(DecodeError::TruncatedInput { offset: at, width: 1 })
    }
}

/// Reads the signed byte at `at`.
pub fn read_i8(bytes: &[u8], at: usize) -> (r: Result<i8, DecodeError>)
    ensures
        r == spec_read_i8(bytes@, at as int),
{
    proof {
        reveal(spec_i8_of);
    }
    if at < bytes.len() {
        let x: u8 = bytes[at];
        if x < 0x80 {
            Ok(x as i8)
        } else {
            Ok((x as i16 - 0x100) as i8)
        }
    } else {
        Err(DecodeError::TruncatedInput { offset: at, width: 1 })
    }
}

/// Reads the little-endian unsigned 16-bit integer at `at`.
pub fn read_u16(bytes: &[u8], at: usize) -> (r: Result<u16, DecodeError>)
    ensures
        r == spec_read_u16(bytes@, at as int),
{
    proof {
        reveal(spec_u16_at);
    }
    if bytes.len() >= 2 && at <= bytes.len() - 2 {
        let lo: u16 = bytes[at] as u16;
        let hi: u16 = bytes[at + 1] as u16;
        Ok(lo + 0x100 * hi)
    } else {
        Err(DecodeError::TruncatedInput { offset: at, width: 2 })
    }
}

/// Reads the little-endian signed 16-bit integer at `at`.
pub fn read_i16(bytes: &[u8], at: usize) -> (r: Result<i16, DecodeError>)
    ensures
        r == spec_read_i16(bytes@, at as int),
{
    proof {
        reveal(spec_i16_of);
    }
    let x: u16 = read_u16(bytes, at)?;
    if x < 0x8000 {
        Ok(x as i16)
    } else {
        Ok((x as i32 - 0x1_0000) as i16)
    }
}

/// Reads the little-endian unsigned 32-bit integer at `at`.
pub fn read_u32(bytes: &[u8], at: usize) -> (r: Result<u32, DecodeError>)
    ensures
        r == spec_read_u32(bytes@, at as int),
{
    proof {
        reveal(spec_u32_at);
    }
    if bytes.len() >= 4 && at <= bytes.len() - 4 {
        let b0: u32 = bytes[at] as u32;
        let b1: u32 = bytes[at + 1] as u32;
        let b2: u32 = bytes[at + 2] as u32;
        let b3: u32 = bytes[at + 3] as u32;
        Ok(b0 + 0x100 * b1 + 0x1_0000 * b2 + 0x100_0000 * b3)
    } else {
        Err(DecodeError::TruncatedInput { offset: at, width: 4 })
    }
}

/// Reads the little-endian signed 32-bit integer at `at`.
pub fn read_i32(bytes: &[u8], at: usize) -> (r: Result<i32, DecodeError>)
    ensures
        r == spec_read_i32(bytes@, at as int),
{
    proof {
        reveal(spec_i32_of);
    }
    let x: u32 = read_u32(bytes, at)?;
    if x < 0x8000_0000 {
        Ok(x as i32)
    } else {
        Ok((x as i64 - 0x1_0000_0000) as i32)
    }
}

/// Appends `bytes`.
pub fn write_bytes(out: &mut Vec<u8>, bytes: &[u8])
    ensures
        final(out)@ == old(out)@ + bytes@,
{
    let ghost start = out@;
    let mut i: usize = 0;
    while i < bytes.len()
        invariant
            i <= bytes.len(),
            out@ == start + bytes@.subrange(0, i as int),
        decreases bytes.len() - i,
    {
        out.push(bytes[i]);
        i += 1;
    }
    assert(bytes@.subrange(0, bytes.len() as int) =~= bytes@);
}

/// The byte that holds the bit pattern of `v`.
pub fn i8_byte(v: i8) -> (x: u8)
    ensures
        x == spec_u8_of(v),
{
    proof {
        reveal(spec_u8_of);
    }
    if v >= 0 {
        v as u8
    } else {
        (v as i16 + 0x100) as u8
    }
}

/// Byte `j` of the little-endian form of `x`, counted from the lowest; the
/// highest for every `j` above two.
pub fn le_byte(x: u32, j: usize) -> (r: u8)
    ensures
        r == spec_le_byte(x, j as int),
{
    proof {
        reveal(spec_le_byte);
    }
    if j == 0 {
        (x % 0x100) as u8
    } else if j == 1 {
        (x / 0x100 % 0x100) as u8
    } else if j == 2 {
        (x / 0x1_0000 % 0x100) as u8
    } else {
        (x / 0x100_0000) as u8
    }
}

/// The bit pattern of `v` as an unsigned integer.
pub fn i16_pattern(v: i16) -> (x: u16)
    ensures
        x == spec_u16_of(v),
{
    proof {
        reveal(spec_u16_of);
    }
    if v >= 0 {
        v as u16
    } else {
        (v as i32 + 0x1_0000) as u16
    }
}

/// The bit pattern of `v` as an unsigned integer.
pub fn i32_pattern(v: i32) -> (x: u32)
    ensures
        x == spec_u32_of(v),
{
    proof {
        reveal(spec_u32_of);
    }
    if v >= 0 {
        v as u32
    } else {
        (v as i64 + 0x1_0000_0000) as u32
    }
}

/// Appends the bit pattern of `v`.
pub fn write_i8(out: &mut Vec<u8>, v: i8)
    ensures
        final(out)@ == old(out)@.push(spec_u8_of(v)),
{
    proof {
        reveal(spec_u8_of);
    }
    if v >= 0 {
        out.push(v as u8);
    } else {
        out.push((v as i16 + 0x100) as u8);
    }
}

/// Appends the two bytes of `v`, low byte first.
pub fn write_u16(out: &mut Vec<u8>, v: u16)
    ensures
        final(out)@ == old(out)@ + spec_u16_bytes(v),
{
    proof {
        reveal(spec_le_byte);
    }
    out.push((v % 0x100) as u8);
    out.push((v / 0x100) as u8);
}

/// Appends the two bytes of the bit pattern of `v`, low byte first.
pub fn write_i16(out: &mut Vec<u8>, v: i16)
    ensures
        final(out)@ == old(out)@ + spec_i16_bytes(v),
{
    proof {
        reveal(spec_u16_of);
    }
    let x: u16 = if v >= 0 {
        v as u16
    } else {
        (v as i32 + 0x1_0000) as u16
    };
    write_u16(out, x);
}

/// Appends the four bytes of `v`, lowest byte first.
pub fn write_u32(out: &mut Vec<u8>, v: u32)
    ensures
        final(out)@ == old(out)@ + spec_u32_bytes(v),
{
    proof {
        reveal(spec_le_byte);
    }
    out.push((v % 0x100) as u8);
    out.push((v / 0x100 % 0x100) as u8);
    out.push((v / 0x1_0000 % 0x100) as u8);
    out.push((v / 0x100_0000) as u8);
}

/// Appends the four bytes of the bit pattern of `v`, lowest byte first.
pub fn write_i32(out: &mut Vec<u8>, v: i32)
    ensures
        final(out)@ == old(out)@ + spec_i32_bytes(v),
{
    proof {
        reveal(spec_u32_of);
    }
    let x: u32 = if v >= 0 {
        v as u32
    } else {
        (v as i64 + 0x1_0000_0000) as u32
    };
    write_u32(out, x);
}

} // verus!
