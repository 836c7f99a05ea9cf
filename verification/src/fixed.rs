//! Signed 16.16 fixed-point numbers.

use vstd::prelude::*;
use crate::error::{DecodeError, spec_truncated};
use crate::wire::{
    i32_pattern, le_byte, lemma_i32_read, lemma_i32_written, read_i32, spec_fits, spec_i32_at,
    spec_i32_bytes, spec_le_byte, spec_u32_of, write_i32,
};

verus! {

/// The number of bytes a fixed-point number takes on the wire.
pub const FIXED_LEN: usize = 4;

/// A signed 16.16 fixed-point number. The raw integer is what the file
/// stores and what is written back; the number it stands for is the raw
/// integer divided by 65536.
#[derive(Clone, Copy, Debug, PartialEq, Eq, Structural)]
pub struct FixedPoint(pub i32);

impl FixedPoint {
    /// The largest integer that is not above the number.
    pub open spec fn spec_whole(self) -> int {
        self.0 as int / 0x1_0000
    }

    /// What the number exceeds `spec_whole` by, in 65536ths.
    pub open spec fn spec_fraction(self) -> int {
        self.0 as int % 0x1_0000
    }

    /// The number that reading four bytes at `at` gives.
    pub open spec fn spec_at(b: Seq<u8>, at: int) -> FixedPoint {
        FixedPoint(spec_i32_at(b, at))
    }

    /// What reading a fixed-point number at `at` gives.
    pub open spec fn spec_read(b: Seq<u8>, at: int) -> Result<FixedPoint, DecodeError> {
        if spec_fits(b, at, 4) {
            Ok(Self::spec_at(b, at))
        } else {
            Err(spec_truncated(at, 4))
        }
    }

    /// The four bytes of the raw integer, lowest byte first.
    pub open spec fn spec_bytes(self) -> Seq<u8> {
        spec_i32_bytes(self.0)
    }

    /// The number with the given raw integer.
    pub fn from_raw(raw: i32) -> (r: FixedPoint)
        ensures
            r == FixedPoint(raw),
    {
        FixedPoint(raw)
    }

    /// The raw integer.
    pub fn raw(self) -> (r: i32)
        ensures
            r == self.0,
    {
        self.0
    }

    /// The largest integer that is not above the number: 1 for the raw
    /// integer 65536, -1 for the raw integer -32768.
    pub fn whole(self) -> (w: i32)
        ensures
            w == self.spec_whole(),
            -0x8000 <= w < 0x8000,
    {
        if self.0 >= 0 {
            self.0 / 0x1_0000
        } else {
            let pattern: u32 = (self.0 as i64 + 0x1_0000_0000) as u32;
            (pattern / 0x1_0000) as i32 - 0x1_0000
        }
    }

    /// The part of the number above `whole`, in 65536ths: 0 for the raw
    /// integer 65536, 32768 for the raw integer -32768.
    pub fn fraction(self) -> (f: u32)
        ensures
            f == self.spec_fraction(),
            f < 0x1_0000,
            self.0 == 0x1_0000 * self.spec_whole() + f,
    {
        if self.0 >= 0 {
            (self.0 % 0x1_0000) as u32
        } else {
            let pattern: u32 = (self.0 as i64 + 0x1_0000_0000) as u32;
            pattern % 0x1_0000
        }
    }

    /// Reads the fixed-point number at `at`.
    pub fn read(bytes: &[u8], at: usize) -> (r: Result<FixedPoint, DecodeError>)
        ensures
            r == Self::spec_read(bytes@, at as int),
    {
        let raw: i32 = read_i32(bytes, at)?;
        Ok(FixedPoint(raw))
    }

    /// Byte `j` of the raw integer's four, counted from the lowest; the
    /// highest for every `j` above two.
    pub fn byte(self, j: usize) -> (x: u8)
        ensures
            x == spec_le_byte(spec_u32_of(self.0), j as int),
    {
        le_byte(i32_pattern(self.0), j)
    }

    /// Appends the four bytes of the raw integer.
    pub fn write(&self, out: &mut Vec<u8>)
        ensures
            final(out)@ == old(out)@ + self.spec_bytes(),
    {
        write_i32(out, self.0);
    }

    /// Where four bytes of `b` at `at` are the bytes of the number, reading
    /// them gives the number.
    pub proof fn lemma_read_back(self, b: Seq<u8>, at: int)
        requires
            b[at] == self.spec_bytes()[0],
            b[at + 1] == self.spec_bytes()[1],
            b[at + 2] == self.spec_bytes()[2],
            b[at + 3] == self.spec_bytes()[3],
        ensures
            Self::spec_at(b, at) == self,
    {
        lemma_i32_read(self.0, b, at);
    }

    /// Writing the number read from four bytes of `b` at `at` gives those
    /// bytes.
    pub proof fn lemma_write_back(b: Seq<u8>, at: int)
        ensures
            Self::spec_at(b, at).spec_bytes()[0] == b[at],
            Self::spec_at(b, at).spec_bytes()[1] == b[at + 1],
            Self::spec_at(b, at).spec_bytes()[2] == b[at + 2],
            Self::spec_at(b, at).spec_bytes()[3] == b[at + 3],
    {
        lemma_i32_written(b, at);
    }
}

} // verus!
