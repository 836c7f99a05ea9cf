//! The header of a scheme file: the magic constant and the version.

use vstd::prelude::*;
use crate::error::{DecodeError, Field, spec_truncated, spec_unknown};
use crate::tags::{
    Version, lemma_tag_read, lemma_tag_written, read_tag, spec_rejects, spec_tag_at, spec_tag_byte,
    tag_byte,
};
use crate::wire::{spec_fits, write_bytes};

verus! {

/// The number of bytes that the header takes on the wire.
pub const HEADER_LEN: usize = 5;

/// The magic constant, the letters `SCHM`, that every scheme file starts
/// with.
pub open spec fn spec_magic() -> Seq<u8> {
    seq![0x53u8, 0x43u8, 0x48u8, 0x4Du8]
}

/// The magic constant.
pub fn magic() -> (m: [u8; 4])
    ensures
        m@ == spec_magic(),
{
    let m: [u8; 4] = [0x53, 0x43, 0x48, 0x4D];
    assert(m@ =~= spec_magic());
    m
}

/// What identifies a file as a scheme. The magic constant is no field: it is
/// checked when read and supplied when written.
#[derive(Clone, Copy, Debug, PartialEq, Eq, Structural)]
pub struct Header {
    pub version: Version,
}

impl Header {
    /// Whether the four bytes at `at` are the magic constant.
    pub open spec fn spec_magic_at(b: Seq<u8>, at: int) -> bool {
        &&& b[at] == 0x53
        &&& b[at + 1] == 0x43
        &&& b[at + 2] == 0x48
        &&& b[at + 3] == 0x4D
    }

    /// The header that the bytes of `b` from `at` on stand for.
    pub open spec fn spec_at(b: Seq<u8>, at: int) -> Header {
        Header { version: spec_tag_at(b, at + 4) }
    }

    /// The first thing, in wire order, that keeps the header from being read
    /// at `at`, as the error that it gives; `None` where the header can be
    /// read.
    pub open spec fn spec_fault(b: Seq<u8>, at: int) -> Option<DecodeError> {
        if !spec_fits(b, at, 4) {
            Some(spec_truncated(at, 4))
        } else if !Self::spec_magic_at(b, at) {
            Some(DecodeError::BadMagic)
        } else if !spec_fits(b, at + 4, 1) {
            Some(spec_truncated(at + 4, 1))
        } else if spec_rejects::<Version>(b, at + 4) {
            Some(spec_unknown(Field::Version, at + 4, b[at + 4]))
        } else {
            None
        }
    }

    /// What reading the header at `at` gives.
    pub open spec fn spec_read(b: Seq<u8>, at: int) -> Result<Header, DecodeError> {
        match Self::spec_fault(b, at) {
            Some(e) => Err(e),
            None => Ok(Self::spec_at(b, at)),
        }
    }

    /// The byte at place `i` of the header's bytes: the magic constant, then
    /// the tag of the version.
    pub open spec fn spec_byte(self, i: int) -> u8 {
        if i < 4 {
            spec_magic()[i]
        } else {
            spec_tag_byte(self.version)
        }
    }

    /// The bytes of the header.
    pub open spec fn spec_bytes(self) -> Seq<u8> {
        Seq::new(5, |i: int| self.spec_byte(i))
    }

    /// Reads the header at `at`: checks the magic constant, then reads the
    /// version.
    pub fn read(bytes: &[u8], at: usize) -> (r: Result<Header, DecodeError>)
        ensures
            r == Self::spec_read(bytes@, at as int),
    {
        if bytes.len() < 4 || at > bytes.len() - 4 {
            return Err(DecodeError::TruncatedInput { offset: at, width: 4 });
        }
        if bytes[at] != 0x53 || bytes[at + 1] != 0x43 || bytes[at + 2] != 0x48 || bytes[at + 3]
            != 0x4D {
            return Err(DecodeError::BadMagic);
        }
        let version: Version = read_tag(bytes, at + 4, Field::Version)?;
        Ok(Header { version })
    }

    /// Appends the magic constant and the tag of the version.
    pub fn write(&self, out: &mut Vec<u8>)
        ensures
            final(out)@ == old(out)@ + self.spec_bytes(),
    {
        let bytes: [u8; 5] = [0x53, 0x43, 0x48, 0x4D, tag_byte(self.version)];
        assert(bytes@ =~= self.spec_bytes());
        write_bytes(out, bytes.as_slice());
    }

    /// Writing a header and reading the bytes gives the header back, whatever
    /// stands before and after them.
    pub proof fn lemma_read_back(self, head: Seq<u8>, tail: Seq<u8>)
        ensures
            self.spec_bytes().len() == 5,
            Self::spec_read(head + self.spec_bytes() + tail, head.len() as int) == Ok::<
                Header,
                DecodeError,
            >(self),
    {
        let whole = head + self.spec_bytes() + tail;
        let at = head.len() as int;
        assert(whole[at] == 0x53 && whole[at + 1] == 0x43 && whole[at + 2] == 0x48 && whole[at
            + 3] == 0x4D);
        lemma_tag_read(self.version, whole, at + 4);
    }

    /// Reading a header and writing it gives the bytes back.
    pub proof fn lemma_write_back(b: Seq<u8>, at: int)
        requires
            0 <= at,
            Self::spec_read(b, at) is Ok,
        ensures
            Self::spec_at(b, at).spec_bytes() == b.subrange(at, at + 5),
    {
        let v = Self::spec_at(b, at);
        lemma_tag_written::<Version>(b, at + 4);
        assert(v.spec_bytes() =~= b.subrange(at, at + 5));
    }
}

} // verus!
