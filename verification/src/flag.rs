//! Booleans as the format stores them.

use vstd::prelude::*;
use crate::error::{DecodeError, spec_truncated};
use crate::wire::spec_fits;

verus! {

/// A boolean field. On the wire it is one byte: zero for false, and one for
/// true when written; when read, every nonzero byte counts as true.
#[derive(Clone, Copy, Debug, PartialEq, Eq, Structural)]
pub struct Flag(pub bool);

impl Flag {
    /// The flag that the byte at `at` stands for.
    #[verifier::opaque]
    pub open spec fn spec_at(b: Seq<u8>, at: int) -> Flag {
        Flag(b[at] != 0)
    }

    /// The byte that the flag is written as.
    #[verifier::opaque]
    pub open spec fn spec_byte(self) -> u8 {
        if self.0 {
            1
        } else {
            0
        }
    }

    /// What reading a flag at `at` gives.
    pub open spec fn spec_read(b: Seq<u8>, at: int) -> Result<Flag, DecodeError> {
        if spec_fits(b, at, 1) {
            Ok(Self::spec_at(b, at))
        } else {
            Err(spec_truncated(at, 1))
        }
    }

    /// Whether the flag is set.
    pub fn get(self) -> (r: bool)
        ensures
            r == self.0,
    {
        self.0
    }

    /// Reads the flag at `at`; any nonzero byte counts as true.
    pub fn read(bytes: &[u8], at: usize) -> (r: Result<Flag, DecodeError>)
        ensures
            r == Self::spec_read(bytes@, at as int),
    {
        proof {
            reveal(Flag::spec_at);
        }
        if at < bytes.len() {
            Ok(Flag(bytes[at] != 0))
        } else {
            Err(DecodeError::TruncatedInput { offset: at, width: 1 })
        }
    }

    /// The byte that the flag is written as.
    pub fn byte(self) -> (x: u8)
        ensures
            x == self.spec_byte(),
    {
        proof {
            reveal(Flag::spec_byte);
        }
        if self.0 {
            1
        } else {
            0
        }
    }

    /// Appends the byte of the flag.
    pub fn write(self, out: &mut Vec<u8>)
        ensures
            final(out)@ == old(out)@.push(self.spec_byte()),
    {
        out.push(self.byte());
    }

    /// Where the byte of `b` at `at` is the byte of the flag, reading it
    /// gives the flag.
    pub proof fn lemma_read_back(self, b: Seq<u8>, at: int)
        requires
            b[at] == self.spec_byte(),
        ensures
            Self::spec_at(b, at) == self,
    {
        reveal(Flag::spec_at);
        reveal(Flag::spec_byte);
    }

    /// Writing the flag read from a byte gives that byte where it is zero or
    /// one, and one where it is any other byte.
    pub proof fn lemma_write_back(b: Seq<u8>, at: int)
        ensures
            b[at] <= 1 ==> Self::spec_at(b, at).spec_byte() == b[at],
            b[at] > 1 ==> Self::spec_at(b, at).spec_byte() == 1,
    {
        reveal(Flag::spec_at);
        reveal(Flag::spec_byte);
    }
}

} // verus!
