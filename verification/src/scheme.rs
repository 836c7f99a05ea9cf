//! The whole scheme, and the laws that tie decoding and encoding together.

use vstd::prelude::*;
use vstd::seq_lib::lemma_concat_associative;
use crate::error::{DecodeError, spec_truncated};
use crate::extended::ExtendedOptions;
use crate::header::Header;
use crate::options::Options;
use crate::tags::{Version, spec_rejects};
use crate::weapons::{SuperWeapons, Weapons};
use crate::wire::spec_fits;

verus! {

/// Where the general options start in a scheme file.
pub const OPTIONS_OFFSET: usize = 5;

/// Where the table of standard weapons starts in a scheme file.
pub const WEAPONS_OFFSET: usize = 41;

/// Where the table of super weapons starts in a scheme file.
pub const SUPER_WEAPONS_OFFSET: usize = 221;

/// Where the extended options start in a scheme file.
pub const EXTENDED_OPTIONS_OFFSET: usize = 297;

/// The number of bytes that a scheme takes on the wire.
pub const SCHEME_LEN: usize = 370;

/// One scheme file, decoded: the five records in the order in which the file
/// holds them, without padding between them.
#[derive(Clone, Copy, Debug, PartialEq, Eq, Structural)]
pub struct Scheme {
    pub header: Header,
    pub options: Options,
    pub weapons: Weapons,
    pub super_weapons: SuperWeapons,
    pub extended_options: ExtendedOptions,
}

impl Scheme {
    /// What decoding `b` gives: the five records are read one after the
    /// other, each at its fixed place, and the first error ends the pass.
    /// Bytes after the last record are not looked at.
    pub open spec fn spec_from_bytes(b: Seq<u8>) -> Result<Scheme, DecodeError> {
        match Header::spec_read(b, 0) {
            Err(e) => Err(e),
            Ok(header) => match Options::spec_read(b, 5) {
                Err(e) => Err(e),
                Ok(options) => match Weapons::spec_read(b, 41) {
                    Err(e) => Err(e),
                    Ok(weapons) => match SuperWeapons::spec_read(b, 221) {
                        Err(e) => Err(e),
                        Ok(super_weapons) => match ExtendedOptions::spec_read(b, 297) {
                            Err(e) => Err(e),
                            Ok(extended_options) => Ok(
                                Scheme {
                                    header,
                                    options,
                                    weapons,
                                    super_weapons,
                                    extended_options,
                                },
                            ),
                        },
                    },
                },
            },
        }
    }

    /// The bytes of the scheme: those of the five records, one after the
    /// other.
    pub open spec fn spec_to_bytes(self) -> Seq<u8> {
        self.header.spec_bytes() + self.options.spec_bytes() + self.weapons.spec_bytes()
            + self.super_weapons.spec_bytes() + self.extended_options.spec_bytes()
    }

    /// Whether every boolean of the scheme at the start of `b` is stored as
    /// zero or one.
    pub open spec fn spec_strict(b: Seq<u8>) -> bool {
        Options::spec_strict(b, 5) && ExtendedOptions::spec_strict(b, 297)
    }

    /// Whether no field of `b` that is checked when read and that `b` holds in
    /// full has a value that the format rejects: the magic constant is the
    /// right one, and every enumeration holds one of its tags.
    pub open spec fn spec_clean(b: Seq<u8>) -> bool {
        &&& spec_fits(b, 0, 4) ==> Header::spec_magic_at(b, 0)
        &&& !spec_rejects::<Version>(b, 4)
        &&& Options::spec_clean(b, 5)
        &&& ExtendedOptions::spec_clean(b, 297)
    }

    /// The error for a buffer that is shorter than a scheme: it names the
    /// first field that the buffer does not hold in full.
    pub open spec fn spec_cut(b: Seq<u8>) -> DecodeError {
        let end = b.len() as int;
        if end < 4 {
            spec_truncated(0, 4)
        } else if end < 5 {
            spec_truncated(4, 1)
        } else if end < 41 {
            Options::spec_cut(b, 5)
        } else if end < 221 {
            Weapons::spec_cut(b, 41)
        } else if end < 297 {
            SuperWeapons::spec_cut(b, 221)
        } else {
            ExtendedOptions::spec_cut(b, 297)
        }
    }

    /// Decodes a scheme from the start of `bytes`. It succeeds exactly on the
    /// buffers that are long enough and hold no rejected value; a buffer
    /// that is too short never decodes, and four leading bytes that are not
    /// the magic constant give `BadMagic` whatever follows them.
    pub fn from_bytes(bytes: &[u8]) -> (r: Result<Scheme, DecodeError>)
        ensures
            r == Self::spec_from_bytes(bytes@),
            r is Ok <==> bytes@.len() >= SCHEME_LEN && Self::spec_clean(bytes@),
            bytes@.len() < SCHEME_LEN ==> r is Err,
            bytes@.len() >= 4 && !Header::spec_magic_at(bytes@, 0) ==> r == Err::<
                Scheme,
                DecodeError,
            >(DecodeError::BadMagic),
    {
        proof {
            Self::lemma_outcome(bytes@);
        }
        let header: Header = Header::read(bytes, 0)?;
        let options: Options = Options::read(bytes, OPTIONS_OFFSET)?;
        let weapons: Weapons = Weapons::read(bytes, WEAPONS_OFFSET)?;
        let super_weapons: SuperWeapons = SuperWeapons::read(bytes, SUPER_WEAPONS_OFFSET)?;
        let extended_options: ExtendedOptions = ExtendedOptions::read(
            bytes,
            EXTENDED_OPTIONS_OFFSET,
        )?;
        Ok(Scheme { header, options, weapons, super_weapons, extended_options })
    }

    /// Encodes the scheme.
    pub fn to_bytes(&self) -> (out: Vec<u8>)
        ensures
            out@ == self.spec_to_bytes(),
            out@.len() == SCHEME_LEN,
    {
        proof {
            self.lemma_round_trip(Seq::empty());
        }
        let mut out: Vec<u8> = Vec::with_capacity(SCHEME_LEN);
        self.header.write(&mut out);
        self.options.write(&mut out);
        self.weapons.write(&mut out);
        self.super_weapons.write(&mut out);
        self.extended_options.write(&mut out);
        out
    }

    /// How decoding ends, told from the buffer alone. It succeeds exactly
    /// where the buffer is long enough and clean. A buffer that is too short
    /// and clean gives `TruncatedInput` for the first field that it does not
    /// hold in full; one that is too short and not clean gives the error of
    /// its first rejected value instead. Four leading bytes that are not the
    /// magic constant give `BadMagic` whatever follows them.
    pub proof fn lemma_outcome(b: Seq<u8>)
        ensures
            Self::spec_from_bytes(b) is Ok <==> b.len() >= SCHEME_LEN && Self::spec_clean(b),
            b.len() < SCHEME_LEN ==> Self::spec_from_bytes(b) is Err,
            b.len() < SCHEME_LEN && Self::spec_clean(b) ==> Self::spec_from_bytes(b) == Err::<
                Scheme,
                DecodeError,
            >(Self::spec_cut(b)),
            (Self::spec_from_bytes(b) matches Err(e) && e is TruncatedInput) <==> b.len()
                < SCHEME_LEN && Self::spec_clean(b),
            b.len() >= 4 && !Header::spec_magic_at(b, 0) ==> Self::spec_from_bytes(b) == Err::<
                Scheme,
                DecodeError,
            >(DecodeError::BadMagic),
            Self::spec_from_bytes(b) == Err::<Scheme, DecodeError>(DecodeError::BadMagic)
                ==> b.len() >= 4 && !Header::spec_magic_at(b, 0),
    {
    }

    /// Encoding a scheme and decoding the bytes gives the scheme back, field
    /// for field, whatever follows the bytes.
    pub proof fn lemma_round_trip(self, tail: Seq<u8>)
        ensures
            self.spec_to_bytes().len() == SCHEME_LEN,
            Self::spec_from_bytes(self.spec_to_bytes() + tail) == Ok::<Scheme, DecodeError>(self),
    {
        let h = self.header.spec_bytes();
        let o = self.options.spec_bytes();
        let w = self.weapons.spec_bytes();
        let s = self.super_weapons.spec_bytes();
        let e = self.extended_options.spec_bytes();
        let whole = self.spec_to_bytes() + tail;
        let none = Seq::<u8>::empty();
        let after_s = e + tail;
        let after_w = s + after_s;
        let after_o = w + after_w;
        let after_h = o + after_o;
        lemma_concat_associative(h + o + w + s, e, tail);
        lemma_concat_associative(h + o + w, s, after_s);
        lemma_concat_associative(h + o, w, after_w);
        lemma_concat_associative(h, o, after_o);
        assert(none + h =~= h);
        self.header.lemma_read_back(none, after_h);
        self.options.lemma_read_back(h, after_o);
        self.weapons.lemma_read_back(h + o, after_w);
        self.super_weapons.lemma_read_back(h + o + w, after_s);
        self.extended_options.lemma_read_back(h + o + w + s, tail);
    }

    /// Decoding a buffer and encoding the scheme gives the first 370 bytes of
    /// the buffer back, where every boolean in them was stored as zero or
    /// one; so it gives the whole buffer back where that has no more bytes.
    pub proof fn lemma_reencode(b: Seq<u8>)
        requires
            Self::spec_from_bytes(b) is Ok,
            Self::spec_strict(b),
        ensures
            Self::spec_from_bytes(b).unwrap().spec_to_bytes() == b.subrange(0, SCHEME_LEN as int),
            b.len() == SCHEME_LEN ==> Self::spec_from_bytes(b).unwrap().spec_to_bytes() == b,
    {
        Header::lemma_write_back(b, 0);
        Options::lemma_write_back(b, 5);
        Weapons::lemma_write_back(b, 41);
        SuperWeapons::lemma_write_back(b, 221);
        ExtendedOptions::lemma_write_back(b, 297);
        let v = Self::spec_from_bytes(b).unwrap();
        assert(v.spec_to_bytes() =~= b.subrange(0, 370));
        assert(b.len() == 370 ==> b.subrange(0, 370) =~= b);
    }
}

} // verus!
