//! The options of the RubberWorm module.

use vstd::prelude::*;
use crate::error::{DecodeError, Field, spec_truncated, spec_unknown};
use crate::fixed::FixedPoint;
use crate::flag::Flag;
use crate::tags::{
    RubberWormGravityType, lemma_tag_read, lemma_tag_written, read_tag, spec_rejects, spec_tag_at,
    spec_tag_byte, tag_byte,
};
use crate::wire::{read_u8, spec_fits, write_bytes};

verus! {

/// The number of bytes that the RubberWorm options take on the wire.
pub const RUBBERWORM_OPTIONS_LEN: usize = 25;

/// The options of the RubberWorm module. No scheme holds them yet: they wait
/// for the later revisions of the extended options.
#[derive(Clone, Copy, Debug, PartialEq, Eq, Structural)]
#[verifier::ext_equal]
pub struct RubberwormOptions {
    pub bounciness: FixedPoint,
    pub air_viscosity: FixedPoint,
    pub air_viscosity_applies_to_worms: Flag,
    pub wind_influence: FixedPoint,
    pub wind_influence_applies_to_worms: Flag,
    pub gravity_type: RubberWormGravityType,
    pub gravity_strength: FixedPoint,
    pub crate_rate: u8,
    pub crate_shower: Flag,
    pub anti_sink: Flag,
    pub remember_weapons: Flag,
    pub extended_fuses_herds: Flag,
    pub anti_lock_aim: Flag,
}

impl RubberwormOptions {
    /// The value whose fields are the bytes of `b` from `at` on, each field at
    /// its place in wire order.
    pub open spec fn spec_at(b: Seq<u8>, at: int) -> RubberwormOptions {
        RubberwormOptions {
            bounciness: FixedPoint::spec_at(b, at),
            air_viscosity: FixedPoint::spec_at(b, at + 4),
            air_viscosity_applies_to_worms: Flag::spec_at(b, at + 8),
            wind_influence: FixedPoint::spec_at(b, at + 9),
            wind_influence_applies_to_worms: Flag::spec_at(b, at + 13),
            gravity_type: spec_tag_at(b, at + 14),
            gravity_strength: FixedPoint::spec_at(b, at + 15),
            crate_rate: b[at + 19],
            crate_shower: Flag::spec_at(b, at + 20),
            anti_sink: Flag::spec_at(b, at + 21),
            remember_weapons: Flag::spec_at(b, at + 22),
            extended_fuses_herds: Flag::spec_at(b, at + 23),
            anti_lock_aim: Flag::spec_at(b, at + 24),
        }
    }

    /// The error for a buffer that ends before the value does: it names the
    /// first field that the buffer does not hold in full.
    pub open spec fn spec_cut(b: Seq<u8>, at: int) -> DecodeError {
        let end = b.len() as int;
        if end < at {
            spec_truncated(at, 4)
        } else if at <= end < at + 4 {
            spec_truncated(at, 4)
        } else if at + 4 <= end < at + 8 {
            spec_truncated(at + 4, 4)
        } else if at + 9 <= end < at + 13 {
            spec_truncated(at + 9, 4)
        } else if at + 15 <= end < at + 19 {
            spec_truncated(at + 15, 4)
        } else {
            spec_truncated(end, 1)
        }
    }

    /// The first field, in wire order, that cannot be read from `at` on, as the
    /// error that reading it gives; `None` where every field can be read.
    pub open spec fn spec_fault(b: Seq<u8>, at: int) -> Option<DecodeError> {
        if spec_rejects::<RubberWormGravityType>(b, at + 14) {
            Some(spec_unknown(Field::GravityType, at + 14, b[at + 14]))
        } else if spec_fits(b, at, 25) {
            None
        } else {
            Some(Self::spec_cut(b, at))
        }
    }

    /// Whether every enumeration of the value at `at` whose byte lies in `b`
    /// holds one of its tags there.
    pub open spec fn spec_clean(b: Seq<u8>, at: int) -> bool {
        &&& !spec_rejects::<RubberWormGravityType>(b, at + 14)
    }

    /// What reading the value at `at` gives.
    pub open spec fn spec_read(b: Seq<u8>, at: int) -> Result<RubberwormOptions, DecodeError> {
        match Self::spec_fault(b, at) {
            Some(e) => Err(e),
            None => Ok(Self::spec_at(b, at)),
        }
    }

    /// Whether every boolean of the value at `at` is stored as zero or one.
    pub open spec fn spec_strict(b: Seq<u8>, at: int) -> bool {
        &&& b[at + 8] <= 1
        &&& b[at + 13] <= 1
        &&& b[at + 20] <= 1
        &&& b[at + 21] <= 1
        &&& b[at + 22] <= 1
        &&& b[at + 23] <= 1
        &&& b[at + 24] <= 1
    }

    /// The byte at place `i` of the value's bytes: the fields follow each other
    /// in wire order.
    pub open spec fn spec_byte(self, i: int) -> u8 {
        if i < 4 {
            self.bounciness.spec_bytes()[i]
        } else if i < 8 {
            self.air_viscosity.spec_bytes()[i - 4]
        } else if i < 9 {
            self.air_viscosity_applies_to_worms.spec_byte()
        } else if i < 13 {
            self.wind_influence.spec_bytes()[i - 9]
        } else if i < 14 {
            self.wind_influence_applies_to_worms.spec_byte()
        } else if i < 15 {
            spec_tag_byte(self.gravity_type)
        } else if i < 19 {
            self.gravity_strength.spec_bytes()[i - 15]
        } else if i < 20 {
            self.crate_rate
        } else if i < 21 {
            self.crate_shower.spec_byte()
        } else if i < 22 {
            self.anti_sink.spec_byte()
        } else if i < 23 {
            self.remember_weapons.spec_byte()
        } else if i < 24 {
            self.extended_fuses_herds.spec_byte()
        } else {
            self.anti_lock_aim.spec_byte()
        }
    }

    /// The bytes of the value.
    pub open spec fn spec_bytes(self) -> Seq<u8> {
        Seq::new(25, |i: int| self.spec_byte(i))
    }

    /// Reads the value at `at`, field after field, and stops at the first field
    /// that cannot be read.
    pub fn read(bytes: &[u8], at: usize) -> (r: Result<RubberwormOptions, DecodeError>)
        ensures
            r == Self::spec_read(bytes@, at as int),
    {
        assert(bytes@.len() == bytes.len());
        let bounciness: FixedPoint = FixedPoint::read(bytes, at)?;
        let air_viscosity: FixedPoint = FixedPoint::read(bytes, at + 4)?;
        let air_viscosity_applies_to_worms: Flag = Flag::read(bytes, at + 8)?;
        let wind_influence: FixedPoint = FixedPoint::read(bytes, at + 9)?;
        let wind_influence_applies_to_worms: Flag = Flag::read(bytes, at + 13)?;
        let gravity_type: RubberWormGravityType = read_tag(bytes, at + 14, Field::GravityType)?;
        let gravity_strength: FixedPoint = FixedPoint::read(bytes, at + 15)?;
        let crate_rate: u8 = read_u8(bytes, at + 19)?;
        let crate_shower: Flag = Flag::read(bytes, at + 20)?;
        let anti_sink: Flag = Flag::read(bytes, at + 21)?;
        let remember_weapons: Flag = Flag::read(bytes, at + 22)?;
        let extended_fuses_herds: Flag = Flag::read(bytes, at + 23)?;
        let anti_lock_aim: Flag = Flag::read(bytes, at + 24)?;
        let value = RubberwormOptions {
            bounciness, air_viscosity, air_viscosity_applies_to_worms, wind_influence,
            wind_influence_applies_to_worms, gravity_type, gravity_strength, crate_rate,
            crate_shower, anti_sink, remember_weapons, extended_fuses_herds, anti_lock_aim,
        };
        assert(value =~= Self::spec_at(bytes@, at as int));
        Ok(value)
    }

    /// Appends the bytes of the value.
    pub fn write(&self, out: &mut Vec<u8>)
        ensures
            final(out)@ == old(out)@ + self.spec_bytes(),
    {
        let bytes: [u8; 25] = [
            self.bounciness.byte(0), self.bounciness.byte(1), self.bounciness.byte(2),
            self.bounciness.byte(3), self.air_viscosity.byte(0), self.air_viscosity.byte(1),
            self.air_viscosity.byte(2), self.air_viscosity.byte(3),
            self.air_viscosity_applies_to_worms.byte(), self.wind_influence.byte(0),
            self.wind_influence.byte(1), self.wind_influence.byte(2),
            self.wind_influence.byte(3), self.wind_influence_applies_to_worms.byte(),
            tag_byte(self.gravity_type), self.gravity_strength.byte(0),
            self.gravity_strength.byte(1), self.gravity_strength.byte(2),
            self.gravity_strength.byte(3), self.crate_rate, self.crate_shower.byte(),
            self.anti_sink.byte(), self.remember_weapons.byte(),
            self.extended_fuses_herds.byte(), self.anti_lock_aim.byte(),
        ];
        assert(bytes@ =~= self.spec_bytes());
        write_bytes(out, bytes.as_slice());
    }

    /// Writing a value and reading the bytes gives the value back, whatever
    /// stands before and after them.
    pub proof fn lemma_read_back(self, head: Seq<u8>, tail: Seq<u8>)
        ensures
            self.spec_bytes().len() == 25,
            Self::spec_read(head + self.spec_bytes() + tail, head.len() as int) == Ok::<
                RubberwormOptions,
                DecodeError,
            >(self),
    {
        let whole = head + self.spec_bytes() + tail;
        let at = head.len() as int;
        self.bounciness.lemma_read_back(whole, at);
        self.air_viscosity.lemma_read_back(whole, at + 4);
        self.air_viscosity_applies_to_worms.lemma_read_back(whole, at + 8);
        self.wind_influence.lemma_read_back(whole, at + 9);
        self.wind_influence_applies_to_worms.lemma_read_back(whole, at + 13);
        lemma_tag_read(self.gravity_type, whole, at + 14);
        self.gravity_strength.lemma_read_back(whole, at + 15);
        self.crate_shower.lemma_read_back(whole, at + 20);
        self.anti_sink.lemma_read_back(whole, at + 21);
        self.remember_weapons.lemma_read_back(whole, at + 22);
        self.extended_fuses_herds.lemma_read_back(whole, at + 23);
        self.anti_lock_aim.lemma_read_back(whole, at + 24);
        assert(Self::spec_at(whole, at) =~= self);
    }

    /// Reading a value and writing it gives the bytes back, where every boolean
    /// was stored as zero or one.
    pub proof fn lemma_write_back(b: Seq<u8>, at: int)
        requires
            0 <= at,
            Self::spec_read(b, at) is Ok,
            Self::spec_strict(b, at),
        ensures
            Self::spec_at(b, at).spec_bytes() == b.subrange(at, at + 25),
    {
        let v = Self::spec_at(b, at);
        FixedPoint::lemma_write_back(b, at);
        FixedPoint::lemma_write_back(b, at + 4);
        Flag::lemma_write_back(b, at + 8);
        FixedPoint::lemma_write_back(b, at + 9);
        Flag::lemma_write_back(b, at + 13);
        lemma_tag_written::<RubberWormGravityType>(b, at + 14);
        FixedPoint::lemma_write_back(b, at + 15);
        Flag::lemma_write_back(b, at + 20);
        Flag::lemma_write_back(b, at + 21);
        Flag::lemma_write_back(b, at + 22);
        Flag::lemma_write_back(b, at + 23);
        Flag::lemma_write_back(b, at + 24);
        assert(v.spec_bytes() =~= b.subrange(at, at + 25));
    }
}

} // verus!
