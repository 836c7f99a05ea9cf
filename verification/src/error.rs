//! The ways in which a buffer can fail to decode.

use vstd::prelude::*;

verus! {

/// The fields whose byte is matched against a closed set of tags.
#[derive(Clone, Copy, Debug, PartialEq, Eq, Structural)]
pub enum Field {
    Version,
    StockpilingMode,
    WormSelect,
    SuddenDeathEvent,
    PhasedWormsAllied,
    PhasedWormsEnemy,
    RopeRollDrops,
    KeepControlAfterSkimming,
    ExplosionsPushAllObjects,
    UndeterminedCrates,
    UndeterminedFuses,
    PneumaticDrillImpartsVelocity,
    GirderAssistRadius,
    IndianRopeGlitch,
    HerdDoublingGlitch,
    JetpackBungeeGlitch,
    AngleCheatGlitch,
    GlideGlitch,
    Skipwalking,
    GravityType,
}

/// Why decoding stopped. Decoding reads the fields in wire order and stops at
/// the first one that cannot be read; nothing is produced in that case.
#[derive(Clone, Copy, Debug, PartialEq, Eq, Structural)]
pub enum DecodeError {
    /// The buffer ends before the field of `width` bytes that starts at
    /// `offset` does.
    TruncatedInput { offset: usize, width: usize },
    /// The four bytes where the magic constant belongs hold something else.
    BadMagic,
    /// The byte `value` at `offset` is not a tag of the enumeration that
    /// `field` holds.
    UnknownDiscriminant { field: Field, offset: usize, value: u8 },
}

/// The error for a field of `width` bytes at `at` that the buffer is too
/// short for.
pub open spec fn spec_truncated(at: int, width: int) -> DecodeError {
    DecodeError::TruncatedInput { offset: at as usize, width: width as usize }
}

/// The error for the byte `value` at `at`, which `field` has no variant for.
pub open spec fn spec_unknown(field: Field, at: int, value: u8) -> DecodeError {
    DecodeError::UnknownDiscriminant { field, offset: at as usize, value }
}

} // verus!
