//! The enumerations of the format and the byte that stands for each of their
//! variants. The tags are those of the file format; several sets are not
//! contiguous, and none may be renumbered.

use vstd::prelude::*;
use crate::error::{DecodeError, Field, spec_truncated, spec_unknown};
use crate::wire::spec_fits;

verus! {

/// An enumeration that the format stores as one byte.
pub trait WireEnum: Sized + Copy {
    /// The byte that stands for this variant.
    spec fn spec_tag(self) -> u8;

    /// The variant that `tag` stands for, if it stands for one.
    spec fn spec_from_tag(tag: u8) -> Option<Self>;

    /// The two mappings are inverse to each other: `tag` gives `v` exactly
    /// when `v` gives `tag`. So every variant has a tag that leads back to
    /// it, no two variants share a tag, and a byte that no variant gives
    /// leads to none.
    proof fn lemma_tag_inverse(v: Self, tag: u8)
        ensures
            Self::spec_from_tag(tag) == Some(v) <==> v.spec_tag() == tag,
    ;

    /// The byte that stands for this variant.
    fn tag(self) -> (t: u8)
        ensures
            t == self.spec_tag(),
    ;

    /// The variant that `tag` stands for; `None` for every other byte.
    fn from_tag(tag: u8) -> (r: Option<Self>)
        ensures
            r == Self::spec_from_tag(tag),
    ;
}

/// The byte that stands for `v`.
#[verifier::opaque]
pub open spec fn spec_tag_byte<E: WireEnum>(v: E) -> u8 {
    v.spec_tag()
}

/// Whether the byte at `at` is no tag of `E`.
#[verifier::opaque]
pub open spec fn spec_bad_tag<E: WireEnum>(b: Seq<u8>, at: int) -> bool {
    E::spec_from_tag(b[at]) is None
}

/// The variant of `E` that the byte at `at` stands for.
#[verifier::opaque]
pub open spec fn spec_tag_at<E: WireEnum>(b: Seq<u8>, at: int) -> E {
    E::spec_from_tag(b[at]).unwrap()
}

/// Whether the byte at `at` lies in `b` and is no tag of `E`: reading the
/// enumeration there fails on the byte itself.
pub open spec fn spec_rejects<E: WireEnum>(b: Seq<u8>, at: int) -> bool {
    spec_fits(b, at, 1) && spec_bad_tag::<E>(b, at)
}

/// What reading the enumeration `E` at `at` gives; `field` names the field
/// in the error for a byte that is no tag of `E`.
pub open spec fn spec_read_tag<E: WireEnum>(b: Seq<u8>, at: int, field: Field) -> Result<
    E,
    DecodeError,
> {
    if !spec_fits(b, at, 1) {
        Err(spec_truncated(at, 1))
    } else if spec_bad_tag::<E>(b, at) {
        Err(spec_unknown(field, at, b[at]))
    } else {
        Ok(spec_tag_at(b, at))
    }
}

/// Where the byte of `b` at `at` is the tag of `v`, reading it gives `v`.
pub proof fn lemma_tag_read<E: WireEnum>(v: E, b: Seq<u8>, at: int)
    requires
        b[at] == spec_tag_byte(v),
    ensures
        !spec_bad_tag::<E>(b, at),
        spec_tag_at::<E>(b, at) == v,
{
    reveal(spec_tag_byte);
    reveal(spec_bad_tag);
    reveal(spec_tag_at);
    E::lemma_tag_inverse(v, b[at]);
}

/// Writing the variant read from a byte that is a tag gives that byte.
pub proof fn lemma_tag_written<E: WireEnum>(b: Seq<u8>, at: int)
    requires
        !spec_bad_tag::<E>(b, at),
    ensures
        spec_tag_byte(spec_tag_at::<E>(b, at)) == b[at],
{
    reveal(spec_tag_byte);
    reveal(spec_bad_tag);
    reveal(spec_tag_at);
    E::lemma_tag_inverse(spec_tag_at::<E>(b, at), b[at]);
}

/// Reads the enumeration `E` at `at`.
pub fn read_tag<E: WireEnum>(bytes: &[u8], at: usize, field: Field) -> (r: Result<E, DecodeError>)
    ensures
        r == spec_read_tag::<E>(bytes@, at as int, field),
{
    proof {
        reveal(spec_bad_tag);
        reveal(spec_tag_at);
    }
    if at < bytes.len() {
        let value: u8 = bytes[at];
        match E::from_tag(value) {
            Some(v) => Ok(v),
            None => Err(DecodeError::UnknownDiscriminant { field, offset: at, value }),
        }
    } else {
        Err(DecodeError::TruncatedInput { offset: at, width: 1 })
    }
}

/// The byte that stands for `v`.
pub fn tag_byte<E: WireEnum>(v: E) -> (x: u8)
    ensures
        x == spec_tag_byte(v),
{
    proof {
        reveal(spec_tag_byte);
    }
    v.tag()
}

/// Appends the tag of `v`.
pub fn write_tag<E: WireEnum>(out: &mut Vec<u8>, v: E)
    ensures
        final(out)@ == old(out)@.push(spec_tag_byte(v)),
{
    proof {
        reveal(spec_tag_byte);
    }
    out.push(v.tag());
}


/// Which generation of the format a file declares.
#[derive(Clone, Copy, Debug, PartialEq, Eq, Structural)]
pub enum Version {
    StandardScheme,
    SuperWeaponScheme,
    ExtendedScheme,
}

impl WireEnum for Version {
    open spec fn spec_tag(self) -> u8 {
        match self {
            Version::StandardScheme => 1,
            Version::SuperWeaponScheme => 2,
            Version::ExtendedScheme => 3,
        }
    }

    open spec fn spec_from_tag(tag: u8) -> Option<Self> {
        if tag == 1 {
            Some(Version::StandardScheme)
        } else if tag == 2 {
            Some(Version::SuperWeaponScheme)
        } else if tag == 3 {
            Some(Version::ExtendedScheme)
        } else {
            None
        }
    }

    proof fn lemma_tag_inverse(v: Self, tag: u8) {
    }

    fn tag(self) -> (t: u8) {
        match self {
            Version::StandardScheme => 1,
            Version::SuperWeaponScheme => 2,
            Version::ExtendedScheme => 3,
        }
    }

    fn from_tag(tag: u8) -> (r: Option<Self>) {
        match tag {
            1 => Some(Version::StandardScheme),
            2 => Some(Version::SuperWeaponScheme),
            3 => Some(Version::ExtendedScheme),
            _ => None,
        }
    }
}

/// What happens to unused ammunition between rounds.
#[derive(Clone, Copy, Debug, PartialEq, Eq, Structural)]
pub enum StockpilingMode {
    Off,
    On,
    Anti,
}

impl WireEnum for StockpilingMode {
    open spec fn spec_tag(self) -> u8 {
        match self {
            StockpilingMode::Off => 0,
            StockpilingMode::On => 1,
            StockpilingMode::Anti => 2,
        }
    }

    open spec fn spec_from_tag(tag: u8) -> Option<Self> {
        if tag == 0 {
            Some(StockpilingMode::Off)
        } else if tag == 1 {
            Some(StockpilingMode::On)
        } else if tag == 2 {
            Some(StockpilingMode::Anti)
        } else {
            None
        }
    }

    proof fn lemma_tag_inverse(v: Self, tag: u8) {
    }

    fn tag(self) -> (t: u8) {
        match self {
            StockpilingMode::Off => 0,
            StockpilingMode::On => 1,
            StockpilingMode::Anti => 2,
        }
    }

    fn from_tag(tag: u8) -> (r: Option<Self>) {
        match tag {
            0 => Some(StockpilingMode::Off),
            1 => Some(StockpilingMode::On),
            2 => Some(StockpilingMode::Anti),
            _ => None,
        }
    }
}

/// How the worm that moves next is chosen.
#[derive(Clone, Copy, Debug, PartialEq, Eq, Structural)]
pub enum WormSelect {
    Sequential,
    On,
    Random,
}

impl WireEnum for WormSelect {
    open spec fn spec_tag(self) -> u8 {
        match self {
            WormSelect::Sequential => 0,
            WormSelect::On => 1,
            WormSelect::Random => 2,
        }
    }

    open spec fn spec_from_tag(tag: u8) -> Option<Self> {
        if tag == 0 {
            Some(WormSelect::Sequential)
        } else if tag == 1 {
            Some(WormSelect::On)
        } else if tag == 2 {
            Some(WormSelect::Random)
        } else {
            None
        }
    }

    proof fn lemma_tag_inverse(v: Self, tag: u8) {
    }

    fn tag(self) -> (t: u8) {
        match self {
            WormSelect::Sequential => 0,
            WormSelect::On => 1,
            WormSelect::Random => 2,
        }
    }

    fn from_tag(tag: u8) -> (r: Option<Self>) {
        match tag {
            0 => Some(WormSelect::Sequential),
            1 => Some(WormSelect::On),
            2 => Some(WormSelect::Random),
            _ => None,
        }
    }
}

/// What sudden death brings.
#[derive(Clone, Copy, Debug, PartialEq, Eq, Structural)]
pub enum SuddenDeathEvent {
    RoundEnds,
    NuclearStrike,
    HPDrops,
    Nothing,
}

impl WireEnum for SuddenDeathEvent {
    open spec fn spec_tag(self) -> u8 {
        match self {
            SuddenDeathEvent::RoundEnds => 0,
            SuddenDeathEvent::NuclearStrike => 1,
            SuddenDeathEvent::HPDrops => 2,
            SuddenDeathEvent::Nothing => 3,
        }
    }

    open spec fn spec_from_tag(tag: u8) -> Option<Self> {
        if tag == 0 {
            Some(SuddenDeathEvent::RoundEnds)
        } else if tag == 1 {
            Some(SuddenDeathEvent::NuclearStrike)
        } else if tag == 2 {
            Some(SuddenDeathEvent::HPDrops)
        } else if tag == 3 {
            Some(SuddenDeathEvent::Nothing)
        } else {
            None
        }
    }

    proof fn lemma_tag_inverse(v: Self, tag: u8) {
    }

    fn tag(self) -> (t: u8) {
        match self {
            SuddenDeathEvent::RoundEnds => 0,
            SuddenDeathEvent::NuclearStrike => 1,
            SuddenDeathEvent::HPDrops => 2,
            SuddenDeathEvent::Nothing => 3,
        }
    }

    fn from_tag(tag: u8) -> (r: Option<Self>) {
        match tag {
            0 => Some(SuddenDeathEvent::RoundEnds),
            1 => Some(SuddenDeathEvent::NuclearStrike),
            2 => Some(SuddenDeathEvent::HPDrops),
            3 => Some(SuddenDeathEvent::Nothing),
            _ => None,
        }
    }
}

/// What passes through worms instead of hitting them.
#[derive(Clone, Copy, Debug, PartialEq, Eq, Structural)]
pub enum PhasedWorms {
    Off,
    Worms,
    WormsWeapons,
    WormsWeaponsDamage,
}

impl WireEnum for PhasedWorms {
    open spec fn spec_tag(self) -> u8 {
        match self {
            PhasedWorms::Off => 0,
            PhasedWorms::Worms => 1,
            PhasedWorms::WormsWeapons => 2,
            PhasedWorms::WormsWeaponsDamage => 3,
        }
    }

    open spec fn spec_from_tag(tag: u8) -> Option<Self> {
        if tag == 0 {
            Some(PhasedWorms::Off)
        } else if tag == 1 {
            Some(PhasedWorms::Worms)
        } else if tag == 2 {
            Some(PhasedWorms::WormsWeapons)
        } else if tag == 3 {
            Some(PhasedWorms::WormsWeaponsDamage)
        } else {
            None
        }
    }

    proof fn lemma_tag_inverse(v: Self, tag: u8) {
    }

    fn tag(self) -> (t: u8) {
        match self {
            PhasedWorms::Off => 0,
            PhasedWorms::Worms => 1,
            PhasedWorms::WormsWeapons => 2,
            PhasedWorms::WormsWeaponsDamage => 3,
        }
    }

    fn from_tag(tag: u8) -> (r: Option<Self>) {
        match tag {
            0 => Some(PhasedWorms::Off),
            1 => Some(PhasedWorms::Worms),
            2 => Some(PhasedWorms::WormsWeapons),
            3 => Some(PhasedWorms::WormsWeaponsDamage),
            _ => None,
        }
    }
}

/// From where a worm may drop a weapon while rolling.
#[derive(Clone, Copy, Debug, PartialEq, Eq, Structural)]
pub enum RopeRollDrops {
    Disabled,
    AsFromRopeOnly,
    AsFromRopeOrJump,
}

impl WireEnum for RopeRollDrops {
    open spec fn spec_tag(self) -> u8 {
        match self {
            RopeRollDrops::Disabled => 0,
            RopeRollDrops::AsFromRopeOnly => 1,
            RopeRollDrops::AsFromRopeOrJump => 2,
        }
    }

    open spec fn spec_from_tag(tag: u8) -> Option<Self> {
        if tag == 0 {
            Some(RopeRollDrops::Disabled)
        } else if tag == 1 {
            Some(RopeRollDrops::AsFromRopeOnly)
        } else if tag == 2 {
            Some(RopeRollDrops::AsFromRopeOrJump)
        } else {
            None
        }
    }

    proof fn lemma_tag_inverse(v: Self, tag: u8) {
    }

    fn tag(self) -> (t: u8) {
        match self {
            RopeRollDrops::Disabled => 0,
            RopeRollDrops::AsFromRopeOnly => 1,
            RopeRollDrops::AsFromRopeOrJump => 2,
        }
    }

    fn from_tag(tag: u8) -> (r: Option<Self>) {
        match tag {
            0 => Some(RopeRollDrops::Disabled),
            1 => Some(RopeRollDrops::AsFromRopeOnly),
            2 => Some(RopeRollDrops::AsFromRopeOrJump),
            _ => None,
        }
    }
}

/// Whether a worm that skims water stays under control.
#[derive(Clone, Copy, Debug, PartialEq, Eq, Structural)]
pub enum KeepControlAfterSkimming {
    LoseControl,
    KeepControl,
    KeepControlAndRope,
}

impl WireEnum for KeepControlAfterSkimming {
    open spec fn spec_tag(self) -> u8 {
        match self {
            KeepControlAfterSkimming::LoseControl => 0,
            KeepControlAfterSkimming::KeepControl => 1,
            KeepControlAfterSkimming::KeepControlAndRope => 2,
        }
    }

    open spec fn spec_from_tag(tag: u8) -> Option<Self> {
        if tag == 0 {
            Some(KeepControlAfterSkimming::LoseControl)
        } else if tag == 1 {
            Some(KeepControlAfterSkimming::KeepControl)
        } else if tag == 2 {
            Some(KeepControlAfterSkimming::KeepControlAndRope)
        } else {
            None
        }
    }

    proof fn lemma_tag_inverse(v: Self, tag: u8) {
    }

    fn tag(self) -> (t: u8) {
        match self {
            KeepControlAfterSkimming::LoseControl => 0,
            KeepControlAfterSkimming::KeepControl => 1,
            KeepControlAfterSkimming::KeepControlAndRope => 2,
        }
    }

    fn from_tag(tag: u8) -> (r: Option<Self>) {
        match tag {
            0 => Some(KeepControlAfterSkimming::LoseControl),
            1 => Some(KeepControlAfterSkimming::KeepControl),
            2 => Some(KeepControlAfterSkimming::KeepControlAndRope),
            _ => None,
        }
    }
}

/// A flag with a third state, the engine's default, whose tag lies far from the other two.
#[derive(Clone, Copy, Debug, PartialEq, Eq, Structural)]
pub enum TriState {
    False,
    True,
    Default,
}

impl WireEnum for TriState {
    open spec fn spec_tag(self) -> u8 {
        match self {
            TriState::False => 0,
            TriState::True => 1,
            TriState::Default => 0x80,
        }
    }

    open spec fn spec_from_tag(tag: u8) -> Option<Self> {
        if tag == 0 {
            Some(TriState::False)
        } else if tag == 1 {
            Some(TriState::True)
        } else if tag == 0x80 {
            Some(TriState::Default)
        } else {
            None
        }
    }

    proof fn lemma_tag_inverse(v: Self, tag: u8) {
    }

    fn tag(self) -> (t: u8) {
        match self {
            TriState::False => 0,
            TriState::True => 1,
            TriState::Default => 0x80,
        }
    }

    fn from_tag(tag: u8) -> (r: Option<Self>) {
        match tag {
            0 => Some(TriState::False),
            1 => Some(TriState::True),
            0x80 => Some(TriState::Default),
            _ => None,
        }
    }
}

/// Whether skipwalking works; the tag for `Disabled` is the highest byte, not zero.
#[derive(Clone, Copy, Debug, PartialEq, Eq, Structural)]
pub enum Skipwalking {
    Disabled,
    Possible,
    Facilitated,
}

impl WireEnum for Skipwalking {
    open spec fn spec_tag(self) -> u8 {
        match self {
            Skipwalking::Disabled => 0xFF,
            Skipwalking::Possible => 0,
            Skipwalking::Facilitated => 1,
        }
    }

    open spec fn spec_from_tag(tag: u8) -> Option<Self> {
        if tag == 0 {
            Some(Skipwalking::Possible)
        } else if tag == 1 {
            Some(Skipwalking::Facilitated)
        } else if tag == 0xFF {
            Some(Skipwalking::Disabled)
        } else {
            None
        }
    }

    proof fn lemma_tag_inverse(v: Self, tag: u8) {
    }

    fn tag(self) -> (t: u8) {
        match self {
            Skipwalking::Disabled => 0xFF,
            Skipwalking::Possible => 0,
            Skipwalking::Facilitated => 1,
        }
    }

    fn from_tag(tag: u8) -> (r: Option<Self>) {
        match tag {
            0 => Some(Skipwalking::Possible),
            1 => Some(Skipwalking::Facilitated),
            0xFF => Some(Skipwalking::Disabled),
            _ => None,
        }
    }
}

/// Where roofing is blocked.
#[derive(Clone, Copy, Debug, PartialEq, Eq, Structural)]
pub enum BlockRoofing {
    Allow,
    BlockAbove,
    BlockEverywhere,
}

impl WireEnum for BlockRoofing {
    open spec fn spec_tag(self) -> u8 {
        match self {
            BlockRoofing::Allow => 0,
            BlockRoofing::BlockAbove => 1,
            BlockRoofing::BlockEverywhere => 2,
        }
    }

    open spec fn spec_from_tag(tag: u8) -> Option<Self> {
        if tag == 0 {
            Some(BlockRoofing::Allow)
        } else if tag == 1 {
            Some(BlockRoofing::BlockAbove)
        } else if tag == 2 {
            Some(BlockRoofing::BlockEverywhere)
        } else {
            None
        }
    }

    proof fn lemma_tag_inverse(v: Self, tag: u8) {
    }

    fn tag(self) -> (t: u8) {
        match self {
            BlockRoofing::Allow => 0,
            BlockRoofing::BlockAbove => 1,
            BlockRoofing::BlockEverywhere => 2,
        }
    }

    fn from_tag(tag: u8) -> (r: Option<Self>) {
        match tag {
            0 => Some(BlockRoofing::Allow),
            1 => Some(BlockRoofing::BlockAbove),
            2 => Some(BlockRoofing::BlockEverywhere),
            _ => None,
        }
    }
}

/// The gravity model of the RubberWorm module.
#[derive(Clone, Copy, Debug, PartialEq, Eq, Structural)]
pub enum RubberWormGravityType {
    Unmodified,
    Standard,
    BlackHoleConstant,
    BlackHoleLinear,
}

impl WireEnum for RubberWormGravityType {
    open spec fn spec_tag(self) -> u8 {
        match self {
            RubberWormGravityType::Unmodified => 0,
            RubberWormGravityType::Standard => 1,
            RubberWormGravityType::BlackHoleConstant => 2,
            RubberWormGravityType::BlackHoleLinear => 3,
        }
    }

    open spec fn spec_from_tag(tag: u8) -> Option<Self> {
        if tag == 0 {
            Some(RubberWormGravityType::Unmodified)
        } else if tag == 1 {
            Some(RubberWormGravityType::Standard)
        } else if tag == 2 {
            Some(RubberWormGravityType::BlackHoleConstant)
        } else if tag == 3 {
            Some(RubberWormGravityType::BlackHoleLinear)
        } else {
            None
        }
    }

    proof fn lemma_tag_inverse(v: Self, tag: u8) {
    }

    fn tag(self) -> (t: u8) {
        match self {
            RubberWormGravityType::Unmodified => 0,
            RubberWormGravityType::Standard => 1,
            RubberWormGravityType::BlackHoleConstant => 2,
            RubberWormGravityType::BlackHoleLinear => 3,
        }
    }

    fn from_tag(tag: u8) -> (r: Option<Self>) {
        match tag {
            0 => Some(RubberWormGravityType::Unmodified),
            1 => Some(RubberWormGravityType::Standard),
            2 => Some(RubberWormGravityType::BlackHoleConstant),
            3 => Some(RubberWormGravityType::BlackHoleLinear),
            _ => None,
        }
    }
}

/// Whom a health crate cures of poison; the tag for `Disabled` is the highest byte, not zero.
#[derive(Clone, Copy, Debug, PartialEq, Eq, Structural)]
pub enum HealthCratesCurePoison {
    Disabled,
    CollectingWorm,
    CollectingWormTeam,
    CollectingWormTeamsAllied,
}

impl WireEnum for HealthCratesCurePoison {
    open spec fn spec_tag(self) -> u8 {
        match self {
            HealthCratesCurePoison::Disabled => 0xFF,
            HealthCratesCurePoison::CollectingWorm => 0,
            HealthCratesCurePoison::CollectingWormTeam => 1,
            HealthCratesCurePoison::CollectingWormTeamsAllied => 2,
        }
    }

    open spec fn spec_from_tag(tag: u8) -> Option<Self> {
        if tag == 0 {
            Some(HealthCratesCurePoison::CollectingWorm)
        } else if tag == 1 {
            Some(HealthCratesCurePoison::CollectingWormTeam)
        } else if tag == 2 {
            Some(HealthCratesCurePoison::CollectingWormTeamsAllied)
        } else if tag == 0xFF {
            Some(HealthCratesCurePoison::Disabled)
        } else {
            None
        }
    }

    proof fn lemma_tag_inverse(v: Self, tag: u8) {
    }

    fn tag(self) -> (t: u8) {
        match self {
            HealthCratesCurePoison::Disabled => 0xFF,
            HealthCratesCurePoison::CollectingWorm => 0,
            HealthCratesCurePoison::CollectingWormTeam => 1,
            HealthCratesCurePoison::CollectingWormTeamsAllied => 2,
        }
    }

    fn from_tag(tag: u8) -> (r: Option<Self>) {
        match tag {
            0 => Some(HealthCratesCurePoison::CollectingWorm),
            1 => Some(HealthCratesCurePoison::CollectingWormTeam),
            2 => Some(HealthCratesCurePoison::CollectingWormTeamsAllied),
            0xFF => Some(HealthCratesCurePoison::Disabled),
            _ => None,
        }
    }
}

} // verus!
