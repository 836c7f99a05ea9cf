use scheme_codec::rubberworm::RUBBERWORM_OPTIONS_LEN;
use scheme_codec::tags::{
    read_tag, write_tag, BlockRoofing, HealthCratesCurePoison, KeepControlAfterSkimming,
    PhasedWorms, RopeRollDrops, RubberWormGravityType, Skipwalking, StockpilingMode,
    SuddenDeathEvent, TriState, Version, WormSelect,
};
use scheme_codec::wire::{
    read_i16, read_i32, read_i8, read_u16, read_u32, read_u8, write_bytes, write_i16, write_i32,
    write_i8, write_u16, write_u32,
};
use scheme_codec::{DecodeError, Field, FixedPoint, Flag, RubberwormOptions, WireEnum};

fn cut<T>(offset: usize, width: usize) -> Result<T, DecodeError> {
    Err(DecodeError::TruncatedInput { offset, width })
}

/// Checks the table of an enumeration against both of its mappings, for
/// every byte.
fn check_tags<E: WireEnum + PartialEq + std::fmt::Debug>(table: &[(E, u8)]) {
    for tag in 0..=255u8 {
        let listed = table.iter().find(|(_, t)| *t == tag).map(|(v, _)| *v);
        assert_eq!(E::from_tag(tag), listed);
    }
    for (v, t) in table {
        assert_eq!(v.tag(), *t);
        assert_eq!(E::from_tag(v.tag()), Some(*v));
    }
}

#[test]
fn tags_of_every_enumeration() {
    check_tags(&[
        (Version::StandardScheme, 1),
        (Version::SuperWeaponScheme, 2),
        (Version::ExtendedScheme, 3),
    ]);
    check_tags(&[(StockpilingMode::Off, 0), (StockpilingMode::On, 1), (StockpilingMode::Anti, 2)]);
    check_tags(&[(WormSelect::Sequential, 0), (WormSelect::On, 1), (WormSelect::Random, 2)]);
    check_tags(&[
        (SuddenDeathEvent::RoundEnds, 0),
        (SuddenDeathEvent::NuclearStrike, 1),
        (SuddenDeathEvent::HPDrops, 2),
        (SuddenDeathEvent::Nothing, 3),
    ]);
    check_tags(&[
        (PhasedWorms::Off, 0),
        (PhasedWorms::Worms, 1),
        (PhasedWorms::WormsWeapons, 2),
        (PhasedWorms::WormsWeaponsDamage, 3),
    ]);
    check_tags(&[
        (RopeRollDrops::Disabled, 0),
        (RopeRollDrops::AsFromRopeOnly, 1),
        (RopeRollDrops::AsFromRopeOrJump, 2),
    ]);
    check_tags(&[
        (KeepControlAfterSkimming::LoseControl, 0),
        (KeepControlAfterSkimming::KeepControl, 1),
        (KeepControlAfterSkimming::KeepControlAndRope, 2),
    ]);
    check_tags(&[(TriState::False, 0), (TriState::True, 1), (TriState::Default, 0x80)]);
    check_tags(&[
        (Skipwalking::Disabled, 0xFF),
        (Skipwalking::Possible, 0),
        (Skipwalking::Facilitated, 1),
    ]);
    check_tags(&[
        (BlockRoofing::Allow, 0),
        (BlockRoofing::BlockAbove, 1),
        (BlockRoofing::BlockEverywhere, 2),
    ]);
    check_tags(&[
        (RubberWormGravityType::Unmodified, 0),
        (RubberWormGravityType::Standard, 1),
        (RubberWormGravityType::BlackHoleConstant, 2),
        (RubberWormGravityType::BlackHoleLinear, 3),
    ]);
    check_tags(&[
        (HealthCratesCurePoison::Disabled, 0xFF),
        (HealthCratesCurePoison::CollectingWorm, 0),
        (HealthCratesCurePoison::CollectingWormTeam, 1),
        (HealthCratesCurePoison::CollectingWormTeamsAllied, 2),
    ]);
}

#[test]
fn tri_state_bytes() {
    assert_eq!(read_tag::<TriState>(&[0x80], 0, Field::GlideGlitch), Ok(TriState::Default));
    assert_eq!(read_tag::<TriState>(&[0x00], 0, Field::GlideGlitch), Ok(TriState::False));
    assert_eq!(read_tag::<TriState>(&[0x01], 0, Field::GlideGlitch), Ok(TriState::True));
    assert_eq!(
        read_tag::<TriState>(&[0x02], 0, Field::GlideGlitch),
        Err(DecodeError::UnknownDiscriminant { field: Field::GlideGlitch, offset: 0, value: 2 })
    );
    assert_eq!(
        read_tag::<TriState>(&[9, 0x81], 1, Field::UndeterminedCrates),
        Err(DecodeError::UnknownDiscriminant {
            field: Field::UndeterminedCrates,
            offset: 1,
            value: 0x81
        })
    );
    assert_eq!(read_tag::<TriState>(&[0x80], 1, Field::GlideGlitch), cut(1, 1));
    let mut out = Vec::new();
    write_tag(&mut out, TriState::Default);
    write_tag(&mut out, Skipwalking::Disabled);
    write_tag(&mut out, Version::ExtendedScheme);
    assert_eq!(out, [0x80, 0xFF, 3]);
}

#[test]
fn single_bytes() {
    let bytes = [0x00, 0x7F, 0x80, 0xFF];
    assert_eq!(read_u8(&bytes, 2), Ok(0x80));
    assert_eq!(read_u8(&bytes, 4), cut(4, 1));
    assert_eq!(read_i8(&bytes, 0), Ok(0));
    assert_eq!(read_i8(&bytes, 1), Ok(127));
    assert_eq!(read_i8(&bytes, 2), Ok(-128));
    assert_eq!(read_i8(&bytes, 3), Ok(-1));
    assert_eq!(read_i8(&bytes, 9), cut(9, 1));
    let mut out = Vec::new();
    for v in [0i8, 127, -128, -1] {
        write_i8(&mut out, v);
    }
    assert_eq!(out, bytes);
}

#[test]
fn flags() {
    let bytes = [0u8, 1, 2, 0x80, 0xFF];
    assert_eq!(Flag::read(&bytes, 0), Ok(Flag(false)));
    for at in 1..5 {
        assert_eq!(Flag::read(&bytes, at), Ok(Flag(true)));
    }
    assert_eq!(Flag::read(&bytes, 5), cut(5, 1));
    assert!(Flag(true).get());
    assert!(!Flag(false).get());
    assert_eq!(Flag(true).byte(), 1);
    assert_eq!(Flag(false).byte(), 0);
    let mut out = vec![7u8];
    Flag(true).write(&mut out);
    Flag(false).write(&mut out);
    assert_eq!(out, [7, 1, 0]);
}

#[test]
fn two_byte_integers_are_little_endian() {
    let bytes = [0x34, 0x12, 0xFF, 0xFF, 0x00, 0x80];
    assert_eq!(read_u16(&bytes, 0), Ok(0x1234));
    assert_eq!(read_u16(&bytes, 1), Ok(0xFF12));
    assert_eq!(read_u16(&bytes, 2), Ok(0xFFFF));
    assert_eq!(read_u16(&bytes, 5), cut(5, 2));
    assert_eq!(read_u16(&bytes, 6), cut(6, 2));
    assert_eq!(read_u16(&[], 0), cut(0, 2));
    assert_eq!(read_u16(&[1], 0), cut(0, 2));
    assert_eq!(read_u16(&bytes, usize::MAX), cut(usize::MAX, 2));
    assert_eq!(read_i16(&bytes, 0), Ok(0x1234));
    assert_eq!(read_i16(&bytes, 2), Ok(-1));
    assert_eq!(read_i16(&bytes, 4), Ok(i16::MIN));
    assert_eq!(read_i16(&bytes, 5), cut(5, 2));
    let mut out = Vec::new();
    write_u16(&mut out, 0x1234);
    write_i16(&mut out, -1);
    write_i16(&mut out, i16::MIN);
    assert_eq!(out, bytes);
    let mut more = Vec::new();
    write_u16(&mut more, 0xFFFF);
    write_u16(&mut more, 0);
    write_i16(&mut more, 0x7FFF);
    write_i16(&mut more, -100);
    assert_eq!(more, [0xFF, 0xFF, 0, 0, 0xFF, 0x7F, 0x9C, 0xFF]);
}

#[test]
fn four_byte_integers_are_little_endian() {
    let bytes = [0x78, 0x56, 0x34, 0x12, 0xFF, 0xFF, 0xFF, 0xFF, 0x00, 0x00, 0x00, 0x80];
    assert_eq!(read_u32(&bytes, 0), Ok(0x1234_5678));
    assert_eq!(read_u32(&bytes, 4), Ok(u32::MAX));
    assert_eq!(read_u32(&bytes, 8), Ok(0x8000_0000));
    assert_eq!(read_u32(&bytes, 9), cut(9, 4));
    assert_eq!(read_u32(&bytes[..3], 0), cut(0, 4));
    assert_eq!(read_i32(&bytes, 0), Ok(0x1234_5678));
    assert_eq!(read_i32(&bytes, 4), Ok(-1));
    assert_eq!(read_i32(&bytes, 8), Ok(i32::MIN));
    assert_eq!(read_i32(&bytes, 12), cut(12, 4));
    let mut out = Vec::new();
    write_u32(&mut out, 0x1234_5678);
    write_i32(&mut out, -1);
    write_i32(&mut out, i32::MIN);
    assert_eq!(out, bytes);
    let mut more = vec![9u8];
    write_u32(&mut more, 1);
    write_u32(&mut more, 0x0100_0000);
    write_i32(&mut more, i32::MAX);
    write_bytes(&mut more, &[5, 6]);
    assert_eq!(more, [9, 1, 0, 0, 0, 0, 0, 0, 1, 0xFF, 0xFF, 0xFF, 0x7F, 5, 6]);
}

#[test]
fn fixed_point_conversion() {
    let one = FixedPoint::read(&[0x00, 0x00, 0x01, 0x00], 0).unwrap();
    assert_eq!(one, FixedPoint(65536));
    assert_eq!(one.raw(), 65536);
    assert_eq!((one.whole(), one.fraction()), (1, 0));
    assert_eq!(one.raw() as f64 / 65536.0, 1.0);
    assert_eq!(one.whole() as f64 + one.fraction() as f64 / 65536.0, 1.0);

    let minus_half = FixedPoint::read(&[0x00, 0x80, 0xFF, 0xFF], 0).unwrap();
    assert_eq!(minus_half, FixedPoint::from_raw(-32768));
    assert_eq!((minus_half.whole(), minus_half.fraction()), (-1, 32768));
    assert_eq!(minus_half.raw() as f64 / 65536.0, -0.5);
    assert_eq!(minus_half.whole() as f64 + minus_half.fraction() as f64 / 65536.0, -0.5);

    let mut out = Vec::new();
    one.write(&mut out);
    minus_half.write(&mut out);
    assert_eq!(out, [0x00, 0x00, 0x01, 0x00, 0x00, 0x80, 0xFF, 0xFF]);
    assert_eq!(FixedPoint::read(&out, 0), Ok(one));
    assert_eq!(FixedPoint::read(&out, 4), Ok(minus_half));
    assert_eq!(FixedPoint::read(&out, 5), cut(5, 4));
    assert_eq!([one.byte(0), one.byte(1), one.byte(2), one.byte(3)], [0, 0, 1, 0]);
    assert_eq!(minus_half.byte(7), 0xFF);
}

#[test]
fn fixed_point_parts() {
    for (raw, whole, fraction) in [
        (0, 0, 0u32),
        (1, 0, 1),
        (-1, -1, 65535),
        (65535, 0, 65535),
        (-65536, -1, 0),
        (-65537, -2, 65535),
        (98304, 1, 32768),
        (i32::MAX, 32767, 65535),
        (i32::MIN, -32768, 0),
    ] {
        let x = FixedPoint(raw);
        assert_eq!((x.whole(), x.fraction()), (whole, fraction));
        assert_eq!(x.whole() as i64 * 65536 + x.fraction() as i64, raw as i64);
    }
}

#[test]
fn rubberworm_options_round_trip() {
    let value = RubberwormOptions {
        bounciness: FixedPoint(65536),
        air_viscosity: FixedPoint(-32768),
        air_viscosity_applies_to_worms: Flag(true),
        wind_influence: FixedPoint(1),
        wind_influence_applies_to_worms: Flag(false),
        gravity_type: RubberWormGravityType::BlackHoleLinear,
        gravity_strength: FixedPoint(i32::MIN),
        crate_rate: 200,
        crate_shower: Flag(true),
        anti_sink: Flag(false),
        remember_weapons: Flag(true),
        extended_fuses_herds: Flag(false),
        anti_lock_aim: Flag(true),
    };
    let mut bytes = Vec::new();
    value.write(&mut bytes);
    assert_eq!(bytes.len(), RUBBERWORM_OPTIONS_LEN);
    assert_eq!(
        bytes,
        [
            0, 0, 1, 0, 0, 0x80, 0xFF, 0xFF, 1, 1, 0, 0, 0, 0, 3, 0, 0, 0, 0x80, 200, 1, 0, 1, 0,
            1
        ]
    );
    assert_eq!(RubberwormOptions::read(&bytes, 0), Ok(value));
    bytes[14] = 4;
    assert_eq!(
        RubberwormOptions::read(&bytes, 0),
        Err(DecodeError::UnknownDiscriminant { field: Field::GravityType, offset: 14, value: 4 })
    );
    bytes[14] = 3;
    assert_eq!(RubberwormOptions::read(&bytes[..14], 0), cut(14, 1));
    assert_eq!(RubberwormOptions::read(&bytes[..15], 0), cut(15, 4));
    assert_eq!(RubberwormOptions::read(&bytes[..17], 0), cut(15, 4));
    assert_eq!(RubberwormOptions::read(&bytes[..2], 0), cut(0, 4));
}
