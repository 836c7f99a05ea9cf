use scheme_codec::scheme::{
    EXTENDED_OPTIONS_OFFSET, OPTIONS_OFFSET, SCHEME_LEN, SUPER_WEAPONS_OFFSET, WEAPONS_OFFSET,
};
use scheme_codec::tags::{
    KeepControlAfterSkimming, PhasedWorms, RopeRollDrops, Skipwalking, StockpilingMode,
    SuddenDeathEvent, TriState, Version, WormSelect,
};
use scheme_codec::{
    DecodeError, ExtendedOptions, Field, FixedPoint, Flag, Header, Options, Scheme, Weapon,
};

/// A well-formed file: the header of an extended scheme, every other byte zero.
fn blank() -> Vec<u8> {
    let mut bytes = vec![0u8; SCHEME_LEN];
    bytes[0..4].copy_from_slice(b"SCHM");
    bytes[4] = 3;
    bytes
}

/// A well-formed file in which every byte differs from its neighbours where
/// the field allows it, with every boolean stored as zero or one.
fn varied() -> Vec<u8> {
    let mut bytes = blank();
    for at in OPTIONS_OFFSET..WEAPONS_OFFSET {
        bytes[at] = (at % 2) as u8;
    }
    bytes[5] = 10;
    bytes[6] = 3;
    bytes[7] = 5;
    bytes[10] = 200;
    bytes[13] = 2;
    bytes[14] = 1;
    bytes[15] = 3;
    bytes[16] = 7;
    bytes[17] = 0xFF;
    bytes[19] = 0x80;
    bytes[20] = 25;
    bytes[21] = 0x7F;
    bytes[22] = 5;
    bytes[23] = 0xFE;
    bytes[26] = 100;
    bytes[27] = 45;
    bytes[28] = 0xF1;
    bytes[29] = 2;
    for at in WEAPONS_OFFSET..EXTENDED_OPTIONS_OFFSET {
        bytes[at] = (at * 7 % 256) as u8;
    }
    bytes[297..301].copy_from_slice(&[0x78, 0x56, 0x34, 0x12]);
    bytes[301] = 1;
    bytes[302..304].copy_from_slice(&[0x9C, 0xFF]);
    bytes[304] = 15;
    bytes[305..309].copy_from_slice(&[0x00, 0x00, 0x01, 0x00]);
    bytes[309..313].copy_from_slice(&[0x00, 0x80, 0xFF, 0xFF]);
    bytes[313] = 9;
    bytes[314] = 255;
    bytes[315] = 1;
    bytes[317] = 33;
    bytes[318..320].copy_from_slice(&[0x34, 0x12]);
    bytes[321] = 4;
    bytes[322] = 3;
    bytes[323] = 1;
    bytes[329] = 2;
    bytes[330] = 0xAB;
    bytes[332] = 2;
    bytes[334] = 0x80;
    bytes[335] = 1;
    bytes[336] = 0;
    bytes[341] = 0x80;
    bytes[342] = 1;
    bytes[343..345].copy_from_slice(&[0x00, 0x80]);
    bytes[345] = 30;
    bytes[346..348].copy_from_slice(&[0xFF, 0xFF]);
    bytes[348..352].copy_from_slice(&[0xFF, 0xFF, 0xFF, 0x7F]);
    bytes[352..356].copy_from_slice(&[0x00, 0x00, 0x00, 0x80]);
    bytes[356..360].copy_from_slice(&[0x01, 0x00, 0x00, 0x00]);
    bytes[360..364].copy_from_slice(&[0xFF, 0xFF, 0xFF, 0xFF]);
    bytes[364] = 0x80;
    bytes[365] = 1;
    bytes[367] = 0x80;
    bytes[369] = 0xFF;
    bytes
}

fn truncated(offset: usize, width: usize) -> Result<Scheme, DecodeError> {
    Err(DecodeError::TruncatedInput { offset, width })
}

fn unknown(field: Field, offset: usize, value: u8) -> Result<Scheme, DecodeError> {
    Err(DecodeError::UnknownDiscriminant { field, offset, value })
}

#[test]
fn layout_constants() {
    assert_eq!(OPTIONS_OFFSET, 5);
    assert_eq!(WEAPONS_OFFSET, 5 + 36);
    assert_eq!(SUPER_WEAPONS_OFFSET, 5 + 36 + 45 * 4);
    assert_eq!(EXTENDED_OPTIONS_OFFSET, 5 + 36 + 45 * 4 + 19 * 4);
    assert_eq!(SCHEME_LEN, 5 + 36 + 45 * 4 + 19 * 4 + 73);
    assert_eq!(scheme_codec::header::magic(), *b"SCHM");
}

#[test]
fn blank_file_decodes_to_zeroes() {
    let scheme = Scheme::from_bytes(&blank()).unwrap();
    assert_eq!(scheme.header, Header { version: Version::ExtendedScheme });
    assert_eq!(scheme.options.hot_seat_delay, 0);
    assert_eq!(scheme.options.blood, Flag(false));
    assert_eq!(scheme.options.stockpiling_mode, StockpilingMode::Off);
    assert_eq!(scheme.options.worm_select, WormSelect::Sequential);
    assert_eq!(scheme.options.sudden_death_event, SuddenDeathEvent::RoundEnds);
    assert_eq!(
        scheme.weapons.bazooka,
        Weapon { ammunition: 0, power: 0, delay: 0, probability: 0 }
    );
    assert_eq!(scheme.extended_options.gravity, FixedPoint(0));
    assert_eq!(scheme.extended_options.skipwalking, Skipwalking::Possible);
    assert_eq!(scheme.extended_options.glide_glitch, TriState::False);
}

#[test]
fn options_fields_come_from_their_places() {
    let scheme = Scheme::from_bytes(&varied()).unwrap();
    let expected = Options {
        hot_seat_delay: 10,
        retreat_time: 3,
        rope_retreat_time: 5,
        display_total_round_time: Flag(false),
        automatic_replays: Flag(true),
        fall_damage: 200,
        artillery_mode: Flag(true),
        bounty_mode: Flag(false),
        stockpiling_mode: StockpilingMode::Anti,
        worm_select: WormSelect::On,
        sudden_death_event: SuddenDeathEvent::Nothing,
        water_rise_rate: 7,
        weapon_crate_probability: -1,
        donor_cards: Flag(false),
        health_crate_probability: -128,
        health_crate_energy: 25,
        utility_crate_probability: 127,
        hazardous_object_types: 5,
        mine_delay: -2,
        dud_mines: Flag(false),
        manual_worm_placement: Flag(true),
        initial_worm_energy: 100,
        turn_time: 45,
        round_time: -15,
        number_of_wins: 2,
        blood: Flag(false),
        aqua_sheep: Flag(true),
        sheep_heaven: Flag(false),
        god_worms: Flag(true),
        indestructible_land: Flag(false),
        upgraded_grenade: Flag(true),
        upgraded_shotgun: Flag(false),
        upgraded_clusters: Flag(true),
        upgraded_longbow: Flag(false),
        team_weapons: Flag(true),
        super_weapons: Flag(false),
    };
    assert_eq!(scheme.options, expected);
}

#[test]
fn weapon_slots_are_positional() {
    let scheme = Scheme::from_bytes(&varied()).unwrap();
    let slot = |at: usize| Weapon {
        ammunition: (at * 7 % 256) as u8,
        power: ((at + 1) * 7 % 256) as u8,
        delay: ((at + 2) * 7 % 256) as u8,
        probability: ((at + 3) * 7 % 256) as u8,
    };
    assert_eq!(scheme.weapons.bazooka, slot(41));
    assert_eq!(scheme.weapons.homing_missile, slot(45));
    assert_eq!(scheme.weapons.mine, slot(41 + 15 * 4));
    assert_eq!(scheme.weapons.sheep, slot(41 + 29 * 4));
    assert_eq!(scheme.weapons.invisibility, slot(41 + 43 * 4));
    assert_eq!(scheme.weapons.damage_x2, slot(41 + 44 * 4));
    assert_eq!(scheme.super_weapons.freeze, slot(221));
    assert_eq!(scheme.super_weapons.super_banana_bomb, slot(225));
    assert_eq!(scheme.super_weapons.select_worm, slot(221 + 10 * 4));
    assert_eq!(scheme.super_weapons.armageddon, slot(221 + 18 * 4));
}

#[test]
fn extended_fields_come_from_their_places() {
    let e: ExtendedOptions = Scheme::from_bytes(&varied()).unwrap().extended_options;
    assert_eq!(e.data_version, 0x1234_5678);
    assert_eq!(e.constant_wind, Flag(true));
    assert_eq!(e.wind, -100);
    assert_eq!(e.wind_bias, 15);
    assert_eq!(e.gravity, FixedPoint(65536));
    assert_eq!(e.terrain_friction, FixedPoint(-32768));
    assert_eq!(e.rope_knocking, 9);
    assert_eq!(e.blood_level, 255);
    assert_eq!(e.unrestrict_rope, Flag(true));
    assert_eq!(e.auto_place_worms_by_ally, Flag(false));
    assert_eq!(e.no_crate_probability, 33);
    assert_eq!(e.maximum_crate_count_on_map_at_once, 0x1234);
    assert_eq!(e.sudden_death_disables_worm_select, Flag(false));
    assert_eq!(e.sudden_death_worm_damage_per_turn, 4);
    assert_eq!(e.phased_worms_allied, PhasedWorms::WormsWeaponsDamage);
    assert_eq!(e.phased_worms_enemy, PhasedWorms::Worms);
    assert_eq!(e.rope_roll_drops, RopeRollDrops::AsFromRopeOrJump);
    assert_eq!(e.x_impact_loss_of_control, 0xAB);
    assert_eq!(e.keep_control_after_skimming, KeepControlAfterSkimming::KeepControlAndRope);
    assert_eq!(e.explosions_push_all_objects, TriState::Default);
    assert_eq!(e.undetermined_crates, TriState::True);
    assert_eq!(e.undetermined_fuses, TriState::False);
    assert_eq!(e.pneumatic_drill_imparts_velocity, TriState::Default);
    assert_eq!(e.girder_assist_radius, TriState::True);
    assert_eq!(e.petrol_turn_decay, i16::MIN);
    assert_eq!(e.petrol_touch_decay, 30);
    assert_eq!(e.maximum_flamelet_count, 0xFFFF);
    assert_eq!(e.maximum_projectile_speed, FixedPoint(i32::MAX));
    assert_eq!(e.maximum_rope_speed, FixedPoint(i32::MIN));
    assert_eq!(e.maximum_jetpack_speed, FixedPoint(1));
    assert_eq!(e.game_engine_speed, FixedPoint(-1));
    assert_eq!(e.indian_rope_glitch, TriState::Default);
    assert_eq!(e.herd_doubling_glitch, TriState::True);
    assert_eq!(e.jetpack_bungee_glitch, TriState::False);
    assert_eq!(e.angle_cheat_glitch, TriState::Default);
    assert_eq!(e.glide_glitch, TriState::False);
    assert_eq!(e.skipwalking, Skipwalking::Disabled);
}

#[test]
fn round_trip_of_a_constructed_scheme() {
    let mut scheme = Scheme::from_bytes(&blank()).unwrap();
    scheme.header.version = Version::SuperWeaponScheme;
    scheme.options.hot_seat_delay = 5;
    scheme.options.blood = Flag(true);
    scheme.options.super_weapons = Flag(true);
    scheme.options.stockpiling_mode = StockpilingMode::Anti;
    scheme.options.sudden_death_event = SuddenDeathEvent::HPDrops;
    scheme.options.mine_delay = -1;
    scheme.options.round_time = i8::MIN;
    scheme.weapons.bazooka = Weapon { ammunition: 10, power: 3, delay: 0, probability: 255 };
    scheme.weapons.damage_x2 = Weapon { ammunition: 1, power: 2, delay: 3, probability: 4 };
    scheme.super_weapons.armageddon = Weapon { ammunition: 9, power: 8, delay: 7, probability: 6 };
    scheme.extended_options.data_version = u32::MAX;
    scheme.extended_options.wind = -32768;
    scheme.extended_options.gravity = FixedPoint(-32768);
    scheme.extended_options.game_engine_speed = FixedPoint(65536);
    scheme.extended_options.maximum_crate_count_on_map_at_once = 0xABCD;
    scheme.extended_options.petrol_turn_decay = 32767;
    scheme.extended_options.batty_rope = Flag(true);
    scheme.extended_options.undetermined_fuses = TriState::Default;
    scheme.extended_options.skipwalking = Skipwalking::Disabled;
    let bytes = scheme.to_bytes();
    assert_eq!(bytes.len(), SCHEME_LEN);
    assert_eq!(Scheme::from_bytes(&bytes), Ok(scheme));
    assert_ne!(scheme, Scheme::from_bytes(&blank()).unwrap());
}

#[test]
fn encoding_puts_each_field_at_its_place() {
    let mut scheme = Scheme::from_bytes(&blank()).unwrap();
    scheme.header.version = Version::StandardScheme;
    scheme.options.blood = Flag(true);
    scheme.options.mine_delay = -2;
    scheme.options.worm_select = WormSelect::Random;
    scheme.weapons.homing_missile.power = 77;
    scheme.super_weapons.freeze.ammunition = 88;
    scheme.extended_options.data_version = 0x0403_0201;
    scheme.extended_options.wind = -2;
    scheme.extended_options.terrain_friction = FixedPoint(-32768);
    scheme.extended_options.maximum_flamelet_count = 0x0102;
    scheme.extended_options.glide_glitch = TriState::Default;
    scheme.extended_options.skipwalking = Skipwalking::Facilitated;
    let bytes = scheme.to_bytes();
    let mut expected = blank();
    expected[4] = 1;
    expected[30] = 1;
    expected[23] = 0xFE;
    expected[14] = 2;
    expected[46] = 77;
    expected[221] = 88;
    expected[297..301].copy_from_slice(&[1, 2, 3, 4]);
    expected[302..304].copy_from_slice(&[0xFE, 0xFF]);
    expected[309..313].copy_from_slice(&[0x00, 0x80, 0xFF, 0xFF]);
    expected[346..348].copy_from_slice(&[0x02, 0x01]);
    expected[368] = 0x80;
    expected[369] = 1;
    assert_eq!(bytes, expected);
}

#[test]
fn reencode_is_byte_exact() {
    for input in [blank(), varied()] {
        let scheme = Scheme::from_bytes(&input).unwrap();
        assert_eq!(scheme.to_bytes(), input);
    }
}

#[test]
fn reencode_drops_what_follows_the_scheme() {
    let mut input = varied();
    input.extend_from_slice(&[1, 2, 3]);
    let scheme = Scheme::from_bytes(&input).unwrap();
    assert_eq!(scheme, Scheme::from_bytes(&varied()).unwrap());
    assert_eq!(scheme.to_bytes(), &input[..SCHEME_LEN]);
}

#[test]
fn nonzero_bytes_are_true_and_are_written_as_one() {
    let mut input = varied();
    input[8] = 2;
    input[30] = 0xFF;
    input[301] = 0x80;
    let scheme = Scheme::from_bytes(&input).unwrap();
    assert_eq!(scheme.options.display_total_round_time, Flag(true));
    assert_eq!(scheme.options.blood, Flag(true));
    assert_eq!(scheme.extended_options.constant_wind, Flag(true));
    let mut expected = input.clone();
    expected[8] = 1;
    expected[30] = 1;
    expected[301] = 1;
    assert_eq!(scheme.to_bytes(), expected);
}

#[test]
fn bad_magic_is_rejected_whatever_follows() {
    let mut input = varied();
    input[3] = b'N';
    assert_eq!(Scheme::from_bytes(&input), Err(DecodeError::BadMagic));
    input[0] = 0;
    assert_eq!(Scheme::from_bytes(&input), Err(DecodeError::BadMagic));
    assert_eq!(Scheme::from_bytes(b"SCHN"), Err(DecodeError::BadMagic));
    assert_eq!(Scheme::from_bytes(b"schm\x03"), Err(DecodeError::BadMagic));
    assert_eq!(Scheme::from_bytes(&[0u8; 1000]), Err(DecodeError::BadMagic));
    let mut both = varied();
    both[0] = b'X';
    both[4] = 9;
    both[13] = 3;
    assert_eq!(Scheme::from_bytes(&both), Err(DecodeError::BadMagic));
}

#[test]
fn truncated_inputs_are_rejected() {
    let full = varied();
    assert_eq!(Scheme::from_bytes(&[]), truncated(0, 4));
    assert_eq!(Scheme::from_bytes(b"SCH"), truncated(0, 4));
    assert_eq!(Scheme::from_bytes(b"XY"), truncated(0, 4));
    assert_eq!(Scheme::from_bytes(b"SCHM"), truncated(4, 1));
    assert_eq!(Scheme::from_bytes(&full[..5]), truncated(5, 1));
    assert_eq!(Scheme::from_bytes(&full[..20]), truncated(20, 1));
    assert_eq!(Scheme::from_bytes(&full[..41]), truncated(41, 1));
    assert_eq!(Scheme::from_bytes(&full[..43]), truncated(43, 1));
    assert_eq!(Scheme::from_bytes(&full[..221]), truncated(221, 1));
    assert_eq!(Scheme::from_bytes(&full[..296]), truncated(296, 1));
    assert_eq!(Scheme::from_bytes(&full[..297]), truncated(297, 4));
    assert_eq!(Scheme::from_bytes(&full[..300]), truncated(297, 4));
    assert_eq!(Scheme::from_bytes(&full[..301]), truncated(301, 1));
    assert_eq!(Scheme::from_bytes(&full[..303]), truncated(302, 2));
    assert_eq!(Scheme::from_bytes(&full[..307]), truncated(305, 4));
    assert_eq!(Scheme::from_bytes(&full[..312]), truncated(309, 4));
    assert_eq!(Scheme::from_bytes(&full[..319]), truncated(318, 2));
    assert_eq!(Scheme::from_bytes(&full[..344]), truncated(343, 2));
    assert_eq!(Scheme::from_bytes(&full[..347]), truncated(346, 2));
    assert_eq!(Scheme::from_bytes(&full[..363]), truncated(360, 4));
    assert_eq!(Scheme::from_bytes(&full[..369]), truncated(369, 1));
    assert!(Scheme::from_bytes(&full[..370]).is_ok());
}

#[test]
fn every_proper_prefix_of_a_file_is_truncated() {
    let full = varied();
    for len in 0..SCHEME_LEN {
        match Scheme::from_bytes(&full[..len]) {
            Err(DecodeError::TruncatedInput { offset, width }) => {
                assert!(offset <= len && len < offset + width);
            }
            other => panic!("a prefix of {} bytes gave {:?}", len, other),
        }
    }
}

#[test]
fn header_and_part_of_options_is_truncated() {
    let mut input = blank();
    input.truncate(12);
    assert_eq!(Scheme::from_bytes(&input), truncated(12, 1));
}

#[test]
fn the_first_fault_in_wire_order_wins() {
    let mut input = varied();
    input[13] = 3;
    assert_eq!(Scheme::from_bytes(&input[..100]), unknown(Field::StockpilingMode, 13, 3));
    assert_eq!(Scheme::from_bytes(&input[..14]), unknown(Field::StockpilingMode, 13, 3));
    assert_eq!(Scheme::from_bytes(&input[..13]), truncated(13, 1));
    input[4] = 0;
    assert_eq!(Scheme::from_bytes(&input), unknown(Field::Version, 4, 0));
    input[14] = 9;
    input[4] = 3;
    input[13] = 0;
    input[369] = 7;
    assert_eq!(Scheme::from_bytes(&input), unknown(Field::WormSelect, 14, 9));
}

#[test]
fn unknown_stockpiling_mode_is_rejected() {
    let mut input = varied();
    input[13] = 3;
    assert_eq!(Scheme::from_bytes(&input), unknown(Field::StockpilingMode, 13, 3));
    for ok in 0..3u8 {
        input[13] = ok;
        assert!(Scheme::from_bytes(&input).is_ok());
    }
}

#[test]
fn unknown_versions_are_rejected() {
    let mut input = varied();
    for (tag, version) in [
        (1u8, Version::StandardScheme),
        (2, Version::SuperWeaponScheme),
        (3, Version::ExtendedScheme),
    ] {
        input[4] = tag;
        assert_eq!(Scheme::from_bytes(&input).unwrap().header.version, version);
    }
    for tag in [0u8, 4, 0x80, 0xFF] {
        input[4] = tag;
        assert_eq!(Scheme::from_bytes(&input), unknown(Field::Version, 4, tag));
    }
}

#[test]
fn tri_state_default_is_far_from_the_other_tags() {
    let mut input = varied();
    input[334] = 0x80;
    assert_eq!(
        Scheme::from_bytes(&input).unwrap().extended_options.explosions_push_all_objects,
        TriState::Default
    );
    input[334] = 0x02;
    assert_eq!(Scheme::from_bytes(&input), unknown(Field::ExplosionsPushAllObjects, 334, 2));
}

#[test]
fn every_enumerated_field_names_itself_when_rejected() {
    let places = [
        (13, Field::StockpilingMode),
        (14, Field::WormSelect),
        (15, Field::SuddenDeathEvent),
        (322, Field::PhasedWormsAllied),
        (323, Field::PhasedWormsEnemy),
        (329, Field::RopeRollDrops),
        (332, Field::KeepControlAfterSkimming),
        (334, Field::ExplosionsPushAllObjects),
        (335, Field::UndeterminedCrates),
        (336, Field::UndeterminedFuses),
        (341, Field::PneumaticDrillImpartsVelocity),
        (342, Field::GirderAssistRadius),
        (364, Field::IndianRopeGlitch),
        (365, Field::HerdDoublingGlitch),
        (366, Field::JetpackBungeeGlitch),
        (367, Field::AngleCheatGlitch),
        (368, Field::GlideGlitch),
        (369, Field::Skipwalking),
    ];
    for (at, field) in places {
        let mut input = varied();
        input[at] = 0x7E;
        assert_eq!(Scheme::from_bytes(&input), unknown(field, at, 0x7E));
    }
}

#[test]
fn skipwalking_disabled_is_the_highest_byte() {
    let mut input = varied();
    for (tag, value) in [
        (0xFFu8, Skipwalking::Disabled),
        (0, Skipwalking::Possible),
        (1, Skipwalking::Facilitated),
    ] {
        input[369] = tag;
        assert_eq!(Scheme::from_bytes(&input).unwrap().extended_options.skipwalking, value);
    }
    input[369] = 2;
    assert_eq!(Scheme::from_bytes(&input), unknown(Field::Skipwalking, 369, 2));
}

#[test]
fn records_can_be_read_anywhere() {
    let full = varied();
    let scheme = Scheme::from_bytes(&full).unwrap();
    assert_eq!(Header::read(&full, 0), Ok(scheme.header));
    assert_eq!(Options::read(&full, 5), Ok(scheme.options));
    assert_eq!(ExtendedOptions::read(&full, 297), Ok(scheme.extended_options));
    assert_eq!(Weapon::read(&full, 41), Ok(scheme.weapons.bazooka));
    assert_eq!(
        Weapon::read(&full, 368),
        Err(DecodeError::TruncatedInput { offset: 370, width: 1 })
    );
    assert_eq!(
        Options::read(&full, 1000),
        Err(DecodeError::TruncatedInput { offset: 1000, width: 1 })
    );
    assert_eq!(
        ExtendedOptions::read(&full, usize::MAX),
        Err(DecodeError::TruncatedInput { offset: usize::MAX, width: 4 })
    );
    assert_eq!(Header::read(&full, 1), Err(DecodeError::BadMagic));
    assert_eq!(
        Header::read(&full, 367),
        Err(DecodeError::TruncatedInput { offset: 367, width: 4 })
    );
    let mut out = vec![0xEEu8];
    scheme.options.write(&mut out);
    assert_eq!(out[0], 0xEE);
    assert_eq!(&out[1..], &full[5..41]);
}
