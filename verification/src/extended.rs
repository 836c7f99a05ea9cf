//! The extended options, which tune the engine itself.

use vstd::prelude::*;
use crate::error::{DecodeError, Field, spec_truncated, spec_unknown};
use crate::fixed::FixedPoint;
use crate::flag::Flag;
use crate::tags::{
    KeepControlAfterSkimming, PhasedWorms, RopeRollDrops, Skipwalking, TriState, lemma_tag_read,
    lemma_tag_written, read_tag, spec_rejects, spec_tag_at, spec_tag_byte, tag_byte,
};
use crate::wire::{
    i16_pattern, le_byte, lemma_i16_read, lemma_i16_written, lemma_u16_read, lemma_u16_written,
    lemma_u32_read, lemma_u32_written, read_i16, read_u16, read_u32, read_u8, spec_fits,
    spec_i16_at, spec_i16_bytes, spec_u16_at, spec_u16_bytes, spec_u32_at, spec_u32_bytes,
    write_bytes,
};

verus! {

/// The number of bytes that the extended options take on the wire.
pub const EXTENDED_OPTIONS_LEN: usize = 73;

/// The extended options: forty-eight fields, of one, two or four bytes.
#[derive(Clone, Copy, Debug, PartialEq, Eq, Structural)]
#[verifier::ext_equal]
pub struct ExtendedOptions {
    pub data_version: u32,
    pub constant_wind: Flag,
    pub wind: i16,
    pub wind_bias: u8,
    pub gravity: FixedPoint,
    pub terrain_friction: FixedPoint,
    pub rope_knocking: u8,
    pub blood_level: u8,
    pub unrestrict_rope: Flag,
    pub auto_place_worms_by_ally: Flag,
    pub no_crate_probability: u8,
    pub maximum_crate_count_on_map_at_once: u16,
    pub sudden_death_disables_worm_select: Flag,
    pub sudden_death_worm_damage_per_turn: u8,
    pub phased_worms_allied: PhasedWorms,
    pub phased_worms_enemy: PhasedWorms,
    pub circular_aim: Flag,
    pub anti_lock_aim: Flag,
    pub worm_selection_doesnt_end_hot_seat: Flag,
    pub worm_selection_is_never_cancelled: Flag,
    pub batty_rope: Flag,
    pub rope_roll_drops: RopeRollDrops,
    /// Kept as the raw byte: the values in use form no plain enumeration.
    pub x_impact_loss_of_control: u8,
    pub keep_control_after_bumping_head: Flag,
    pub keep_control_after_skimming: KeepControlAfterSkimming,
    pub explosions_cause_fall_damage_is_triggered_by_explosions: Flag,
    pub explosions_push_all_objects: TriState,
    pub undetermined_crates: TriState,
    pub undetermined_fuses: TriState,
    pub pause_timer_while_firing: Flag,
    pub loss_of_control_doesnt_end_turn: Flag,
    pub weapon_use_doesnt_end_turn: Flag,
    pub above_option_doesnt_block_weapons: Flag,
    pub pneumatic_drill_imparts_velocity: TriState,
    pub girder_assist_radius: TriState,
    pub petrol_turn_decay: i16,
    pub petrol_touch_decay: u8,
    pub maximum_flamelet_count: u16,
    pub maximum_projectile_speed: FixedPoint,
    pub maximum_rope_speed: FixedPoint,
    pub maximum_jetpack_speed: FixedPoint,
    pub game_engine_speed: FixedPoint,
    pub indian_rope_glitch: TriState,
    pub herd_doubling_glitch: TriState,
    pub jetpack_bungee_glitch: TriState,
    pub angle_cheat_glitch: TriState,
    pub glide_glitch: TriState,
    pub skipwalking: Skipwalking,
}

impl ExtendedOptions {
    /// The value whose fields are the bytes of `b` from `at` on, each field at
    /// its place in wire order.
    pub open spec fn spec_at(b: Seq<u8>, at: int) -> ExtendedOptions {
        ExtendedOptions {
            data_version: spec_u32_at(b, at),
            constant_wind: Flag::spec_at(b, at + 4),
            wind: spec_i16_at(b, at + 5),
            wind_bias: b[at + 7],
            gravity: FixedPoint::spec_at(b, at + 8),
            terrain_friction: FixedPoint::spec_at(b, at + 12),
            rope_knocking: b[at + 16],
            blood_level: b[at + 17],
            unrestrict_rope: Flag::spec_at(b, at + 18),
            auto_place_worms_by_ally: Flag::spec_at(b, at + 19),
            no_crate_probability: b[at + 20],
            maximum_crate_count_on_map_at_once: spec_u16_at(b, at + 21),
            sudden_death_disables_worm_select: Flag::spec_at(b, at + 23),
            sudden_death_worm_damage_per_turn: b[at + 24],
            phased_worms_allied: spec_tag_at(b, at + 25),
            phased_worms_enemy: spec_tag_at(b, at + 26),
            circular_aim: Flag::spec_at(b, at + 27),
            anti_lock_aim: Flag::spec_at(b, at + 28),
            worm_selection_doesnt_end_hot_seat: Flag::spec_at(b, at + 29),
            worm_selection_is_never_cancelled: Flag::spec_at(b, at + 30),
            batty_rope: Flag::spec_at(b, at + 31),
            rope_roll_drops: spec_tag_at(b, at + 32),
            x_impact_loss_of_control: b[at + 33],
            keep_control_after_bumping_head: Flag::spec_at(b, at + 34),
            keep_control_after_skimming: spec_tag_at(b, at + 35),
            explosions_cause_fall_damage_is_triggered_by_explosions: Flag::spec_at(b, at + 36),
            explosions_push_all_objects: spec_tag_at(b, at + 37),
            undetermined_crates: spec_tag_at(b, at + 38),
            undetermined_fuses: spec_tag_at(b, at + 39),
            pause_timer_while_firing: Flag::spec_at(b, at + 40),
            loss_of_control_doesnt_end_turn: Flag::spec_at(b, at + 41),
            weapon_use_doesnt_end_turn: Flag::spec_at(b, at + 42),
            above_option_doesnt_block_weapons: Flag::spec_at(b, at + 43),
            pneumatic_drill_imparts_velocity: spec_tag_at(b, at + 44),
            girder_assist_radius: spec_tag_at(b, at + 45),
            petrol_turn_decay: spec_i16_at(b, at + 46),
            petrol_touch_decay: b[at + 48],
            maximum_flamelet_count: spec_u16_at(b, at + 49),
            maximum_projectile_speed: FixedPoint::spec_at(b, at + 51),
            maximum_rope_speed: FixedPoint::spec_at(b, at + 55),
            maximum_jetpack_speed: FixedPoint::spec_at(b, at + 59),
            game_engine_speed: FixedPoint::spec_at(b, at + 63),
            indian_rope_glitch: spec_tag_at(b, at + 67),
            herd_doubling_glitch: spec_tag_at(b, at + 68),
            jetpack_bungee_glitch: spec_tag_at(b, at + 69),
            angle_cheat_glitch: spec_tag_at(b, at + 70),
            glide_glitch: spec_tag_at(b, at + 71),
            skipwalking: spec_tag_at(b, at + 72),
        }
    }

    /// The error for a buffer that ends before the value does: it names the
    /// first field that the buffer does not hold in full.
    pub open spec fn spec_cut(b: Seq<u8>, at: int) -> DecodeError {
        let end = b.len() as int;
        if end < at {
            spec_truncated(at, 4)
        } else if at <= end < at + 4 {
            spec_truncated(at, 4)
        } else if at + 5 <= end < at + 7 {
            spec_truncated(at + 5, 2)
        } else if at + 8 <= end < at + 12 {
            spec_truncated(at + 8, 4)
        } else if at + 12 <= end < at + 16 {
            spec_truncated(at + 12, 4)
        } else if at + 21 <= end < at + 23 {
            spec_truncated(at + 21, 2)
        } else if at + 46 <= end < at + 48 {
            spec_truncated(at + 46, 2)
        } else if at + 49 <= end < at + 51 {
            spec_truncated(at + 49, 2)
        } else if at + 51 <= end < at + 55 {
            spec_truncated(at + 51, 4)
        } else if at + 55 <= end < at + 59 {
            spec_truncated(at + 55, 4)
        } else if at + 59 <= end < at + 63 {
            spec_truncated(at + 59, 4)
        } else if at + 63 <= end < at + 67 {
            spec_truncated(at + 63, 4)
        } else {
            spec_truncated(end, 1)
        }
    }

    /// The first field, in wire order, that cannot be read from `at` on, as the
    /// error that reading it gives; `None` where every field can be read.
    pub open spec fn spec_fault(b: Seq<u8>, at: int) -> Option<DecodeError> {
        if spec_rejects::<PhasedWorms>(b, at + 25) {
            Some(spec_unknown(Field::PhasedWormsAllied, at + 25, b[at + 25]))
        } else if spec_rejects::<PhasedWorms>(b, at + 26) {
            Some(spec_unknown(Field::PhasedWormsEnemy, at + 26, b[at + 26]))
        } else if spec_rejects::<RopeRollDrops>(b, at + 32) {
            Some(spec_unknown(Field::RopeRollDrops, at + 32, b[at + 32]))
        } else if spec_rejects::<KeepControlAfterSkimming>(b, at + 35) {
            Some(spec_unknown(Field::KeepControlAfterSkimming, at + 35, b[at + 35]))
        } else if spec_rejects::<TriState>(b, at + 37) {
            Some(spec_unknown(Field::ExplosionsPushAllObjects, at + 37, b[at + 37]))
        } else if spec_rejects::<TriState>(b, at + 38) {
            Some(spec_unknown(Field::UndeterminedCrates, at + 38, b[at + 38]))
        } else if spec_rejects::<TriState>(b, at + 39) {
            Some(spec_unknown(Field::UndeterminedFuses, at + 39, b[at + 39]))
        } else if spec_rejects::<TriState>(b, at + 44) {
            Some(spec_unknown(Field::PneumaticDrillImpartsVelocity, at + 44, b[at + 44]))
        } else if spec_rejects::<TriState>(b, at + 45) {
            Some(spec_unknown(Field::GirderAssistRadius, at + 45, b[at + 45]))
        } else if spec_rejects::<TriState>(b, at + 67) {
            Some(spec_unknown(Field::IndianRopeGlitch, at + 67, b[at + 67]))
        } else if spec_rejects::<TriState>(b, at + 68) {
            Some(spec_unknown(Field::HerdDoublingGlitch, at + 68, b[at + 68]))
        } else if spec_rejects::<TriState>(b, at + 69) {
            Some(spec_unknown(Field::JetpackBungeeGlitch, at + 69, b[at + 69]))
        } else if spec_rejects::<TriState>(b, at + 70) {
            Some(spec_unknown(Field::AngleCheatGlitch, at + 70, b[at + 70]))
        } else if spec_rejects::<TriState>(b, at + 71) {
            Some(spec_unknown(Field::GlideGlitch, at + 71, b[at + 71]))
        } else if spec_rejects::<Skipwalking>(b, at + 72) {
            Some(spec_unknown(Field::Skipwalking, at + 72, b[at + 72]))
        } else if spec_fits(b, at, 73) {
            None
        } else {
            Some(Self::spec_cut(b, at))
        }
    }

    /// Whether every enumeration of the value at `at` whose byte lies in `b`
    /// holds one of its tags there.
    pub open spec fn spec_clean(b: Seq<u8>, at: int) -> bool {
        &&& !spec_rejects::<PhasedWorms>(b, at + 25)
        &&& !spec_rejects::<PhasedWorms>(b, at + 26)
        &&& !spec_rejects::<RopeRollDrops>(b, at + 32)
        &&& !spec_rejects::<KeepControlAfterSkimming>(b, at + 35)
        &&& !spec_rejects::<TriState>(b, at + 37)
        &&& !spec_rejects::<TriState>(b, at + 38)
        &&& !spec_rejects::<TriState>(b, at + 39)
        &&& !spec_rejects::<TriState>(b, at + 44)
        &&& !spec_rejects::<TriState>(b, at + 45)
        &&& !spec_rejects::<TriState>(b, at + 67)
        &&& !spec_rejects::<TriState>(b, at + 68)
        &&& !spec_rejects::<TriState>(b, at + 69)
        &&& !spec_rejects::<TriState>(b, at + 70)
        &&& !spec_rejects::<TriState>(b, at + 71)
        &&& !spec_rejects::<Skipwalking>(b, at + 72)
    }

    /// What reading the value at `at` gives.
    pub open spec fn spec_read(b: Seq<u8>, at: int) -> Result<ExtendedOptions, DecodeError> {
        match Self::spec_fault(b, at) {
            Some(e) => Err(e),
            None => Ok(Self::spec_at(b, at)),
        }
    }

    /// Whether every boolean of the value at `at` is stored as zero or one.
    pub open spec fn spec_strict(b: Seq<u8>, at: int) -> bool {
        &&& b[at + 4] <= 1
        &&& b[at + 18] <= 1
        &&& b[at + 19] <= 1
        &&& b[at + 23] <= 1
        &&& b[at + 27] <= 1
        &&& b[at + 28] <= 1
        &&& b[at + 29] <= 1
        &&& b[at + 30] <= 1
        &&& b[at + 31] <= 1
        &&& b[at + 34] <= 1
        &&& b[at + 36] <= 1
        &&& b[at + 40] <= 1
        &&& b[at + 41] <= 1
        &&& b[at + 42] <= 1
        &&& b[at + 43] <= 1
    }

    /// The byte at place `i` of the value's bytes: the fields follow each other
    /// in wire order.
    pub open spec fn spec_byte(self, i: int) -> u8 {
        if i < 4 {
            spec_u32_bytes(self.data_version)[i]
        } else if i < 5 {
            self.constant_wind.spec_byte()
        } else if i < 7 {
            spec_i16_bytes(self.wind)[i - 5]
        } else if i < 8 {
            self.wind_bias
        } else if i < 12 {
            self.gravity.spec_bytes()[i - 8]
        } else if i < 16 {
            self.terrain_friction.spec_bytes()[i - 12]
        } else if i < 17 {
            self.rope_knocking
        } else if i < 18 {
            self.blood_level
        } else if i < 19 {
            self.unrestrict_rope.spec_byte()
        } else if i < 20 {
            self.auto_place_worms_by_ally.spec_byte()
        } else if i < 21 {
            self.no_crate_probability
        } else if i < 23 {
            spec_u16_bytes(self.maximum_crate_count_on_map_at_once)[i - 21]
        } else if i < 24 {
            self.sudden_death_disables_worm_select.spec_byte()
        } else if i < 25 {
            self.sudden_death_worm_damage_per_turn
        } else if i < 26 {
            spec_tag_byte(self.phased_worms_allied)
        } else if i < 27 {
            spec_tag_byte(self.phased_worms_enemy)
        } else if i < 28 {
            self.circular_aim.spec_byte()
        } else if i < 29 {
            self.anti_lock_aim.spec_byte()
        } else if i < 30 {
            self.worm_selection_doesnt_end_hot_seat.spec_byte()
        } else if i < 31 {
            self.worm_selection_is_never_cancelled.spec_byte()
        } else if i < 32 {
            self.batty_rope.spec_byte()
        } else if i < 33 {
            spec_tag_byte(self.rope_roll_drops)
        } else if i < 34 {
            self.x_impact_loss_of_control
        } else if i < 35 {
            self.keep_control_after_bumping_head.spec_byte()
        } else if i < 36 {
            spec_tag_byte(self.keep_control_after_skimming)
        } else if i < 37 {
            self.explosions_cause_fall_damage_is_triggered_by_explosions.spec_byte()
        } else if i < 38 {
            spec_tag_byte(self.explosions_push_all_objects)
        } else if i < 39 {
            spec_tag_byte(self.undetermined_crates)
        } else if i < 40 {
            spec_tag_byte(self.undetermined_fuses)
        } else if i < 41 {
            self.pause_timer_while_firing.spec_byte()
        } else if i < 42 {
            self.loss_of_control_doesnt_end_turn.spec_byte()
        } else if i < 43 {
            self.weapon_use_doesnt_end_turn.spec_byte()
        } else if i < 44 {
            self.above_option_doesnt_block_weapons.spec_byte()
        } else if i < 45 {
            spec_tag_byte(self.pneumatic_drill_imparts_velocity)
        } else if i < 46 {
            spec_tag_byte(self.girder_assist_radius)
        } else if i < 48 {
            spec_i16_bytes(self.petrol_turn_decay)[i - 46]
        } else if i < 49 {
            self.petrol_touch_decay
        } else if i < 51 {
            spec_u16_bytes(self.maximum_flamelet_count)[i - 49]
        } else if i < 55 {
            self.maximum_projectile_speed.spec_bytes()[i - 51]
        } else if i < 59 {
            self.maximum_rope_speed.spec_bytes()[i - 55]
        } else if i < 63 {
            self.maximum_jetpack_speed.spec_bytes()[i - 59]
        } else if i < 67 {
            self.game_engine_speed.spec_bytes()[i - 63]
        } else if i < 68 {
            spec_tag_byte(self.indian_rope_glitch)
        } else if i < 69 {
            spec_tag_byte(self.herd_doubling_glitch)
        } else if i < 70 {
            spec_tag_byte(self.jetpack_bungee_glitch)
        } else if i < 71 {
            spec_tag_byte(self.angle_cheat_glitch)
        } else if i < 72 {
            spec_tag_byte(self.glide_glitch)
        } else {
            spec_tag_byte(self.skipwalking)
        }
    }

    /// The bytes of the value.
    pub open spec fn spec_bytes(self) -> Seq<u8> {
        Seq::new(73, |i: int| self.spec_byte(i))
    }

    /// Reads the value at `at`, field after field, and stops at the first field
    /// that cannot be read.
    #[verifier::rlimit(50)]
    pub fn read(bytes: &[u8], at: usize) -> (r: Result<ExtendedOptions, DecodeError>)
        ensures
            r == Self::spec_read(bytes@, at as int),
    {
        assert(bytes@.len() == bytes.len());
        let data_version: u32 = read_u32(bytes, at)?;
        let constant_wind: Flag = Flag::read(bytes, at + 4)?;
        let wind: i16 = read_i16(bytes, at + 5)?;
        let wind_bias: u8 = read_u8(bytes, at + 7)?;
        let gravity: FixedPoint = FixedPoint::read(bytes, at + 8)?;
        let terrain_friction: FixedPoint = FixedPoint::read(bytes, at + 12)?;
        let rope_knocking: u8 = read_u8(bytes, at + 16)?;
        let blood_level: u8 = read_u8(bytes, at + 17)?;
        let unrestrict_rope: Flag = Flag::read(bytes, at + 18)?;
        let auto_place_worms_by_ally: Flag = Flag::read(bytes, at + 19)?;
        let no_crate_probability: u8 = read_u8(bytes, at + 20)?;
        let maximum_crate_count_on_map_at_once: u16 = read_u16(bytes, at + 21)?;
        let sudden_death_disables_worm_select: Flag = Flag::read(bytes, at + 23)?;
        let sudden_death_worm_damage_per_turn: u8 = read_u8(bytes, at + 24)?;
        let phased_worms_allied: PhasedWorms = read_tag(bytes, at + 25, Field::PhasedWormsAllied)?;
        let phased_worms_enemy: PhasedWorms = read_tag(bytes, at + 26, Field::PhasedWormsEnemy)?;
        let circular_aim: Flag = Flag::read(bytes, at + 27)?;
        let anti_lock_aim: Flag = Flag::read(bytes, at + 28)?;
        let worm_selection_doesnt_end_hot_seat: Flag = Flag::read(bytes, at + 29)?;
        let worm_selection_is_never_cancelled: Flag = Flag::read(bytes, at + 30)?;
        let batty_rope: Flag = Flag::read(bytes, at + 31)?;
        let rope_roll_drops: RopeRollDrops = read_tag(bytes, at + 32, Field::RopeRollDrops)?;
        let x_impact_loss_of_control: u8 = read_u8(bytes, at + 33)?;
        let keep_control_after_bumping_head: Flag = Flag::read(bytes, at + 34)?;
        let keep_control_after_skimming: KeepControlAfterSkimming = read_tag(bytes, at + 35, Field::KeepControlAfterSkimming)?;
        let explosions_cause_fall_damage_is_triggered_by_explosions: Flag = Flag::read(bytes, at + 36)?;
        let explosions_push_all_objects: TriState = read_tag(bytes, at + 37, Field::ExplosionsPushAllObjects)?;
        let undetermined_crates: TriState = read_tag(bytes, at + 38, Field::UndeterminedCrates)?;
        let undetermined_fuses: TriState = read_tag(bytes, at + 39, Field::UndeterminedFuses)?;
        let pause_timer_while_firing: Flag = Flag::read(bytes, at + 40)?;
        let loss_of_control_doesnt_end_turn: Flag = Flag::read(bytes, at + 41)?;
        let weapon_use_doesnt_end_turn: Flag = Flag::read(bytes, at + 42)?;
        let above_option_doesnt_block_weapons: Flag = Flag::read(bytes, at + 43)?;
        let pneumatic_drill_imparts_velocity: TriState = read_tag(bytes, at + 44, Field::PneumaticDrillImpartsVelocity)?;
        let girder_assist_radius: TriState = read_tag(bytes, at + 45, Field::GirderAssistRadius)?;
        let petrol_turn_decay: i16 = read_i16(bytes, at + 46)?;
        let petrol_touch_decay: u8 = read_u8(bytes, at + 48)?;
        let maximum_flamelet_count: u16 = read_u16(bytes, at + 49)?;
        let maximum_projectile_speed: FixedPoint = FixedPoint::read(bytes, at + 51)?;
        let maximum_rope_speed: FixedPoint = FixedPoint::read(bytes, at + 55)?;
        let maximum_jetpack_speed: FixedPoint = FixedPoint::read(bytes, at + 59)?;
        let game_engine_speed: FixedPoint = FixedPoint::read(bytes, at + 63)?;
        let indian_rope_glitch: TriState = read_tag(bytes, at + 67, Field::IndianRopeGlitch)?;
        let herd_doubling_glitch: TriState = read_tag(bytes, at + 68, Field::HerdDoublingGlitch)?;
        let jetpack_bungee_glitch: TriState = read_tag(bytes, at + 69, Field::JetpackBungeeGlitch)?;
        let angle_cheat_glitch: TriState = read_tag(bytes, at + 70, Field::AngleCheatGlitch)?;
        let glide_glitch: TriState = read_tag(bytes, at + 71, Field::GlideGlitch)?;
        let skipwalking: Skipwalking = read_tag(bytes, at + 72, Field::Skipwalking)?;
        let value = ExtendedOptions {
            data_version, constant_wind, wind, wind_bias, gravity, terrain_friction,
            rope_knocking, blood_level, unrestrict_rope, auto_place_worms_by_ally,
            no_crate_probability, maximum_crate_count_on_map_at_once,
            sudden_death_disables_worm_select, sudden_death_worm_damage_per_turn,
            phased_worms_allied, phased_worms_enemy, circular_aim, anti_lock_aim,
            worm_selection_doesnt_end_hot_seat, worm_selection_is_never_cancelled, batty_rope,
            rope_roll_drops, x_impact_loss_of_control, keep_control_after_bumping_head,
            keep_control_after_skimming,
            explosions_cause_fall_damage_is_triggered_by_explosions,
            explosions_push_all_objects, undetermined_crates, undetermined_fuses,
            pause_timer_while_firing, loss_of_control_doesnt_end_turn,
            weapon_use_doesnt_end_turn, above_option_doesnt_block_weapons,
            pneumatic_drill_imparts_velocity, girder_assist_radius, petrol_turn_decay,
            petrol_touch_decay, maximum_flamelet_count, maximum_projectile_speed,
            maximum_rope_speed, maximum_jetpack_speed, game_engine_speed, indian_rope_glitch,
            herd_doubling_glitch, jetpack_bungee_glitch, angle_cheat_glitch, glide_glitch,
            skipwalking,
        };
        assert(value =~= Self::spec_at(bytes@, at as int));
        Ok(value)
    }

    /// Appends the bytes of the value.
    pub fn write(&self, out: &mut Vec<u8>)
        ensures
            final(out)@ == old(out)@ + self.spec_bytes(),
    {
        let bytes: [u8; 73] = [
            le_byte(self.data_version, 0), le_byte(self.data_version, 1),
            le_byte(self.data_version, 2), le_byte(self.data_version, 3),
            self.constant_wind.byte(), le_byte(i16_pattern(self.wind) as u32, 0),
            le_byte(i16_pattern(self.wind) as u32, 1), self.wind_bias, self.gravity.byte(0),
            self.gravity.byte(1), self.gravity.byte(2), self.gravity.byte(3),
            self.terrain_friction.byte(0), self.terrain_friction.byte(1),
            self.terrain_friction.byte(2), self.terrain_friction.byte(3), self.rope_knocking,
            self.blood_level, self.unrestrict_rope.byte(), self.auto_place_worms_by_ally.byte(),
            self.no_crate_probability,
            le_byte(self.maximum_crate_count_on_map_at_once as u32, 0),
            le_byte(self.maximum_crate_count_on_map_at_once as u32, 1),
            self.sudden_death_disables_worm_select.byte(),
            self.sudden_death_worm_damage_per_turn, tag_byte(self.phased_worms_allied),
            tag_byte(self.phased_worms_enemy), self.circular_aim.byte(),
            self.anti_lock_aim.byte(), self.worm_selection_doesnt_end_hot_seat.byte(),
            self.worm_selection_is_never_cancelled.byte(), self.batty_rope.byte(),
            tag_byte(self.rope_roll_drops), self.x_impact_loss_of_control,
            self.keep_control_after_bumping_head.byte(),
            tag_byte(self.keep_control_after_skimming),
            self.explosions_cause_fall_damage_is_triggered_by_explosions.byte(),
            tag_byte(self.explosions_push_all_objects), tag_byte(self.undetermined_crates),
            tag_byte(self.undetermined_fuses), self.pause_timer_while_firing.byte(),
            self.loss_of_control_doesnt_end_turn.byte(), self.weapon_use_doesnt_end_turn.byte(),
            self.above_option_doesnt_block_weapons.byte(),
            tag_byte(self.pneumatic_drill_imparts_velocity),
            tag_byte(self.girder_assist_radius),
            le_byte(i16_pattern(self.petrol_turn_decay) as u32, 0),
            le_byte(i16_pattern(self.petrol_turn_decay) as u32, 1), self.petrol_touch_decay,
            le_byte(self.maximum_flamelet_count as u32, 0),
            le_byte(self.maximum_flamelet_count as u32, 1),
            self.maximum_projectile_speed.byte(0), self.maximum_projectile_speed.byte(1),
            self.maximum_projectile_speed.byte(2), self.maximum_projectile_speed.byte(3),
            self.maximum_rope_speed.byte(0), self.maximum_rope_speed.byte(1),
            self.maximum_rope_speed.byte(2), self.maximum_rope_speed.byte(3),
            self.maximum_jetpack_speed.byte(0), self.maximum_jetpack_speed.byte(1),
            self.maximum_jetpack_speed.byte(2), self.maximum_jetpack_speed.byte(3),
            self.game_engine_speed.byte(0), self.game_engine_speed.byte(1),
            self.game_engine_speed.byte(2), self.game_engine_speed.byte(3),
            tag_byte(self.indian_rope_glitch), tag_byte(self.herd_doubling_glitch),
            tag_byte(self.jetpack_bungee_glitch), tag_byte(self.angle_cheat_glitch),
            tag_byte(self.glide_glitch), tag_byte(self.skipwalking),
        ];
        assert(bytes@ =~= self.spec_bytes());
        write_bytes(out, bytes.as_slice());
    }

    /// Writing a value and reading the bytes gives the value back, whatever
    /// stands before and after them.
    pub proof fn lemma_read_back(self, head: Seq<u8>, tail: Seq<u8>)
        ensures
            self.spec_bytes().len() == 73,
            Self::spec_read(head + self.spec_bytes() + tail, head.len() as int) == Ok::<
                ExtendedOptions,
                DecodeError,
            >(self),
    {
        let whole = head + self.spec_bytes() + tail;
        let at = head.len() as int;
        lemma_u32_read(self.data_version, whole, at);
        self.constant_wind.lemma_read_back(whole, at + 4);
        lemma_i16_read(self.wind, whole, at + 5);
        self.gravity.lemma_read_back(whole, at + 8);
        self.terrain_friction.lemma_read_back(whole, at + 12);
        self.unrestrict_rope.lemma_read_back(whole, at + 18);
        self.auto_place_worms_by_ally.lemma_read_back(whole, at + 19);
        lemma_u16_read(self.maximum_crate_count_on_map_at_once, whole, at + 21);
        self.sudden_death_disables_worm_select.lemma_read_back(whole, at + 23);
        lemma_tag_read(self.phased_worms_allied, whole, at + 25);
        lemma_tag_read(self.phased_worms_enemy, whole, at + 26);
        self.circular_aim.lemma_read_back(whole, at + 27);
        self.anti_lock_aim.lemma_read_back(whole, at + 28);
        self.worm_selection_doesnt_end_hot_seat.lemma_read_back(whole, at + 29);
        self.worm_selection_is_never_cancelled.lemma_read_back(whole, at + 30);
        self.batty_rope.lemma_read_back(whole, at + 31);
        lemma_tag_read(self.rope_roll_drops, whole, at + 32);
        self.keep_control_after_bumping_head.lemma_read_back(whole, at + 34);
        lemma_tag_read(self.keep_control_after_skimming, whole, at + 35);
        self.explosions_cause_fall_damage_is_triggered_by_explosions.lemma_read_back(whole, at + 36);
        lemma_tag_read(self.explosions_push_all_objects, whole, at + 37);
        lemma_tag_read(self.undetermined_crates, whole, at + 38);
        lemma_tag_read(self.undetermined_fuses, whole, at + 39);
        self.pause_timer_while_firing.lemma_read_back(whole, at + 40);
        self.loss_of_control_doesnt_end_turn.lemma_read_back(whole, at + 41);
        self.weapon_use_doesnt_end_turn.lemma_read_back(whole, at + 42);
        self.above_option_doesnt_block_weapons.lemma_read_back(whole, at + 43);
        lemma_tag_read(self.pneumatic_drill_imparts_velocity, whole, at + 44);
        lemma_tag_read(self.girder_assist_radius, whole, at + 45);
        lemma_i16_read(self.petrol_turn_decay, whole, at + 46);
        lemma_u16_read(self.maximum_flamelet_count, whole, at + 49);
        self.maximum_projectile_speed.lemma_read_back(whole, at + 51);
        self.maximum_rope_speed.lemma_read_back(whole, at + 55);
        self.maximum_jetpack_speed.lemma_read_back(whole, at + 59);
        self.game_engine_speed.lemma_read_back(whole, at + 63);
        lemma_tag_read(self.indian_rope_glitch, whole, at + 67);
        lemma_tag_read(self.herd_doubling_glitch, whole, at + 68);
        lemma_tag_read(self.jetpack_bungee_glitch, whole, at + 69);
        lemma_tag_read(self.angle_cheat_glitch, whole, at + 70);
        lemma_tag_read(self.glide_glitch, whole, at + 71);
        lemma_tag_read(self.skipwalking, whole, at + 72);
        assert(Self::spec_at(whole, at) =~= self);
    }

    /// Reading a value and writing it gives the bytes back, where every boolean
    /// was stored as zero or one.
    pub proof fn lemma_write_back(b: Seq<u8>, at: int)
        requires
            0 <= at,
            Self::spec_read(b, at) is Ok,
            Self::spec_strict(b, at),
        ensures
            Self::spec_at(b, at).spec_bytes() == b.subrange(at, at + 73),
    {
        let v = Self::spec_at(b, at);
        lemma_u32_written(b, at);
        Flag::lemma_write_back(b, at + 4);
        lemma_i16_written(b, at + 5);
        FixedPoint::lemma_write_back(b, at + 8);
        FixedPoint::lemma_write_back(b, at + 12);
        Flag::lemma_write_back(b, at + 18);
        Flag::lemma_write_back(b, at + 19);
        lemma_u16_written(b, at + 21);
        Flag::lemma_write_back(b, at + 23);
        lemma_tag_written::<PhasedWorms>(b, at + 25);
        lemma_tag_written::<PhasedWorms>(b, at + 26);
        Flag::lemma_write_back(b, at + 27);
        Flag::lemma_write_back(b, at + 28);
        Flag::lemma_write_back(b, at + 29);
        Flag::lemma_write_back(b, at + 30);
        Flag::lemma_write_back(b, at + 31);
        lemma_tag_written::<RopeRollDrops>(b, at + 32);
        Flag::lemma_write_back(b, at + 34);
        lemma_tag_written::<KeepControlAfterSkimming>(b, at + 35);
        Flag::lemma_write_back(b, at + 36);
        lemma_tag_written::<TriState>(b, at + 37);
        lemma_tag_written::<TriState>(b, at + 38);
        lemma_tag_written::<TriState>(b, at + 39);
        Flag::lemma_write_back(b, at + 40);
        Flag::lemma_write_back(b, at + 41);
        Flag::lemma_write_back(b, at + 42);
        Flag::lemma_write_back(b, at + 43);
        lemma_tag_written::<TriState>(b, at + 44);
        lemma_tag_written::<TriState>(b, at + 45);
        lemma_i16_written(b, at + 46);
        lemma_u16_written(b, at + 49);
        FixedPoint::lemma_write_back(b, at + 51);
        FixedPoint::lemma_write_back(b, at + 55);
        FixedPoint::lemma_write_back(b, at + 59);
        FixedPoint::lemma_write_back(b, at + 63);
        lemma_tag_written::<TriState>(b, at + 67);
        lemma_tag_written::<TriState>(b, at + 68);
        lemma_tag_written::<TriState>(b, at + 69);
        lemma_tag_written::<TriState>(b, at + 70);
        lemma_tag_written::<TriState>(b, at + 71);
        lemma_tag_written::<Skipwalking>(b, at + 72);
        assert(v.spec_bytes() =~= b.subrange(at, at + 73));
    }
}

} // verus!
