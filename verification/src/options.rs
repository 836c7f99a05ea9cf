//! The general options of a match.

use vstd::prelude::*;
use crate::error::{DecodeError, Field, spec_truncated, spec_unknown};
use crate::flag::Flag;
use crate::tags::{
    StockpilingMode, SuddenDeathEvent, WormSelect, lemma_tag_read, lemma_tag_written, read_tag,
    spec_rejects, spec_tag_at, spec_tag_byte, tag_byte,
};
use crate::wire::{
    i8_byte, lemma_i8_read, lemma_i8_written, read_i8, read_u8, spec_fits, spec_i8_at, spec_u8_of,
    write_bytes,
};

verus! {

/// The number of bytes that the general options take on the wire.
pub const OPTIONS_LEN: usize = 36;

/// The general rules of a match: thirty-six fields of one byte each.
#[derive(Clone, Copy, Debug, PartialEq, Eq, Structural)]
#[verifier::ext_equal]
pub struct Options {
    pub hot_seat_delay: u8,
    pub retreat_time: u8,
    pub rope_retreat_time: u8,
    pub display_total_round_time: Flag,
    pub automatic_replays: Flag,
    pub fall_damage: u8,
    pub artillery_mode: Flag,
    pub bounty_mode: Flag,
    pub stockpiling_mode: StockpilingMode,
    pub worm_select: WormSelect,
    pub sudden_death_event: SuddenDeathEvent,
    pub water_rise_rate: u8,
    pub weapon_crate_probability: i8,
    pub donor_cards: Flag,
    pub health_crate_probability: i8,
    pub health_crate_energy: u8,
    pub utility_crate_probability: i8,
    pub hazardous_object_types: u8,
    pub mine_delay: i8,
    pub dud_mines: Flag,
    pub manual_worm_placement: Flag,
    pub initial_worm_energy: u8,
    pub turn_time: i8,
    pub round_time: i8,
    pub number_of_wins: u8,
    pub blood: Flag,
    pub aqua_sheep: Flag,
    pub sheep_heaven: Flag,
    pub god_worms: Flag,
    pub indestructible_land: Flag,
    pub upgraded_grenade: Flag,
    pub upgraded_shotgun: Flag,
    pub upgraded_clusters: Flag,
    pub upgraded_longbow: Flag,
    pub team_weapons: Flag,
    pub super_weapons: Flag,
}

impl Options {
    /// The value whose fields are the bytes of `b` from `at` on, each field at
    /// its place in wire order.
    pub open spec fn spec_at(b: Seq<u8>, at: int) -> Options {
        Options {
            hot_seat_delay: b[at],
            retreat_time: b[at + 1],
            rope_retreat_time: b[at + 2],
            display_total_round_time: Flag::spec_at(b, at + 3),
            automatic_replays: Flag::spec_at(b, at + 4),
            fall_damage: b[at + 5],
            artillery_mode: Flag::spec_at(b, at + 6),
            bounty_mode: Flag::spec_at(b, at + 7),
            stockpiling_mode: spec_tag_at(b, at + 8),
            worm_select: spec_tag_at(b, at + 9),
            sudden_death_event: spec_tag_at(b, at + 10),
            water_rise_rate: b[at + 11],
            weapon_crate_probability: spec_i8_at(b, at + 12),
            donor_cards: Flag::spec_at(b, at + 13),
            health_crate_probability: spec_i8_at(b, at + 14),
            health_crate_energy: b[at + 15],
            utility_crate_probability: spec_i8_at(b, at + 16),
            hazardous_object_types: b[at + 17],
            mine_delay: spec_i8_at(b, at + 18),
            dud_mines: Flag::spec_at(b, at + 19),
            manual_worm_placement: Flag::spec_at(b, at + 20),
            initial_worm_energy: b[at + 21],
            turn_time: spec_i8_at(b, at + 22),
            round_time: spec_i8_at(b, at + 23),
            number_of_wins: b[at + 24],
            blood: Flag::spec_at(b, at + 25),
            aqua_sheep: Flag::spec_at(b, at + 26),
            sheep_heaven: Flag::spec_at(b, at + 27),
            god_worms: Flag::spec_at(b, at + 28),
            indestructible_land: Flag::spec_at(b, at + 29),
            upgraded_grenade: Flag::spec_at(b, at + 30),
            upgraded_shotgun: Flag::spec_at(b, at + 31),
            upgraded_clusters: Flag::spec_at(b, at + 32),
            upgraded_longbow: Flag::spec_at(b, at + 33),
            team_weapons: Flag::spec_at(b, at + 34),
            super_weapons: Flag::spec_at(b, at + 35),
        }
    }

    /// The error for a buffer that ends before the value does: it names the
    /// first field that the buffer does not hold in full.
    pub open spec fn spec_cut(b: Seq<u8>, at: int) -> DecodeError {
        let end = b.len() as int;
        if end < at {
            spec_truncated(at, 1)
        } else {
            spec_truncated(end, 1)
        }
    }

    /// The first field, in wire order, that cannot be read from `at` on, as the
    /// error that reading it gives; `None` where every field can be read.
    pub open spec fn spec_fault(b: Seq<u8>, at: int) -> Option<DecodeError> {
        if spec_rejects::<StockpilingMode>(b, at + 8) {
            Some(spec_unknown(Field::StockpilingMode, at + 8, b[at + 8]))
        } else if spec_rejects::<WormSelect>(b, at + 9) {
            Some(spec_unknown(Field::WormSelect, at + 9, b[at + 9]))
        } else if spec_rejects::<SuddenDeathEvent>(b, at + 10) {
            Some(spec_unknown(Field::SuddenDeathEvent, at + 10, b[at + 10]))
        } else if spec_fits(b, at, 36) {
            None
        } else {
            Some(Self::spec_cut(b, at))
        }
    }

    /// Whether every enumeration of the value at `at` whose byte lies in `b`
    /// holds one of its tags there.
    pub open spec fn spec_clean(b: Seq<u8>, at: int) -> bool {
        &&& !spec_rejects::<StockpilingMode>(b, at + 8)
        &&& !spec_rejects::<WormSelect>(b, at + 9)
        &&& !spec_rejects::<SuddenDeathEvent>(b, at + 10)
    }

    /// What reading the value at `at` gives.
    pub open spec fn spec_read(b: Seq<u8>, at: int) -> Result<Options, DecodeError> {
        match Self::spec_fault(b, at) {
            Some(e) => Err(e),
            None => Ok(Self::spec_at(b, at)),
        }
    }

    /// Whether every boolean of the value at `at` is stored as zero or one.
    pub open spec fn spec_strict(b: Seq<u8>, at: int) -> bool {
        &&& b[at + 3] <= 1
        &&& b[at + 4] <= 1
        &&& b[at + 6] <= 1
        &&& b[at + 7] <= 1
        &&& b[at + 13] <= 1
        &&& b[at + 19] <= 1
        &&& b[at + 20] <= 1
        &&& b[at + 25] <= 1
        &&& b[at + 26] <= 1
        &&& b[at + 27] <= 1
        &&& b[at + 28] <= 1
        &&& b[at + 29] <= 1
        &&& b[at + 30] <= 1
        &&& b[at + 31] <= 1
        &&& b[at + 32] <= 1
        &&& b[at + 33] <= 1
        &&& b[at + 34] <= 1
        &&& b[at + 35] <= 1
    }

    /// The byte at place `i` of the value's bytes: the fields follow each other
    /// in wire order.
    pub open spec fn spec_byte(self, i: int) -> u8 {
        if i < 1 {
            self.hot_seat_delay
        } else if i < 2 {
            self.retreat_time
        } else if i < 3 {
            self.rope_retreat_time
        } else if i < 4 {
            self.display_total_round_time.spec_byte()
        } else if i < 5 {
            self.automatic_replays.spec_byte()
        } else if i < 6 {
            self.fall_damage
        } else if i < 7 {
            self.artillery_mode.spec_byte()
        } else if i < 8 {
            self.bounty_mode.spec_byte()
        } else if i < 9 {
            spec_tag_byte(self.stockpiling_mode)
        } else if i < 10 {
            spec_tag_byte(self.worm_select)
        } else if i < 11 {
            spec_tag_byte(self.sudden_death_event)
        } else if i < 12 {
            self.water_rise_rate
        } else if i < 13 {
            spec_u8_of(self.weapon_crate_probability)
        } else if i < 14 {
            self.donor_cards.spec_byte()
        } else if i < 15 {
            spec_u8_of(self.health_crate_probability)
        } else if i < 16 {
            self.health_crate_energy
        } else if i < 17 {
            spec_u8_of(self.utility_crate_probability)
        } else if i < 18 {
            self.hazardous_object_types
        } else if i < 19 {
            spec_u8_of(self.mine_delay)
        } else if i < 20 {
            self.dud_mines.spec_byte()
        } else if i < 21 {
            self.manual_worm_placement.spec_byte()
        } else if i < 22 {
            self.initial_worm_energy
        } else if i < 23 {
            spec_u8_of(self.turn_time)
        } else if i < 24 {
            spec_u8_of(self.round_time)
        } else if i < 25 {
            self.number_of_wins
        } else if i < 26 {
            self.blood.spec_byte()
        } else if i < 27 {
            self.aqua_sheep.spec_byte()
        } else if i < 28 {
            self.sheep_heaven.spec_byte()
        } else if i < 29 {
            self.god_worms.spec_byte()
        } else if i < 30 {
            self.indestructible_land.spec_byte()
        } else if i < 31 {
            self.upgraded_grenade.spec_byte()
        } else if i < 32 {
            self.upgraded_shotgun.spec_byte()
        } else if i < 33 {
            self.upgraded_clusters.spec_byte()
        } else if i < 34 {
            self.upgraded_longbow.spec_byte()
        } else if i < 35 {
            self.team_weapons.spec_byte()
        } else {
            self.super_weapons.spec_byte()
        }
    }

    /// The bytes of the value.
    pub open spec fn spec_bytes(self) -> Seq<u8> {
        Seq::new(36, |i: int| self.spec_byte(i))
    }

    /// Reads the value at `at`, field after field, and stops at the first field
    /// that cannot be read.
    pub fn read(bytes: &[u8], at: usize) -> (r: Result<Options, DecodeError>)
        ensures
            r == Self::spec_read(bytes@, at as int),
    {
        assert(bytes@.len() == bytes.len());
        let hot_seat_delay: u8 = read_u8(bytes, at)?;
        let retreat_time: u8 = read_u8(bytes, at + 1)?;
        let rope_retreat_time: u8 = read_u8(bytes, at + 2)?;
        let display_total_round_time: Flag = Flag::read(bytes, at + 3)?;
        let automatic_replays: Flag = Flag::read(bytes, at + 4)?;
        let fall_damage: u8 = read_u8(bytes, at + 5)?;
        let artillery_mode: Flag = Flag::read(bytes, at + 6)?;
        let bounty_mode: Flag = Flag::read(bytes, at + 7)?;
        let stockpiling_mode: StockpilingMode = read_tag(bytes, at + 8, Field::StockpilingMode)?;
        let worm_select: WormSelect = read_tag(bytes, at + 9, Field::WormSelect)?;
        let sudden_death_event: SuddenDeathEvent = read_tag(bytes, at + 10, Field::SuddenDeathEvent)?;
        let water_rise_rate: u8 = read_u8(bytes, at + 11)?;
        let weapon_crate_probability: i8 = read_i8(bytes, at + 12)?;
        let donor_cards: Flag = Flag::read(bytes, at + 13)?;
        let health_crate_probability: i8 = read_i8(bytes, at + 14)?;
        let health_crate_energy: u8 = read_u8(bytes, at + 15)?;
        let utility_crate_probability: i8 = read_i8(bytes, at + 16)?;
        let hazardous_object_types: u8 = read_u8(bytes, at + 17)?;
        let mine_delay: i8 = read_i8(bytes, at + 18)?;
        let dud_mines: Flag = Flag::read(bytes, at + 19)?;
        let manual_worm_placement: Flag = Flag::read(bytes, at + 20)?;
        let initial_worm_energy: u8 = read_u8(bytes, at + 21)?;
        let turn_time: i8 = read_i8(bytes, at + 22)?;
        let round_time: i8 = read_i8(bytes, at + 23)?;
        let number_of_wins: u8 = read_u8(bytes, at + 24)?;
        let blood: Flag = Flag::read(bytes, at + 25)?;
        let aqua_sheep: Flag = Flag::read(bytes, at + 26)?;
        let sheep_heaven: Flag = Flag::read(bytes, at + 27)?;
        let god_worms: Flag = Flag::read(bytes, at + 28)?;
        let indestructible_land: Flag = Flag::read(bytes, at + 29)?;
        let upgraded_grenade: Flag = Flag::read(bytes, at + 30)?;
        let upgraded_shotgun: Flag = Flag::read(bytes, at + 31)?;
        let upgraded_clusters: Flag = Flag::read(bytes, at + 32)?;
        let upgraded_longbow: Flag = Flag::read(bytes, at + 33)?;
        let team_weapons: Flag = Flag::read(bytes, at + 34)?;
        let super_weapons: Flag = Flag::read(bytes, at + 35)?;
        let value = Options {
            hot_seat_delay, retreat_time, rope_retreat_time, display_total_round_time,
            automatic_replays, fall_damage, artillery_mode, bounty_mode, stockpiling_mode,
            worm_select, sudden_death_event, water_rise_rate, weapon_crate_probability,
            donor_cards, health_crate_probability, health_crate_energy,
            utility_crate_probability, hazardous_object_types, mine_delay, dud_mines,
            manual_worm_placement, initial_worm_energy, turn_time, round_time, number_of_wins,
            blood, aqua_sheep, sheep_heaven, god_worms, indestructible_land, upgraded_grenade,
            upgraded_shotgun, upgraded_clusters, upgraded_longbow, team_weapons, super_weapons,
        };
        assert(value =~= Self::spec_at(bytes@, at as int));
        Ok(value)
    }

    /// Appends the bytes of the value.
    pub fn write(&self, out: &mut Vec<u8>)
        ensures
            final(out)@ == old(out)@ + self.spec_bytes(),
    {
        let bytes: [u8; 36] = [
            self.hot_seat_delay, self.retreat_time, self.rope_retreat_time,
            self.display_total_round_time.byte(), self.automatic_replays.byte(),
            self.fall_damage, self.artillery_mode.byte(), self.bounty_mode.byte(),
            tag_byte(self.stockpiling_mode), tag_byte(self.worm_select),
            tag_byte(self.sudden_death_event), self.water_rise_rate,
            i8_byte(self.weapon_crate_probability), self.donor_cards.byte(),
            i8_byte(self.health_crate_probability), self.health_crate_energy,
            i8_byte(self.utility_crate_probability), self.hazardous_object_types,
            i8_byte(self.mine_delay), self.dud_mines.byte(), self.manual_worm_placement.byte(),
            self.initial_worm_energy, i8_byte(self.turn_time), i8_byte(self.round_time),
            self.number_of_wins, self.blood.byte(), self.aqua_sheep.byte(),
            self.sheep_heaven.byte(), self.god_worms.byte(), self.indestructible_land.byte(),
            self.upgraded_grenade.byte(), self.upgraded_shotgun.byte(),
            self.upgraded_clusters.byte(), self.upgraded_longbow.byte(),
            self.team_weapons.byte(), self.super_weapons.byte(),
        ];
        assert(bytes@ =~= self.spec_bytes());
        write_bytes(out, bytes.as_slice());
    }

    /// Writing a value and reading the bytes gives the value back, whatever
    /// stands before and after them.
    pub proof fn lemma_read_back(self, head: Seq<u8>, tail: Seq<u8>)
        ensures
            self.spec_bytes().len() == 36,
            Self::spec_read(head + self.spec_bytes() + tail, head.len() as int) == Ok::<
                Options,
                DecodeError,
            >(self),
    {
        let whole = head + self.spec_bytes() + tail;
        let at = head.len() as int;
        self.display_total_round_time.lemma_read_back(whole, at + 3);
        self.automatic_replays.lemma_read_back(whole, at + 4);
        self.artillery_mode.lemma_read_back(whole, at + 6);
        self.bounty_mode.lemma_read_back(whole, at + 7);
        lemma_tag_read(self.stockpiling_mode, whole, at + 8);
        lemma_tag_read(self.worm_select, whole, at + 9);
        lemma_tag_read(self.sudden_death_event, whole, at + 10);
        lemma_i8_read(self.weapon_crate_probability, whole, at + 12);
        self.donor_cards.lemma_read_back(whole, at + 13);
        lemma_i8_read(self.health_crate_probability, whole, at + 14);
        lemma_i8_read(self.utility_crate_probability, whole, at + 16);
        lemma_i8_read(self.mine_delay, whole, at + 18);
        self.dud_mines.lemma_read_back(whole, at + 19);
        self.manual_worm_placement.lemma_read_back(whole, at + 20);
        lemma_i8_read(self.turn_time, whole, at + 22);
        lemma_i8_read(self.round_time, whole, at + 23);
        self.blood.lemma_read_back(whole, at + 25);
        self.aqua_sheep.lemma_read_back(whole, at + 26);
        self.sheep_heaven.lemma_read_back(whole, at + 27);
        self.god_worms.lemma_read_back(whole, at + 28);
        self.indestructible_land.lemma_read_back(whole, at + 29);
        self.upgraded_grenade.lemma_read_back(whole, at + 30);
        self.upgraded_shotgun.lemma_read_back(whole, at + 31);
        self.upgraded_clusters.lemma_read_back(whole, at + 32);
        self.upgraded_longbow.lemma_read_back(whole, at + 33);
        self.team_weapons.lemma_read_back(whole, at + 34);
        self.super_weapons.lemma_read_back(whole, at + 35);
        assert(Self::spec_at(whole, at) =~= self);
    }

    /// Reading a value and writing it gives the bytes back, where every boolean
    /// was stored as zero or one.
    pub proof fn lemma_write_back(b: Seq<u8>, at: int)
        requires
            0 <= at,
            Self::spec_read(b, at) is Ok,
            Self::spec_strict(b, at),
        ensures
            Self::spec_at(b, at).spec_bytes() == b.subrange(at, at + 36),
    {
        let v = Self::spec_at(b, at);
        Flag::lemma_write_back(b, at + 3);
        Flag::lemma_write_back(b, at + 4);
        Flag::lemma_write_back(b, at + 6);
        Flag::lemma_write_back(b, at + 7);
        lemma_tag_written::<StockpilingMode>(b, at + 8);
        lemma_tag_written::<WormSelect>(b, at + 9);
        lemma_tag_written::<SuddenDeathEvent>(b, at + 10);
        lemma_i8_written(b, at + 12);
        Flag::lemma_write_back(b, at + 13);
        lemma_i8_written(b, at + 14);
        lemma_i8_written(b, at + 16);
        lemma_i8_written(b, at + 18);
        Flag::lemma_write_back(b, at + 19);
        Flag::lemma_write_back(b, at + 20);
        lemma_i8_written(b, at + 22);
        lemma_i8_written(b, at + 23);
        Flag::lemma_write_back(b, at + 25);
        Flag::lemma_write_back(b, at + 26);
        Flag::lemma_write_back(b, at + 27);
        Flag::lemma_write_back(b, at + 28);
        Flag::lemma_write_back(b, at + 29);
        Flag::lemma_write_back(b, at + 30);
        Flag::lemma_write_back(b, at + 31);
        Flag::lemma_write_back(b, at + 32);
        Flag::lemma_write_back(b, at + 33);
        Flag::lemma_write_back(b, at + 34);
        Flag::lemma_write_back(b, at + 35);
        assert(v.spec_bytes() =~= b.subrange(at, at + 36));
    }
}

} // verus!
