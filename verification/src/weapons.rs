//! The settings of one weapon and the two tables of weapons.

use vstd::prelude::*;
use crate::error::{DecodeError, spec_truncated};
use crate::wire::{read_u8, spec_fits, write_bytes};

verus! {

/// The number of bytes that one weapon takes on the wire.
pub const WEAPON_LEN: usize = 4;

/// What can be tuned of one weapon: four bytes, each free to take any value.
#[derive(Clone, Copy, Debug, PartialEq, Eq, Structural)]
#[verifier::ext_equal]
pub struct Weapon {
    pub ammunition: u8,
    pub power: u8,
    pub delay: u8,
    pub probability: u8,
}

impl Weapon {
    /// The value whose fields are the bytes of `b` from `at` on, each field at
    /// its place in wire order.
    #[verifier::opaque]
    pub open spec fn spec_at(b: Seq<u8>, at: int) -> Weapon {
        Weapon {
            ammunition: b[at],
            power: b[at + 1],
            delay: b[at + 2],
            probability: b[at + 3],
        }
    }

    /// The error for a buffer that ends before the value does: it names the
    /// first field that the buffer does not hold in full.
    pub open spec fn spec_cut(b: Seq<u8>, at: int) -> DecodeError {
        let end = b.len() as int;
        if end < at {
            spec_truncated(at, 1)
        } else {
            spec_truncated(end, 1)
        }
    }

    /// The first field, in wire order, that cannot be read from `at` on, as the
    /// error that reading it gives; `None` where every field can be read.
    pub open spec fn spec_fault(b: Seq<u8>, at: int) -> Option<DecodeError> {
        if spec_fits(b, at, 4) {
            None
        } else {
            Some(Self::spec_cut(b, at))
        }
    }

    /// What reading the value at `at` gives.
    pub open spec fn spec_read(b: Seq<u8>, at: int) -> Result<Weapon, DecodeError> {
        match Self::spec_fault(b, at) {
            Some(e) => Err(e),
            None => Ok(Self::spec_at(b, at)),
        }
    }

    /// The byte at place `i` of the value's bytes: the fields follow each other
    /// in wire order.
    #[verifier::opaque]
    pub open spec fn spec_byte(self, i: int) -> u8 {
        if i < 1 {
            self.ammunition
        } else if i < 2 {
            self.power
        } else if i < 3 {
            self.delay
        } else {
            self.probability
        }
    }

    /// The bytes of the value.
    pub open spec fn spec_bytes(self) -> Seq<u8> {
        Seq::new(4, |i: int| self.spec_byte(i))
    }

    /// Reads the value at `at`, field after field, and stops at the first field
    /// that cannot be read.
    pub fn read(bytes: &[u8], at: usize) -> (r: Result<Weapon, DecodeError>)
        ensures
            r == Self::spec_read(bytes@, at as int),
    {
        assert(bytes@.len() == bytes.len());
        proof {
            reveal(Weapon::spec_at);
        }
        let ammunition: u8 = read_u8(bytes, at)?;
        let power: u8 = read_u8(bytes, at + 1)?;
        let delay: u8 = read_u8(bytes, at + 2)?;
        let probability: u8 = read_u8(bytes, at + 3)?;
        let value = Weapon {
            ammunition, power, delay, probability,
        };
        assert(value =~= Self::spec_at(bytes@, at as int));
        Ok(value)
    }

    /// Appends the bytes of the value.
    pub fn write(&self, out: &mut Vec<u8>)
        ensures
            final(out)@ == old(out)@ + self.spec_bytes(),
    {
        proof {
            reveal(Weapon::spec_byte);
        }
        let bytes: [u8; 4] = [
            self.ammunition, self.power, self.delay, self.probability,
        ];
        assert(bytes@ =~= self.spec_bytes());
        write_bytes(out, bytes.as_slice());
    }

    /// Writing a value and reading the bytes gives the value back, whatever
    /// stands before and after them.
    pub proof fn lemma_read_back(self, head: Seq<u8>, tail: Seq<u8>)
        ensures
            self.spec_bytes().len() == 4,
            Self::spec_read(head + self.spec_bytes() + tail, head.len() as int) == Ok::<
                Weapon,
                DecodeError,
            >(self),
    {
        reveal(Weapon::spec_at);
        reveal(Weapon::spec_byte);
        let whole = head + self.spec_bytes() + tail;
        let at = head.len() as int;
        assert(Self::spec_at(whole, at) =~= self);
    }

    /// Reading a value and writing it gives the bytes back.
    pub proof fn lemma_write_back(b: Seq<u8>, at: int)
        requires
            0 <= at,
            Self::spec_read(b, at) is Ok,
        ensures
            Self::spec_at(b, at).spec_bytes() == b.subrange(at, at + 4),
    {
        reveal(Weapon::spec_at);
        reveal(Weapon::spec_byte);
        let v = Self::spec_at(b, at);
        assert(v.spec_bytes() =~= b.subrange(at, at + 4));
    }

    /// Where four bytes of `b` at `at` are the bytes of the weapon, reading
    /// them gives the weapon.
    pub proof fn lemma_read_at(self, b: Seq<u8>, at: int)
        requires
            b[at] == self.spec_byte(0),
            b[at + 1] == self.spec_byte(1),
            b[at + 2] == self.spec_byte(2),
            b[at + 3] == self.spec_byte(3),
        ensures
            Self::spec_at(b, at) == self,
    {
        reveal(Weapon::spec_at);
        reveal(Weapon::spec_byte);
        assert(Self::spec_at(b, at) =~= self);
    }

    /// Byte `j` of the weapon read at `at` is the byte `j` places after `at`.
    pub proof fn lemma_byte_back(b: Seq<u8>, at: int, j: int)
        requires
            0 <= j < 4,
        ensures
            Self::spec_at(b, at).spec_byte(j) == b[at + j],
    {
        reveal(Weapon::spec_at);
        reveal(Weapon::spec_byte);
    }
}

/// The number of bytes that the table of standard weapons takes on the wire.
pub const WEAPONS_LEN: usize = 180;

/// The table of the standard weapons. A slot is known by its place: the order
/// of the fields is the order on the wire.
#[derive(Clone, Copy, Debug, PartialEq, Eq, Structural)]
#[verifier::ext_equal]
pub struct Weapons {
    pub bazooka: Weapon,
    pub homing_missile: Weapon,
    pub mortar: Weapon,
    pub grenade: Weapon,
    pub cluster_bomb: Weapon,
    pub skunk: Weapon,
    pub petrol_bomb: Weapon,
    pub banana_bomb: Weapon,
    pub handgun: Weapon,
    pub shotgun: Weapon,
    pub uzi: Weapon,
    pub minigun: Weapon,
    pub longbow: Weapon,
    pub airstrike: Weapon,
    pub napalm_strike: Weapon,
    pub mine: Weapon,
    pub fire_punch: Weapon,
    pub dragon_ball: Weapon,
    pub kamikaze: Weapon,
    pub prod: Weapon,
    pub battle_axe: Weapon,
    pub blowtorch: Weapon,
    pub pneumatic_drill: Weapon,
    pub girder: Weapon,
    pub ninja_rope: Weapon,
    pub parachute: Weapon,
    pub bungee: Weapon,
    pub teleport: Weapon,
    pub dynamite: Weapon,
    pub sheep: Weapon,
    pub baseball_bat: Weapon,
    pub flame_thrower: Weapon,
    pub homing_pigeon: Weapon,
    pub mad_cow: Weapon,
    pub holy_hand_grenade: Weapon,
    pub old_woman: Weapon,
    pub sheep_launcher: Weapon,
    pub super_sheep: Weapon,
    pub mole_bomb: Weapon,
    pub jet_pack: Weapon,
    pub low_gravity: Weapon,
    pub laser_sight: Weapon,
    pub fast_walk: Weapon,
    pub invisibility: Weapon,
    pub damage_x2: Weapon,
}

impl Weapons {
    /// The value whose fields are the bytes of `b` from `at` on, each field at
    /// its place in wire order.
    pub open spec fn spec_at(b: Seq<u8>, at: int) -> Weapons {
        Weapons {
            bazooka: Weapon::spec_at(b, at),
            homing_missile: Weapon::spec_at(b, at + 4),
            mortar: Weapon::spec_at(b, at + 8),
            grenade: Weapon::spec_at(b, at + 12),
            cluster_bomb: Weapon::spec_at(b, at + 16),
            skunk: Weapon::spec_at(b, at + 20),
            petrol_bomb: Weapon::spec_at(b, at + 24),
            banana_bomb: Weapon::spec_at(b, at + 28),
            handgun: Weapon::spec_at(b, at + 32),
            shotgun: Weapon::spec_at(b, at + 36),
            uzi: Weapon::spec_at(b, at + 40),
            minigun: Weapon::spec_at(b, at + 44),
            longbow: Weapon::spec_at(b, at + 48),
            airstrike: Weapon::spec_at(b, at + 52),
            napalm_strike: Weapon::spec_at(b, at + 56),
            mine: Weapon::spec_at(b, at + 60),
            fire_punch: Weapon::spec_at(b, at + 64),
            dragon_ball: Weapon::spec_at(b, at + 68),
            kamikaze: Weapon::spec_at(b, at + 72),
            prod: Weapon::spec_at(b, at + 76),
            battle_axe: Weapon::spec_at(b, at + 80),
            blowtorch: Weapon::spec_at(b, at + 84),
            pneumatic_drill: Weapon::spec_at(b, at + 88),
            girder: Weapon::spec_at(b, at + 92),
            ninja_rope: Weapon::spec_at(b, at + 96),
            parachute: Weapon::spec_at(b, at + 100),
            bungee: Weapon::spec_at(b, at + 104),
            teleport: Weapon::spec_at(b, at + 108),
            dynamite: Weapon::spec_at(b, at + 112),
            sheep: Weapon::spec_at(b, at + 116),
            baseball_bat: Weapon::spec_at(b, at + 120),
            flame_thrower: Weapon::spec_at(b, at + 124),
            homing_pigeon: Weapon::spec_at(b, at + 128),
            mad_cow: Weapon::spec_at(b, at + 132),
            holy_hand_grenade: Weapon::spec_at(b, at + 136),
            old_woman: Weapon::spec_at(b, at + 140),
            sheep_launcher: Weapon::spec_at(b, at + 144),
            super_sheep: Weapon::spec_at(b, at + 148),
            mole_bomb: Weapon::spec_at(b, at + 152),
            jet_pack: Weapon::spec_at(b, at + 156),
            low_gravity: Weapon::spec_at(b, at + 160),
            laser_sight: Weapon::spec_at(b, at + 164),
            fast_walk: Weapon::spec_at(b, at + 168),
            invisibility: Weapon::spec_at(b, at + 172),
            damage_x2: Weapon::spec_at(b, at + 176),
        }
    }

    /// The error for a buffer that ends before the value does: it names the
    /// first field that the buffer does not hold in full.
    pub open spec fn spec_cut(b: Seq<u8>, at: int) -> DecodeError {
        let end = b.len() as int;
        if end < at {
            spec_truncated(at, 1)
        } else {
            spec_truncated(end, 1)
        }
    }

    /// The first field, in wire order, that cannot be read from `at` on, as the
    /// error that reading it gives; `None` where every field can be read.
    pub open spec fn spec_fault(b: Seq<u8>, at: int) -> Option<DecodeError> {
        if spec_fits(b, at, 180) {
            None
        } else {
            Some(Self::spec_cut(b, at))
        }
    }

    /// What reading the value at `at` gives.
    pub open spec fn spec_read(b: Seq<u8>, at: int) -> Result<Weapons, DecodeError> {
        match Self::spec_fault(b, at) {
            Some(e) => Err(e),
            None => Ok(Self::spec_at(b, at)),
        }
    }

    /// The byte at place `i` of the value's bytes: the fields follow each other
    /// in wire order.
    pub open spec fn spec_byte(self, i: int) -> u8 {
        if i < 4 {
            self.bazooka.spec_byte(i)
        } else if i < 8 {
            self.homing_missile.spec_byte(i - 4)
        } else if i < 12 {
            self.mortar.spec_byte(i - 8)
        } else if i < 16 {
            self.grenade.spec_byte(i - 12)
        } else if i < 20 {
            self.cluster_bomb.spec_byte(i - 16)
        } else if i < 24 {
            self.skunk.spec_byte(i - 20)
        } else if i < 28 {
            self.petrol_bomb.spec_byte(i - 24)
        } else if i < 32 {
            self.banana_bomb.spec_byte(i - 28)
        } else if i < 36 {
            self.handgun.spec_byte(i - 32)
        } else if i < 40 {
            self.shotgun.spec_byte(i - 36)
        } else if i < 44 {
            self.uzi.spec_byte(i - 40)
        } else if i < 48 {
            self.minigun.spec_byte(i - 44)
        } else if i < 52 {
            self.longbow.spec_byte(i - 48)
        } else if i < 56 {
            self.airstrike.spec_byte(i - 52)
        } else if i < 60 {
            self.napalm_strike.spec_byte(i - 56)
        } else if i < 64 {
            self.mine.spec_byte(i - 60)
        } else if i < 68 {
            self.fire_punch.spec_byte(i - 64)
        } else if i < 72 {
            self.dragon_ball.spec_byte(i - 68)
        } else if i < 76 {
            self.kamikaze.spec_byte(i - 72)
        } else if i < 80 {
            self.prod.spec_byte(i - 76)
        } else if i < 84 {
            self.battle_axe.spec_byte(i - 80)
        } else if i < 88 {
            self.blowtorch.spec_byte(i - 84)
        } else if i < 92 {
            self.pneumatic_drill.spec_byte(i - 88)
        } else if i < 96 {
            self.girder.spec_byte(i - 92)
        } else if i < 100 {
            self.ninja_rope.spec_byte(i - 96)
        } else if i < 104 {
            self.parachute.spec_byte(i - 100)
        } else if i < 108 {
            self.bungee.spec_byte(i - 104)
        } else if i < 112 {
            self.teleport.spec_byte(i - 108)
        } else if i < 116 {
            self.dynamite.spec_byte(i - 112)
        } else if i < 120 {
            self.sheep.spec_byte(i - 116)
        } else if i < 124 {
            self.baseball_bat.spec_byte(i - 120)
        } else if i < 128 {
            self.flame_thrower.spec_byte(i - 124)
        } else if i < 132 {
            self.homing_pigeon.spec_byte(i - 128)
        } else if i < 136 {
            self.mad_cow.spec_byte(i - 132)
        } else if i < 140 {
            self.holy_hand_grenade.spec_byte(i - 136)
        } else if i < 144 {
            self.old_woman.spec_byte(i - 140)
        } else if i < 148 {
            self.sheep_launcher.spec_byte(i - 144)
        } else if i < 152 {
            self.super_sheep.spec_byte(i - 148)
        } else if i < 156 {
            self.mole_bomb.spec_byte(i - 152)
        } else if i < 160 {
            self.jet_pack.spec_byte(i - 156)
        } else if i < 164 {
            self.low_gravity.spec_byte(i - 160)
        } else if i < 168 {
            self.laser_sight.spec_byte(i - 164)
        } else if i < 172 {
            self.fast_walk.spec_byte(i - 168)
        } else if i < 176 {
            self.invisibility.spec_byte(i - 172)
        } else {
            self.damage_x2.spec_byte(i - 176)
        }
    }

    /// The bytes of the value.
    pub open spec fn spec_bytes(self) -> Seq<u8> {
        Seq::new(180, |i: int| self.spec_byte(i))
    }

    /// Reads the value at `at`, field after field, and stops at the first field
    /// that cannot be read.
    pub fn read(bytes: &[u8], at: usize) -> (r: Result<Weapons, DecodeError>)
        ensures
            r == Self::spec_read(bytes@, at as int),
    {
        assert(bytes@.len() == bytes.len());
        let bazooka: Weapon = Weapon::read(bytes, at)?;
        let homing_missile: Weapon = Weapon::read(bytes, at + 4)?;
        let mortar: Weapon = Weapon::read(bytes, at + 8)?;
        let grenade: Weapon = Weapon::read(bytes, at + 12)?;
        let cluster_bomb: Weapon = Weapon::read(bytes, at + 16)?;
        let skunk: Weapon = Weapon::read(bytes, at + 20)?;
        let petrol_bomb: Weapon = Weapon::read(bytes, at + 24)?;
        let banana_bomb: Weapon = Weapon::read(bytes, at + 28)?;
        let handgun: Weapon = Weapon::read(bytes, at + 32)?;
        let shotgun: Weapon = Weapon::read(bytes, at + 36)?;
        let uzi: Weapon = Weapon::read(bytes, at + 40)?;
        let minigun: Weapon = Weapon::read(bytes, at + 44)?;
        let longbow: Weapon = Weapon::read(bytes, at + 48)?;
        let airstrike: Weapon = Weapon::read(bytes, at + 52)?;
        let napalm_strike: Weapon = Weapon::read(bytes, at + 56)?;
        let mine: Weapon = Weapon::read(bytes, at + 60)?;
        let fire_punch: Weapon = Weapon::read(bytes, at + 64)?;
        let dragon_ball: Weapon = Weapon::read(bytes, at + 68)?;
        let kamikaze: Weapon = Weapon::read(bytes, at + 72)?;
        let prod: Weapon = Weapon::read(bytes, at + 76)?;
        let battle_axe: Weapon = Weapon::read(bytes, at + 80)?;
        let blowtorch: Weapon = Weapon::read(bytes, at + 84)?;
        let pneumatic_drill: Weapon = Weapon::read(bytes, at + 88)?;
        let girder: Weapon = Weapon::read(bytes, at + 92)?;
        let ninja_rope: Weapon = Weapon::read(bytes, at + 96)?;
        let parachute: Weapon = Weapon::read(bytes, at + 100)?;
        let bungee: Weapon = Weapon::read(bytes, at + 104)?;
        let teleport: Weapon = Weapon::read(bytes, at + 108)?;
        let dynamite: Weapon = Weapon::read(bytes, at + 112)?;
        let sheep: Weapon = Weapon::read(bytes, at + 116)?;
        let baseball_bat: Weapon = Weapon::read(bytes, at + 120)?;
        let flame_thrower: Weapon = Weapon::read(bytes, at + 124)?;
        let homing_pigeon: Weapon = Weapon::read(bytes, at + 128)?;
        let mad_cow: Weapon = Weapon::read(bytes, at + 132)?;
        let holy_hand_grenade: Weapon = Weapon::read(bytes, at + 136)?;
        let old_woman: Weapon = Weapon::read(bytes, at + 140)?;
        let sheep_launcher: Weapon = Weapon::read(bytes, at + 144)?;
        let super_sheep: Weapon = Weapon::read(bytes, at + 148)?;
        let mole_bomb: Weapon = Weapon::read(bytes, at + 152)?;
        let jet_pack: Weapon = Weapon::read(bytes, at + 156)?;
        let low_gravity: Weapon = Weapon::read(bytes, at + 160)?;
        let laser_sight: Weapon = Weapon::read(bytes, at + 164)?;
        let fast_walk: Weapon = Weapon::read(bytes, at + 168)?;
        let invisibility: Weapon = Weapon::read(bytes, at + 172)?;
        let damage_x2: Weapon = Weapon::read(bytes, at + 176)?;
        let value = Weapons {
            bazooka, homing_missile, mortar, grenade, cluster_bomb, skunk, petrol_bomb,
            banana_bomb, handgun, shotgun, uzi, minigun, longbow, airstrike, napalm_strike,
            mine, fire_punch, dragon_ball, kamikaze, prod, battle_axe, blowtorch,
            pneumatic_drill, girder, ninja_rope, parachute, bungee, teleport, dynamite, sheep,
            baseball_bat, flame_thrower, homing_pigeon, mad_cow, holy_hand_grenade, old_woman,
            sheep_launcher, super_sheep, mole_bomb, jet_pack, low_gravity, laser_sight,
            fast_walk, invisibility, damage_x2,
        };
        assert(value =~= Self::spec_at(bytes@, at as int));
        Ok(value)
    }

    /// Appends the bytes of the value.
    pub fn write(&self, out: &mut Vec<u8>)
        ensures
            final(out)@ == old(out)@ + self.spec_bytes(),
    {
        let ghost start = out@;
        self.bazooka.write(out);
        self.homing_missile.write(out);
        self.mortar.write(out);
        self.grenade.write(out);
        self.cluster_bomb.write(out);
        self.skunk.write(out);
        self.petrol_bomb.write(out);
        self.banana_bomb.write(out);
        self.handgun.write(out);
        self.shotgun.write(out);
        self.uzi.write(out);
        self.minigun.write(out);
        self.longbow.write(out);
        self.airstrike.write(out);
        self.napalm_strike.write(out);
        self.mine.write(out);
        self.fire_punch.write(out);
        self.dragon_ball.write(out);
        self.kamikaze.write(out);
        self.prod.write(out);
        self.battle_axe.write(out);
        self.blowtorch.write(out);
        self.pneumatic_drill.write(out);
        self.girder.write(out);
        self.ninja_rope.write(out);
        self.parachute.write(out);
        self.bungee.write(out);
        self.teleport.write(out);
        self.dynamite.write(out);
        self.sheep.write(out);
        self.baseball_bat.write(out);
        self.flame_thrower.write(out);
        self.homing_pigeon.write(out);
        self.mad_cow.write(out);
        self.holy_hand_grenade.write(out);
        self.old_woman.write(out);
        self.sheep_launcher.write(out);
        self.super_sheep.write(out);
        self.mole_bomb.write(out);
        self.jet_pack.write(out);
        self.low_gravity.write(out);
        self.laser_sight.write(out);
        self.fast_walk.write(out);
        self.invisibility.write(out);
        self.damage_x2.write(out);
        assert(out@ =~= start + self.spec_bytes());
    }

    /// Writing a value and reading the bytes gives the value back, whatever
    /// stands before and after them.
    pub proof fn lemma_read_back(self, head: Seq<u8>, tail: Seq<u8>)
        ensures
            self.spec_bytes().len() == 180,
            Self::spec_read(head + self.spec_bytes() + tail, head.len() as int) == Ok::<
                Weapons,
                DecodeError,
            >(self),
    {
        let whole = head + self.spec_bytes() + tail;
        let at = head.len() as int;
        self.bazooka.lemma_read_at(whole, at);
        self.homing_missile.lemma_read_at(whole, at + 4);
        self.mortar.lemma_read_at(whole, at + 8);
        self.grenade.lemma_read_at(whole, at + 12);
        self.cluster_bomb.lemma_read_at(whole, at + 16);
        self.skunk.lemma_read_at(whole, at + 20);
        self.petrol_bomb.lemma_read_at(whole, at + 24);
        self.banana_bomb.lemma_read_at(whole, at + 28);
        self.handgun.lemma_read_at(whole, at + 32);
        self.shotgun.lemma_read_at(whole, at + 36);
        self.uzi.lemma_read_at(whole, at + 40);
        self.minigun.lemma_read_at(whole, at + 44);
        self.longbow.lemma_read_at(whole, at + 48);
        self.airstrike.lemma_read_at(whole, at + 52);
        self.napalm_strike.lemma_read_at(whole, at + 56);
        self.mine.lemma_read_at(whole, at + 60);
        self.fire_punch.lemma_read_at(whole, at + 64);
        self.dragon_ball.lemma_read_at(whole, at + 68);
        self.kamikaze.lemma_read_at(whole, at + 72);
        self.prod.lemma_read_at(whole, at + 76);
        self.battle_axe.lemma_read_at(whole, at + 80);
        self.blowtorch.lemma_read_at(whole, at + 84);
        self.pneumatic_drill.lemma_read_at(whole, at + 88);
        self.girder.lemma_read_at(whole, at + 92);
        self.ninja_rope.lemma_read_at(whole, at + 96);
        self.parachute.lemma_read_at(whole, at + 100);
        self.bungee.lemma_read_at(whole, at + 104);
        self.teleport.lemma_read_at(whole, at + 108);
        self.dynamite.lemma_read_at(whole, at + 112);
        self.sheep.lemma_read_at(whole, at + 116);
        self.baseball_bat.lemma_read_at(whole, at + 120);
        self.flame_thrower.lemma_read_at(whole, at + 124);
        self.homing_pigeon.lemma_read_at(whole, at + 128);
        self.mad_cow.lemma_read_at(whole, at + 132);
        self.holy_hand_grenade.lemma_read_at(whole, at + 136);
        self.old_woman.lemma_read_at(whole, at + 140);
        self.sheep_launcher.lemma_read_at(whole, at + 144);
        self.super_sheep.lemma_read_at(whole, at + 148);
        self.mole_bomb.lemma_read_at(whole, at + 152);
        self.jet_pack.lemma_read_at(whole, at + 156);
        self.low_gravity.lemma_read_at(whole, at + 160);
        self.laser_sight.lemma_read_at(whole, at + 164);
        self.fast_walk.lemma_read_at(whole, at + 168);
        self.invisibility.lemma_read_at(whole, at + 172);
        self.damage_x2.lemma_read_at(whole, at + 176);
        assert(Self::spec_at(whole, at) =~= self);
    }

    /// Reading a value and writing it gives the bytes back.
    pub proof fn lemma_write_back(b: Seq<u8>, at: int)
        requires
            0 <= at,
            Self::spec_read(b, at) is Ok,
        ensures
            Self::spec_at(b, at).spec_bytes() == b.subrange(at, at + 180),
    {
        let v = Self::spec_at(b, at);
        assert forall|i: int| 0 <= i < 180 implies v.spec_byte(i) == b[at + i] by {
            if i < 4 {
                Weapon::lemma_byte_back(b, at, i);
            } else if i < 8 {
                Weapon::lemma_byte_back(b, at + 4, i - 4);
            } else if i < 12 {
                Weapon::lemma_byte_back(b, at + 8, i - 8);
            } else if i < 16 {
                Weapon::lemma_byte_back(b, at + 12, i - 12);
            } else if i < 20 {
                Weapon::lemma_byte_back(b, at + 16, i - 16);
            } else if i < 24 {
                Weapon::lemma_byte_back(b, at + 20, i - 20);
            } else if i < 28 {
                Weapon::lemma_byte_back(b, at + 24, i - 24);
            } else if i < 32 {
                Weapon::lemma_byte_back(b, at + 28, i - 28);
            } else if i < 36 {
                Weapon::lemma_byte_back(b, at + 32, i - 32);
            } else if i < 40 {
                Weapon::lemma_byte_back(b, at + 36, i - 36);
            } else if i < 44 {
                Weapon::lemma_byte_back(b, at + 40, i - 40);
            } else if i < 48 {
                Weapon::lemma_byte_back(b, at + 44, i - 44);
            } else if i < 52 {
                Weapon::lemma_byte_back(b, at + 48, i - 48);
            } else if i < 56 {
                Weapon::lemma_byte_back(b, at + 52, i - 52);
            } else if i < 60 {
                Weapon::lemma_byte_back(b, at + 56, i - 56);
            } else if i < 64 {
                Weapon::lemma_byte_back(b, at + 60, i - 60);
            } else if i < 68 {
                Weapon::lemma_byte_back(b, at + 64, i - 64);
            } else if i < 72 {
                Weapon::lemma_byte_back(b, at + 68, i - 68);
            } else if i < 76 {
                Weapon::lemma_byte_back(b, at + 72, i - 72);
            } else if i < 80 {
                Weapon::lemma_byte_back(b, at + 76, i - 76);
            } else if i < 84 {
                Weapon::lemma_byte_back(b, at + 80, i - 80);
            } else if i < 88 {
                Weapon::lemma_byte_back(b, at + 84, i - 84);
            } else if i < 92 {
                Weapon::lemma_byte_back(b, at + 88, i - 88);
            } else if i < 96 {
                Weapon::lemma_byte_back(b, at + 92, i - 92);
            } else if i < 100 {
                Weapon::lemma_byte_back(b, at + 96, i - 96);
            } else if i < 104 {
                Weapon::lemma_byte_back(b, at + 100, i - 100);
            } else if i < 108 {
                Weapon::lemma_byte_back(b, at + 104, i - 104);
            } else if i < 112 {
                Weapon::lemma_byte_back(b, at + 108, i - 108);
            } else if i < 116 {
                Weapon::lemma_byte_back(b, at + 112, i - 112);
            } else if i < 120 {
                Weapon::lemma_byte_back(b, at + 116, i - 116);
            } else if i < 124 {
                Weapon::lemma_byte_back(b, at + 120, i - 120);
            } else if i < 128 {
                Weapon::lemma_byte_back(b, at + 124, i - 124);
            } else if i < 132 {
                Weapon::lemma_byte_back(b, at + 128, i - 128);
            } else if i < 136 {
                Weapon::lemma_byte_back(b, at + 132, i - 132);
            } else if i < 140 {
                Weapon::lemma_byte_back(b, at + 136, i - 136);
            } else if i < 144 {
                Weapon::lemma_byte_back(b, at + 140, i - 140);
            } else if i < 148 {
                Weapon::lemma_byte_back(b, at + 144, i - 144);
            } else if i < 152 {
                Weapon::lemma_byte_back(b, at + 148, i - 148);
            } else if i < 156 {
                Weapon::lemma_byte_back(b, at + 152, i - 152);
            } else if i < 160 {
                Weapon::lemma_byte_back(b, at + 156, i - 156);
            } else if i < 164 {
                Weapon::lemma_byte_back(b, at + 160, i - 160);
            } else if i < 168 {
                Weapon::lemma_byte_back(b, at + 164, i - 164);
            } else if i < 172 {
                Weapon::lemma_byte_back(b, at + 168, i - 168);
            } else if i < 176 {
                Weapon::lemma_byte_back(b, at + 172, i - 172);
            } else {
                Weapon::lemma_byte_back(b, at + 176, i - 176);
            }
        }
        assert(v.spec_bytes() =~= b.subrange(at, at + 180));
    }
}

/// The number of bytes that the table of super weapons takes on the wire.
pub const SUPER_WEAPONS_LEN: usize = 76;

/// The table of the super weapons, of the same shape as `Weapons`.
#[derive(Clone, Copy, Debug, PartialEq, Eq, Structural)]
#[verifier::ext_equal]
pub struct SuperWeapons {
    pub freeze: Weapon,
    pub super_banana_bomb: Weapon,
    pub mine_strike: Weapon,
    pub girder_starter_pack: Weapon,
    pub earthquake: Weapon,
    pub scales_of_justice: Weapon,
    pub ming_vase: Weapon,
    pub mikes_carpet_bomb: Weapon,
    pub patsys_magic_bullet: Weapon,
    pub indian_nuclear_test: Weapon,
    pub select_worm: Weapon,
    pub salvation_army: Weapon,
    pub mole_squadron: Weapon,
    pub mb_bomb: Weapon,
    pub concrete_donkey: Weapon,
    pub suicide_bomber: Weapon,
    pub sheep_strike: Weapon,
    pub mail_strike: Weapon,
    pub armageddon: Weapon,
}

impl SuperWeapons {
    /// The value whose fields are the bytes of `b` from `at` on, each field at
    /// its place in wire order.
    pub open spec fn spec_at(b: Seq<u8>, at: int) -> SuperWeapons {
        SuperWeapons {
            freeze: Weapon::spec_at(b, at),
            super_banana_bomb: Weapon::spec_at(b, at + 4),
            mine_strike: Weapon::spec_at(b, at + 8),
            girder_starter_pack: Weapon::spec_at(b, at + 12),
            earthquake: Weapon::spec_at(b, at + 16),
            scales_of_justice: Weapon::spec_at(b, at + 20),
            ming_vase: Weapon::spec_at(b, at + 24),
            mikes_carpet_bomb: Weapon::spec_at(b, at + 28),
            patsys_magic_bullet: Weapon::spec_at(b, at + 32),
            indian_nuclear_test: Weapon::spec_at(b, at + 36),
            select_worm: Weapon::spec_at(b, at + 40),
            salvation_army: Weapon::spec_at(b, at + 44),
            mole_squadron: Weapon::spec_at(b, at + 48),
            mb_bomb: Weapon::spec_at(b, at + 52),
            concrete_donkey: Weapon::spec_at(b, at + 56),
            suicide_bomber: Weapon::spec_at(b, at + 60),
            sheep_strike: Weapon::spec_at(b, at + 64),
            mail_strike: Weapon::spec_at(b, at + 68),
            armageddon: Weapon::spec_at(b, at + 72),
        }
    }

    /// The error for a buffer that ends before the value does: it names the
    /// first field that the buffer does not hold in full.
    pub open spec fn spec_cut(b: Seq<u8>, at: int) -> DecodeError {
        let end = b.len() as int;
        if end < at {
            spec_truncated(at, 1)
        } else {
            spec_truncated(end, 1)
        }
    }

    /// The first field, in wire order, that cannot be read from `at` on, as the
    /// error that reading it gives; `None` where every field can be read.
    pub open spec fn spec_fault(b: Seq<u8>, at: int) -> Option<DecodeError> {
        if spec_fits(b, at, 76) {
            None
        } else {
            Some(Self::spec_cut(b, at))
        }
    }

    /// What reading the value at `at` gives.
    pub open spec fn spec_read(b: Seq<u8>, at: int) -> Result<SuperWeapons, DecodeError> {
        match Self::spec_fault(b, at) {
            Some(e) => Err(e),
            None => Ok(Self::spec_at(b, at)),
        }
    }

    /// The byte at place `i` of the value's bytes: the fields follow each other
    /// in wire order.
    pub open spec fn spec_byte(self, i: int) -> u8 {
        if i < 4 {
            self.freeze.spec_byte(i)
        } else if i < 8 {
            self.super_banana_bomb.spec_byte(i - 4)
        } else if i < 12 {
            self.mine_strike.spec_byte(i - 8)
        } else if i < 16 {
            self.girder_starter_pack.spec_byte(i - 12)
        } else if i < 20 {
            self.earthquake.spec_byte(i - 16)
        } else if i < 24 {
            self.scales_of_justice.spec_byte(i - 20)
        } else if i < 28 {
            self.ming_vase.spec_byte(i - 24)
        } else if i < 32 {
            self.mikes_carpet_bomb.spec_byte(i - 28)
        } else if i < 36 {
            self.patsys_magic_bullet.spec_byte(i - 32)
        } else if i < 40 {
            self.indian_nuclear_test.spec_byte(i - 36)
        } else if i < 44 {
            self.select_worm.spec_byte(i - 40)
        } else if i < 48 {
            self.salvation_army.spec_byte(i - 44)
        } else if i < 52 {
            self.mole_squadron.spec_byte(i - 48)
        } else if i < 56 {
            self.mb_bomb.spec_byte(i - 52)
        } else if i < 60 {
            self.concrete_donkey.spec_byte(i - 56)
        } else if i < 64 {
            self.suicide_bomber.spec_byte(i - 60)
        } else if i < 68 {
            self.sheep_strike.spec_byte(i - 64)
        } else if i < 72 {
            self.mail_strike.spec_byte(i - 68)
        } else {
            self.armageddon.spec_byte(i - 72)
        }
    }

    /// The bytes of the value.
    pub open spec fn spec_bytes(self) -> Seq<u8> {
        Seq::new(76, |i: int| self.spec_byte(i))
    }

    /// Reads the value at `at`, field after field, and stops at the first field
    /// that cannot be read.
    pub fn read(bytes: &[u8], at: usize) -> (r: Result<SuperWeapons, DecodeError>)
        ensures
            r == Self::spec_read(bytes@, at as int),
    {
        assert(bytes@.len() == bytes.len());
        let freeze: Weapon = Weapon::read(bytes, at)?;
        let super_banana_bomb: Weapon = Weapon::read(bytes, at + 4)?;
        let mine_strike: Weapon = Weapon::read(bytes, at + 8)?;
        let girder_starter_pack: Weapon = Weapon::read(bytes, at + 12)?;
        let earthquake: Weapon = Weapon::read(bytes, at + 16)?;
        let scales_of_justice: Weapon = Weapon::read(bytes, at + 20)?;
        let ming_vase: Weapon = Weapon::read(bytes, at + 24)?;
        let mikes_carpet_bomb: Weapon = Weapon::read(bytes, at + 28)?;
        let patsys_magic_bullet: Weapon = Weapon::read(bytes, at + 32)?;
        let indian_nuclear_test: Weapon = Weapon::read(bytes, at + 36)?;
        let select_worm: Weapon = Weapon::read(bytes, at + 40)?;
        let salvation_army: Weapon = Weapon::read(bytes, at + 44)?;
        let mole_squadron: Weapon = Weapon::read(bytes, at + 48)?;
        let mb_bomb: Weapon = Weapon::read(bytes, at + 52)?;
        let concrete_donkey: Weapon = Weapon::read(bytes, at + 56)?;
        let suicide_bomber: Weapon = Weapon::read(bytes, at + 60)?;
        let sheep_strike: Weapon = Weapon::read(bytes, at + 64)?;
        let mail_strike: Weapon = Weapon::read(bytes, at + 68)?;
        let armageddon: Weapon = Weapon::read(bytes, at + 72)?;
        let value = SuperWeapons {
            freeze, super_banana_bomb, mine_strike, girder_starter_pack, earthquake,
            scales_of_justice, ming_vase, mikes_carpet_bomb, patsys_magic_bullet,
            indian_nuclear_test, select_worm, salvation_army, mole_squadron, mb_bomb,
            concrete_donkey, suicide_bomber, sheep_strike, mail_strike, armageddon,
        };
        assert(value =~= Self::spec_at(bytes@, at as int));
        Ok(value)
    }

    /// Appends the bytes of the value.
    pub fn write(&self, out: &mut Vec<u8>)
        ensures
            final(out)@ == old(out)@ + self.spec_bytes(),
    {
        let ghost start = out@;
        self.freeze.write(out);
        self.super_banana_bomb.write(out);
        self.mine_strike.write(out);
        self.girder_starter_pack.write(out);
        self.earthquake.write(out);
        self.scales_of_justice.write(out);
        self.ming_vase.write(out);
        self.mikes_carpet_bomb.write(out);
        self.patsys_magic_bullet.write(out);
        self.indian_nuclear_test.write(out);
        self.select_worm.write(out);
        self.salvation_army.write(out);
        self.mole_squadron.write(out);
        self.mb_bomb.write(out);
        self.concrete_donkey.write(out);
        self.suicide_bomber.write(out);
        self.sheep_strike.write(out);
        self.mail_strike.write(out);
        self.armageddon.write(out);
        assert(out@ =~= start + self.spec_bytes());
    }

    /// Writing a value and reading the bytes gives the value back, whatever
    /// stands before and after them.
    pub proof fn lemma_read_back(self, head: Seq<u8>, tail: Seq<u8>)
        ensures
            self.spec_bytes().len() == 76,
            Self::spec_read(head + self.spec_bytes() + tail, head.len() as int) == Ok::<
                SuperWeapons,
                DecodeError,
            >(self),
    {
        let whole = head + self.spec_bytes() + tail;
        let at = head.len() as int;
        self.freeze.lemma_read_at(whole, at);
        self.super_banana_bomb.lemma_read_at(whole, at + 4);
        self.mine_strike.lemma_read_at(whole, at + 8);
        self.girder_starter_pack.lemma_read_at(whole, at + 12);
        self.earthquake.lemma_read_at(whole, at + 16);
        self.scales_of_justice.lemma_read_at(whole, at + 20);
        self.ming_vase.lemma_read_at(whole, at + 24);
        self.mikes_carpet_bomb.lemma_read_at(whole, at + 28);
        self.patsys_magic_bullet.lemma_read_at(whole, at + 32);
        self.indian_nuclear_test.lemma_read_at(whole, at + 36);
        self.select_worm.lemma_read_at(whole, at + 40);
        self.salvation_army.lemma_read_at(whole, at + 44);
        self.mole_squadron.lemma_read_at(whole, at + 48);
        self.mb_bomb.lemma_read_at(whole, at + 52);
        self.concrete_donkey.lemma_read_at(whole, at + 56);
        self.suicide_bomber.lemma_read_at(whole, at + 60);
        self.sheep_strike.lemma_read_at(whole, at + 64);
        self.mail_strike.lemma_read_at(whole, at + 68);
        self.armageddon.lemma_read_at(whole, at + 72);
        assert(Self::spec_at(whole, at) =~= self);
    }

    /// Reading a value and writing it gives the bytes back.
    pub proof fn lemma_write_back(b: Seq<u8>, at: int)
        requires
            0 <= at,
            Self::spec_read(b, at) is Ok,
        ensures
            Self::spec_at(b, at).spec_bytes() == b.subrange(at, at + 76),
    {
        let v = Self::spec_at(b, at);
        assert forall|i: int| 0 <= i < 76 implies v.spec_byte(i) == b[at + i] by {
            if i < 4 {
                Weapon::lemma_byte_back(b, at, i);
            } else if i < 8 {
                Weapon::lemma_byte_back(b, at + 4, i - 4);
            } else if i < 12 {
                Weapon::lemma_byte_back(b, at + 8, i - 8);
            } else if i < 16 {
                Weapon::lemma_byte_back(b, at + 12, i - 12);
            } else if i < 20 {
                Weapon::lemma_byte_back(b, at + 16, i - 16);
            } else if i < 24 {
                Weapon::lemma_byte_back(b, at + 20, i - 20);
            } else if i < 28 {
                Weapon::lemma_byte_back(b, at + 24, i - 24);
            } else if i < 32 {
                Weapon::lemma_byte_back(b, at + 28, i - 28);
            } else if i < 36 {
                Weapon::lemma_byte_back(b, at + 32, i - 32);
            } else if i < 40 {
                Weapon::lemma_byte_back(b, at + 36, i - 36);
            } else if i < 44 {
                Weapon::lemma_byte_back(b, at + 40, i - 40);
            } else if i < 48 {
                Weapon::lemma_byte_back(b, at + 44, i - 44);
            } else if i < 52 {
                Weapon::lemma_byte_back(b, at + 48, i - 48);
            } else if i < 56 {
                Weapon::lemma_byte_back(b, at + 52, i - 52);
            } else if i < 60 {
                Weapon::lemma_byte_back(b, at + 56, i - 56);
            } else if i < 64 {
                Weapon::lemma_byte_back(b, at + 60, i - 60);
            } else if i < 68 {
                Weapon::lemma_byte_back(b, at + 64, i - 64);
            } else if i < 72 {
                Weapon::lemma_byte_back(b, at + 68, i - 68);
            } else {
                Weapon::lemma_byte_back(b, at + 72, i - 72);
            }
        }
        assert(v.spec_bytes() =~= b.subrange(at, at + 76));
    }
}

} // verus!
