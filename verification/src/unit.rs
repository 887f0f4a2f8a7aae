//! The unit data model: archetype descriptors, flags, costs, health blocks,
//! and the weapon-selection contract the battle coordinator relies on.

use vstd::prelude::*;

use crate::fixed::Fixed32;
use crate::weapon::{weapon_wf, Weapon};

verus! {

/// The archetype key: one tag per unit kind.
#[derive(Clone, Copy, PartialEq, Eq, Structural, Hash, Debug)]
pub enum Base {
    /// A custom unit outside the stock roster.
    Custom,
    Probe,
    Zealot,
    Stalker,
    Adept,
    Sentry,
    HighTemplar,
    DarkTemplar,
    Archon,
    Observer,
    WarpPrism,
    Immortal,
    Colossus,
    Disruptor,
    Phoenix,
    VoidRay,
    Oracle,
    Tempest,
    Carrier,
    Interceptor,
    Mothership,
    SCV,
    MULE,
    Marine,
    Reaper,
    Marauder,
    GhostUnit,
    Hellion,
    Hellbat,
    WidowMine,
    WidowMineBurrowed,
    Cyclone,
    SiegeTank,
    SiegeTankSieged,
    Thor,
    ThorAlt,
    VikingGround,
    VikingAir,
    Medivac,
    Liberator,
    LiberatorSieged,
    Raven,
    Banshee,
    Battlecruiser,
    Drone,
    Larva,
    Cocoon,
    Overlord,
    Overseer,
    Queen,
    Zergling,
    Baneling,
    Roach,
    RoachBurrowed,
    Ravager,
    RavagerCocoon,
    Hydralisk,
    Lurker,
    LurkerBurrowed,
    LurkerEgg,
    Mutalisk,
    Corruptor,
    SwarmHost,
    Locust,
    LocustFlying,
    Infestor,
    InfestorBurrowed,
    Viper,
    Ultralisk,
    BroodLord,
    Broodling,
    Changeling,
}

/// A single archetype attribute flag.
#[derive(Clone, Copy, PartialEq, Eq, Structural, Debug)]
pub enum Flag {
    NoFlag,
    Light,
    Armored,
    Biological,
    Massive,
    Mechanical,
    Psionic,
    Structure,
    Heroic,
    AlwaysThreat,
}

/// The faction an archetype belongs to.
#[derive(Clone, Copy, PartialEq, Eq, Structural, Debug)]
pub enum Faction {
    Custom,
    Protoss,
    Terran,
    Zerg,
}

/// The collision plane of a unit or the target filter of a weapon.
#[derive(Clone, Copy, PartialEq, Eq, Structural, Debug)]
pub enum Collision {
    /// Interacts with nothing (a unit under stasis).
    NoPlane,
    Ground,
    Flying,
    /// Occupies both planes (the colossus).
    Both,
}

impl Collision {
    /// Whether two planes can touch: nothing touches `None`, `Both` touches
    /// every real plane, and the single planes touch themselves or `Both`.
    pub open spec fn spec_can_interact(self, other: Collision) -> bool {
        match self {
            Collision::NoPlane => false,
            Collision::Ground | Collision::Flying => self == other || other == Collision::Both,
            Collision::Both => other != Collision::NoPlane,
        }
    }

    /// True when the two planes can touch.
    pub fn can_interact(&self, other: Collision) -> (r: bool)
        ensures
            r == self.spec_can_interact(other),
    {
        match self {
            Collision::NoPlane => false,
            Collision::Ground | Collision::Flying => *self == other || other == Collision::Both,
            Collision::Both => other != Collision::NoPlane,
        }
    }
}

/// Coarse threat classes used by target-priority rules.
#[derive(Clone, Copy, PartialEq, Eq, Structural, Debug)]
pub enum ThreatLevel {
    NoThreat,
    Cocoon,
    Building,
    Low,
    Normal,
}

/// The attribute flag set of an archetype, one field per flag.
#[derive(Clone, Copy, PartialEq, Eq, Structural, Debug)]
pub struct Flags {
    pub light: bool,
    pub armored: bool,
    pub biological: bool,
    pub massive: bool,
    pub mechanical: bool,
    pub psionic: bool,
    pub structure: bool,
    pub heroic: bool,
    pub always_threat: bool,
}

impl Flags {
    /// Whether the given flag is set; the empty flag is never set.
    pub open spec fn spec_is(self, flag: Flag) -> bool {
        match flag {
            Flag::NoFlag => false,
            Flag::Light => self.light,
            Flag::Armored => self.armored,
            Flag::Biological => self.biological,
            Flag::Massive => self.massive,
            Flag::Mechanical => self.mechanical,
            Flag::Psionic => self.psionic,
            Flag::Structure => self.structure,
            Flag::Heroic => self.heroic,
            Flag::AlwaysThreat => self.always_threat,
        }
    }

    /// Builds a flag set from one boolean per flag.
    #[allow(clippy::too_many_arguments)]
    pub fn new(
        light: bool,
        armored: bool,
        mechanical: bool,
        biological: bool,
        massive: bool,
        psionic: bool,
        structure: bool,
        heroic: bool,
        always_threat: bool,
    ) -> (r: Flags)
        ensures
            r.light == light,
            r.armored == armored,
            r.mechanical == mechanical,
            r.biological == biological,
            r.massive == massive,
            r.psionic == psionic,
            r.structure == structure,
            r.heroic == heroic,
            r.always_threat == always_threat,
    {
        Flags { light, armored, biological, massive, mechanical, psionic, structure, heroic, always_threat }
    }

    /// The empty flag set.
    pub fn none() -> (r: Flags)
        ensures
            forall|f: Flag| !r.spec_is(f),
    {
        let r = Flags {
            light: false,
            armored: false,
            biological: false,
            massive: false,
            mechanical: false,
            psionic: false,
            structure: false,
            heroic: false,
            always_threat: false,
        };
        proof {
            assert forall|f: Flag| !r.spec_is(f) by {}
        }
        r
    }

    /// True when the given flag is set.
    pub fn is(&self, flag: Flag) -> (r: bool)
        ensures
            r == self.spec_is(flag),
    {
        match flag {
            Flag::NoFlag => false,
            Flag::Light => self.light,
            Flag::Armored => self.armored,
            Flag::Biological => self.biological,
            Flag::Massive => self.massive,
            Flag::Mechanical => self.mechanical,
            Flag::Psionic => self.psionic,
            Flag::Structure => self.structure,
            Flag::Heroic => self.heroic,
            Flag::AlwaysThreat => self.always_threat,
        }
    }
}

/// The build price of an archetype.
#[derive(Clone, Copy, Debug)]
pub struct Cost {
    pub minerals: Fixed32,
    pub gas: Fixed32,
    /// Fractional: some units occupy half a supply slot.
    pub supply: Fixed32,
    pub build_time: Fixed32,
}

impl Cost {
    /// Builds a cost from whole mineral, gas and supply counts.
    pub fn new(minerals: u32, gas: u32, supply: u8, build_time: Fixed32) -> (r: Cost)
        ensures
            r.minerals@ == crate::fixed::from_i32_raw((minerals as i32) as int),
            r.gas@ == crate::fixed::from_i32_raw((gas as i32) as int),
            r.supply@ == supply * 4096,
            r.build_time == build_time,
    {
        Cost {
            minerals: Fixed32::from_u32(minerals),
            gas: Fixed32::from_u32(gas),
            supply: Fixed32::from_u8(supply),
            build_time,
        }
    }

    /// A cost of nothing.
    pub fn free() -> (r: Cost)
        ensures
            r.minerals@ == 0,
            r.gas@ == 0,
            r.supply@ == 0,
            r.build_time@ == 0,
    {
        Cost {
            minerals: Fixed32::zero(),
            gas: Fixed32::zero(),
            supply: Fixed32::zero(),
            build_time: Fixed32::zero(),
        }
    }

    /// Minerals and gas together.
    pub fn total_resources(&self) -> (r: Fixed32)
        ensures
            r@ == crate::fixed::add_raw(self.minerals@, self.gas@),
    {
        self.minerals.const_add(self.gas)
    }

    /// True when the unit costs no resources at all.
    pub fn is_free(&self) -> (r: bool)
        ensures
            r == (crate::fixed::add_raw(self.minerals@, self.gas@) == 0),
    {
        self.total_resources().const_eq(Fixed32::zero())
    }

    /// Field-wise wrapping sum of two costs.
    pub fn plus(self, rhs: Cost) -> (r: Cost)
        ensures
            r.minerals@ == crate::fixed::add_raw(self.minerals@, rhs.minerals@),
            r.gas@ == crate::fixed::add_raw(self.gas@, rhs.gas@),
            r.supply@ == crate::fixed::add_raw(self.supply@, rhs.supply@),
            r.build_time@ == crate::fixed::add_raw(self.build_time@, rhs.build_time@),
    {
        Cost {
            minerals: self.minerals.const_add(rhs.minerals),
            gas: self.gas.const_add(rhs.gas),
            supply: self.supply.const_add(rhs.supply),
            build_time: self.build_time.const_add(rhs.build_time),
        }
    }

    /// Field-wise wrapping difference of two costs.
    pub fn minus(self, rhs: Cost) -> (r: Cost)
        ensures
            r.minerals@ == crate::fixed::sub_raw(self.minerals@, rhs.minerals@),
            r.gas@ == crate::fixed::sub_raw(self.gas@, rhs.gas@),
            r.supply@ == crate::fixed::sub_raw(self.supply@, rhs.supply@),
            r.build_time@ == crate::fixed::sub_raw(self.build_time@, rhs.build_time@),
    {
        Cost {
            minerals: self.minerals.const_sub(rhs.minerals),
            gas: self.gas.const_sub(rhs.gas),
            supply: self.supply.const_sub(rhs.supply),
            build_time: self.build_time.const_sub(rhs.build_time),
        }
    }
}

/// One health pool (hull or shields) of an archetype.
#[derive(Clone, Copy, Debug)]
pub struct Health {
    pub max: Fixed32,
    pub regen: Fixed32,
    pub delay: Fixed32,
    pub armor: Fixed32,
}

/// Well-formedness of a health pool: every statistic nonnegative and small
/// enough that per-tick arithmetic cannot wrap.
pub open spec fn health_wf(h: Health) -> bool {
    &&& 0 <= h.max@ <= crate::STAT_MAX_BITS
    &&& 0 <= h.regen@ <= crate::STAT_MAX_BITS
    &&& 0 <= h.delay@ <= crate::STAT_MAX_BITS
    &&& 0 <= h.armor@ <= crate::STAT_MAX_BITS
}

impl Health {
    /// A health pool with the given maximum and armor and no regeneration.
    pub fn new(max: Fixed32, armor: Fixed32) -> (r: Health)
        ensures
            r.max == max,
            r.armor == armor,
            r.regen@ == 0,
            r.delay@ == 0,
    {
        Health { max, regen: Fixed32::zero(), delay: Fixed32::zero(), armor }
    }

    /// An empty health pool.
    pub fn zero() -> (r: Health)
        ensures
            r.max@ == 0,
            r.regen@ == 0,
            r.delay@ == 0,
            r.armor@ == 0,
            health_wf(r),
    {
        Health {
            max: Fixed32::zero(),
            regen: Fixed32::zero(),
            delay: Fixed32::zero(),
            armor: Fixed32::zero(),
        }
    }
}

/// The movement statistics of an archetype; the resolver stores them but
/// exercises no movement physics.
#[derive(Clone, Copy, Debug)]
pub struct Movement {
    pub speed: Fixed32,
    pub accel: Fixed32,
    pub decel: Fixed32,
    pub turn_rate: Fixed32,
    pub lateral_accel: Fixed32,
}

impl Movement {
    /// A unit that does not move.
    pub fn still() -> (r: Movement)
        ensures
            r.speed@ == 0,
    {
        Movement {
            speed: Fixed32::zero(),
            accel: Fixed32::zero(),
            decel: Fixed32::zero(),
            turn_rate: Fixed32::zero(),
            lateral_accel: Fixed32::zero(),
        }
    }
}

/// The army-wide upgrade levels; the resolver reads none of them yet.
#[derive(Clone, Copy, Debug)]
pub enum BasicUpgrades {
    Generic { weapons: u8, armor: u8 },
    Protoss { ground_weapons: u8, ground_armor: u8, air_weapons: u8, air_armor: u8, shields: u8 },
    Terran {
        infantry_weapons: u8,
        infantry_armor: u8,
        vehicle_weapons: u8,
        ship_weapons: u8,
        plating: u8,
    },
    Zerg {
        melee_weapons: u8,
        ranged_weapons: u8,
        ground_armor: u8,
        air_weapons: u8,
        air_armor: u8,
    },
}

impl BasicUpgrades {
    /// No upgrades researched.
    pub fn none() -> (r: BasicUpgrades)
        ensures
            r == (BasicUpgrades::Generic { weapons: 0u8, armor: 0u8 }),
    {
        BasicUpgrades::Generic { weapons: 0, armor: 0 }
    }
}

/// An immutable archetype descriptor, keyed by its `Base` tag.
#[derive(Clone, Debug)]
pub struct Unit {
    pub base: Base,
    pub faction: Faction,
    pub collision: Collision,
    pub flags: Flags,
    pub hull: Health,
    pub shields: Health,
    pub movement: Movement,
    pub cost: Cost,
    pub size: Fixed32,
    pub cargo_size: Fixed32,
    pub sight: Fixed32,
    pub weapons: [Option<Weapon>; 2],
    pub push_priority: Fixed32,
    pub energy_start: Fixed32,
    pub energy_max: Fixed32,
}

/// Well-formedness of an archetype: bounded health pools, bounded energy,
/// and well-formed weapons.
pub open spec fn unit_wf(u: Unit) -> bool {
    &&& health_wf(u.hull)
    &&& health_wf(u.shields)
    &&& u.hull.max@ > 0
    &&& 0 <= u.energy_start@ <= u.energy_max@
    &&& 0 <= u.energy_max@ <= crate::STAT_MAX_BITS
    &&& (u.weapons[0] matches Some(w) ==> weapon_wf(w))
    &&& (u.weapons[1] matches Some(w) ==> weapon_wf(w))
}

/// The weapon an archetype would use against the given collision plane: the
/// first of its two slots whose target filter matches.
pub open spec fn spec_weapon_against(u: Unit, target: Collision) -> Option<Weapon> {
    if u.weapons[0] matches Some(w) && w.spec_can_hit(target) {
        Some(u.weapons[0]->Some_0)
    } else if u.weapons[1] matches Some(w) && w.spec_can_hit(target) {
        Some(u.weapons[1]->Some_0)
    } else {
        None
    }
}

impl Unit {
    /// The first weapon slot whose target filter matches the target's
    /// collision plane, or nothing when neither matches.
    pub fn try_get_weapon(&self, target: &Unit) -> (r: Option<&Weapon>)
        ensures
            match r {
                Some(w) => spec_weapon_against(*self, target.collision) == Some(*w),
                None => spec_weapon_against(*self, target.collision) is None,
            },
    {
        match &self.weapons[0] {
            Some(w) if w.can_hit(target.collision) => Some(w),
            _ => match &self.weapons[1] {
                Some(w) if w.can_hit(target.collision) => Some(w),
                _ => None,
            },
        }
    }

    /// True when the archetype carries the given flag.
    pub fn has_flag(&self, flag: Flag) -> (r: bool)
        ensures
            r == self.flags.spec_is(flag),
    {
        self.flags.is(flag)
    }
}

} // verus!
