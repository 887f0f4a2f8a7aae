//! The stock archetype roster the simulator ships with. Archetypes are
//! plain constant data assembled by constructor functions; the external
//! data pipeline that produces the full roster is out of the core's scope.

use vstd::prelude::*;

use crate::fixed::Fixed32;
use crate::unit::{unit_wf, Base, Collision, Cost, Faction, Flag, Flags, Health, Movement, Unit};
use crate::utils::RangeInclusive;
use crate::weapon::{Multihit, Weapon, WeaponKind};

verus! {

/// A health pool with the given whole-unit maximum, armor, and raw regen.
fn pool(max_units: u32, armor_units: u32, regen_bits: i32, delay_bits: i32) -> (r: Health)
    requires
        max_units <= 4000,
        armor_units <= 4000,
        0 <= regen_bits <= crate::STAT_MAX_BITS,
        0 <= delay_bits <= crate::STAT_MAX_BITS,
    ensures
        r.max@ == max_units * 4096,
        r.armor@ == armor_units * 4096,
        r.regen@ == regen_bits,
        r.delay@ == delay_bits,
        crate::unit::health_wf(r),
    {
    Health {
        max: Fixed32::from_u32(max_units),
        regen: Fixed32 { bits: regen_bits },
        delay: Fixed32 { bits: delay_bits },
        armor: Fixed32::from_u32(armor_units),
    }
}

/// A protoss shield pool: standard recharge rate and delay.
fn shield_pool(max_units: u32) -> (r: Health)
    requires
        max_units <= 4000,
    ensures
        r.max@ == max_units * 4096,
        r.armor@ == 0,
        r.regen@ == crate::SHIELD_RECHARGE_RATE_BITS,
        crate::unit::health_wf(r),
    {
    pool(max_units, 0, crate::SHIELD_RECHARGE_RATE_BITS, crate::SHIELD_RECHARGE_DELAY_BITS)
}

/// The stalker: an armored mechanical walker with a single-target
/// projectile gun that punishes armor.
pub fn stalker() -> (r: Unit)
    ensures
        unit_wf(r),
        r.base == Base::Stalker,
        r.hull.max@ == 80 * 4096,
        r.shields.max@ == 80 * 4096,
{
    Unit {
        base: Base::Stalker,
        faction: Faction::Protoss,
        collision: Collision::Ground,
        flags: Flags::new(false, true, true, false, false, false, false, false, false),
        hull: pool(80, 1, 0, 0),
        shields: shield_pool(80),
        movement: Movement::still(),
        cost: Cost::new(125, 50, 2, Fixed32 { bits: 122880 }),
        size: Fixed32 { bits: 2560 },
        cargo_size: Fixed32::two(),
        sight: Fixed32::from_u32(10),
        weapons: [
            Some(
                Weapon::new(
                    13,
                    WeaponKind::Projectile,
                    Multihit::Single,
                    Fixed32 { bits: 5471 },
                    5,
                    Some(Flag::Armored),
                    Collision::Both,
                    [1, 1],
                    RangeInclusive::new(Fixed32::zero(), Fixed32::from_u32(6)),
                    Fixed32 { bits: crate::DEFAULT_BACKSWING_BITS },
                    Fixed32 { bits: crate::DEFAULT_DAMAGE_POINT_BITS },
                ),
            ),
            None,
        ],
        push_priority: Fixed32::from_u32(10),
        energy_start: Fixed32::zero(),
        energy_max: Fixed32::zero(),
    }
}

/// The marine: light biological infantry with a fast hitscan rifle.
pub fn marine() -> (r: Unit)
    ensures
        unit_wf(r),
        r.base == Base::Marine,
        r.hull.max@ == 45 * 4096,
        r.shields.max@ == 0,
{
    Unit {
        base: Base::Marine,
        faction: Faction::Terran,
        collision: Collision::Ground,
        flags: Flags::new(true, false, false, true, false, false, false, false, false),
        hull: pool(45, 0, 0, 0),
        shields: Health::zero(),
        movement: Movement::still(),
        cost: Cost::new(50, 0, 1, Fixed32 { bits: 73142 }),
        size: Fixed32 { bits: 1536 },
        cargo_size: Fixed32::one(),
        sight: Fixed32::from_u32(9),
        weapons: [
            Some(
                Weapon::new(
                    6,
                    WeaponKind::Hitscan,
                    Multihit::Single,
                    Fixed32 { bits: 2518 },
                    0,
                    None,
                    Collision::Both,
                    [1, 0],
                    RangeInclusive::new(Fixed32::zero(), Fixed32::from_u32(5)),
                    Fixed32 { bits: crate::DEFAULT_BACKSWING_BITS },
                    Fixed32 { bits: crate::DEFAULT_DAMAGE_POINT_BITS },
                ),
            ),
            None,
        ],
        push_priority: Fixed32::from_u32(10),
        energy_start: Fixed32::zero(),
        energy_max: Fixed32::zero(),
    }
}

/// The marauder: armored infantry whose slugs punish armor.
pub fn marauder() -> (r: Unit)
    ensures
        unit_wf(r),
        r.base == Base::Marauder,
        r.hull.max@ == 125 * 4096,
{
    Unit {
        base: Base::Marauder,
        faction: Faction::Terran,
        collision: Collision::Ground,
        flags: Flags::new(false, true, false, true, false, false, false, false, false),
        hull: pool(125, 1, 0, 0),
        shields: Health::zero(),
        movement: Movement::still(),
        cost: Cost::new(100, 25, 2, Fixed32 { bits: 87771 }),
        size: Fixed32 { bits: 2560 },
        cargo_size: Fixed32::two(),
        sight: Fixed32::from_u32(10),
        weapons: [
            Some(
                Weapon::new(
                    10,
                    WeaponKind::Hitscan,
                    Multihit::Single,
                    Fixed32 { bits: 4388 },
                    10,
                    Some(Flag::Armored),
                    Collision::Ground,
                    [1, 1],
                    RangeInclusive::new(Fixed32::zero(), Fixed32::from_u32(6)),
                    Fixed32 { bits: crate::DEFAULT_BACKSWING_BITS },
                    Fixed32 { bits: crate::DEFAULT_DAMAGE_POINT_BITS },
                ),
            ),
            None,
        ],
        push_priority: Fixed32::from_u32(10),
        energy_start: Fixed32::zero(),
        energy_max: Fixed32::zero(),
    }
}

/// The roach: an armored regenerating skirmisher with an acid projectile.
pub fn roach() -> (r: Unit)
    ensures
        unit_wf(r),
        r.base == Base::Roach,
        r.hull.max@ == 145 * 4096,
{
    Unit {
        base: Base::Roach,
        faction: Faction::Zerg,
        collision: Collision::Ground,
        flags: Flags::new(false, true, false, true, false, false, false, false, false),
        hull: pool(145, 1, crate::ZERG_REGEN_BITS, 0),
        shields: Health::zero(),
        movement: Movement::still(),
        cost: Cost::new(75, 25, 2, Fixed32 { bits: 78994 }),
        size: Fixed32 { bits: 2560 },
        cargo_size: Fixed32::two(),
        sight: Fixed32::from_u32(9),
        weapons: [
            Some(
                Weapon::new(
                    16,
                    WeaponKind::Projectile,
                    Multihit::Single,
                    Fixed32 { bits: 5851 },
                    0,
                    None,
                    Collision::Ground,
                    [2, 0],
                    RangeInclusive::new(Fixed32::zero(), Fixed32::from_u32(4)),
                    Fixed32 { bits: crate::DEFAULT_BACKSWING_BITS },
                    Fixed32 { bits: crate::DEFAULT_DAMAGE_POINT_BITS },
                ),
            ),
            None,
        ],
        push_priority: Fixed32::from_u32(10),
        energy_start: Fixed32::zero(),
        energy_max: Fixed32::zero(),
    }
}

/// The archon: a towering psionic mass, nearly all shields, whose bolts
/// punish biological targets.
pub fn archon() -> (r: Unit)
    ensures
        unit_wf(r),
        r.base == Base::Archon,
        r.hull.max@ == 10 * 4096,
        r.shields.max@ == 350 * 4096,
{
    Unit {
        base: Base::Archon,
        faction: Faction::Protoss,
        collision: Collision::Ground,
        flags: Flags::new(false, false, false, false, true, true, false, false, false),
        hull: pool(10, 0, 0, 0),
        shields: shield_pool(350),
        movement: Movement::still(),
        cost: Cost::new(175, 275, 4, Fixed32 { bits: 35108 }),
        size: Fixed32 { bits: 4096 },
        cargo_size: Fixed32::from_u32(4),
        sight: Fixed32::from_u32(9),
        weapons: [
            Some(
                Weapon::new(
                    25,
                    WeaponKind::Hitscan,
                    Multihit::Single,
                    Fixed32 { bits: 3657 },
                    10,
                    Some(Flag::Biological),
                    Collision::Both,
                    [3, 1],
                    RangeInclusive::new(Fixed32::zero(), Fixed32::from_u32(3)),
                    Fixed32 { bits: crate::DEFAULT_BACKSWING_BITS },
                    Fixed32 { bits: crate::DEFAULT_DAMAGE_POINT_BITS },
                ),
            ),
            None,
        ],
        push_priority: Fixed32::from_u32(10),
        energy_start: Fixed32::zero(),
        energy_max: Fixed32::zero(),
    }
}

/// The carrier: an armored capital ship that fights through the eight
/// interceptors it carries and has no gun of its own.
pub fn carrier() -> (r: Unit)
    ensures
        unit_wf(r),
        r.base == Base::Carrier,
        r.hull.max@ == 300 * 4096,
        r.shields.max@ == 150 * 4096,
        r.weapons[0] is None,
        r.weapons[1] is None,
{
    Unit {
        base: Base::Carrier,
        faction: Faction::Protoss,
        collision: Collision::Flying,
        flags: Flags::new(false, true, true, false, true, false, false, false, false),
        hull: pool(300, 2, 0, 0),
        shields: shield_pool(150),
        movement: Movement::still(),
        cost: Cost::new(350, 250, 6, Fixed32 { bits: 187977 }),
        size: Fixed32 { bits: 10240 },
        cargo_size: Fixed32::from_u32(8),
        sight: Fixed32::from_u32(12),
        weapons: [None, None],
        push_priority: Fixed32::from_u32(10),
        energy_start: Fixed32::zero(),
        energy_max: Fixed32::zero(),
    }
}

/// The interceptor: a tiny drone launched by a carrier, striking twice per
/// pass.
pub fn interceptor() -> (r: Unit)
    ensures
        unit_wf(r),
        r.base == Base::Interceptor,
        r.hull.max@ == 40 * 4096,
        r.shields.max@ == 40 * 4096,
{
    Unit {
        base: Base::Interceptor,
        faction: Faction::Protoss,
        collision: Collision::Flying,
        flags: Flags::new(true, false, true, false, false, false, false, false, false),
        hull: pool(40, 0, 0, 0),
        shields: shield_pool(40),
        movement: Movement::still(),
        cost: Cost::new(15, 0, 0, Fixed32 { bits: 26331 }),
        size: Fixed32 { bits: 1024 },
        cargo_size: Fixed32::zero(),
        sight: Fixed32::from_u32(7),
        weapons: [
            Some(
                Weapon::new(
                    5,
                    WeaponKind::Hitscan,
                    Multihit::Instant(Fixed32 { bits: 8192 }),
                    Fixed32 { bits: 6261 },
                    0,
                    None,
                    Collision::Both,
                    [1, 0],
                    RangeInclusive::new(Fixed32::zero(), Fixed32::two()),
                    Fixed32 { bits: crate::DEFAULT_BACKSWING_BITS },
                    Fixed32 { bits: crate::DEFAULT_DAMAGE_POINT_BITS },
                ),
            ),
            None,
        ],
        push_priority: Fixed32::from_u32(10),
        energy_start: Fixed32::zero(),
        energy_max: Fixed32::zero(),
    }
}

/// The broodling: a short-lived melee creature spawned by a brood lord.
pub fn broodling() -> (r: Unit)
    ensures
        unit_wf(r),
        r.base == Base::Broodling,
        r.hull.max@ == 30 * 4096,
{
    Unit {
        base: Base::Broodling,
        faction: Faction::Zerg,
        collision: Collision::Ground,
        flags: Flags::new(true, false, false, true, false, false, false, false, false),
        hull: pool(30, 0, crate::ZERG_REGEN_BITS, 0),
        shields: Health::zero(),
        movement: Movement::still(),
        cost: Cost::new(0, 0, 0, Fixed32::zero()),
        size: Fixed32 { bits: 1024 },
        cargo_size: Fixed32::zero(),
        sight: Fixed32::from_u32(7),
        weapons: [
            Some(
                Weapon::new(
                    4,
                    WeaponKind::Melee,
                    Multihit::Single,
                    Fixed32 { bits: 1667 },
                    0,
                    None,
                    Collision::Ground,
                    [1, 0],
                    RangeInclusive::new(Fixed32::zero(), Fixed32::one_half()),
                    Fixed32 { bits: crate::DEFAULT_BACKSWING_BITS },
                    Fixed32 { bits: crate::DEFAULT_DAMAGE_POINT_BITS },
                ),
            ),
            None,
        ],
        push_priority: Fixed32::from_u32(10),
        energy_start: Fixed32::zero(),
        energy_max: Fixed32::zero(),
    }
}

/// The locust: a swarm host's expendable assault spawn.
pub fn locust() -> (r: Unit)
    ensures
        unit_wf(r),
        r.base == Base::Locust,
        r.hull.max@ == 50 * 4096,
{
    Unit {
        base: Base::Locust,
        faction: Faction::Zerg,
        collision: Collision::Ground,
        flags: Flags::new(true, false, false, true, false, false, false, false, false),
        hull: pool(50, 0, crate::ZERG_REGEN_BITS, 0),
        shields: Health::zero(),
        movement: Movement::still(),
        cost: Cost::new(0, 0, 0, Fixed32::zero()),
        size: Fixed32 { bits: 1536 },
        cargo_size: Fixed32::zero(),
        sight: Fixed32::from_u32(6),
        weapons: [
            Some(
                Weapon::new(
                    10,
                    WeaponKind::Hitscan,
                    Multihit::Single,
                    Fixed32 { bits: 1755 },
                    0,
                    None,
                    Collision::Ground,
                    [1, 0],
                    RangeInclusive::new(Fixed32::zero(), Fixed32::from_u32(3)),
                    Fixed32 { bits: crate::DEFAULT_BACKSWING_BITS },
                    Fixed32 { bits: crate::DEFAULT_DAMAGE_POINT_BITS },
                ),
            ),
            None,
        ],
        push_priority: Fixed32::from_u32(10),
        energy_start: Fixed32::zero(),
        energy_max: Fixed32::zero(),
    }
}

/// Raw bits of the gateway build time of a zealot.
pub const ZEALOT_GATEWAY_BITS: i32 = 111184;

/// Raw bits of the gateway build time of a stalker or adept.
pub const STALKER_GATEWAY_BITS: i32 = 122888;

/// Raw bits of the build time of a sentry, through either structure.
pub const SENTRY_BOTH_BITS: i32 = 93628;

/// Raw bits of the gateway build time of a templar.
pub const TEMPLAR_GATEWAY_BITS: i32 = 160925;

/// Raw bits of the warpgate build time of a zealot or adept.
pub const WARP_ZEALOT_BITS: i32 = 81925;

/// Raw bits of the warpgate build time of a stalker or sentry.
pub const WARP_STALKER_BITS: i32 = SENTRY_BOTH_BITS;

/// Raw bits of the warpgate build time of a templar.
pub const WARP_TEMPLAR_BITS: i32 = 131666;

/// Raw bits of the fast warp-in delay.
pub const FAST_WARPIN_BITS: i32 = 20480;

/// Raw bits of the slow warp-in delay.
pub const SLOW_WARPIN_BITS: i32 = 65536;

/// The build time a gateway unit takes, by its base tag; units built
/// elsewhere keep the given time.
pub open spec fn spec_gateway_time(base: Base, current: int) -> int {
    match base {
        Base::Zealot => ZEALOT_GATEWAY_BITS as int,
        Base::Adept | Base::Stalker => STALKER_GATEWAY_BITS as int,
        Base::Sentry => SENTRY_BOTH_BITS as int,
        Base::HighTemplar | Base::DarkTemplar => TEMPLAR_GATEWAY_BITS as int,
        _ => current,
    }
}

/// The build time a warpgate unit takes, by its base tag; units built
/// elsewhere keep the given time.
pub open spec fn spec_warpgate_time(base: Base, current: int) -> int {
    match base {
        Base::Adept | Base::Zealot => WARP_ZEALOT_BITS as int,
        Base::Stalker | Base::Sentry => WARP_STALKER_BITS as int,
        Base::HighTemplar | Base::DarkTemplar => WARP_TEMPLAR_BITS as int,
        _ => current,
    }
}

impl Unit {
    /// The archetype with the given build time.
    pub fn with_build_time(self, build_time: Fixed32) -> (r: Unit)
        ensures
            r == (Unit { cost: Cost { build_time, ..self.cost }, ..self }),
            unit_wf(self) ==> unit_wf(r),
    {
        let mut u = self;
        u.cost.build_time = build_time;
        u
    }

    /// The archetype built through a gateway: its build time becomes the
    /// gateway time of its kind.
    pub fn via_gateway(self) -> (r: Unit)
        ensures
            r == (Unit {
                cost: Cost {
                    build_time: crate::fixed::fx(spec_gateway_time(self.base, self.cost.build_time@)),
                    ..self.cost
                },
                ..self
            }),
            unit_wf(self) ==> unit_wf(r),
    {
        match self.base {
            Base::Zealot => self.with_build_time(Fixed32 { bits: ZEALOT_GATEWAY_BITS }),
            Base::Adept | Base::Stalker => self.with_build_time(
                Fixed32 { bits: STALKER_GATEWAY_BITS },
            ),
            Base::Sentry => self.with_build_time(Fixed32 { bits: SENTRY_BOTH_BITS }),
            Base::HighTemplar | Base::DarkTemplar => self.with_build_time(
                Fixed32 { bits: TEMPLAR_GATEWAY_BITS },
            ),
            _ => self,
        }
    }

    /// The archetype warped in through a warpgate: its build time becomes
    /// the warpgate time of its kind.
    pub fn via_warpgate(self) -> (r: Unit)
        ensures
            r == (Unit {
                cost: Cost {
                    build_time: crate::fixed::fx(
                        spec_warpgate_time(self.base, self.cost.build_time@),
                    ),
                    ..self.cost
                },
                ..self
            }),
            unit_wf(self) ==> unit_wf(r),
    {
        match self.base {
            Base::Adept | Base::Zealot => self.with_build_time(Fixed32 { bits: WARP_ZEALOT_BITS }),
            Base::Stalker | Base::Sentry => self.with_build_time(
                Fixed32 { bits: WARP_STALKER_BITS },
            ),
            Base::HighTemplar | Base::DarkTemplar => self.with_build_time(
                Fixed32 { bits: WARP_TEMPLAR_BITS },
            ),
            _ => self,
        }
    }

    /// The warpgate build time plus the fast warp-in delay.
    pub fn with_fast_warpin(self) -> (r: Unit)
        ensures
            r == (Unit {
                cost: Cost {
                    build_time: crate::fixed::fx(
                        crate::fixed::add_raw(
                            spec_warpgate_time(self.base, self.cost.build_time@),
                            FAST_WARPIN_BITS as int,
                        ),
                    ),
                    ..self.cost
                },
                ..self
            }),
            unit_wf(self) ==> unit_wf(r),
    {
        let w = self.via_warpgate();
        let t = w.cost.build_time;
        w.with_build_time(t.const_add(Fixed32 { bits: FAST_WARPIN_BITS }))
    }

    /// The warpgate build time plus the slow warp-in delay.
    pub fn with_slow_warpin(self) -> (r: Unit)
        ensures
            r == (Unit {
                cost: Cost {
                    build_time: crate::fixed::fx(
                        crate::fixed::add_raw(
                            spec_warpgate_time(self.base, self.cost.build_time@),
                            SLOW_WARPIN_BITS as int,
                        ),
                    ),
                    ..self.cost
                },
                ..self
            }),
            unit_wf(self) ==> unit_wf(r),
    {
        let w = self.via_warpgate();
        let t = w.cost.build_time;
        w.with_build_time(t.const_add(Fixed32 { bits: SLOW_WARPIN_BITS }))
    }

    /// The sustained damage per second of the chosen weapon slot, from the
    /// slowest to the fastest random delay; an empty slot deals nothing.
    pub fn ideal_dps(&self, weapon_idx: usize, with_bonus: bool) -> (r: crate::utils::Range<
        Fixed32,
    >)
        requires
            weapon_idx < 2,
        ensures
            self.weapons[weapon_idx as int] is None ==> r.spec_start()@ == 0 && r.spec_end()@ == 0,
    {
        match &self.weapons[weapon_idx] {
            Some(w) => w.dps(with_bonus),
            None => crate::utils::Range::new(Fixed32::zero(), Fixed32::zero()),
        }
    }

    /// The combat-shields upgrade: raises the marine's hull to 55.
    pub fn with_combat_shields(self) -> (r: Unit)
        ensures
            r == (Unit {
                hull: crate::unit::Health { max: Fixed32 { bits: 225280 }, ..self.hull },
                ..self
            }),
            r.hull.max@ == 55 * 4096,
            unit_wf(self) ==> unit_wf(r),
    {
        let mut u = self;
        u.hull.max = Fixed32::from_u32(55);
        u
    }

    /// The chronoboost modifier: scales the build time up by the boost
    /// factor.
    pub fn with_chronoboost(self) -> (r: Unit)
        ensures
            r == (Unit {
                cost: Cost {
                    build_time: crate::fixed::fx(
                        crate::fixed::mul_raw(
                            self.cost.build_time@,
                            crate::CHRONOBOOST_MOD_BITS as int,
                        ),
                    ),
                    ..self.cost
                },
                ..self
            }),
            unit_wf(self) ==> unit_wf(r),
    {
        let mut u = self;
        u.cost.build_time = u.cost.build_time.const_mul(
            Fixed32 { bits: crate::CHRONOBOOST_MOD_BITS },
        );
        u
    }
}

} // verus!
