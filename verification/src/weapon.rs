//! Weapon archetypes: damage numbers, target filters, multi-hit modes,
//! timing, and the random cooldown draw.

use vstd::prelude::*;

use crate::fixed::{add_raw, div_raw, mul_raw, sub_raw, Fixed32};
use crate::rng::{mix_output, step_state, DelaySource};
use crate::unit::{Collision, Flag, Unit};
use crate::utils::{Range, RangeInclusive};

verus! {

/// How a weapon delivers its damage.
#[derive(Clone, Copy, PartialEq, Eq, Structural, Debug)]
pub enum WeaponKind {
    Melee,
    /// Ranged damage with no missile: applied at the damage point.
    Hitscan,
    /// Ranged damage carried by a missile with a flight time.
    Projectile,
}

/// How many damage events one attack cycle produces.
#[derive(Clone, Debug)]
pub enum Multihit {
    /// One event.
    Single,
    /// One event whose damage is multiplied by the factor at resolution.
    Instant(Fixed32),
    /// One event at the damage point and one more per listed offset.
    TimeOffset(Vec<Fixed32>),
    /// Reserved: scheduled like `TimeOffset`.
    PosOffset(Vec<Fixed32>),
}

/// How a weapon searches for victims beyond its primary target.
#[derive(Clone, Debug)]
pub enum SearchType {
    Single,
    Bounce { count: Fixed32, dmg_mod: Fixed32 },
    Zone { arc: Fixed32, effect: Vec<SplashZone> },
}

/// One ring of a splash zone.
#[derive(Clone, Copy, Debug)]
pub struct SplashZone {
    pub radius: Fixed32,
    pub dmg_mod: Fixed32,
}

/// Which target a weapon prefers when several are in reach.
#[derive(Clone, Copy, PartialEq, Eq, Structural, Debug)]
pub enum Priority {
    /// Closest first.
    Normal,
    /// Least turning first.
    LeastAngle,
    /// Closest to the previous target first.
    LeastDist,
}

/// A weapon archetype.
#[derive(Clone, Debug)]
pub struct Weapon {
    pub kind: WeaponKind,
    pub damage: Fixed32,
    pub multihit: Multihit,
    pub search: SearchType,
    pub attack_speed: Fixed32,
    pub bonus_damage: Fixed32,
    pub bonus_vs: Option<Flag>,
    pub can_target: Collision,
    /// Per-upgrade-level damage increments, `[base, bonus]`.
    pub upgrade_inc: [Fixed32; 2],
    pub range: RangeInclusive<Fixed32>,
    pub range_slop: Fixed32,
    pub arc: Fixed32,
    pub arc_slop: Fixed32,
    /// Unactionable time after an attack fires.
    pub backswing: Fixed32,
    /// Windup from attack start to the damage event or missile launch.
    pub damage_point: Fixed32,
    pub random_delay: RangeInclusive<Fixed32>,
    pub priority: Priority,
}

/// Well-formedness of a weapon: every statistic bounded so that damage
/// arithmetic cannot wrap, and a non-empty random-delay interval.
pub open spec fn weapon_wf(w: Weapon) -> bool {
    &&& 0 <= w.damage@ <= crate::STAT_MAX_BITS
    &&& 0 <= w.bonus_damage@ <= crate::STAT_MAX_BITS
    &&& 0 <= w.attack_speed@ <= crate::STAT_MAX_BITS
    &&& 0 <= w.backswing@ <= crate::STAT_MAX_BITS
    &&& 0 <= w.damage_point@ <= crate::STAT_MAX_BITS
    &&& 0 <= w.range.spec_start()@ <= crate::STAT_MAX_BITS
    &&& 0 <= w.range.spec_end()@ <= crate::STAT_MAX_BITS
    &&& -crate::STAT_MAX_BITS <= w.random_delay.spec_start()@ < w.random_delay.spec_end()@
        <= crate::STAT_MAX_BITS
    &&& (w.multihit matches Multihit::Instant(k) ==> 0 <= k@ <= 65536)
    &&& (w.multihit matches Multihit::TimeOffset(v) ==> v.len() <= 8)
    &&& (w.multihit matches Multihit::PosOffset(v) ==> v.len() <= 8)
}

/// The damage events per cycle a multi-hit mode stands for, as a
/// fixed-point factor.
pub open spec fn spec_multiplier(m: Multihit) -> int {
    match m {
        Multihit::Single => 4096,
        Multihit::Instant(x) => x@,
        Multihit::TimeOffset(x) => crate::fixed::from_i32_raw((x.len() as i32) as int),
        Multihit::PosOffset(x) => crate::fixed::from_i32_raw((x.len() as i32) as int),
    }
}

impl Multihit {
    /// The damage events per cycle, as a fixed-point factor.
    pub fn multiplier(&self) -> (r: Fixed32)
        ensures
            r@ == spec_multiplier(*self),
    {
        match self {
            Multihit::Single => Fixed32::one(),
            Multihit::Instant(x) => *x,
            Multihit::TimeOffset(x) => Fixed32::from_usize(x.len()),
            Multihit::PosOffset(x) => Fixed32::from_usize(x.len()),
        }
    }
}

/// The raw damage a weapon deals to the given archetype's hull before the
/// minimum-damage floor: base damage, plus the bonus when the target carries
/// the bonus flag, minus the target's hull armor.
pub open spec fn spec_damage(w: Weapon, target: Unit) -> int {
    sub_raw(
        if w.bonus_vs matches Some(f) && target.flags.spec_is(f) {
            add_raw(w.damage@, w.bonus_damage@)
        } else {
            w.damage@
        },
        target.hull.armor@,
    )
}

/// The raw damage a weapon deals to the given archetype's shields before
/// the minimum-damage floor: as the hull damage, but with shield armor.
pub open spec fn spec_shield_damage(w: Weapon, target: Unit) -> int {
    sub_raw(
        if w.bonus_vs matches Some(f) && target.flags.spec_is(f) {
            add_raw(w.damage@, w.bonus_damage@)
        } else {
            w.damage@
        },
        target.shields.armor@,
    )
}

impl Weapon {
    /// Builds a weapon from its essential statistics, with the default slop,
    /// arc, jitter interval, priority and search mode.
    #[allow(clippy::too_many_arguments)]
    pub fn new(
        damage: u32,
        kind: WeaponKind,
        multihit: Multihit,
        attack_speed: Fixed32,
        bonus_damage: u32,
        bonus_vs: Option<Flag>,
        can_target: Collision,
        upgrade_inc: [u32; 2],
        range: RangeInclusive<Fixed32>,
        backswing: Fixed32,
        damage_point: Fixed32,
    ) -> (r: Weapon)
        ensures
            r.damage@ == crate::fixed::from_i32_raw((damage as i32) as int),
            r.bonus_damage@ == crate::fixed::from_i32_raw((bonus_damage as i32) as int),
            r.kind == kind,
            r.multihit == multihit,
            r.attack_speed == attack_speed,
            r.bonus_vs == bonus_vs,
            r.can_target == can_target,
            r.range == range,
            r.backswing == backswing,
            r.damage_point == damage_point,
            r.range_slop@ == crate::DEFAULT_RANGE_SLOP_BITS,
            r.arc@ == 0,
            r.arc_slop@ == crate::DEFAULT_ARC_SLOP_BITS,
            r.random_delay.spec_start()@ == crate::RANDOM_DELAY_MIN_BITS,
            r.random_delay.spec_end()@ == crate::RANDOM_DELAY_MAX_BITS,
            r.priority == Priority::Normal,
            r.search is Single,
            r.upgrade_inc[0]@ == crate::fixed::from_i32_raw((upgrade_inc[0] as i32) as int),
            r.upgrade_inc[1]@ == crate::fixed::from_i32_raw((upgrade_inc[1] as i32) as int),
    {
        Weapon {
            damage: Fixed32::from_u32(damage),
            kind,
            multihit,
            attack_speed,
            bonus_damage: Fixed32::from_u32(bonus_damage),
            bonus_vs,
            can_target,
            upgrade_inc: [Fixed32::from_u32(upgrade_inc[0]), Fixed32::from_u32(upgrade_inc[1])],
            range,
            range_slop: Fixed32 { bits: crate::DEFAULT_RANGE_SLOP_BITS },
            arc: Fixed32::zero(),
            arc_slop: Fixed32 { bits: crate::DEFAULT_ARC_SLOP_BITS },
            backswing,
            damage_point,
            random_delay: RangeInclusive::new(
                Fixed32 { bits: crate::RANDOM_DELAY_MIN_BITS },
                Fixed32 { bits: crate::RANDOM_DELAY_MAX_BITS },
            ),
            priority: Priority::Normal,
            search: SearchType::Single,
        }
    }

    /// Whether the target filter admits the given collision plane: a filter
    /// of no plane hits nothing, a target on no plane is hit by nothing,
    /// `Both` hits every real plane, and a single plane hits itself.
    pub open spec fn spec_can_hit(self, target: Collision) -> bool {
        match self.can_target {
            Collision::NoPlane => false,
            Collision::Both => target != Collision::NoPlane,
            _ => self.can_target == target,
        }
    }

    /// True when the target filter admits the given collision plane.
    pub fn can_hit(&self, target: Collision) -> (r: bool)
        ensures
            r == self.spec_can_hit(target),
    {
        match self.can_target {
            Collision::NoPlane => false,
            Collision::Both => target != Collision::NoPlane,
            _ => self.can_target == target,
        }
    }

    /// The farthest distance at which the weapon starts a search.
    pub fn scan_range(&self) -> (r: Fixed32)
        ensures
            r@ == add_raw(self.range.spec_end()@, 2048),
    {
        self.range.end().const_add(Fixed32::one_half())
    }

    /// True for a weapon whose reach is under one unit.
    pub fn is_melee(&self) -> (r: bool)
        ensures
            r == (self.range.spec_end()@ < 4096),
    {
        self.range.end().const_lt(Fixed32::one())
    }

    /// Raises the base and bonus damage by the per-level increments.
    pub fn set_upgrade(&mut self, level: Fixed32)
        ensures
            final(self).damage@ == add_raw(
                old(self).damage@,
                mul_raw(old(self).upgrade_inc[0]@, level@),
            ),
            final(self).bonus_damage@ == add_raw(
                old(self).bonus_damage@,
                mul_raw(old(self).upgrade_inc[1]@, level@),
            ),
            final(self).attack_speed == old(self).attack_speed,
            final(self).multihit == old(self).multihit,
            final(self).can_target == old(self).can_target,
            final(self).bonus_vs == old(self).bonus_vs,
    {
        self.damage = self.damage.const_add(self.upgrade_inc[0].const_mul(level));
        self.bonus_damage = self.bonus_damage.const_add(self.upgrade_inc[1].const_mul(level));
    }

    /// The hull damage against the given archetype before the damage floor.
    pub fn get_damage(&self, target: &Unit) -> (r: Fixed32)
        ensures
            r@ == spec_damage(*self, *target),
    {
        let mut dmg = self.damage;
        let bonus = match self.bonus_vs {
            Some(b) => target.has_flag(b),
            None => false,
        };
        if bonus {
            dmg = dmg.const_add(self.bonus_damage);
        }
        dmg.const_sub(target.hull.armor)
    }

    /// The shield damage against the given archetype before the damage
    /// floor.
    pub fn get_shield_damage(&self, target: &Unit) -> (r: Fixed32)
        ensures
            r@ == spec_shield_damage(*self, *target),
    {
        let mut dmg = self.damage;
        let bonus = match self.bonus_vs {
            Some(b) => target.has_flag(b),
            None => false,
        };
        if bonus {
            dmg = dmg.const_add(self.bonus_damage);
        }
        dmg.const_sub(target.shields.armor)
    }

    /// Draws the random part of the next cooldown: a raw value uniform in
    /// the weapon's delay interval, a function of the source state alone.
    pub fn get_delay(&self, rng: &mut DelaySource) -> (r: Fixed32)
        requires
            self.random_delay.spec_start()@ < self.random_delay.spec_end()@,
        ensures
            self.random_delay.spec_start()@ <= r@ < self.random_delay.spec_end()@,
            r@ == self.random_delay.spec_start()@ + mix_output(step_state(old(rng).state)) % ((
            self.random_delay.spec_end()@ - self.random_delay.spec_start()@) as u64),
            final(rng).state == step_state(old(rng).state),
    {
        let lo = self.random_delay.start().as_bits();
        let hi = self.random_delay.end().as_bits();
        Fixed32::from_bits(rng.range_i32(lo, hi))
    }

    /// The full cooldown of the next attack: the attack speed plus the
    /// random delay.
    pub fn get_cooldown(&self, rng: &mut DelaySource) -> (r: Fixed32)
        requires
            self.random_delay.spec_start()@ < self.random_delay.spec_end()@,
        ensures
            r@ == add_raw(
                self.attack_speed@,
                self.random_delay.spec_start()@ + mix_output(step_state(old(rng).state)) % ((
                self.random_delay.spec_end()@ - self.random_delay.spec_start()@) as u64),
            ),
            final(rng).state == step_state(old(rng).state),
    {
        let d = self.get_delay(rng);
        self.attack_speed.const_add(d)
    }

    /// The best-to-worst sustained damage per second of the weapon, over
    /// the spread of random delays.
    pub fn dps(&self, with_bonus: bool) -> (r: Range<Fixed32>)
        ensures
            ({
                let dmg = if with_bonus {
                    add_raw(self.damage@, self.bonus_damage@)
                } else {
                    self.damage@
                };
                let per_cycle = mul_raw(dmg, spec_multiplier(self.multihit));
                &&& r.spec_start()@ == div_raw(
                    per_cycle,
                    add_raw(self.attack_speed@, crate::RANDOM_DELAY_MAX_BITS as int),
                )
                &&& r.spec_end()@ == div_raw(
                    per_cycle,
                    add_raw(self.attack_speed@, crate::RANDOM_DELAY_MIN_BITS as int),
                )
            }),
    {
        let dmg = if with_bonus {
            self.damage.const_add(self.bonus_damage)
        } else {
            self.damage
        };
        let per_cycle = dmg.const_mul(self.multihit.multiplier());
        let worst = per_cycle.const_div(
            self.attack_speed.const_add(Fixed32 { bits: crate::RANDOM_DELAY_MAX_BITS }),
        );
        let best = per_cycle.const_div(
            self.attack_speed.const_add(Fixed32 { bits: crate::RANDOM_DELAY_MIN_BITS }),
        );
        Range::new(worst, best)
    }
}

/// A damage record in flight: who fired, at whom, and when it lands.
#[derive(Clone, Copy, Debug)]
pub struct Projectile {
    /// The absolute time of impact.
    pub timer: Fixed32,
    pub source: u32,
    pub target: u32,
}

impl Projectile {
    /// A projectile fired now over the given distance, landing after the
    /// flight time at the default projectile speed.
    pub fn new(source: usize, target: usize, range: Fixed32, time: Fixed32) -> (r: Projectile)
        requires
            source <= u32::MAX,
            target <= u32::MAX,
        ensures
            r.timer@ == add_raw(
                div_raw(range@, crate::DEFAULT_PROJECTILE_SPEED_BITS as int),
                time@,
            ),
            r.source == source as u32,
            r.target == target as u32,
    {
        Projectile {
            timer: range.const_div(
                Fixed32 { bits: crate::DEFAULT_PROJECTILE_SPEED_BITS },
            ).const_add(time),
            source: source as u32,
            target: target as u32,
        }
    }
}

} // verus!
