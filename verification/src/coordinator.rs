//! The battle coordinator: ordered tick phases over two armies, the attack
//! state machine, the damage resolver, the projectile sweep, and match
//! termination with outcome reporting.

use vstd::prelude::*;

use crate::army::{
    arch_of, army_wf, spec_candidate, state_wf, ActionState, Army, State, Tracker,
};
use crate::fixed::{add_raw, mul_raw, neg_raw, sat_sub_raw, sub_raw, Fixed32};
use crate::rng::DelaySource;
use crate::unit::{spec_weapon_against, unit_wf, Unit};
use crate::weapon::{
    spec_damage, spec_shield_damage, weapon_wf, Multihit, Projectile, Weapon, WeaponKind,
};

verus! {

/// One of the two sides of an engagement.
#[derive(Clone, Copy, PartialEq, Eq, Structural, Debug)]
pub enum Team {
    Team1,
    Team2,
}

/// The damage one hit inflicts on the chosen health pool, before it is
/// taken off: base damage with the flag bonus, less the pool's armor,
/// floored at the minimum damage, and multiplied for an instant multi-hit.
pub open spec fn spec_hit_damage(w: Weapon, arch: Unit, vs_shields: bool) -> int {
    let base = if vs_shields {
        spec_shield_damage(w, arch)
    } else {
        spec_damage(w, arch)
    };
    let floored = if base < crate::MIN_DAMAGE_BITS {
        crate::MIN_DAMAGE_BITS as int
    } else {
        base
    };
    match w.multihit {
        Multihit::Instant(k) => mul_raw(floored, k@),
        _ => floored,
    }
}

/// A well-formed weapon's hit damage against a well-formed archetype is
/// nonnegative and far inside the fixed-point range.
pub proof fn lemma_hit_damage_bounds(w: Weapon, arch: Unit, vs_shields: bool)
    requires
        weapon_wf(w),
        unit_wf(arch),
    ensures
        0 <= spec_hit_damage(w, arch, vs_shields) <= 0x2000_0000,
{
    assert(add_raw(w.damage@, w.bonus_damage@) == w.damage@ + w.bonus_damage@);
    let base = if vs_shields {
        spec_shield_damage(w, arch)
    } else {
        spec_damage(w, arch)
    };
    assert(-0x1000000 <= base <= 0x2000000);
    let floored = if base < crate::MIN_DAMAGE_BITS {
        crate::MIN_DAMAGE_BITS as int
    } else {
        base
    };
    match w.multihit {
        Multihit::Instant(k) => {
            crate::fixed::lemma_mul_raw_small(floored, k@, 0x2000000, 0x10000);
            assert(0x2000000 * 0x10000 / 4096 == 0x2000_0000);
        },
        _ => {},
    }
}

/// Every target handle a unit of the army holds refers into the opposing
/// army's unit vector.
pub open spec fn targets_ok(a: Army, o: Army) -> bool {
    forall|i: int|
        0 <= i < a.units.len() ==> ((#[trigger] a.units[i]).target matches Some(t) ==> t
            < o.units.len())
}

/// Every projectile of the army names a real firer on its own side, a real
/// target on the opposing side, and a firer archetype that still has a
/// weapon against that target's plane, so that resolution always finds the
/// weapon it needs.
pub open spec fn projectiles_ok(a: Army, o: Army) -> bool {
    forall|p: int|
        0 <= p < a.projectiles.len() ==> {
            &&& (#[trigger] a.projectiles[p]).source < a.units.len()
            &&& a.projectiles[p].target < o.units.len()
            &&& spec_weapon_against(
                arch_of(a, a.projectiles[p].source as int),
                arch_of(o, a.projectiles[p].target as int).collision,
            ) is Some
        }
}

/// Owns both armies, the clock, and the seeded random-delay source.
#[derive(Clone, Debug)]
pub struct Coordinator {
    pub a1: Army,
    pub a2: Army,
    pub time: Fixed32,
    pub rng: DelaySource,
    pub seed: u64,
}

/// Well-formedness of the whole engagement: both armies well formed, every
/// target and projectile handle valid across the two sides.
pub open spec fn coordinator_wf(c: Coordinator) -> bool {
    &&& army_wf(c.a1)
    &&& army_wf(c.a2)
    &&& targets_ok(c.a1, c.a2)
    &&& targets_ok(c.a2, c.a1)
    &&& projectiles_ok(c.a1, c.a2)
    &&& projectiles_ok(c.a2, c.a1)
}

/// How many of the first `n` unit states are still alive.
pub open spec fn spec_alive_below(units: Seq<State>, n: int) -> int
    decreases n,
{
    if n <= 0 {
        0
    } else {
        spec_alive_below(units, n - 1) + if units[n - 1].hull@ > 0 {
            1int
        } else {
            0int
        }
    }
}

/// How many of the army's units are still alive.
pub open spec fn spec_alive(a: Army) -> int {
    spec_alive_below(a.units@, a.units.len() as int)
}

/// How many of the modelled army's units are still alive.
pub open spec fn spec_alive_m(m: crate::army::ArmyModel) -> int {
    spec_alive_below(m.units, m.units.len() as int)
}

/// The mathematical model of the whole engagement: both army models, the
/// clock, and the random source's state. The seed record plays no part in
/// the dynamics (it only remembers what the source was seeded with), so
/// the model leaves it out.
#[verifier::ext_equal]
pub struct CoordModel {
    pub a1: crate::army::ArmyModel,
    pub a2: crate::army::ArmyModel,
    pub time: Fixed32,
    pub rng: u64,
}

impl View for Coordinator {
    type V = CoordModel;

    open spec fn view(&self) -> CoordModel {
        CoordModel { a1: self.a1@, a2: self.a2@, time: self.time, rng: self.rng.state }
    }
}

/// The targeting phase, first army first, threading the random source.
pub open spec fn spec_targets_phase(c: CoordModel) -> CoordModel {
    let r1 = crate::army::spec_acquire_below(c.a1, c.a2, c.rng, c.a1.units.len() as int);
    let a1 = crate::army::ArmyModel { units: r1.0, ..c.a1 };
    let r2 = crate::army::spec_acquire_below(c.a2, a1, r1.1, c.a2.units.len() as int);
    CoordModel { a1, a2: crate::army::ArmyModel { units: r2.0, ..c.a2 }, rng: r2.1, ..c }
}

/// The regeneration phase: both armies healed at the current time.
pub open spec fn spec_heal_phase(c: CoordModel) -> CoordModel {
    CoordModel {
        a1: crate::army::spec_healed_army(c.a1, c.time@),
        a2: crate::army::spec_healed_army(c.a2, c.time@),
        ..c
    }
}

/// The attack phase: the first army's state machine against the second,
/// then the second's against the first, threading the random source.
pub open spec fn spec_attack_phase(c: CoordModel) -> CoordModel {
    let r1 = spec_attack_below_m(c.a1, c.a2, c.rng, c.time, c.a1.units.len() as int);
    let r2 = spec_attack_below_m(r1.1, r1.0, r1.2, c.time, c.a2.units.len() as int);
    CoordModel { a1: r2.1, a2: r2.0, rng: r2.2, ..c }
}

/// The projectile phase: the first army's backlog swept against the
/// second, then the second's against the first.
pub open spec fn spec_sweep_phase(c: CoordModel) -> CoordModel {
    let r1 = Coordinator::spec_sweep_from_m(c.a1, c.a2, c.time, 0);
    let r2 = Coordinator::spec_sweep_from_m(r1.1, r1.0, c.time, 0);
    CoordModel { a1: r2.1, a2: r2.0, ..c }
}

/// One full combat tick: targeting, regeneration, attacks and sweeps in
/// the fixed order, then the clock advances one step.
pub open spec fn spec_tick_combat_m(c: CoordModel) -> CoordModel {
    let c4 = spec_sweep_phase(spec_attack_phase(spec_heal_phase(spec_targets_phase(c))));
    CoordModel { time: crate::fixed::fx(add_raw(c4.time@, crate::TICK_BITS as int)), ..c4 }
}

/// One drain tick: regeneration and sweeps only, then the clock advances.
pub open spec fn spec_tick_drain_m(c: CoordModel) -> CoordModel {
    let c2 = spec_sweep_phase(spec_heal_phase(c));
    CoordModel { time: crate::fixed::fx(add_raw(c2.time@, crate::TICK_BITS as int)), ..c2 }
}

/// The combat loop: ticks run while both sides have survivors and the
/// budget lasts.
pub open spec fn spec_run_combat(c: CoordModel, budget: int) -> CoordModel
    decreases budget,
{
    if budget <= 0 || spec_alive_m(c.a1) == 0 || spec_alive_m(c.a2) == 0 {
        c
    } else {
        spec_run_combat(spec_tick_combat_m(c), budget - 1)
    }
}

/// The drain loop: drain ticks run while both backlogs hold projectiles
/// and the budget lasts.
pub open spec fn spec_run_drain(c: CoordModel, budget: int) -> CoordModel
    decreases budget,
{
    if budget <= 0 || c.a1.projectiles.len() == 0 || c.a2.projectiles.len() == 0 {
        c
    } else {
        spec_run_drain(spec_tick_drain_m(c), budget - 1)
    }
}

/// The tick budget of one engagement: over four million steps, about 52
/// in-game hours — a safety cap, not a gameplay bound.
pub const TICK_BUDGET: u32 = 4194304;

/// The whole battle as a function of its starting model: the combat loop,
/// then the drain, then the winner read off the survivors. One model in,
/// one result out — which is the determinism the seed promises.
pub open spec fn spec_simulate_m(c: CoordModel) -> (CoordModel, Option<Team>) {
    let cf = spec_run_drain(spec_run_combat(c, TICK_BUDGET as int), TICK_BUDGET as int);
    let w = if spec_alive_m(cf.a1) == 0 && spec_alive_m(cf.a2) == 0 {
        None
    } else if spec_alive_m(cf.a1) == 0 {
        Some(Team::Team2)
    } else if spec_alive_m(cf.a2) == 0 {
        Some(Team::Team1)
    } else {
        None
    };
    (cf, w)
}

/// True when the engagement was called off: the full combat budget ran out
/// with both sides still standing. This is the one way a fight with
/// survivors on both sides ends, and the only case in which no winner is
/// reported of a fight that was not a double kill.
pub open spec fn spec_called_off(c: CoordModel) -> bool {
    let cc = spec_run_combat(c, TICK_BUDGET as int);
    spec_alive_m(cc.a1) > 0 && spec_alive_m(cc.a2) > 0
}

impl Army {
    /// Counts the units still alive.
    pub fn alive_count(&self) -> (r: usize)
        ensures
            r as int == spec_alive(*self),
            r <= self.units.len(),
    {
        let mut n: usize = 0;
        let mut i: usize = 0;
        while i < self.units.len()
            invariant
                i <= self.units.len(),
                n as int == spec_alive_below(self.units@, i as int),
                n <= i,
            decreases self.units.len() - i,
        {
            if self.units[i].is_alive() {
                n = n + 1;
            }
            i = i + 1;
        }
        n
    }
}

/// The hit damage against the chosen pool, as an executable value.
fn hit_damage(weapon: &Weapon, arch: &Unit, vs_shields: bool) -> (r: Fixed32)
    ensures
        r@ == spec_hit_damage(*weapon, *arch, vs_shields),
{
    let base = if vs_shields {
        weapon.get_shield_damage(arch)
    } else {
        weapon.get_damage(arch)
    };
    let min_dmg = Fixed32 { bits: crate::MIN_DAMAGE_BITS };
    let floored = if base.const_lt(min_dmg) {
        min_dmg
    } else {
        base
    };
    match &weapon.multihit {
        Multihit::Instant(k) => floored.const_mul(*k),
        _ => floored,
    }
}

impl Coordinator {
    /// Resolves one damage event: shields absorb first (with shield armor
    /// and the damage floor), spillover carries to hull less hull armor,
    /// bare hull takes floored damage directly, overkill past zero hull is
    /// recorded, and the target is stamped as just damaged. The firer's
    /// tracker accumulates damage dealt and overkill.
    pub fn apply_damage(
        u_tracker: &mut Tracker,
        target: usize,
        dfnd: &mut Army,
        weapon: &Weapon,
        time: Fixed32,
    )
        requires
            army_wf(*old(dfnd)),
            target < old(dfnd).units.len(),
            weapon_wf(*weapon),
        ensures
            army_wf(*final(dfnd)),
            final(dfnd).units.len() == old(dfnd).units.len(),
            final(dfnd).base_units == old(dfnd).base_units,
            final(dfnd).positions == old(dfnd).positions,
            final(dfnd).projectiles == old(dfnd).projectiles,
            final(dfnd).trackers.len() == old(dfnd).trackers.len(),
            forall|i: int|
                0 <= i < old(dfnd).units.len() && i != target ==> #[trigger] final(dfnd).units[i]
                    == old(dfnd).units[i],
            forall|i: int|
                0 <= i < old(dfnd).trackers.len() && i != target ==> #[trigger] final(dfnd).trackers[i] == old(dfnd).trackers[i],
            spec_damage_event(
                old(dfnd).units[target as int],
                arch_of(*old(dfnd), target as int),
                *weapon,
                *old(u_tracker),
                old(dfnd).trackers[target as int],
                time,
                final(dfnd).units[target as int],
                *final(u_tracker),
                final(dfnd).trackers[target as int],
            ),
            (final(dfnd).units[target as int], *final(u_tracker), final(dfnd).trackers[target as int])
                == spec_apply_damage(
                old(dfnd).units[target as int],
                arch_of(*old(dfnd), target as int),
                *weapon,
                *old(u_tracker),
                old(dfnd).trackers[target as int],
                time,
            ),
            // Death is monotone: a dead target stays dead.
            old(dfnd).units[target as int].hull@ <= 0 ==> final(dfnd).units[target as int].hull@
                <= 0,
    {
        let t0 = dfnd.units[target];
        let arch_hull_armor = dfnd.base_units[t0.base].hull.armor;
        proof {
            assert(state_wf(old(dfnd).units[target as int], arch_of(*old(dfnd), target as int)));
            assert(unit_wf(arch_of(*old(dfnd), target as int)));
            lemma_hit_damage_bounds(*weapon, arch_of(*old(dfnd), target as int), true);
            lemma_hit_damage_bounds(*weapon, arch_of(*old(dfnd), target as int), false);
        }
        let mut t1 = t0;
        let mut d1 = dfnd.trackers[target];
        if !t0.shields.const_eq(Fixed32::zero()) {
            let sd = {
                let arch = &dfnd.base_units[t0.base];
                hit_damage(weapon, arch, true)
            };
            let after = t0.shields.const_sub(sd);
            u_tracker.damage_dealt = u_tracker.damage_dealt.const_add(sd);
            if after.is_negative() {
                let spill = after.const_neg().const_sub(arch_hull_armor);
                t1.shields = Fixed32::zero();
                t1.hull = t0.hull.saturating_sub(spill);
                u_tracker.damage_dealt = u_tracker.damage_dealt.const_add(spill);
            } else {
                t1.shields = after;
            }
        } else {
            let hd = {
                let arch = &dfnd.base_units[t0.base];
                hit_damage(weapon, arch, false)
            };
            let hull2 = t0.hull.saturating_sub(hd);
            t1.hull = hull2;
            let ok = if hull2.is_negative() {
                d1.death_timestamp = Some(time);
                hull2.const_neg()
            } else {
                Fixed32::zero()
            };
            u_tracker.damage_dealt = u_tracker.damage_dealt.const_add(hd.const_sub(ok));
            u_tracker.overkill = u_tracker.overkill.const_add(ok);
        }
        t1.last_damaged = Some(time);
        dfnd.units.set(target, t1);
        dfnd.trackers.set(target, d1);
        proof {
            assert(state_wf(final(dfnd).units[target as int], arch_of(*final(dfnd), target as int)));
        }
    }
}

/// What one damage event leaves behind, as a function of the pre-event
/// values: the target's new state, the firer's new tracker, and the
/// target's new tracker.
pub open spec fn spec_apply_damage(
    t0: State,
    arch: Unit,
    w: Weapon,
    tr0: Tracker,
    d0: Tracker,
    time: Fixed32,
) -> (State, Tracker, Tracker) {
    if t0.shields@ != 0 {
        let sd = spec_hit_damage(w, arch, true);
        let after = sub_raw(t0.shields@, sd);
        if after < 0 {
            let spill = sub_raw(neg_raw(after), arch.hull.armor@);
            (
                State {
                    shields: crate::fixed::fx(0),
                    hull: crate::fixed::fx(sat_sub_raw(t0.hull@, spill)),
                    last_damaged: Some(time),
                    ..t0
                },
                Tracker {
                    damage_dealt: crate::fixed::fx(add_raw(add_raw(tr0.damage_dealt@, sd), spill)),
                    ..tr0
                },
                d0,
            )
        } else {
            (
                State { shields: crate::fixed::fx(after), last_damaged: Some(time), ..t0 },
                Tracker { damage_dealt: crate::fixed::fx(add_raw(tr0.damage_dealt@, sd)), ..tr0 },
                d0,
            )
        }
    } else {
        let hd = spec_hit_damage(w, arch, false);
        let hull2 = sat_sub_raw(t0.hull@, hd);
        let ok = if hull2 < 0 {
            neg_raw(hull2)
        } else {
            0int
        };
        (
            State { hull: crate::fixed::fx(hull2), last_damaged: Some(time), ..t0 },
            Tracker {
                damage_dealt: crate::fixed::fx(add_raw(tr0.damage_dealt@, sub_raw(hd, ok))),
                overkill: crate::fixed::fx(add_raw(tr0.overkill@, ok)),
                ..tr0
            },
            Tracker {
                death_timestamp: if hull2 < 0 {
                    Some(time)
                } else {
                    d0.death_timestamp
                },
                ..d0
            },
        )
    }
}

/// What one damage event does, related state to state: the exact shields,
/// hull, tracker and death-stamp arithmetic of the resolver, written over
/// the pre-event target state `t0` and trackers (`tr0` the firer's, `d0`
/// the target's) and the post-event values.
pub open spec fn spec_damage_event(
    t0: State,
    arch: Unit,
    w: Weapon,
    tr0: Tracker,
    d0: Tracker,
    time: Fixed32,
    t1: State,
    tr1: Tracker,
    d1: Tracker,
) -> bool {
    ({
                if t0.shields@ != 0 {
                    let sd = spec_hit_damage(w, arch, true);
                    let after = sub_raw(t0.shields@, sd);
                    if after < 0 {
                        let spill = sub_raw(neg_raw(after), arch.hull.armor@);
                        &&& t1 == (State {
                            shields: crate::fixed::fx(0),
                            hull: crate::fixed::fx(sat_sub_raw(t0.hull@, spill)),
                            last_damaged: Some(time),
                            ..t0
                        })
                        &&& tr1.damage_dealt@ == add_raw(add_raw(tr0.damage_dealt@, sd), spill)
                        &&& tr1.overkill == tr0.overkill
                        &&& d1 == d0
                    } else {
                        &&& t1 == (State {
                            shields: crate::fixed::fx(after),
                            last_damaged: Some(time),
                            ..t0
                        })
                        &&& tr1.damage_dealt@ == add_raw(tr0.damage_dealt@, sd)
                        &&& tr1.overkill == tr0.overkill
                        &&& d1 == d0
                    }
                } else {
                    let hd = spec_hit_damage(w, arch, false);
                    let hull2 = sat_sub_raw(t0.hull@, hd);
                    let ok = if hull2 < 0 {
                        neg_raw(hull2)
                    } else {
                        0
                    };
                    &&& t1 == (State {
                        hull: crate::fixed::fx(hull2),
                        last_damaged: Some(time),
                        ..t0
                    })
                    &&& tr1.damage_dealt@ == add_raw(tr0.damage_dealt@, sub_raw(hd, ok))
                    &&& tr1.overkill@ == add_raw(tr0.overkill@, ok)
                    &&& d1 == (Tracker {
                        death_timestamp: if hull2 < 0 {
                            Some(time)
                        } else {
                            d0.death_timestamp
                        },
                        ..d0
                    })
                }
            })
}

/// The projectile a firer launches now at the given target: its impact
/// time is the weapon's reach over the default projectile speed, from now.
pub open spec fn spec_launched(i: int, th: int, w: Weapon, time: Fixed32) -> Projectile {
    Projectile {
        timer: crate::fixed::fx(
            add_raw(
                crate::fixed::div_raw(
                    w.range.spec_end()@,
                    crate::DEFAULT_PROJECTILE_SPEED_BITS as int,
                ),
                time@,
            ),
        ),
        source: i as u32,
        target: th as u32,
    }
}

/// The state a unit enters after a damage event: the next scheduled event
/// of a time-offset (or reserved position-offset) multi-hit weapon, or
/// back to attacking.
pub open spec fn spec_next_state(w: Weapon, idx: u8, time: Fixed32) -> ActionState {
    match w.multihit {
        Multihit::TimeOffset(offs) => if (idx as int) < offs.len() {
            ActionState::DmgPoint(
                crate::fixed::fx(add_raw(offs[idx as int]@, time@)),
                (idx + 1) as u8,
            )
        } else {
            ActionState::Attack
        },
        Multihit::PosOffset(offs) => if (idx as int) < offs.len() {
            ActionState::DmgPoint(
                crate::fixed::fx(add_raw(offs[idx as int]@, time@)),
                (idx + 1) as u8,
            )
        } else {
            ActionState::Attack
        },
        _ => ActionState::Attack,
    }
}

/// What resolving one due damage event does to the two armies: a
/// projectile weapon enqueues its record, any other weapon applies its
/// damage to the target at once; a firer whose weapon no longer reaches
/// the target does nothing and falls back to attacking.
pub open spec fn spec_resolve_hit_m(
    ma: crate::army::ArmyModel,
    md: crate::army::ArmyModel,
    i: int,
    th: int,
    idx: u8,
    time: Fixed32,
) -> (crate::army::ArmyModel, crate::army::ArmyModel, ActionState) {
    let arch_t = crate::army::arch_in(md, th);
    match spec_weapon_against(crate::army::arch_in(ma, i), arch_t.collision) {
        Some(w) => {
            let next = spec_next_state(w, idx, time);
            if w.kind == WeaponKind::Projectile {
                (
                    crate::army::ArmyModel {
                        projectiles: ma.projectiles.push(spec_launched(i, th, w, time)),
                        ..ma
                    },
                    md,
                    next,
                )
            } else {
                let hit = spec_apply_damage(
                    md.units[th],
                    arch_t,
                    w,
                    ma.trackers[i],
                    md.trackers[th],
                    time,
                );
                (
                    crate::army::ArmyModel { trackers: ma.trackers.update(i, hit.1), ..ma },
                    crate::army::ArmyModel {
                        units: md.units.update(th, hit.0),
                        trackers: md.trackers.update(th, hit.2),
                        ..md
                    },
                    next,
                )
            }
        },
        None => (ma, md, ActionState::Attack),
    }
}

/// What one unit's cooldown check does: a unit whose cooldown has passed
/// and whose weapon reaches the target starts its next attack, drawing the
/// random delay from the source; any other unit merely keeps the action
/// state the resolution left it.
pub open spec fn spec_begin_attack_m(
    ma: crate::army::ArmyModel,
    md: crate::army::ArmyModel,
    rng: u64,
    time: Fixed32,
    i: int,
    th: int,
    cur: ActionState,
) -> (crate::army::ArmyModel, crate::army::ArmyModel, u64) {
    let u = ma.units[i];
    if u.attack_cd@ > time@ {
        (
            crate::army::ArmyModel { units: ma.units.update(i, State { state: cur, ..u }), ..ma },
            md,
            rng,
        )
    } else {
        match spec_weapon_against(
            crate::army::arch_in(ma, i),
            crate::army::arch_in(md, th).collision,
        ) {
            Some(w) => {
                let s2 = crate::rng::step_state(rng);
                let span = (w.random_delay.spec_end()@ - w.random_delay.spec_start()@) as u64;
                let delay = w.random_delay.spec_start()@ + crate::rng::mix_output(s2) % span;
                (
                    crate::army::ArmyModel {
                        units: ma.units.update(
                            i,
                            State {
                                state: ActionState::DmgPoint(
                                    crate::fixed::fx(add_raw(w.damage_point@, time@)),
                                    0u8,
                                ),
                                attack_cd: crate::fixed::fx(
                                    add_raw(time@, add_raw(w.attack_speed@, delay)),
                                ),
                                ..u
                            },
                        ),
                        ..ma
                    },
                    md,
                    s2,
                )
            },
            None => (
                crate::army::ArmyModel {
                    units: ma.units.update(i, State { state: cur, ..u }),
                    ..ma
                },
                md,
                rng,
            ),
        }
    }
}

/// What the attack state machine does for one unit of the attacking army:
/// a dead, disarmed or targetless unit is skipped, a unit whose damage
/// point has not come waits, a due damage point resolves, and then the
/// cooldown check may start the next attack.
pub open spec fn spec_attack_step_m(
    ma: crate::army::ArmyModel,
    md: crate::army::ArmyModel,
    rng: u64,
    time: Fixed32,
    i: int,
) -> (crate::army::ArmyModel, crate::army::ArmyModel, u64) {
    let u = ma.units[i];
    match u.target {
        Some(t) => if u.hull@ > 0 && u.can_attack {
            match u.state {
                ActionState::DmgPoint(ts, idx) => if ts@ > time@ {
                    (ma, md, rng)
                } else {
                    let hit = spec_resolve_hit_m(ma, md, i, t as int, idx, time);
                    spec_begin_attack_m(hit.0, hit.1, rng, time, i, t as int, hit.2)
                },
                _ => spec_begin_attack_m(ma, md, rng, time, i, t as int, u.state),
            }
        } else {
            (ma, md, rng)
        },
        None => (ma, md, rng),
    }
}

/// What the attack phase does to the first `n` units of the attacking
/// army, in handle order, threading the random source through each draw.
pub open spec fn spec_attack_below_m(
    ma: crate::army::ArmyModel,
    md: crate::army::ArmyModel,
    rng: u64,
    time: Fixed32,
    n: int,
) -> (crate::army::ArmyModel, crate::army::ArmyModel, u64)
    decreases n,
{
    if n <= 0 {
        (ma, md, rng)
    } else {
        let prev = spec_attack_below_m(ma, md, rng, time, n - 1);
        spec_attack_step_m(prev.0, prev.1, prev.2, time, n - 1)
    }
}

impl Coordinator {
    /// Runs the attack state machine for one army against the other. A unit
    /// at its damage point fires: a projectile weapon enqueues a deferred
    /// damage record, any other applies damage at once; a multi-hit weapon
    /// schedules its next event. A unit whose cooldown has passed then
    /// starts its next attack, drawing the random delay from the source.
    /// A dead defender only ever stays dead.
    #[verifier::rlimit(100)]
    pub fn attack_army(attk: &mut Army, dfnd: &mut Army, rng: &mut DelaySource, time: Fixed32)
        requires
            army_wf(*old(attk)),
            army_wf(*old(dfnd)),
            targets_ok(*old(attk), *old(dfnd)),
            projectiles_ok(*old(attk), *old(dfnd)),
        ensures
            army_wf(*final(attk)),
            army_wf(*final(dfnd)),
            final(attk).units.len() == old(attk).units.len(),
            final(dfnd).units.len() == old(dfnd).units.len(),
            final(attk).base_units == old(attk).base_units,
            final(dfnd).base_units == old(dfnd).base_units,
            final(attk).positions == old(attk).positions,
            final(dfnd).positions == old(dfnd).positions,
            final(attk).trackers.len() == old(attk).trackers.len(),
            final(dfnd).trackers.len() == old(dfnd).trackers.len(),
            final(dfnd).projectiles == old(dfnd).projectiles,
            targets_ok(*final(attk), *final(dfnd)),
            projectiles_ok(*final(attk), *final(dfnd)),
            forall|k: int|
                0 <= k < old(attk).units.len() ==> #[trigger] final(attk).units[k] == (State {
                    state: final(attk).units[k].state,
                    attack_cd: final(attk).units[k].attack_cd,
                    ..old(attk).units[k]
                }),
            forall|k: int|
                0 <= k < old(dfnd).units.len() ==> #[trigger] final(dfnd).units[k] == (State {
                    hull: final(dfnd).units[k].hull,
                    shields: final(dfnd).units[k].shields,
                    last_damaged: final(dfnd).units[k].last_damaged,
                    ..old(dfnd).units[k]
                }),
            forall|k: int|
                0 <= k < old(dfnd).units.len() && old(dfnd).units[k].hull@ <= 0 ==> (
                #[trigger] final(dfnd).units[k]).hull@ <= 0,
            ({
                let run = spec_attack_below_m(
                    old(attk)@,
                    old(dfnd)@,
                    old(rng).state,
                    time,
                    old(attk).units.len() as int,
                );
                &&& final(attk)@ == run.0
                &&& final(dfnd)@ == run.1
                &&& final(rng).state == run.2
            }),
    {
        let n = attk.units.len();
        let mut i: usize = 0;
        while i < n
            invariant
                army_wf(*attk),
                army_wf(*dfnd),
                army_wf(*old(attk)),
                army_wf(*old(dfnd)),
                n == attk.units.len(),
                i <= n,
                ({
                    let run = spec_attack_below_m(
                        old(attk)@,
                        old(dfnd)@,
                        old(rng).state,
                        time,
                        i as int,
                    );
                    &&& attk@ == run.0
                    &&& dfnd@ == run.1
                    &&& rng.state == run.2
                }),
                attk.units.len() == old(attk).units.len(),
                dfnd.units.len() == old(dfnd).units.len(),
                attk.base_units == old(attk).base_units,
                dfnd.base_units == old(dfnd).base_units,
                attk.positions == old(attk).positions,
                dfnd.positions == old(dfnd).positions,
                attk.trackers.len() == old(attk).trackers.len(),
                dfnd.trackers.len() == old(dfnd).trackers.len(),
                dfnd.projectiles == old(dfnd).projectiles,
                targets_ok(*attk, *dfnd),
                projectiles_ok(*attk, *dfnd),
                forall|k: int|
                    0 <= k < old(attk).units.len() ==> #[trigger] attk.units[k] == (State {
                        state: attk.units[k].state,
                        attack_cd: attk.units[k].attack_cd,
                        ..old(attk).units[k]
                    }),
                forall|k: int|
                    i <= k < old(attk).units.len() ==> #[trigger] attk.units[k] == old(
                        attk,
                    ).units[k],
                forall|k: int|
                    0 <= k < old(dfnd).units.len() ==> #[trigger] dfnd.units[k] == (State {
                        hull: dfnd.units[k].hull,
                        shields: dfnd.units[k].shields,
                        last_damaged: dfnd.units[k].last_damaged,
                        ..old(dfnd).units[k]
                    }),
                forall|k: int|
                    0 <= k < old(dfnd).units.len() && old(dfnd).units[k].hull@ <= 0 ==> (
                    #[trigger] dfnd.units[k]).hull@ <= 0,
            decreases n - i,
        {
            Self::attack_step(attk, dfnd, rng, time, i);
            i = i + 1;
        }
    }

    /// Advances one unit of the attacking army through the attack state
    /// machine for this tick: resolves a due damage point, then starts the
    /// next attack if the cooldown has passed.
    #[verifier::rlimit(100)]
    fn attack_step(attk: &mut Army, dfnd: &mut Army, rng: &mut DelaySource, time: Fixed32, i: usize)
        requires
            army_wf(*old(attk)),
            army_wf(*old(dfnd)),
            targets_ok(*old(attk), *old(dfnd)),
            projectiles_ok(*old(attk), *old(dfnd)),
            i < old(attk).units.len(),
        ensures
            army_wf(*final(attk)),
            army_wf(*final(dfnd)),
            final(attk).units.len() == old(attk).units.len(),
            final(dfnd).units.len() == old(dfnd).units.len(),
            final(attk).base_units == old(attk).base_units,
            final(dfnd).base_units == old(dfnd).base_units,
            final(attk).positions == old(attk).positions,
            final(dfnd).positions == old(dfnd).positions,
            final(attk).trackers.len() == old(attk).trackers.len(),
            final(dfnd).trackers.len() == old(dfnd).trackers.len(),
            final(dfnd).projectiles == old(dfnd).projectiles,
            targets_ok(*final(attk), *final(dfnd)),
            projectiles_ok(*final(attk), *final(dfnd)),
            forall|k: int|
                0 <= k < old(attk).units.len() && k != i ==> #[trigger] final(attk).units[k]
                    == old(attk).units[k],
            final(attk).units[i as int] == (State {
                state: final(attk).units[i as int].state,
                attack_cd: final(attk).units[i as int].attack_cd,
                ..old(attk).units[i as int]
            }),
            forall|k: int|
                0 <= k < old(dfnd).units.len() ==> #[trigger] final(dfnd).units[k] == (State {
                    hull: final(dfnd).units[k].hull,
                    shields: final(dfnd).units[k].shields,
                    last_damaged: final(dfnd).units[k].last_damaged,
                    ..old(dfnd).units[k]
                }),
            forall|k: int|
                0 <= k < old(dfnd).units.len() && old(dfnd).units[k].hull@ <= 0 ==> (
                #[trigger] final(dfnd).units[k]).hull@ <= 0,
            ({
                let step = spec_attack_step_m(old(attk)@, old(dfnd)@, old(rng).state, time, i as int);
                &&& final(attk)@ == step.0
                &&& final(dfnd)@ == step.1
                &&& final(rng).state == step.2
            }),
    {
        let u = attk.units[i];
        let engaged = u.hull.is_positive() && u.can_attack;
        match u.target {
            Some(t) => if engaged {
                let th = t as usize;
                let mut pending = false;
                let mut cur_state = u.state;
                if let ActionState::DmgPoint(ts, idx) = cur_state {
                    if ts.const_gt(time) {
                        pending = true;
                    } else {
                        cur_state = Self::resolve_hit(attk, dfnd, i, th, idx, time);
                    }
                }
                if !pending {
                    let ghost mid = (*attk, *dfnd);
                    let mut u2 = u;
                    u2.state = cur_state;
                    if !u2.attack_cd.const_gt(time) {
                        let target_arch_idx = dfnd.units[th].base;
                        match attk.base_units[u.base].try_get_weapon(
                            &dfnd.base_units[target_arch_idx],
                        ) {
                            Some(w2) => {
                                let cd = w2.get_cooldown(rng);
                                u2.attack_cd = time.const_add(cd);
                                u2.state = ActionState::DmgPoint(
                                    w2.damage_point.const_add(time),
                                    0,
                                );
                            },
                            None => {},
                        }
                    }
                    attk.units.set(i, u2);
                    proof {
                        assert(attk.units[i as int] == (State {
                            state: attk.units[i as int].state,
                            attack_cd: attk.units[i as int].attack_cd,
                            ..old(attk).units[i as int]
                        }));
                        assert forall|k: int| 0 <= k < attk.units.len() implies state_wf(
                            #[trigger] attk.units[k],
                            arch_of(*attk, k),
                        ) by {
                            assert(state_wf(old(attk).units[k], arch_of(*old(attk), k)));
                            if k != i {
                                assert(attk.units[k] == old(attk).units[k]);
                            }
                        }
                        let begun = spec_begin_attack_m(
                            mid.0@,
                            mid.1@,
                            old(rng).state,
                            time,
                            i as int,
                            th as int,
                            cur_state,
                        );
                        assert(attk@ =~= (crate::army::ArmyModel {
                            units: mid.0@.units.update(i as int, u2),
                            ..mid.0@
                        }));
                        assert(attk@ == begun.0 && dfnd@ == begun.1 && rng.state == begun.2);
                    }
                }
            },
            None => {},
        }
    }

    /// Resolves the damage event of a unit whose damage point has come:
    /// a projectile weapon launches a deferred record, any other weapon
    /// applies its damage at once, and the unit's next action state is
    /// returned (the next multi-hit event, or back to attacking). A target
    /// the firer can no longer reach is skipped.
    #[verifier::rlimit(100)]
    fn resolve_hit(
        attk: &mut Army,
        dfnd: &mut Army,
        i: usize,
        th: usize,
        idx: u8,
        time: Fixed32,
    ) -> (r: ActionState)
        requires
            army_wf(*old(attk)),
            army_wf(*old(dfnd)),
            projectiles_ok(*old(attk), *old(dfnd)),
            i < old(attk).units.len(),
            th < old(dfnd).units.len(),
        ensures
            army_wf(*final(attk)),
            army_wf(*final(dfnd)),
            final(attk).units == old(attk).units,
            final(dfnd).units.len() == old(dfnd).units.len(),
            final(attk).base_units == old(attk).base_units,
            final(dfnd).base_units == old(dfnd).base_units,
            final(attk).positions == old(attk).positions,
            final(dfnd).positions == old(dfnd).positions,
            final(attk).trackers.len() == old(attk).trackers.len(),
            final(dfnd).trackers.len() == old(dfnd).trackers.len(),
            final(dfnd).projectiles == old(dfnd).projectiles,
            projectiles_ok(*final(attk), *final(dfnd)),
            forall|k: int|
                0 <= k < old(dfnd).units.len() ==> #[trigger] final(dfnd).units[k] == (State {
                    hull: final(dfnd).units[k].hull,
                    shields: final(dfnd).units[k].shields,
                    last_damaged: final(dfnd).units[k].last_damaged,
                    ..old(dfnd).units[k]
                }),
            forall|k: int|
                0 <= k < old(dfnd).units.len() && old(dfnd).units[k].hull@ <= 0 ==> (
                #[trigger] final(dfnd).units[k]).hull@ <= 0,
            ({
                let hit = spec_resolve_hit_m(
                    old(attk)@,
                    old(dfnd)@,
                    i as int,
                    th as int,
                    idx,
                    time,
                );
                &&& final(attk)@ == hit.0
                &&& final(dfnd)@ == hit.1
                &&& r == hit.2
            }),
    {
        let u = attk.units[i];
        let target_arch_idx = dfnd.units[th].base;
        match attk.base_units[u.base].try_get_weapon(&dfnd.base_units[target_arch_idx]) {
            Some(w) => {
                let next = Self::next_multihit_state(w, idx, time);
                match w.kind {
                    WeaponKind::Projectile => {
                        let p = Projectile::new(i, th, w.range.end(), time);
                        attk.projectiles.push(p);
                        proof {
                            assert(p == spec_launched(i as int, th as int, *w, time));
                            assert(attk@ =~= (crate::army::ArmyModel {
                                projectiles: old(attk)@.projectiles.push(p),
                                ..old(attk)@
                            }));
                        }
                    },
                    _ => {
                        let mut tr = attk.trackers[i];
                        Self::apply_damage(&mut tr, th, dfnd, w, time);
                        attk.trackers.set(i, tr);
                        proof {
                            let hit = spec_apply_damage(
                                old(dfnd).units[th as int],
                                arch_of(*old(dfnd), th as int),
                                *w,
                                old(attk).trackers[i as int],
                                old(dfnd).trackers[th as int],
                                time,
                            );
                            assert(attk.trackers@ =~= old(attk).trackers@.update(i as int, hit.1));
                            assert(dfnd.units@ =~= old(dfnd).units@.update(th as int, hit.0));
                            assert(dfnd.trackers@ =~= old(dfnd).trackers@.update(
                                th as int,
                                hit.2,
                            ));
                            assert(attk@ =~= (crate::army::ArmyModel {
                                trackers: old(attk)@.trackers.update(i as int, hit.1),
                                ..old(attk)@
                            }));
                            assert(dfnd@ =~= (crate::army::ArmyModel {
                                units: old(dfnd)@.units.update(th as int, hit.0),
                                trackers: old(dfnd)@.trackers.update(th as int, hit.2),
                                ..old(dfnd)@
                            }));
                        }
                    },
                }
                next
            },
            None => ActionState::Attack,
        }
    }

    /// What the projectile sweep does from position `i` on: a record whose
    /// impact time has passed is swap-removed (the last record takes its
    /// slot) and resolved against the target army with the firer's current
    /// weapon — or dropped unresolved when no weapon matches any more — and
    /// a record whose time has not come stays and is stepped over.
    pub open spec fn spec_sweep_from_m(
        ma: crate::army::ArmyModel,
        md: crate::army::ArmyModel,
        time: Fixed32,
        i: int,
    ) -> (crate::army::ArmyModel, crate::army::ArmyModel)
        decreases ma.projectiles.len() - i,
    {
        if i < 0 || i >= ma.projectiles.len() {
            (ma, md)
        } else {
            let p = ma.projectiles[i];
            if p.timer@ < time@ {
                let ma1 = crate::army::ArmyModel {
                    projectiles: ma.projectiles.update(i, ma.projectiles.last()).drop_last(),
                    ..ma
                };
                match spec_weapon_against(
                    crate::army::arch_in(ma1, p.source as int),
                    crate::army::arch_in(md, p.target as int).collision,
                ) {
                    Some(w) => {
                        let hit = spec_apply_damage(
                            md.units[p.target as int],
                            crate::army::arch_in(md, p.target as int),
                            w,
                            ma1.trackers[p.source as int],
                            md.trackers[p.target as int],
                            time,
                        );
                        Self::spec_sweep_from_m(
                            crate::army::ArmyModel {
                                trackers: ma1.trackers.update(p.source as int, hit.1),
                                ..ma1
                            },
                            crate::army::ArmyModel {
                                units: md.units.update(p.target as int, hit.0),
                                trackers: md.trackers.update(p.target as int, hit.2),
                                ..md
                            },
                            time,
                            i,
                        )
                    },
                    None => Self::spec_sweep_from_m(ma1, md, time, i),
                }
            } else {
                Self::spec_sweep_from_m(ma, md, time, i + 1)
            }
        }
    }

    /// Sweeps one army's projectile list: every record whose impact time
    /// has passed is removed (swap-remove, order does not matter) and its
    /// damage resolved against the target army with the firer's current
    /// weapon. A record whose time has not come stays. Damage lands on the
    /// target even if it died in flight; a dead defender only stays dead.
    #[verifier::rlimit(100)]
    pub fn sweep_projectiles(attk: &mut Army, dfnd: &mut Army, time: Fixed32)
        requires
            army_wf(*old(attk)),
            army_wf(*old(dfnd)),
            projectiles_ok(*old(attk), *old(dfnd)),
        ensures
            army_wf(*final(attk)),
            army_wf(*final(dfnd)),
            final(attk).units == old(attk).units,
            final(dfnd).units.len() == old(dfnd).units.len(),
            final(attk).base_units == old(attk).base_units,
            final(dfnd).base_units == old(dfnd).base_units,
            final(attk).positions == old(attk).positions,
            final(dfnd).positions == old(dfnd).positions,
            final(attk).trackers.len() == old(attk).trackers.len(),
            final(dfnd).trackers.len() == old(dfnd).trackers.len(),
            final(dfnd).projectiles == old(dfnd).projectiles,
            final(attk).projectiles.len() <= old(attk).projectiles.len(),
            projectiles_ok(*final(attk), *final(dfnd)),
            forall|k: int|
                0 <= k < old(dfnd).units.len() ==> #[trigger] final(dfnd).units[k] == (State {
                    hull: final(dfnd).units[k].hull,
                    shields: final(dfnd).units[k].shields,
                    last_damaged: final(dfnd).units[k].last_damaged,
                    ..old(dfnd).units[k]
                }),
            forall|k: int|
                0 <= k < old(dfnd).units.len() && old(dfnd).units[k].hull@ <= 0 ==> (
                #[trigger] final(dfnd).units[k]).hull@ <= 0,
            ({
                let swept = Self::spec_sweep_from_m(old(attk)@, old(dfnd)@, time, 0);
                &&& final(attk)@ == swept.0
                &&& final(dfnd)@ == swept.1
            }),
    {
        let mut i: usize = 0;
        while i < attk.projectiles.len()
            invariant
                army_wf(*attk),
                army_wf(*dfnd),
                army_wf(*old(dfnd)),
                i <= attk.projectiles.len(),
                Self::spec_sweep_from_m(old(attk)@, old(dfnd)@, time, 0)
                    == Self::spec_sweep_from_m(attk@, dfnd@, time, i as int),
                attk.units == old(attk).units,
                dfnd.units.len() == old(dfnd).units.len(),
                attk.base_units == old(attk).base_units,
                dfnd.base_units == old(dfnd).base_units,
                attk.positions == old(attk).positions,
                dfnd.positions == old(dfnd).positions,
                attk.trackers.len() == old(attk).trackers.len(),
                dfnd.trackers.len() == old(dfnd).trackers.len(),
                dfnd.projectiles == old(dfnd).projectiles,
                attk.projectiles.len() <= old(attk).projectiles.len(),
                projectiles_ok(*attk, *dfnd),
                forall|k: int|
                    0 <= k < old(dfnd).units.len() ==> #[trigger] dfnd.units[k] == (State {
                        hull: dfnd.units[k].hull,
                        shields: dfnd.units[k].shields,
                        last_damaged: dfnd.units[k].last_damaged,
                        ..old(dfnd).units[k]
                    }),
                forall|k: int|
                    0 <= k < old(dfnd).units.len() && old(dfnd).units[k].hull@ <= 0 ==> (
                    #[trigger] dfnd.units[k]).hull@ <= 0,
            decreases attk.projectiles.len() - i,
        {
            let ghost pre = (*attk, *dfnd);
            if attk.projectiles[i].timer.const_lt(time) {
                let ghost before = attk.projectiles@;
                let p = attk.projectiles.swap_remove(i);
                proof {
                    assert forall|q: int|
                        0 <= q < attk.projectiles.len() implies {
                        &&& (#[trigger] attk.projectiles[q]).source < attk.units.len()
                        &&& attk.projectiles[q].target < dfnd.units.len()
                        &&& spec_weapon_against(
                            arch_of(*attk, attk.projectiles[q].source as int),
                            arch_of(*dfnd, attk.projectiles[q].target as int).collision,
                        ) is Some
                    } by {
                        assert(attk.projectiles[q] == before[q] || attk.projectiles[q]
                            == before[before.len() - 1]);
                    }
                }
                let src = p.source as usize;
                let th = p.target as usize;
                let target_arch_idx = dfnd.units[th].base;
                let firer_arch_idx = attk.units[src].base;
                let ghost removed = (*attk, *dfnd);
                proof {
                    assert(removed.0@ =~= (crate::army::ArmyModel {
                        projectiles: pre.0@.projectiles.update(
                            i as int,
                            pre.0@.projectiles.last(),
                        ).drop_last(),
                        ..pre.0@
                    }));
                }
                match attk.base_units[firer_arch_idx].try_get_weapon(
                    &dfnd.base_units[target_arch_idx],
                ) {
                    Some(w) => {
                        let mut tr = attk.trackers[src];
                        Self::apply_damage(&mut tr, th, dfnd, w, time);
                        attk.trackers.set(src, tr);
                        proof {
                            let hit = spec_apply_damage(
                                removed.1@.units[th as int],
                                crate::army::arch_in(removed.1@, th as int),
                                *w,
                                removed.0@.trackers[src as int],
                                removed.1@.trackers[th as int],
                                time,
                            );
                            assert(attk@ =~= (crate::army::ArmyModel {
                                trackers: removed.0@.trackers.update(src as int, hit.1),
                                ..removed.0@
                            }));
                            assert(dfnd@ =~= (crate::army::ArmyModel {
                                units: removed.1@.units.update(th as int, hit.0),
                                trackers: removed.1@.trackers.update(th as int, hit.2),
                                ..removed.1@
                            }));
                            assert(Self::spec_sweep_from_m(pre.0@, pre.1@, time, i as int)
                                == Self::spec_sweep_from_m(attk@, dfnd@, time, i as int));
                        }
                    },
                    None => {
                        proof {
                            assert(Self::spec_sweep_from_m(pre.0@, pre.1@, time, i as int)
                                == Self::spec_sweep_from_m(attk@, dfnd@, time, i as int));
                        }
                    },
                }
            } else {
                proof {
                    assert(Self::spec_sweep_from_m(pre.0@, pre.1@, time, i as int)
                        == Self::spec_sweep_from_m(attk@, dfnd@, time, i + 1));
                }
                i = i + 1;
            }
        }
    }

    /// The state a unit enters after a damage event: the next scheduled
    /// event of a time-offset multi-hit weapon, or back to attacking.
    fn next_multihit_state(w: &Weapon, idx: u8, time: Fixed32) -> (r: ActionState)
        requires
            weapon_wf(*w),
        ensures
            r == spec_next_state(*w, idx, time),
    {
        match &w.multihit {
            Multihit::TimeOffset(offs) => {
                if (idx as usize) < offs.len() {
                    ActionState::DmgPoint(offs[idx as usize].const_add(time), idx + 1)
                } else {
                    ActionState::Attack
                }
            },
            Multihit::PosOffset(offs) => {
                if (idx as usize) < offs.len() {
                    ActionState::DmgPoint(offs[idx as usize].const_add(time), idx + 1)
                } else {
                    ActionState::Attack
                }
            },
            _ => ActionState::Attack,
        }
    }
}

impl Coordinator {
    /// A coordinator with two empty armies, time zero, and the stock seed.
    pub fn new() -> (r: Coordinator)
        ensures
            coordinator_wf(r),
            r.a1.units.len() == 0,
            r.a2.units.len() == 0,
            r.time@ == 0,
            r.seed == 17313471783455232199u64,
            r.rng.state == 17313471783455232199u64,
    {
        Coordinator {
            a1: Army::new(),
            a2: Army::new(),
            time: Fixed32::zero(),
            rng: DelaySource::seed_from_u64(17313471783455232199),
            seed: 17313471783455232199,
        }
    }

    /// Reseeds the random-delay source; the same seed replays the same
    /// battle.
    pub fn seed_rng(&mut self, seed: u64)
        ensures
            final(self).rng.state == seed,
            final(self).seed == seed,
            final(self).a1 == old(self).a1,
            final(self).a2 == old(self).a2,
            final(self).time == old(self).time,
    {
        self.rng = DelaySource::seed_from_u64(seed);
        self.seed = seed;
    }

    /// Draws a fresh seed from the process's entropy and installs it;
    /// returns the seed so the battle can be replayed.
    pub fn randomize_seed(&mut self) -> (r: u64)
        ensures
            final(self).rng.state == r,
            final(self).seed == r,
            final(self).a1 == old(self).a1,
            final(self).a2 == old(self).a2,
            final(self).time == old(self).time,
    {
        let seed = entropy_seed();
        self.rng = DelaySource::seed_from_u64(seed);
        self.seed = seed;
        seed
    }

    /// Restores both armies to their starting states and rewinds the clock.
    pub fn reset(&mut self)
        requires
            coordinator_wf(*old(self)),
        ensures
            coordinator_wf(*final(self)),
            final(self).time@ == 0,
            final(self).seed == old(self).seed,
            final(self).rng == old(self).rng,
            final(self).a1.units.len() == old(self).a1.units.len(),
            final(self).a2.units.len() == old(self).a2.units.len(),
            final(self).a1.base_units == old(self).a1.base_units,
            final(self).a2.base_units == old(self).a2.base_units,
            final(self).a1.projectiles.len() == 0,
            final(self).a2.projectiles.len() == 0,
            forall|i: int|
                0 <= i < old(self).a1.units.len() ==> #[trigger] final(self).a1.units[i]
                    == crate::army::spec_reset_state(
                    old(self).a1.units[i],
                    arch_of(old(self).a1, i),
                ),
            forall|i: int|
                0 <= i < old(self).a2.units.len() ==> #[trigger] final(self).a2.units[i]
                    == crate::army::spec_reset_state(
                    old(self).a2.units[i],
                    arch_of(old(self).a2, i),
                ),
    {
        self.a1.reset();
        self.a2.reset();
        self.time = Fixed32::zero();
    }

    /// The number of living units on the given side.
    pub fn units_left(&self, team: Team) -> (r: usize)
        ensures
            r as int == (match team {
                Team::Team1 => spec_alive(self.a1),
                Team::Team2 => spec_alive(self.a2),
            }),
    {
        match team {
            Team::Team1 => self.a1.alive_count(),
            Team::Team2 => self.a2.alive_count(),
        }
    }

    /// Replays the engagement tick by tick until one side is annihilated
    /// (or a generous tick budget runs out, which calls the fight off), then
    /// drains in-flight projectiles while both backlogs are busy. The
    /// winner is the side with survivors; a double kill (or a called-off
    /// fight) has none. Phases run in a fixed order, first army first, so
    /// one seed fixes the whole trace. Death is permanent throughout.
    pub fn simulate(&mut self) -> (winner: Option<Team>)
        requires
            coordinator_wf(*old(self)),
        ensures
            coordinator_wf(*final(self)),
            final(self).seed == old(self).seed,
            final(self).a1.units.len() == old(self).a1.units.len(),
            final(self).a2.units.len() == old(self).a2.units.len(),
            final(self).a1.base_units == old(self).a1.base_units,
            final(self).a2.base_units == old(self).a2.base_units,
            (match winner {
                Some(Team::Team1) => spec_alive(final(self).a2) == 0 && spec_alive(final(self).a1)
                    > 0,
                Some(Team::Team2) => spec_alive(final(self).a1) == 0 && spec_alive(final(self).a2)
                    > 0,
                None => (spec_alive(final(self).a1) == 0 && spec_alive(final(self).a2) == 0) || (
                spec_alive(final(self).a1) > 0 && spec_alive(final(self).a2) > 0),
            }),
            forall|i: int|
                0 <= i < old(self).a1.units.len() && old(self).a1.units[i].hull@ <= 0 ==> (
                #[trigger] final(self).a1.units[i]).hull@ <= 0,
            forall|i: int|
                0 <= i < old(self).a2.units.len() && old(self).a2.units[i].hull@ <= 0 ==> (
                #[trigger] final(self).a2.units[i]).hull@ <= 0,
            ({
                let sim = spec_simulate_m(old(self)@);
                &&& final(self)@ == sim.0
                &&& winner == sim.1
            }),
            (winner is None && spec_alive(final(self).a1) > 0 && spec_alive(final(self).a2) > 0)
                ==> spec_called_off(old(self)@),
    {
        let mut a1_units = self.a1.alive_count();
        let mut a2_units = self.a2.alive_count();
        let mut budget: u32 = TICK_BUDGET;
        while a1_units != 0 && a2_units != 0 && budget > 0
            invariant
                army_wf(self.a1),
                army_wf(self.a2),
                targets_ok(self.a1, self.a2),
                targets_ok(self.a2, self.a1),
                projectiles_ok(self.a1, self.a2),
                projectiles_ok(self.a2, self.a1),
                self.a1.units.len() == old(self).a1.units.len(),
                self.a2.units.len() == old(self).a2.units.len(),
                self.a1.base_units == old(self).a1.base_units,
                self.a2.base_units == old(self).a2.base_units,
                self.seed == old(self).seed,
                a1_units as int == spec_alive(self.a1),
                a2_units as int == spec_alive(self.a2),
                a1_units <= self.a1.units.len(),
                a2_units <= self.a2.units.len(),
                spec_run_combat(old(self)@, TICK_BUDGET as int) == spec_run_combat(
                    self@,
                    budget as int,
                ),
                forall|i: int|
                    0 <= i < old(self).a1.units.len() && old(self).a1.units[i].hull@ <= 0 ==> (
                    #[trigger] self.a1.units[i]).hull@ <= 0,
                forall|i: int|
                    0 <= i < old(self).a2.units.len() && old(self).a2.units[i].hull@ <= 0 ==> (
                    #[trigger] self.a2.units[i]).hull@ <= 0,
            decreases budget,
        {
            self.tick_combat();
            a1_units = self.a1.alive_count();
            a2_units = self.a2.alive_count();
            budget = budget - 1;
        }
        proof {
            assert(spec_run_combat(self@, budget as int) == self@);
        }
        let ghost after_combat = *self;
        let ghost ran_out = a1_units != 0 && a2_units != 0;
        let mut drain: u32 = TICK_BUDGET;
        while self.a1.projectiles.len() != 0 && self.a2.projectiles.len() != 0 && drain > 0
            invariant
                army_wf(self.a1),
                army_wf(self.a2),
                targets_ok(self.a1, self.a2),
                targets_ok(self.a2, self.a1),
                projectiles_ok(self.a1, self.a2),
                projectiles_ok(self.a2, self.a1),
                self.a1.units.len() == old(self).a1.units.len(),
                self.a2.units.len() == old(self).a2.units.len(),
                self.a1.units.len() == after_combat.a1.units.len(),
                self.a2.units.len() == after_combat.a2.units.len(),
                self.a1.base_units == old(self).a1.base_units,
                self.a2.base_units == old(self).a2.base_units,
                self.seed == old(self).seed,
                spec_run_drain(after_combat@, TICK_BUDGET as int) == spec_run_drain(
                    self@,
                    drain as int,
                ),
                forall|i: int|
                    0 <= i < old(self).a1.units.len() && old(self).a1.units[i].hull@ <= 0 ==> (
                    #[trigger] self.a1.units[i]).hull@ <= 0,
                forall|i: int|
                    0 <= i < old(self).a2.units.len() && old(self).a2.units[i].hull@ <= 0 ==> (
                    #[trigger] self.a2.units[i]).hull@ <= 0,
                forall|i: int|
                    0 <= i < after_combat.a1.units.len() && after_combat.a1.units[i].hull@ <= 0
                        ==> (#[trigger] self.a1.units[i]).hull@ <= 0,
                forall|i: int|
                    0 <= i < after_combat.a2.units.len() && after_combat.a2.units[i].hull@ <= 0
                        ==> (#[trigger] self.a2.units[i]).hull@ <= 0,
            decreases drain,
        {
            self.tick_drain();
            drain = drain - 1;
        }
        proof {
            assert(spec_run_drain(self@, drain as int) == self@);
            assert(self@ == spec_simulate_m(old(self)@).0);
        }
        a1_units = self.a1.alive_count();
        a2_units = self.a2.alive_count();
        proof {
            if a1_units != 0 || a2_units != 0 {
                if !ran_out {
                    lemma_alive_zero(after_combat.a1.units@, after_combat.a1.units.len() as int);
                    lemma_alive_zero(after_combat.a2.units@, after_combat.a2.units.len() as int);
                    lemma_alive_zero(self.a1.units@, self.a1.units.len() as int);
                    lemma_alive_zero(self.a2.units@, self.a2.units.len() as int);
                }
            }
        }
        if a1_units == 0 && a2_units == 0 {
            None
        } else if a1_units == 0 {
            Some(Team::Team2)
        } else if a2_units == 0 {
            Some(Team::Team1)
        } else {
            None
        }
    }

    /// One full combat tick: targeting, regeneration, the attack state
    /// machines, and the projectile sweeps, first army first, then the
    /// clock advances one step.
    #[verifier::rlimit(100)]
    fn tick_combat(&mut self)
        requires
            army_wf(old(self).a1),
            army_wf(old(self).a2),
            targets_ok(old(self).a1, old(self).a2),
            targets_ok(old(self).a2, old(self).a1),
            projectiles_ok(old(self).a1, old(self).a2),
            projectiles_ok(old(self).a2, old(self).a1),
            spec_alive(old(self).a1) > 0,
            spec_alive(old(self).a2) > 0,
        ensures
            army_wf(final(self).a1),
            army_wf(final(self).a2),
            targets_ok(final(self).a1, final(self).a2),
            targets_ok(final(self).a2, final(self).a1),
            projectiles_ok(final(self).a1, final(self).a2),
            projectiles_ok(final(self).a2, final(self).a1),
            final(self).a1.units.len() == old(self).a1.units.len(),
            final(self).a2.units.len() == old(self).a2.units.len(),
            final(self).a1.base_units == old(self).a1.base_units,
            final(self).a2.base_units == old(self).a2.base_units,
            final(self).seed == old(self).seed,
            forall|i: int|
                0 <= i < old(self).a1.units.len() && old(self).a1.units[i].hull@ <= 0 ==> (
                #[trigger] final(self).a1.units[i]).hull@ <= 0,
            forall|i: int|
                0 <= i < old(self).a2.units.len() && old(self).a2.units[i].hull@ <= 0 ==> (
                #[trigger] final(self).a2.units[i]).hull@ <= 0,
            final(self)@ == spec_tick_combat_m(old(self)@),
    {
        proof {
            lemma_alive_le_len(old(self).a1.units@, old(self).a1.units.len() as int);
            lemma_alive_le_len(old(self).a2.units@, old(self).a2.units.len() as int);
        }
        self.phase_targets();
        self.phase_heal();
        self.phase_attack();
        self.phase_sweep();
        self.time = self.time.const_add(Fixed32 { bits: crate::TICK_BITS });
        proof {
            assert(self@ =~= spec_tick_combat_m(old(self)@));
        }
    }

    /// The targeting phase: both armies refresh their targets, first army
    /// first.
    #[verifier::rlimit(100)]
    fn phase_targets(&mut self)
        requires
            army_wf(old(self).a1),
            army_wf(old(self).a2),
            targets_ok(old(self).a1, old(self).a2),
            targets_ok(old(self).a2, old(self).a1),
            projectiles_ok(old(self).a1, old(self).a2),
            projectiles_ok(old(self).a2, old(self).a1),
            old(self).a1.units.len() > 0,
            old(self).a2.units.len() > 0,
        ensures
            army_wf(final(self).a1),
            army_wf(final(self).a2),
            targets_ok(final(self).a1, final(self).a2),
            targets_ok(final(self).a2, final(self).a1),
            projectiles_ok(final(self).a1, final(self).a2),
            projectiles_ok(final(self).a2, final(self).a1),
            final(self).a1.units.len() == old(self).a1.units.len(),
            final(self).a2.units.len() == old(self).a2.units.len(),
            final(self).a1.base_units == old(self).a1.base_units,
            final(self).a2.base_units == old(self).a2.base_units,
            final(self).seed == old(self).seed,
            final(self).time == old(self).time,
            final(self).a1.projectiles == old(self).a1.projectiles,
            final(self).a2.projectiles == old(self).a2.projectiles,
            forall|i: int|
                0 <= i < old(self).a1.units.len() ==> ((#[trigger] final(self).a1.units[i]).hull
                    == old(self).a1.units[i].hull && final(self).a1.units[i].base == old(
                    self,
                ).a1.units[i].base),
            forall|i: int|
                0 <= i < old(self).a2.units.len() ==> ((#[trigger] final(self).a2.units[i]).hull
                    == old(self).a2.units[i].hull && final(self).a2.units[i].base == old(
                    self,
                ).a2.units[i].base),
            final(self)@ == spec_targets_phase(old(self)@),
    {
        self.a1.acquire_targets(&self.a2, &mut self.rng);
        proof {
            assert forall|i: int| 0 <= i < self.a1.units.len() implies ((
            #[trigger] self.a1.units[i]).hull == old(self).a1.units[i].hull && self.a1.units[i].base
                == old(self).a1.units[i].base && (self.a1.units[i].target matches Some(t) ==> t
                < self.a2.units.len())) by {}
            assert(projectiles_ok(self.a1, self.a2)) by {
                assert forall|p: int| 0 <= p < self.a1.projectiles.len() implies {
                    &&& (#[trigger] self.a1.projectiles[p]).source < self.a1.units.len()
                    &&& self.a1.projectiles[p].target < self.a2.units.len()
                    &&& spec_weapon_against(
                        arch_of(self.a1, self.a1.projectiles[p].source as int),
                        arch_of(self.a2, self.a1.projectiles[p].target as int).collision,
                    ) is Some
                } by {
                    assert(arch_of(self.a1, self.a1.projectiles[p].source as int) == arch_of(
                        old(self).a1,
                        self.a1.projectiles[p].source as int,
                    ));
                }
            }
        }
        self.a2.acquire_targets(&self.a1, &mut self.rng);
        proof {
            assert forall|i: int| 0 <= i < self.a2.units.len() implies ((
            #[trigger] self.a2.units[i]).hull == old(self).a2.units[i].hull && self.a2.units[i].base
                == old(self).a2.units[i].base && (self.a2.units[i].target matches Some(t) ==> t
                < self.a1.units.len())) by {}
            assert(projectiles_ok(self.a2, self.a1)) by {
                assert forall|p: int| 0 <= p < self.a2.projectiles.len() implies {
                    &&& (#[trigger] self.a2.projectiles[p]).source < self.a2.units.len()
                    &&& self.a2.projectiles[p].target < self.a1.units.len()
                    &&& spec_weapon_against(
                        arch_of(self.a2, self.a2.projectiles[p].source as int),
                        arch_of(self.a1, self.a2.projectiles[p].target as int).collision,
                    ) is Some
                } by {
                    assert(arch_of(self.a2, self.a2.projectiles[p].source as int) == arch_of(
                        old(self).a2,
                        self.a2.projectiles[p].source as int,
                    ));
                }
            }
            assert(self@ =~= spec_targets_phase(old(self)@));
        }
    }

    /// The regeneration phase: both armies heal, first army first.
    #[verifier::rlimit(100)]
    fn phase_heal(&mut self)
        requires
            army_wf(old(self).a1),
            army_wf(old(self).a2),
            targets_ok(old(self).a1, old(self).a2),
            targets_ok(old(self).a2, old(self).a1),
            projectiles_ok(old(self).a1, old(self).a2),
            projectiles_ok(old(self).a2, old(self).a1),
        ensures
            army_wf(final(self).a1),
            army_wf(final(self).a2),
            targets_ok(final(self).a1, final(self).a2),
            targets_ok(final(self).a2, final(self).a1),
            projectiles_ok(final(self).a1, final(self).a2),
            projectiles_ok(final(self).a2, final(self).a1),
            final(self).a1.units.len() == old(self).a1.units.len(),
            final(self).a2.units.len() == old(self).a2.units.len(),
            final(self).a1.base_units == old(self).a1.base_units,
            final(self).a2.base_units == old(self).a2.base_units,
            final(self).seed == old(self).seed,
            final(self).time == old(self).time,
            final(self).a1.projectiles == old(self).a1.projectiles,
            final(self).a2.projectiles == old(self).a2.projectiles,
            forall|i: int|
                0 <= i < old(self).a1.units.len() && old(self).a1.units[i].hull@ <= 0 ==> (
                #[trigger] final(self).a1.units[i]).hull@ <= 0,
            forall|i: int|
                0 <= i < old(self).a2.units.len() && old(self).a2.units[i].hull@ <= 0 ==> (
                #[trigger] final(self).a2.units[i]).hull@ <= 0,
            final(self)@ == spec_heal_phase(old(self)@),
    {
        let time = self.time;
        self.a1.heal(time);
        proof {
            assert forall|i: int| 0 <= i < self.a1.units.len() implies ((
            #[trigger] self.a1.units[i]).base == old(self).a1.units[i].base
                && self.a1.units[i].target == old(self).a1.units[i].target && (old(
                self,
            ).a1.units[i].hull@ <= 0 ==> self.a1.units[i].hull@ <= 0)) by {}
        }
        self.a2.heal(time);
        proof {
            assert forall|i: int| 0 <= i < self.a2.units.len() implies ((
            #[trigger] self.a2.units[i]).base == old(self).a2.units[i].base
                && self.a2.units[i].target == old(self).a2.units[i].target && (old(
                self,
            ).a2.units[i].hull@ <= 0 ==> self.a2.units[i].hull@ <= 0)) by {}
            assert(self@ =~= spec_heal_phase(old(self)@));
        }
    }

    /// The attack phase: both state machines run, first army first.
    #[verifier::rlimit(100)]
    fn phase_attack(&mut self)
        requires
            army_wf(old(self).a1),
            army_wf(old(self).a2),
            targets_ok(old(self).a1, old(self).a2),
            targets_ok(old(self).a2, old(self).a1),
            projectiles_ok(old(self).a1, old(self).a2),
            projectiles_ok(old(self).a2, old(self).a1),
        ensures
            army_wf(final(self).a1),
            army_wf(final(self).a2),
            targets_ok(final(self).a1, final(self).a2),
            targets_ok(final(self).a2, final(self).a1),
            projectiles_ok(final(self).a1, final(self).a2),
            projectiles_ok(final(self).a2, final(self).a1),
            final(self).a1.units.len() == old(self).a1.units.len(),
            final(self).a2.units.len() == old(self).a2.units.len(),
            final(self).a1.base_units == old(self).a1.base_units,
            final(self).a2.base_units == old(self).a2.base_units,
            final(self).seed == old(self).seed,
            final(self).time == old(self).time,
            forall|i: int|
                0 <= i < old(self).a1.units.len() && old(self).a1.units[i].hull@ <= 0 ==> (
                #[trigger] final(self).a1.units[i]).hull@ <= 0,
            forall|i: int|
                0 <= i < old(self).a2.units.len() && old(self).a2.units[i].hull@ <= 0 ==> (
                #[trigger] final(self).a2.units[i]).hull@ <= 0,
            final(self)@ == spec_attack_phase(old(self)@),
    {
        let time = self.time;
        Self::attack_army(&mut self.a1, &mut self.a2, &mut self.rng, time);
        proof {
            assert forall|i: int| 0 <= i < self.a2.units.len() implies ((
            #[trigger] self.a2.units[i]).base == old(self).a2.units[i].base
                && self.a2.units[i].target == old(self).a2.units[i].target) by {}
            assert(projectiles_ok(self.a2, self.a1)) by {
                assert forall|p: int| 0 <= p < self.a2.projectiles.len() implies {
                    &&& (#[trigger] self.a2.projectiles[p]).source < self.a2.units.len()
                    &&& self.a2.projectiles[p].target < self.a1.units.len()
                    &&& spec_weapon_against(
                        arch_of(self.a2, self.a2.projectiles[p].source as int),
                        arch_of(self.a1, self.a2.projectiles[p].target as int).collision,
                    ) is Some
                } by {
                    assert(arch_of(self.a2, self.a2.projectiles[p].source as int) == arch_of(
                        old(self).a2,
                        self.a2.projectiles[p].source as int,
                    ));
                    assert(arch_of(self.a1, self.a2.projectiles[p].target as int) == arch_of(
                        old(self).a1,
                        self.a2.projectiles[p].target as int,
                    ));
                }
            }
        }
        let ghost mid = *self;
        Self::attack_army(&mut self.a2, &mut self.a1, &mut self.rng, time);
        proof {
            assert forall|i: int| 0 <= i < self.a1.units.len() implies ((
            #[trigger] self.a1.units[i]).base == mid.a1.units[i].base && self.a1.units[i].target
                == mid.a1.units[i].target && (old(self).a1.units[i].hull@ <= 0
                ==> self.a1.units[i].hull@ <= 0)) by {}
            assert(projectiles_ok(self.a1, self.a2)) by {
                assert forall|p: int| 0 <= p < self.a1.projectiles.len() implies {
                    &&& (#[trigger] self.a1.projectiles[p]).source < self.a1.units.len()
                    &&& self.a1.projectiles[p].target < self.a2.units.len()
                    &&& spec_weapon_against(
                        arch_of(self.a1, self.a1.projectiles[p].source as int),
                        arch_of(self.a2, self.a1.projectiles[p].target as int).collision,
                    ) is Some
                } by {
                    assert(arch_of(self.a1, self.a1.projectiles[p].source as int) == arch_of(
                        mid.a1,
                        self.a1.projectiles[p].source as int,
                    ));
                    assert(arch_of(self.a2, self.a1.projectiles[p].target as int) == arch_of(
                        mid.a2,
                        self.a1.projectiles[p].target as int,
                    ));
                }
            }
            assert(self@ =~= spec_attack_phase(old(self)@));
        }
    }

    /// The projectile phase: both backlogs are swept, first army first.
    #[verifier::rlimit(100)]
    fn phase_sweep(&mut self)
        requires
            army_wf(old(self).a1),
            army_wf(old(self).a2),
            targets_ok(old(self).a1, old(self).a2),
            targets_ok(old(self).a2, old(self).a1),
            projectiles_ok(old(self).a1, old(self).a2),
            projectiles_ok(old(self).a2, old(self).a1),
        ensures
            army_wf(final(self).a1),
            army_wf(final(self).a2),
            targets_ok(final(self).a1, final(self).a2),
            targets_ok(final(self).a2, final(self).a1),
            projectiles_ok(final(self).a1, final(self).a2),
            projectiles_ok(final(self).a2, final(self).a1),
            final(self).a1.units.len() == old(self).a1.units.len(),
            final(self).a2.units.len() == old(self).a2.units.len(),
            final(self).a1.base_units == old(self).a1.base_units,
            final(self).a2.base_units == old(self).a2.base_units,
            final(self).seed == old(self).seed,
            final(self).time == old(self).time,
            final(self).a1.projectiles.len() <= old(self).a1.projectiles.len(),
            final(self).a2.projectiles.len() <= old(self).a2.projectiles.len(),
            forall|i: int|
                0 <= i < old(self).a1.units.len() && old(self).a1.units[i].hull@ <= 0 ==> (
                #[trigger] final(self).a1.units[i]).hull@ <= 0,
            forall|i: int|
                0 <= i < old(self).a2.units.len() && old(self).a2.units[i].hull@ <= 0 ==> (
                #[trigger] final(self).a2.units[i]).hull@ <= 0,
            final(self)@ == spec_sweep_phase(old(self)@),
    {
        let time = self.time;
        Self::sweep_projectiles(&mut self.a1, &mut self.a2, time);
        proof {
            assert forall|i: int| 0 <= i < self.a2.units.len() implies ((
            #[trigger] self.a2.units[i]).base == old(self).a2.units[i].base
                && self.a2.units[i].target == old(self).a2.units[i].target) by {}
            assert(projectiles_ok(self.a2, self.a1)) by {
                assert forall|p: int| 0 <= p < self.a2.projectiles.len() implies {
                    &&& (#[trigger] self.a2.projectiles[p]).source < self.a2.units.len()
                    &&& self.a2.projectiles[p].target < self.a1.units.len()
                    &&& spec_weapon_against(
                        arch_of(self.a2, self.a2.projectiles[p].source as int),
                        arch_of(self.a1, self.a2.projectiles[p].target as int).collision,
                    ) is Some
                } by {
                    assert(arch_of(self.a2, self.a2.projectiles[p].source as int) == arch_of(
                        old(self).a2,
                        self.a2.projectiles[p].source as int,
                    ));
                    assert(arch_of(self.a1, self.a2.projectiles[p].target as int) == arch_of(
                        old(self).a1,
                        self.a2.projectiles[p].target as int,
                    ));
                }
            }
        }
        let ghost mid = *self;
        Self::sweep_projectiles(&mut self.a2, &mut self.a1, time);
        proof {
            assert forall|i: int| 0 <= i < self.a1.units.len() implies ((
            #[trigger] self.a1.units[i]).base == mid.a1.units[i].base && self.a1.units[i].target
                == mid.a1.units[i].target && (old(self).a1.units[i].hull@ <= 0
                ==> self.a1.units[i].hull@ <= 0)) by {}
            assert(projectiles_ok(self.a1, self.a2)) by {
                assert forall|p: int| 0 <= p < self.a1.projectiles.len() implies {
                    &&& (#[trigger] self.a1.projectiles[p]).source < self.a1.units.len()
                    &&& self.a1.projectiles[p].target < self.a2.units.len()
                    &&& spec_weapon_against(
                        arch_of(self.a1, self.a1.projectiles[p].source as int),
                        arch_of(self.a2, self.a1.projectiles[p].target as int).collision,
                    ) is Some
                } by {
                    assert(arch_of(self.a1, self.a1.projectiles[p].source as int) == arch_of(
                        mid.a1,
                        self.a1.projectiles[p].source as int,
                    ));
                    assert(arch_of(self.a2, self.a1.projectiles[p].target as int) == arch_of(
                        mid.a2,
                        self.a1.projectiles[p].target as int,
                    ));
                }
            }
            assert(self@ =~= spec_sweep_phase(old(self)@));
        }
    }

    /// One drain tick after annihilation: regeneration and the projectile
    /// sweeps only, then the clock advances.
    fn tick_drain(&mut self)
        requires
            army_wf(old(self).a1),
            army_wf(old(self).a2),
            targets_ok(old(self).a1, old(self).a2),
            targets_ok(old(self).a2, old(self).a1),
            projectiles_ok(old(self).a1, old(self).a2),
            projectiles_ok(old(self).a2, old(self).a1),
        ensures
            army_wf(final(self).a1),
            army_wf(final(self).a2),
            targets_ok(final(self).a1, final(self).a2),
            targets_ok(final(self).a2, final(self).a1),
            projectiles_ok(final(self).a1, final(self).a2),
            projectiles_ok(final(self).a2, final(self).a1),
            final(self).a1.units.len() == old(self).a1.units.len(),
            final(self).a2.units.len() == old(self).a2.units.len(),
            final(self).a1.base_units == old(self).a1.base_units,
            final(self).a2.base_units == old(self).a2.base_units,
            final(self).seed == old(self).seed,
            final(self).a1.projectiles.len() <= old(self).a1.projectiles.len(),
            final(self).a2.projectiles.len() <= old(self).a2.projectiles.len(),
            forall|i: int|
                0 <= i < old(self).a1.units.len() && old(self).a1.units[i].hull@ <= 0 ==> (
                #[trigger] final(self).a1.units[i]).hull@ <= 0,
            forall|i: int|
                0 <= i < old(self).a2.units.len() && old(self).a2.units[i].hull@ <= 0 ==> (
                #[trigger] final(self).a2.units[i]).hull@ <= 0,
            final(self)@ == spec_tick_drain_m(old(self)@),
    {
        self.phase_heal();
        self.phase_sweep();
        self.time = self.time.const_add(Fixed32 { bits: crate::TICK_BITS });
        proof {
            assert(self@ =~= spec_tick_drain_m(old(self)@));
        }
    }
}

/// No army holds more living units than units.
pub proof fn lemma_alive_le_len(units: Seq<State>, n: int)
    requires
        0 <= n <= units.len(),
    ensures
        spec_alive_below(units, n) <= n,
        0 <= spec_alive_below(units, n),
    decreases n,
{
    if n > 0 {
        lemma_alive_le_len(units, n - 1);
    }
}

/// An army counts no survivors exactly when every one of its units is dead.
pub proof fn lemma_alive_zero(units: Seq<State>, n: int)
    requires
        0 <= n <= units.len(),
    ensures
        (spec_alive_below(units, n) == 0) <==> (forall|k: int|
            0 <= k < n ==> (#[trigger] units[k]).hull@ <= 0),
    decreases n,
{
    if n > 0 {
        lemma_alive_le_len(units, n - 1);
        lemma_alive_zero(units, n - 1);
    }
}

/// How many of the army's first `n` units carry the archetype at table
/// index `j` and match the given life state.
pub open spec fn spec_count_where(a: Army, j: int, n: int, alive: bool) -> int
    decreases n,
{
    if n <= 0 {
        0
    } else {
        spec_count_where(a, j, n - 1, alive) + if a.units[n - 1].base == j && (a.units[n - 1].hull@
            > 0) == alive {
            1int
        } else {
            0int
        }
    }
}

/// The structured result of a finished engagement: the winner and a view of
/// the coordinator it came from.
pub struct Outcome<'a> {
    winner: Option<Team>,
    inner: &'a Coordinator,
}

impl<'a> Outcome<'a> {
    /// The recorded winner.
    pub closed spec fn spec_winner(&self) -> Option<Team> {
        self.winner
    }

    /// The coordinator state the outcome reads.
    pub closed spec fn spec_inner(&self) -> Coordinator {
        *self.inner
    }

    /// The winning army, or nothing for a draw.
    pub closed spec fn spec_winning_army(&self) -> Option<Army> {
        match self.winner {
            Some(Team::Team1) => Some(self.inner.a1),
            Some(Team::Team2) => Some(self.inner.a2),
            None => None,
        }
    }

    /// The recorded winner: nothing for a double kill or a called-off
    /// fight.
    pub fn winner(&self) -> (r: Option<Team>)
        ensures
            r == self.spec_winner(),
    {
        self.winner
    }

    /// The first army.
    pub fn team_1(&self) -> (r: &Army)
        ensures
            *r == self.spec_inner().a1,
    {
        &self.inner.a1
    }

    /// The second army.
    pub fn team_2(&self) -> (r: &Army)
        ensures
            *r == self.spec_inner().a2,
    {
        &self.inner.a2
    }

    /// How long the fight ran, in game seconds.
    pub fn duration(&self) -> (r: Fixed32)
        ensures
            r == self.spec_inner().time,
    {
        self.inner.time
    }

    /// The full archetype cost of one side.
    pub fn total_cost(&self, team: Team) -> (r: crate::unit::Cost)
        requires
            army_wf(self.spec_inner().a1),
            army_wf(self.spec_inner().a2),
        ensures
            r == (match team {
                Team::Team1 => crate::army::spec_total_cost(
                    self.spec_inner().a1,
                    self.spec_inner().a1.units.len() as int,
                ),
                Team::Team2 => crate::army::spec_total_cost(
                    self.spec_inner().a2,
                    self.spec_inner().a2.units.len() as int,
                ),
            }),
    {
        match team {
            Team::Team1 => self.inner.a1.total_cost(),
            Team::Team2 => self.inner.a2.total_cost(),
        }
    }

    /// The given side's total cost less the other side's, field by field.
    pub fn cost_difference(&self, team: Team) -> (r: crate::unit::Cost)
        requires
            army_wf(self.spec_inner().a1),
            army_wf(self.spec_inner().a2),
        ensures
            ({
                let c1 = crate::army::spec_total_cost(
                    self.spec_inner().a1,
                    self.spec_inner().a1.units.len() as int,
                );
                let c2 = crate::army::spec_total_cost(
                    self.spec_inner().a2,
                    self.spec_inner().a2.units.len() as int,
                );
                match team {
                    Team::Team1 => r.minerals@ == crate::fixed::sub_raw(c1.minerals@, c2.minerals@)
                        && r.gas@ == crate::fixed::sub_raw(c1.gas@, c2.gas@),
                    Team::Team2 => r.minerals@ == crate::fixed::sub_raw(c2.minerals@, c1.minerals@)
                        && r.gas@ == crate::fixed::sub_raw(c2.gas@, c1.gas@),
                }
            }),
    {
        match team {
            Team::Team1 => self.inner.a1.total_cost().minus(self.inner.a2.total_cost()),
            Team::Team2 => self.inner.a2.total_cost().minus(self.inner.a1.total_cost()),
        }
    }

    /// The archetype cost of the winner's dead units; the loser lost
    /// everything, so only the winner's losses are interesting. Nothing for
    /// a draw.
    pub fn resources_lost(&self) -> (r: Option<crate::unit::Cost>)
        requires
            army_wf(self.spec_inner().a1),
            army_wf(self.spec_inner().a2),
        ensures
            (match self.spec_winning_army() {
                Some(a) => r == Some(crate::army::spec_cost_where(a, a.units.len() as int, false)),
                None => r is None,
            }),
    {
        match self.winner {
            Some(Team::Team1) => Some(self.inner.a1.cost_where(false)),
            Some(Team::Team2) => Some(self.inner.a2.cost_where(false)),
            None => None,
        }
    }

    /// The archetype cost of the winner's surviving units; a draw is worth
    /// nothing.
    pub fn cost_units_remaining(&self) -> (r: crate::unit::Cost)
        requires
            army_wf(self.spec_inner().a1),
            army_wf(self.spec_inner().a2),
        ensures
            (match self.spec_winning_army() {
                Some(a) => r == crate::army::spec_cost_where(a, a.units.len() as int, true),
                None => r == crate::army::cost_zero(),
            }),
    {
        match self.winner {
            Some(Team::Team1) => self.inner.a1.cost_where(true),
            Some(Team::Team2) => self.inner.a2.cost_where(true),
            None => crate::unit::Cost::free(),
        }
    }

    /// Counts the winner's surviving units, one entry per archetype of its
    /// table (zero counts included); empty for a draw.
    pub fn units_remaining(&self) -> (r: Vec<(crate::unit::Base, u32)>)
        requires
            army_wf(self.spec_inner().a1),
            army_wf(self.spec_inner().a2),
        ensures
            (match self.spec_winning_army() {
                Some(a) => r.len() == a.base_units.len() && forall|j: int|
                    0 <= j < r.len() ==> #[trigger] r[j] == (
                    a.base_units[j].base,
                    spec_count_where(a, j, a.units.len() as int, true) as u32,
                ),
                None => r.len() == 0,
            }),
    {
        match self.winner {
            Some(Team::Team1) => Self::count_units(&self.inner.a1, true),
            Some(Team::Team2) => Self::count_units(&self.inner.a2, true),
            None => Vec::new(),
        }
    }

    /// Counts the winner's dead units, one entry per archetype of its table
    /// (zero counts included); empty for a draw.
    pub fn units_lost(&self) -> (r: Vec<(crate::unit::Base, u32)>)
        requires
            army_wf(self.spec_inner().a1),
            army_wf(self.spec_inner().a2),
        ensures
            (match self.spec_winning_army() {
                Some(a) => r.len() == a.base_units.len() && forall|j: int|
                    0 <= j < r.len() ==> #[trigger] r[j] == (
                    a.base_units[j].base,
                    spec_count_where(a, j, a.units.len() as int, false) as u32,
                ),
                None => r.len() == 0,
            }),
    {
        match self.winner {
            Some(Team::Team1) => Self::count_units(&self.inner.a1, false),
            Some(Team::Team2) => Self::count_units(&self.inner.a2, false),
            None => Vec::new(),
        }
    }

    /// Counts an army's units per archetype, keeping only those in the
    /// given life state.
    fn count_units(a: &Army, alive: bool) -> (r: Vec<(crate::unit::Base, u32)>)
        requires
            army_wf(*a),
        ensures
            r.len() == a.base_units.len(),
            forall|j: int|
                0 <= j < r.len() ==> #[trigger] r[j] == (
                a.base_units[j].base,
                spec_count_where(*a, j, a.units.len() as int, alive) as u32,
            ),
    {
        let mut r: Vec<(crate::unit::Base, u32)> = Vec::new();
        let mut j: usize = 0;
        while j < a.base_units.len()
            invariant
                army_wf(*a),
                j <= a.base_units.len(),
                r.len() == j,
                forall|k: int|
                    0 <= k < j ==> #[trigger] r[k] == (
                    a.base_units[k].base,
                    spec_count_where(*a, k, a.units.len() as int, alive) as u32,
                ),
            decreases a.base_units.len() - j,
        {
            let mut n: u32 = 0;
            let mut i: usize = 0;
            while i < a.units.len()
                invariant
                    army_wf(*a),
                    j < a.base_units.len(),
                    i <= a.units.len(),
                    a.units.len() <= u32::MAX,
                    n as int == spec_count_where(*a, j as int, i as int, alive),
                    n <= i,
                decreases a.units.len() - i,
            {
                if a.units[i].base == j && a.units[i].is_alive() == alive {
                    n = n + 1;
                }
                i = i + 1;
            }
            r.push((a.base_units[j].base, n));
            j = j + 1;
        }
        r
    }
}

impl Coordinator {
    /// Assembles the outcome of the battle as it stands: the winner is the
    /// side with survivors, or nobody when both sides are gone or both
    /// still stand.
    pub fn outcome(&self) -> (o: Outcome<'_>)
        ensures
            o.spec_inner() == *self,
            (match o.spec_winner() {
                Some(Team::Team1) => spec_alive(self.a2) == 0 && spec_alive(self.a1) > 0,
                Some(Team::Team2) => spec_alive(self.a1) == 0 && spec_alive(self.a2) > 0,
                None => (spec_alive(self.a1) == 0 && spec_alive(self.a2) == 0) || (spec_alive(
                    self.a1,
                ) > 0 && spec_alive(self.a2) > 0),
            }),
    {
        let a1_units = self.a1.alive_count();
        let a2_units = self.a2.alive_count();
        let winner = if a1_units == 0 && a2_units == 0 {
            None
        } else if a1_units == 0 {
            Some(Team::Team2)
        } else if a2_units == 0 {
            Some(Team::Team1)
        } else {
            None
        };
        Outcome { winner, inner: self }
    }
}

/// A unit state after an area effect touched it: the effect's speed factor
/// scales the unit's top speed; nothing else changes.
pub open spec fn spec_aoe_touched(s: State, e: crate::effect::Effect) -> State {
    State {
        max_speed: crate::fixed::fx(
            mul_raw(s.max_speed@, e.spec_factor_on(crate::effect::Stat::Speed)),
        ),
        ..s
    }
}

impl Army {
    /// Presses an area effect onto every unit whose collision circle the
    /// area touches.
    pub fn apply_aoe_units(&mut self, aoe: &crate::effect::AoE)
        requires
            army_wf(*old(self)),
        ensures
            army_wf(*final(self)),
            final(self).units.len() == old(self).units.len(),
            final(self).base_units == old(self).base_units,
            final(self).positions == old(self).positions,
            final(self).trackers == old(self).trackers,
            final(self).projectiles == old(self).projectiles,
            forall|i: int|
                0 <= i < old(self).units.len() ==> #[trigger] final(self).units[i] == (
                if aoe.circle.spec_collides_with(old(self).positions[i]) {
                    spec_aoe_touched(old(self).units[i], aoe.effect)
                } else {
                    old(self).units[i]
                }),
    {
        let mut i: usize = 0;
        while i < self.units.len()
            invariant
                army_wf(*self),
                army_wf(*old(self)),
                i <= self.units.len(),
                self.units.len() == old(self).units.len(),
                self.base_units == old(self).base_units,
                self.positions == old(self).positions,
                self.trackers == old(self).trackers,
                self.projectiles == old(self).projectiles,
                forall|k: int|
                    0 <= k < i ==> #[trigger] self.units[k] == (
                    if aoe.circle.spec_collides_with(old(self).positions[k]) {
                        spec_aoe_touched(old(self).units[k], aoe.effect)
                    } else {
                        old(self).units[k]
                    }),
                forall|k: int|
                    i <= k < self.units.len() ==> #[trigger] self.units[k] == old(self).units[k],
            decreases self.units.len() - i,
        {
            if aoe.collides_with(self.positions[i]) {
                let u = self.units[i];
                let mut u2 = u;
                u2.max_speed = aoe.effect.apply_to(crate::effect::Stat::Speed, u.max_speed);
                self.units.set(i, u2);
                proof {
                    assert(state_wf(old(self).units[i as int], arch_of(*old(self), i as int)));
                }
            }
            i = i + 1;
        }
    }
}

impl Coordinator {
    /// Which sides an area effect touches, by its affiliation and owner:
    /// the owner's side for a friendly effect, the other side for a hostile
    /// one, both for an indiscriminate one.
    pub open spec fn spec_aoe_sides(affects: crate::effect::Affects, team: Team) -> (bool, bool) {
        match (affects, team) {
            (crate::effect::Affects::Friendly, Team::Team1) => (true, false),
            (crate::effect::Affects::Friendly, Team::Team2) => (false, true),
            (crate::effect::Affects::Enemy, Team::Team1) => (false, true),
            (crate::effect::Affects::Enemy, Team::Team2) => (true, false),
            (crate::effect::Affects::Both, _) => (true, true),
        }
    }

    /// Applies an area effect to the armies its affiliation selects: on
    /// each selected side, exactly the units whose circles the area touches
    /// take the effect, and everything else stands as it was.
    pub fn apply_aoe(&mut self, aoe: &crate::effect::AoE)
        requires
            army_wf(old(self).a1),
            army_wf(old(self).a2),
            targets_ok(old(self).a1, old(self).a2),
            targets_ok(old(self).a2, old(self).a1),
            projectiles_ok(old(self).a1, old(self).a2),
            projectiles_ok(old(self).a2, old(self).a1),
        ensures
            army_wf(final(self).a1),
            army_wf(final(self).a2),
            targets_ok(final(self).a1, final(self).a2),
            targets_ok(final(self).a2, final(self).a1),
            projectiles_ok(final(self).a1, final(self).a2),
            projectiles_ok(final(self).a2, final(self).a1),
            Self::spec_aoe_sides(aoe.affects, aoe.team).0 ==> forall|i: int|
                0 <= i < old(self).a1.units.len() ==> #[trigger] final(self).a1.units[i] == (
                if aoe.circle.spec_collides_with(old(self).a1.positions[i]) {
                    spec_aoe_touched(old(self).a1.units[i], aoe.effect)
                } else {
                    old(self).a1.units[i]
                }),
            Self::spec_aoe_sides(aoe.affects, aoe.team).1 ==> forall|i: int|
                0 <= i < old(self).a2.units.len() ==> #[trigger] final(self).a2.units[i] == (
                if aoe.circle.spec_collides_with(old(self).a2.positions[i]) {
                    spec_aoe_touched(old(self).a2.units[i], aoe.effect)
                } else {
                    old(self).a2.units[i]
                }),
            !Self::spec_aoe_sides(aoe.affects, aoe.team).0 ==> final(self).a1 == old(self).a1,
            !Self::spec_aoe_sides(aoe.affects, aoe.team).1 ==> final(self).a2 == old(self).a2,
            final(self).a1.positions == old(self).a1.positions,
            final(self).a2.positions == old(self).a2.positions,
            final(self).a1.trackers == old(self).a1.trackers,
            final(self).a2.trackers == old(self).a2.trackers,
            final(self).a1.projectiles == old(self).a1.projectiles,
            final(self).a2.projectiles == old(self).a2.projectiles,
            final(self).a1.units.len() == old(self).a1.units.len(),
            final(self).a2.units.len() == old(self).a2.units.len(),
            final(self).a1.base_units == old(self).a1.base_units,
            final(self).a2.base_units == old(self).a2.base_units,
    {
        let first = match (aoe.affects, aoe.team) {
            (crate::effect::Affects::Friendly, Team::Team1) => true,
            (crate::effect::Affects::Enemy, Team::Team2) => true,
            _ => false,
        };
        let second = match (aoe.affects, aoe.team) {
            (crate::effect::Affects::Friendly, Team::Team2) => true,
            (crate::effect::Affects::Enemy, Team::Team1) => true,
            _ => false,
        };
        let both = match aoe.affects {
            crate::effect::Affects::Both => true,
            _ => false,
        };
        if first || both {
            self.a1.apply_aoe_units(aoe);
            proof {
                assert forall|i: int| 0 <= i < self.a1.units.len() implies ((
                #[trigger] self.a1.units[i]).base == old(self).a1.units[i].base
                    && self.a1.units[i].target == old(self).a1.units[i].target) by {}
            }
        }
        if second || both {
            let ghost mid = *self;
            self.a2.apply_aoe_units(aoe);
            proof {
                assert forall|i: int| 0 <= i < self.a2.units.len() implies ((
                #[trigger] self.a2.units[i]).base == mid.a2.units[i].base && self.a2.units[i].target
                    == mid.a2.units[i].target) by {}
            }
        }
    }
}

/// Relies on the rand crate's `random`: draws one word from the
/// thread-local generator to seed a battle. Nothing is promised of the
/// value; every use feeds it through the coordinator's own seeded source.
#[verifier::external_body]
fn entropy_seed() -> u64 {
    rand::random()
}

} // verus!
