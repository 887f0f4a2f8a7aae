//! Battle-wide laws, stated and proved once over the well-formedness
//! predicates and contracts the operations maintain.

use vstd::prelude::*;

use crate::army::{arch_of, army_wf, spec_healed, state_wf, Army, State, Tracker};
use crate::coordinator::{spec_damage_event, spec_hit_damage, spec_simulate_m, CoordModel};
use crate::unit::{unit_wf, Unit};
use crate::weapon::{weapon_wf, Weapon};
use crate::fixed::Fixed32;

verus! {

/// One seed fixes the whole battle. The battle is a function of the
/// starting model — both armies, the clock, and the random source's state,
/// which the seed determines — so two engagements that start alike end
/// alike: same winner, same duration, and bit-identical unit states,
/// trackers and backlogs. Together with `Coordinator::simulate`'s contract,
/// which pins its result to this function, two coordinators built by the
/// same unit additions and seeded alike provably share their entire
/// outcome.
pub proof fn lemma_simulate_deterministic(c1: CoordModel, c2: CoordModel)
    requires
        c1 == c2,
    ensures
        spec_simulate_m(c1) == spec_simulate_m(c2),
{
}

/// Shields never leave the band between zero and the archetype maximum: in
/// every well-formed army — and every battle operation both requires and
/// returns a well-formed army — every unit's shields sit in that band.
pub proof fn lemma_shields_in_band(a: Army, i: int)
    requires
        army_wf(a),
        0 <= i < a.units.len(),
    ensures
        0 <= a.units[i].shields@,
        a.units[i].shields@ <= arch_of(a, i).shields.max@,
{
}

/// Hull never exceeds its archetype maximum while the unit's shields are
/// up, and never exceeds it by more than the hull armor at all: an armored
/// shield spillover can credit the hull by at most the armor, and only once
/// the shields are down.
pub proof fn lemma_hull_bounded(a: Army, i: int)
    requires
        army_wf(a),
        0 <= i < a.units.len(),
    ensures
        a.units[i].hull@ <= arch_of(a, i).hull.max@ + arch_of(a, i).hull.armor@,
        a.units[i].shields@ > 0 ==> a.units[i].hull@ <= arch_of(a, i).hull.max@,
{
}

/// A regeneration pass returns every unit's hull to at most the archetype
/// maximum: a living unit is clamped there, and a dead unit's hull stays
/// below zero, which the positive maximum dominates.
pub proof fn lemma_heal_clamps_hull(s: State, arch: Unit, time: int)
    requires
        unit_wf(arch),
        state_wf(s, arch),
    ensures
        spec_healed(s, arch, time).hull@ <= arch.hull.max@,
        s.hull@ <= 0 ==> spec_healed(s, arch, time).hull@ <= 0,
{
}

/// One damage event balances its books: the damage the firer's tracker
/// gains plus the overkill it gains equals exactly the health the target
/// lost, shields and hull together — for every hit that does not break the
/// target's shields. (A shield-breaking hit charges the spillover through
/// hull armor a second time and books the overdraw as damage dealt, so the
/// two sides differ there by design.) The bounds on the incoming tracker
/// values and hull keep the bookkeeping arithmetic exact.
pub proof fn lemma_damage_conservation(
    t0: State,
    arch: Unit,
    w: Weapon,
    tr0: Tracker,
    d0: Tracker,
    time: Fixed32,
    t1: State,
    tr1: Tracker,
    d1: Tracker,
)
    requires
        weapon_wf(w),
        unit_wf(arch),
        state_wf(t0, arch),
        spec_damage_event(t0, arch, w, tr0, d0, time, t1, tr1, d1),
        t0.shields@ != 0 ==> t0.shields@ - spec_hit_damage(w, arch, true) >= 0,
        0 <= tr0.damage_dealt@ <= 0x2000_0000,
        0 <= tr0.overkill@ <= 0x2000_0000,
        t0.hull@ >= -0x2000_0000,
    ensures
        (tr1.damage_dealt@ + tr1.overkill@) - (tr0.damage_dealt@ + tr0.overkill@) == (t0.shields@
            - t1.shields@) + (t0.hull@ - t1.hull@),
{
    crate::coordinator::lemma_hit_damage_bounds(w, arch, true);
    crate::coordinator::lemma_hit_damage_bounds(w, arch, false);
    if t0.shields@ != 0 {
        let sd = spec_hit_damage(w, arch, true);
        assert(crate::fixed::sub_raw(t0.shields@, sd) == t0.shields@ - sd);
        assert(crate::fixed::add_raw(tr0.damage_dealt@, sd) == tr0.damage_dealt@ + sd);
    } else {
        let hd = spec_hit_damage(w, arch, false);
        assert(crate::fixed::sat_sub_raw(t0.hull@, hd) == t0.hull@ - hd);
        let hull2 = t0.hull@ - hd;
        let ok = if hull2 < 0 {
            -hull2
        } else {
            0int
        };
        assert(crate::fixed::neg_raw(hull2) == -hull2);
        assert(crate::fixed::sub_raw(hd, ok) == hd - ok);
        assert(crate::fixed::add_raw(tr0.damage_dealt@, hd - ok) == tr0.damage_dealt@ + (hd - ok));
        assert(crate::fixed::add_raw(tr0.overkill@, ok) == tr0.overkill@ + ok);
    }
}

} // verus!
