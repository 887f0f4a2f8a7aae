//! End-to-end battle scenarios with the stock seed, and spot checks of the
//! battle-wide invariants on real engagements.

use sc2_sim::army::{Army, Tracker};
use sc2_sim::coordinator::{Coordinator, Team};
use sc2_sim::data;
use sc2_sim::effect::{Affects, AoE, Effect};
use sc2_sim::fixed::Fixed32;
use sc2_sim::unit::Base;
use sc2_sim::utils::{CollCircle, Pos};

const SEED: u64 = 17313471783455232199;

/// Every unit of the army satisfies the shield band and hull bound the
/// library proves as invariants.
fn check_invariants(a: &Army) {
    for u in a.units().iter() {
        let arch = &a.base_units[u.base];
        assert!(u.shields.as_bits() >= 0);
        assert!(u.shields.as_bits() <= arch.shields.max.as_bits());
        assert!(u.hull.as_bits() <= arch.hull.max.as_bits() + arch.hull.armor.as_bits());
        if u.hull.as_bits() <= 0 {
            assert_eq!(u.shields.as_bits(), 0);
        }
    }
}

fn stalkers_vs_roaches() -> Coordinator {
    let mut c = Coordinator::new();
    c.seed_rng(SEED);
    c.a1.add_unit(data::stalker(), 10);
    c.a2.add_unit(data::roach(), 12);
    c
}

#[test]
fn stalkers_vs_roaches_deterministic() {
    let mut c1 = stalkers_vs_roaches();
    let mut c2 = stalkers_vs_roaches();
    let w1 = c1.simulate();
    let w2 = c2.simulate();
    assert_eq!(w1, w2);
    assert_eq!(c1.time, c2.time);
    assert_eq!(c1.a1.damage_dealt(), c2.a1.damage_dealt());
    assert_eq!(c1.a2.damage_dealt(), c2.a2.damage_dealt());
    for (t1, t2) in c1.a1.trackers.iter().zip(c2.a1.trackers.iter()) {
        assert_eq!(t1.damage_dealt, t2.damage_dealt);
        assert_eq!(t1.overkill, t2.overkill);
        assert_eq!(t1.death_timestamp, t2.death_timestamp);
    }
    assert!(w1.is_some());
    check_invariants(&c1.a1);
    check_invariants(&c1.a2);
}

#[test]
fn stalkers_vs_roaches_reset_replays() {
    let mut c = stalkers_vs_roaches();
    let w1 = c.simulate();
    let d1 = c.time;
    c.reset();
    c.seed_rng(SEED);
    let w2 = c.simulate();
    assert_eq!(w1, w2);
    assert_eq!(d1, c.time);
}

#[test]
fn combat_shields_raise_marine_hull() {
    let upgraded = data::marine().with_combat_shields();
    assert_eq!(upgraded.hull.max, Fixed32::from_i32(55));
    let mut c = Coordinator::new();
    c.seed_rng(SEED);
    c.a1.add_unit(upgraded, 20);
    c.a2.add_unit(data::marine(), 23);
    assert_eq!(c.a1.units()[0].hull, Fixed32::from_i32(55));
    assert_eq!(c.a2.units()[0].hull, Fixed32::from_i32(45));
    let w = c.simulate();
    assert!(w.is_some() || w.is_none());
    check_invariants(&c.a1);
    check_invariants(&c.a2);
}

#[test]
fn mixed_armies_resolve() {
    let mut c1 = Coordinator::new();
    c1.seed_rng(SEED);
    c1.a1.add_unit(data::stalker(), 5);
    c1.a1.add_unit(data::archon(), 1);
    c1.a2.add_unit(data::marine(), 6);
    c1.a2.add_unit(data::marauder(), 5);
    let mut c2 = Coordinator::new();
    c2.seed_rng(SEED);
    c2.a1.add_unit(data::stalker(), 5);
    c2.a1.add_unit(data::archon(), 1);
    c2.a2.add_unit(data::marine(), 6);
    c2.a2.add_unit(data::marauder(), 5);
    let w1 = c1.simulate();
    let w2 = c2.simulate();
    assert_eq!(w1, w2);
    assert_eq!(c1.time, c2.time);
    // the archon stands among the stalkers
    assert_eq!(c1.a1.units().len(), 6);
    assert_eq!(c1.a1.base_units[c1.a1.units()[5].base].base, Base::Archon);
    check_invariants(&c1.a1);
    check_invariants(&c1.a2);
}

#[test]
fn mirror_marines_reproducible() {
    let run = || {
        let mut c = Coordinator::new();
        c.seed_rng(SEED);
        c.a1.add_unit(data::marine(), 1);
        c.a2.add_unit(data::marine(), 1);
        let w = c.simulate();
        (w, c.time)
    };
    let (w1, d1) = run();
    let (w2, d2) = run();
    assert_eq!(w1, w2);
    assert_eq!(d1, d2);
}

#[test]
fn carrier_brings_interceptors() {
    let mut c = Coordinator::new();
    c.seed_rng(SEED);
    c.a1.add_unit(data::carrier(), 1);
    c.a2.add_unit(data::marine(), 10);
    assert_eq!(c.a1.units().len(), 9);
    assert_eq!(c.a1.base_units[c.a1.units()[0].base].base, Base::Carrier);
    for h in 1..9usize {
        let u = c.a1.units()[h];
        assert_eq!(c.a1.base_units[u.base].base, Base::Interceptor);
        assert_eq!(u.parent, Some(0));
    }
    let _ = c.simulate();
    check_invariants(&c.a1);
    check_invariants(&c.a2);
}

#[test]
fn damage_event_balances_books() {
    // One marine shoots another: 6 damage, no armor, no shields.
    let mut a = Army::new();
    a.add_unit(data::marine(), 1);
    let hull_before = a.units()[0].hull;
    let shooter = data::marine();
    let weapon = shooter.weapons[0].clone().unwrap();
    let mut tracker = Tracker::new();
    Coordinator::apply_damage(&mut tracker, 0, &mut a, &weapon, Fixed32::zero());
    let hull_after = a.units()[0].hull;
    assert_eq!(hull_before.const_sub(hull_after), Fixed32::from_i32(6));
    assert_eq!(
        tracker.damage_dealt.const_add(tracker.overkill),
        Fixed32::from_i32(6)
    );
    assert_eq!(a.units()[0].last_damaged, Some(Fixed32::zero()));
}

#[test]
fn shield_damage_comes_first() {
    // A marine shoots a stalker: 6 damage against 0 shield armor takes 6
    // shields and leaves the hull whole.
    let mut a = Army::new();
    a.add_unit(data::stalker(), 1);
    let weapon = data::marine().weapons[0].clone().unwrap();
    let mut tracker = Tracker::new();
    Coordinator::apply_damage(&mut tracker, 0, &mut a, &weapon, Fixed32::zero());
    assert_eq!(a.units()[0].shields, Fixed32::from_i32(74));
    assert_eq!(a.units()[0].hull, Fixed32::from_i32(80));
    assert_eq!(tracker.damage_dealt, Fixed32::from_i32(6));
}

#[test]
fn bonus_damage_needs_the_flag() {
    // A stalker's 13 (+5 vs armored) against an armored roach with 1 armor:
    // 13 + 5 - 1 == 17 off the hull.
    let mut a = Army::new();
    a.add_unit(data::roach(), 1);
    let weapon = data::stalker().weapons[0].clone().unwrap();
    let mut tracker = Tracker::new();
    Coordinator::apply_damage(&mut tracker, 0, &mut a, &weapon, Fixed32::zero());
    assert_eq!(a.units()[0].hull, Fixed32::from_i32(128));
    // Against a light marine the bonus stays out and no armor cuts it:
    // 45 - 13 == 32 hull remain.
    let mut b = Army::new();
    b.add_unit(data::marine(), 1);
    let mut tracker2 = Tracker::new();
    Coordinator::apply_damage(&mut tracker2, 0, &mut b, &weapon, Fixed32::zero());
    assert_eq!(b.units()[0].hull, Fixed32::from_i32(32));
}

#[test]
fn seeded_source_repeats() {
    let mut r1 = sc2_sim::rng::DelaySource::seed_from_u64(7);
    let mut r2 = sc2_sim::rng::DelaySource::seed_from_u64(7);
    for _ in 0..32 {
        let a = r1.below(1000);
        let b = r2.below(1000);
        assert_eq!(a, b);
        assert!(a < 1000);
    }
    let x = r1.range_i32(-182, 365);
    assert!((-182..365).contains(&x));
}

#[test]
fn randomize_seed_installs_the_seed() {
    let mut c = Coordinator::new();
    let s = c.randomize_seed();
    assert_eq!(c.seed, s);
    assert_eq!(c.rng.state, s);
}

#[test]
fn outcome_reports_the_survivors() {
    let mut c = stalkers_vs_roaches();
    let w = c.simulate();
    let o = c.outcome();
    assert_eq!(o.winner(), w);
    assert!(o.duration().as_bits() > 0);
    if let Some(team) = w {
        let lost = o.resources_lost().unwrap();
        let kept = o.cost_units_remaining();
        let total = o.total_cost(team);
        // what fell plus what stands is what was fielded
        assert_eq!(
            lost.minerals.const_add(kept.minerals),
            total.minerals
        );
        assert_eq!(lost.gas.const_add(kept.gas), total.gas);
        let remaining = o.units_remaining();
        let fallen = o.units_lost();
        assert_eq!(remaining.len(), fallen.len());
        let alive: u32 = remaining.iter().map(|p| p.1).sum();
        let dead: u32 = fallen.iter().map(|p| p.1).sum();
        let n = match team {
            Team::Team1 => c.a1.units().len(),
            Team::Team2 => c.a2.units().len(),
        };
        assert_eq!((alive + dead) as usize, n);
        assert!(alive > 0);
    }
}

#[test]
fn regeneration_caps_at_the_maximum() {
    let mut a = Army::new();
    a.add_unit(data::roach(), 1);
    // wound the roach, then let it regenerate for a long time
    let weapon = data::marine().weapons[0].clone().unwrap();
    let mut tracker = Tracker::new();
    Coordinator::apply_damage(&mut tracker, 0, &mut a, &weapon, Fixed32::zero());
    assert!(a.units()[0].hull.as_bits() < Fixed32::from_i32(145).as_bits());
    for tick in 0..100000i32 {
        a.heal(Fixed32::from_i32(tick));
    }
    assert_eq!(a.units()[0].hull, Fixed32::from_i32(145));
}

#[test]
fn build_times_through_structures() {
    let g = sc2_sim::data::stalker().via_gateway();
    assert_eq!(g.cost.build_time.as_bits(), sc2_sim::data::STALKER_GATEWAY_BITS);
    let w = sc2_sim::data::stalker().via_warpgate();
    assert_eq!(w.cost.build_time.as_bits(), sc2_sim::data::WARP_STALKER_BITS);
    let f = sc2_sim::data::stalker().with_fast_warpin();
    assert_eq!(
        f.cost.build_time.as_bits(),
        sc2_sim::data::WARP_STALKER_BITS + sc2_sim::data::FAST_WARPIN_BITS
    );
    // a unit no gateway builds keeps its time
    let m = sc2_sim::data::marine().via_gateway();
    assert_eq!(m.cost.build_time, sc2_sim::data::marine().cost.build_time);
}

#[test]
fn chronoboost_scales_build_time() {
    let boosted = sc2_sim::data::marine().with_chronoboost();
    // 1.5 times the marine's build time, in fixed-point arithmetic
    let expected = ((73142i64 * 6144) >> 12) as i32;
    assert_eq!(boosted.cost.build_time.as_bits(), expected);
}

#[test]
fn area_effect_slows_overlapping_units() {
    let mut c = Coordinator::new();
    c.a1.add_unit(data::marine(), 2);
    // give the marines a real speed so the slow is visible
    for i in 0..c.a1.units.len() {
        let mut u = c.a1.units[i];
        u.max_speed = Fixed32::from_i32(4);
        c.a1.units[i] = u;
    }
    let aoe = AoE {
        circle: CollCircle::new(
            Pos::origin(),
            Fixed32::from_i32(2),
            sc2_sim::unit::Collision::Ground,
        ),
        expires: Fixed32::zero(),
        team: Team::Team1,
        affects: Affects::Friendly,
        effect: Effect::concussive(),
    };
    c.apply_aoe(&aoe);
    // both marines sit at the origin inside the circle: half speed
    assert_eq!(c.a1.units()[0].max_speed, Fixed32::from_i32(2));
    assert_eq!(c.a1.units()[1].max_speed, Fixed32::from_i32(2));
}
