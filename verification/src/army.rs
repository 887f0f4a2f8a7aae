//! The per-instance unit container: runtime state separate from archetype
//! data, three parallel vectors sharing one handle space, and the bulk
//! lifecycle operations the coordinator drives.

use vstd::prelude::*;

use crate::effect::Effect;
use crate::fixed::{add_raw, mul_raw, sub_raw, Fixed32};
use crate::rng::DelaySource;
use crate::unit::{spec_weapon_against, unit_wf, Base, BasicUpgrades, Collision, Cost, Unit};
use crate::utils::{CollCircle, Pos};
use crate::weapon::Projectile;

verus! {

/// What a unit is doing this tick.
#[derive(Clone, Copy, PartialEq, Eq, Structural, Debug)]
pub enum ActionState {
    Wait,
    Attack,
    /// The timestamp at which the damage point lands, and the index of the
    /// next multi-hit event.
    DmgPoint(Fixed32, u8),
    Move,
    Dead,
    /// Held inside the unit with this handle.
    Cargo(u32),
}

/// The mutable per-instance state of one unit; archetype data stays in the
/// army's table.
#[derive(Clone, Copy, Debug)]
pub struct State {
    /// Index of this unit's archetype in the army's table.
    pub base: usize,
    pub state: ActionState,
    /// A mutable copy of the archetype speed: effects scale it.
    pub max_speed: Fixed32,
    pub hull: Fixed32,
    pub shields: Fixed32,
    pub energy: Option<Fixed32>,
    /// Handle into the opposing army's unit vector.
    pub target: Option<u32>,
    /// The absolute time at which the next attack may begin.
    pub attack_cd: Fixed32,
    pub last_damaged: Option<Fixed32>,
    pub invisible: bool,
    pub burrowed: bool,
    pub move_and_shoot: bool,
    pub untargetable: bool,
    pub can_attack: bool,
    pub collision: Collision,
    /// Live status effects, at most two at a time.
    pub effects: [Option<Effect>; 2],
    /// The containing unit's handle, for carried units.
    pub parent: Option<u32>,
}

/// Per-instance bookkeeping for outcome reporting.
#[derive(Clone, Copy, Debug)]
pub struct Tracker {
    pub damage_dealt: Fixed32,
    pub overkill: Fixed32,
    pub death_timestamp: Option<Fixed32>,
}

impl Tracker {
    /// A fresh tracker: nothing dealt, nothing wasted, still alive.
    pub fn new() -> (r: Tracker)
        ensures
            r.damage_dealt@ == 0,
            r.overkill@ == 0,
            r.death_timestamp is None,
    {
        Tracker { damage_dealt: Fixed32::zero(), overkill: Fixed32::zero(), death_timestamp: None }
    }
}

/// Well-formedness of one unit state against its archetype: shields sit
/// between zero and the archetype maximum; hull never exceeds its maximum
/// by more than the hull armor, and exceeds the maximum at all only while
/// the shields are down (armored shield spillover can credit hull briefly;
/// regeneration clamps it back before shields return); a dead unit keeps no
/// shields; and energy stays within its bounds.
pub open spec fn state_wf(s: State, arch: Unit) -> bool {
    &&& 0 <= s.shields@ <= arch.shields.max@
    &&& s.hull@ <= arch.hull.max@ + arch.hull.armor@
    &&& (s.shields@ > 0 ==> s.hull@ <= arch.hull.max@)
    &&& (s.hull@ <= 0 ==> s.shields@ == 0)
    &&& (s.energy matches Some(e) ==> 0 <= e@ <= arch.energy_max@)
}

/// The archetype of the unit at the given handle.
pub open spec fn arch_of(a: Army, i: int) -> Unit {
    a.base_units[a.units[i].base as int]
}

/// The mathematical model of an army: the five storage vectors as
/// sequences. The battle dynamics are written as functions over this model,
/// and each battle operation's contract pins its result to them.
#[verifier::ext_equal]
pub struct ArmyModel {
    pub base_units: Seq<Unit>,
    pub units: Seq<State>,
    pub positions: Seq<CollCircle>,
    pub trackers: Seq<Tracker>,
    pub projectiles: Seq<Projectile>,
}

impl View for Army {
    type V = ArmyModel;

    /// An army is modelled by the contents of its vectors; the id, the
    /// upgrade levels and the live counters play no part in the dynamics.
    open spec fn view(&self) -> ArmyModel {
        ArmyModel {
            base_units: self.base_units@,
            units: self.units@,
            positions: self.positions@,
            trackers: self.trackers@,
            projectiles: self.projectiles@,
        }
    }
}

/// The archetype of the unit at the given handle, in the model.
pub open spec fn arch_in(m: ArmyModel, i: int) -> Unit {
    m.base_units[m.units[i].base as int]
}

/// The fresh state a new instance of an archetype starts in.
pub open spec fn spec_new_state(unit: Unit, base: int) -> State {
    State {
        base: base as usize,
        state: ActionState::Wait,
        max_speed: unit.movement.speed,
        hull: unit.hull.max,
        shields: unit.shields.max,
        energy: if unit.energy_max@ > 0 {
            Some(unit.energy_start)
        } else {
            None
        },
        target: None,
        attack_cd: Fixed32 { bits: 0 },
        last_damaged: None,
        invisible: false,
        burrowed: false,
        move_and_shoot: unit.base == Base::Phoenix,
        untargetable: false,
        can_attack: unit.weapons[0] is Some || unit.weapons[1] is Some,
        collision: unit.collision,
        effects: [None, None],
        parent: None,
    }
}

impl State {
    /// A fresh instance of the archetype stored at the given table index.
    pub fn new(unit: &Unit, base: usize) -> (r: State)
        ensures
            r == spec_new_state(*unit, base as int),
    {
        State {
            base,
            state: ActionState::Wait,
            max_speed: unit.movement.speed,
            hull: unit.hull.max,
            shields: unit.shields.max,
            energy: if unit.energy_max.is_positive() {
                Some(unit.energy_start)
            } else {
                None
            },
            target: None,
            attack_cd: Fixed32::zero(),
            last_damaged: None,
            invisible: false,
            burrowed: false,
            move_and_shoot: unit.base == Base::Phoenix,
            untargetable: false,
            can_attack: unit.weapons[0].is_some() || unit.weapons[1].is_some(),
            collision: unit.collision,
            effects: [None, None],
            parent: None,
        }
    }

    /// True while the hull holds.
    pub fn is_alive(&self) -> (r: bool)
        ensures
            r == (self.hull@ > 0),
    {
        self.hull.is_positive()
    }

    /// True once the hull is gone; death is permanent until a reset.
    pub fn is_dead(&self) -> (r: bool)
        ensures
            r == (self.hull@ <= 0),
    {
        !self.hull.is_positive()
    }
}

/// An army: the archetype table, the parallel per-instance vectors sharing
/// one handle space, the in-flight projectiles, and aggregate counters.
#[derive(Clone, Debug)]
pub struct Army {
    pub id: usize,
    pub upgrades: BasicUpgrades,
    /// One archetype per distinct base tag.
    pub base_units: Vec<Unit>,
    pub units: Vec<State>,
    pub positions: Vec<CollCircle>,
    pub trackers: Vec<Tracker>,
    pub projectiles: Vec<Projectile>,
    pub live_carriers: u32,
    pub live_interceptors: u32,
}

/// Well-formedness of an army: the parallel vectors align, every state
/// points at a real archetype, every archetype is well formed, archetype
/// tags are unique, and every state is well formed against its archetype.
pub open spec fn army_wf(a: Army) -> bool {
    &&& a.units.len() == a.positions.len()
    &&& a.units.len() == a.trackers.len()
    &&& a.units.len() <= u32::MAX
    &&& forall|i: int|
        0 <= i < a.units.len() ==> (#[trigger] a.units[i]).base < a.base_units.len()
    &&& forall|i: int| 0 <= i < a.base_units.len() ==> unit_wf(#[trigger] a.base_units[i])
    &&& forall|i: int, j: int|
        0 <= i < j < a.base_units.len() ==> (#[trigger] a.base_units[i]).base != (
        #[trigger] a.base_units[j]).base
    &&& forall|i: int|
        0 <= i < a.units.len() ==> state_wf(#[trigger] a.units[i], arch_of(a, i))
}

impl Army {
    /// An empty army.
    pub fn new() -> (r: Army)
        ensures
            army_wf(r),
            r.units.len() == 0,
            r.base_units.len() == 0,
            r.projectiles.len() == 0,
    {
        Army {
            id: 0,
            upgrades: BasicUpgrades::none(),
            base_units: Vec::new(),
            units: Vec::new(),
            positions: Vec::new(),
            trackers: Vec::new(),
            projectiles: Vec::new(),
            live_carriers: 0,
            live_interceptors: 0,
        }
    }

    /// The archetype of the unit at the given handle.
    pub fn unit_from_handle(&self, handle: usize) -> (r: &Unit)
        requires
            army_wf(*self),
            handle < self.units.len(),
        ensures
            *r == arch_of(*self, handle as int),
    {
        &self.base_units[self.units[handle].base]
    }

    /// The per-instance state vector, for reading.
    pub fn units(&self) -> (r: &Vec<State>)
        ensures
            r == &self.units,
    {
        &self.units
    }
}

/// A unit state clamped to a (possibly replaced) archetype: hull and
/// shields cut down to the new maxima, energy cut down to the new cap.
/// Clamping a state against its own archetype changes nothing.
pub open spec fn spec_clamped(s: State, arch: Unit) -> State {
    State {
        hull: if s.hull@ > arch.hull.max@ {
            arch.hull.max
        } else {
            s.hull
        },
        shields: if s.shields@ > arch.shields.max@ {
            arch.shields.max
        } else {
            s.shields
        },
        energy: match s.energy {
            Some(e) => if e@ > arch.energy_max@ {
                Some(arch.energy_max)
            } else {
                Some(e)
            },
            None => None,
        },
        ..s
    }
}

impl Army {
    /// The index of the archetype with the given tag, if the table holds
    /// one.
    fn find_base(&self, b: Base) -> (r: Option<usize>)
        ensures
            match r {
                Some(j) => j < self.base_units.len() && self.base_units[j as int].base == b,
                None => forall|k: int|
                    0 <= k < self.base_units.len() ==> (#[trigger] self.base_units[k]).base != b,
            },
    {
        let mut i: usize = 0;
        while i < self.base_units.len()
            invariant
                i <= self.base_units.len(),
                forall|k: int| 0 <= k < i ==> (#[trigger] self.base_units[k]).base != b,
            decreases self.base_units.len() - i,
        {
            if self.base_units[i].base == b {
                return Some(i);
            }
            i = i + 1;
        }
        None
    }

    /// Stores an archetype in the table, replacing the entry with the same
    /// tag if one exists, and clamps the states of that tag to the new
    /// maxima so that every invariant survives the replacement. Returns the
    /// entry's index.
    fn upsert_archetype(&mut self, unit: Unit) -> (j: usize)
        requires
            army_wf(*old(self)),
            unit_wf(unit),
        ensures
            army_wf(*final(self)),
            j < final(self).base_units.len(),
            old(self).base_units.len() <= final(self).base_units.len() <= old(self).base_units.len() + 1,
            final(self).base_units[j as int] == unit,
            forall|k: int|
                0 <= k < final(self).base_units.len() && k != j ==> #[trigger] final(self).base_units[k] == old(self).base_units[k],
            final(self).units.len() == old(self).units.len(),
            final(self).positions == old(self).positions,
            final(self).trackers == old(self).trackers,
            final(self).projectiles == old(self).projectiles,
            forall|i: int|
                0 <= i < final(self).units.len() ==> #[trigger] final(self).units[i] == (if old(self).units[i].base == j {
                    spec_clamped(old(self).units[i], unit)
                } else {
                    old(self).units[i]
                }),
            (forall|k: int|
                0 <= k < old(self).base_units.len() ==> (#[trigger] old(self).base_units[k]).base != unit.base) ==> (final(self).units == old(self).units
                && final(self).base_units.len() == old(self).base_units.len() + 1),
            final(self).base_units.len() == old(self).base_units.len() ==> old(
                self,
            ).base_units[j as int].base == unit.base,
            final(self).base_units.len() == old(self).base_units.len() + 1 ==> j == old(
                self,
            ).base_units.len(),
    {
        match self.find_base(unit.base) {
            Some(j) => {
                self.base_units.set(j, unit);
                let ghost old_units = self.units@;
                let mut i: usize = 0;
                while i < self.units.len()
                    invariant
                        army_wf(*old(self)),
                        unit_wf(unit),
                        i <= self.units.len(),
                        j < self.base_units.len(),
                        self.base_units@ == old(self).base_units@.update(j as int, unit),
                        self.units.len() == old(self).units.len(),
                        self.positions == old(self).positions,
                        self.trackers == old(self).trackers,
                        self.projectiles == old(self).projectiles,
                        forall|k: int|
                            0 <= k < i ==> #[trigger] self.units[k] == (if old(self).units[k].base == j {
                                spec_clamped(old(self).units[k], unit)
                            } else {
                                old(self).units[k]
                            }),
                        forall|k: int|
                            i <= k < self.units.len() ==> #[trigger] self.units[k] == old(self).units[k],
                    decreases self.units.len() - i,
                {
                    let u = self.units[i];
                    if u.base == j {
                        let arch = &self.base_units[j];
                        let mut u2 = u;
                        u2.hull = u.hull.min(arch.hull.max);
                        u2.shields = u.shields.min(arch.shields.max);
                        u2.energy = match u.energy {
                            Some(e) => Some(e.min(arch.energy_max)),
                            None => None,
                        };
                        self.units.set(i, u2);
                    }
                    i = i + 1;
                }
                proof {
                    assert forall|i: int| 0 <= i < self.units.len() implies state_wf(
                        #[trigger] self.units[i],
                        arch_of(*self, i),
                    ) by {
                        assert(state_wf(old(self).units[i], arch_of(*old(self), i)));
                    }
                }
                j
            },
            None => {
                let j = self.base_units.len();
                self.base_units.push(unit);
                proof {
                    assert forall|i: int| 0 <= i < self.units.len() implies state_wf(
                        #[trigger] self.units[i],
                        arch_of(*self, i),
                    ) by {
                        assert(state_wf(old(self).units[i], arch_of(*old(self), i)));
                        assert(arch_of(*self, i) == arch_of(*old(self), i));
                    }
                }
                j
            },
        }
    }
}

impl Army {
    /// Appends `count` fresh instances of the archetype, registering it in
    /// the table (and replacing a previous entry with the same tag, whose
    /// states are then clamped to the new maxima). A carrier brings its
    /// eight interceptors, placed right after it with their `parent` set; a
    /// brood lord registers the broodling archetype and a swarm host the
    /// locust archetype for later spawns. All parallel vectors grow
    /// together; positions start at the origin.
    pub fn add_unit(&mut self, unit: Unit, count: usize)
        requires
            army_wf(*old(self)),
            unit_wf(unit),
            old(self).units.len() + count * 9 <= u32::MAX,
        ensures
            army_wf(*final(self)),
            final(self).projectiles == old(self).projectiles,
            final(self).units.len() == old(self).units.len() + count * (
            if unit.base == Base::Carrier {
                9int
            } else {
                1int
            }),
            forall|i: int|
                0 <= i < old(self).units.len() ==> {
                    &&& (#[trigger] final(self).units[i]).base == old(self).units[i].base
                    &&& (final(self).units[i].hull@ > 0 <==> old(self).units[i].hull@ > 0)
                    &&& final(self).units[i].target == old(self).units[i].target
                },
            forall|i: int|
                0 <= i < old(self).units.len() ==> #[trigger] final(self).positions[i] == old(
                    self,
                ).positions[i] && final(self).trackers[i] == old(self).trackers[i],
            forall|m: int|
                old(self).units.len() <= m < final(self).units.len() ==> {
                    &&& (#[trigger] final(self).positions[m]).pos.x@ == 0
                    &&& final(self).positions[m].pos.y@ == 0
                    &&& final(self).positions[m].r == arch_of(*final(self), m).size
                    &&& final(self).positions[m].plane == arch_of(*final(self), m).collision
                    &&& final(self).trackers[m].damage_dealt@ == 0
                    &&& final(self).trackers[m].overkill@ == 0
                    &&& final(self).trackers[m].death_timestamp is None
                },
            unit.base != Base::Carrier ==> forall|m: int|
                old(self).units.len() <= m < final(self).units.len() ==> arch_of(*final(self), m)
                    == unit && #[trigger] final(self).units[m] == spec_new_state(
                    unit,
                    final(self).units[m].base as int,
                ),
            unit.base == Base::Carrier ==> forall|m: int|
                #![trigger final(self).units[old(self).units.len() + m * 9]]
                0 <= m < count ==> {
                    let p = old(self).units.len() + m * 9;
                    &&& arch_of(*final(self), p) == unit
                    &&& final(self).units[p] == spec_new_state(
                        unit,
                        final(self).units[p].base as int,
                    )
                    &&& forall|o: int|
                        p < o < p + 9 ==> arch_of(*final(self), o).base == Base::Interceptor && (
                        #[trigger] final(self).units[o]).parent == Some(p as u32) && final(self).units[o].hull@ > 0
                },
    {
        let is_carrier = unit.base == Base::Carrier;
        let ji: usize = match unit.base {
            Base::Carrier => self.upsert_archetype(crate::data::interceptor()),
            Base::BroodLord => self.upsert_archetype(crate::data::broodling()),
            Base::SwarmHost => self.upsert_archetype(crate::data::locust()),
            _ => 0,
        };
        let ghost pre = *self;
        let j = self.upsert_archetype(unit);
        proof {
            if is_carrier {
                if self.base_units.len() == pre.base_units.len() {
                    assert(pre.base_units[j as int].base == unit.base);
                    assert(j != ji);
                } else {
                    assert(j == pre.base_units.len());
                }
                assert(self.base_units[ji as int] == pre.base_units[ji as int]);
            }
        }
        let ghost mid = *self;
        let ghost base_len = self.units.len() as int;
        let mut c: usize = 0;
        while c < count
            invariant
                army_wf(*self),
                unit_wf(unit),
                c <= count,
                j < self.base_units.len(),
                self.base_units == mid.base_units,
                self.base_units[j as int] == unit,
                is_carrier == (unit.base == Base::Carrier),
                is_carrier ==> ji < self.base_units.len() && self.base_units[ji as int].base
                    == Base::Interceptor,
                base_len == mid.units.len(),
                base_len + count * 9 <= u32::MAX,
                self.units.len() == base_len + c * (
                if is_carrier {
                    9int
                } else {
                    1int
                }),
                self.projectiles == mid.projectiles,
                forall|i: int| 0 <= i < base_len ==> #[trigger] self.units[i] == mid.units[i],
                forall|i: int|
                    0 <= i < base_len ==> #[trigger] self.positions[i] == mid.positions[i]
                        && self.trackers[i] == mid.trackers[i],
                forall|m: int|
                    base_len <= m < self.units.len() ==> {
                        &&& (#[trigger] self.positions[m]).pos.x@ == 0
                        &&& self.positions[m].pos.y@ == 0
                        &&& self.positions[m].r == arch_of(*self, m).size
                        &&& self.positions[m].plane == arch_of(*self, m).collision
                        &&& self.trackers[m].damage_dealt@ == 0
                        &&& self.trackers[m].overkill@ == 0
                        &&& self.trackers[m].death_timestamp is None
                    },
                !is_carrier ==> forall|m: int|
                    base_len <= m < self.units.len() ==> arch_of(*self, m) == unit
                        && #[trigger] self.units[m] == spec_new_state(
                        unit,
                        self.units[m].base as int,
                    ),
                is_carrier ==> forall|m: int|
                    #![trigger self.units[base_len + m * 9]]
                    0 <= m < c ==> {
                        let p = base_len + m * 9;
                        &&& arch_of(*self, p) == unit
                        &&& self.units[p] == spec_new_state(unit, self.units[p].base as int)
                        &&& forall|o: int|
                            p < o < p + 9 ==> arch_of(*self, o).base == Base::Interceptor && (
                            #[trigger] self.units[o]).parent == Some(p as u32) && self.units[o].hull@
                                > 0
                    },
            decreases count - c,
        {
            let ghost prev = *self;
            let s = State::new(&self.base_units[j], j);
            let pos = CollCircle::new(
                Pos::origin(),
                self.base_units[j].size,
                self.base_units[j].collision,
            );
            self.units.push(s);
            self.positions.push(pos);
            self.trackers.push(Tracker::new());
            proof {
                let m = self.units.len() - 1;
                assert(self.units[m as int] == spec_new_state(unit, j as int));
                assert(state_wf(self.units[m as int], arch_of(*self, m as int)));
                assert forall|i: int| 0 <= i < self.units.len() implies state_wf(
                    #[trigger] self.units[i],
                    arch_of(*self, i),
                ) by {
                    if i < m {
                        assert(self.units[i] == prev.units[i]);
                        assert(state_wf(prev.units[i], arch_of(prev, i)));
                    }
                }
            }
            let ghost block = *self;
            proof {
                assert(block.units@ == prev.units@.push(s));
            }
            if is_carrier {
                let p = self.units.len() - 1;
                let mut o: usize = 0;
                while o < 8
                    invariant
                        army_wf(*self),
                        o <= 8,
                        p == block.units.len() - 1,
                        block.units.len() + 8 <= u32::MAX,
                        ji < self.base_units.len(),
                        self.base_units == block.base_units,
                        unit_wf(self.base_units[ji as int]),
                        self.base_units[ji as int].base == Base::Interceptor,
                        self.units.len() == block.units.len() + o,
                        self.projectiles == block.projectiles,
                        forall|i: int|
                            0 <= i < block.units.len() ==> #[trigger] self.units[i]
                                == block.units[i],
                        forall|i: int|
                            0 <= i < block.units.len() ==> #[trigger] self.positions[i]
                                == block.positions[i] && self.trackers[i] == block.trackers[i],
                        forall|m: int|
                            block.units.len() <= m < self.units.len() ==> {
                                &&& (#[trigger] self.positions[m]).pos.x@ == 0
                                &&& self.positions[m].pos.y@ == 0
                                &&& self.positions[m].r == arch_of(*self, m).size
                                &&& self.positions[m].plane == arch_of(*self, m).collision
                                &&& self.trackers[m].damage_dealt@ == 0
                                &&& self.trackers[m].overkill@ == 0
                                &&& self.trackers[m].death_timestamp is None
                            },
                        forall|q: int|
                            block.units.len() <= q < self.units.len() ==> arch_of(*self, q).base
                                == Base::Interceptor && (#[trigger] self.units[q]).parent == Some(
                                p as u32,
                            ) && self.units[q].hull@ > 0,
                    decreases 8 - o,
                {
                    let ghost prev2 = *self;
                    let mut inter = State::new(&self.base_units[ji], ji);
                    inter.parent = Some(p as u32);
                    let ipos = CollCircle::new(
                        Pos::origin(),
                        self.base_units[ji].size,
                        self.base_units[ji].collision,
                    );
                    self.units.push(inter);
                    self.positions.push(ipos);
                    self.trackers.push(Tracker::new());
                    proof {
                        let q = self.units.len() - 1;
                        assert(self.units[q] =~= State {
                            parent: Some(p as u32),
                            ..spec_new_state(self.base_units[ji as int], ji as int)
                        });
                        assert(unit_wf(self.base_units[ji as int]));
                        assert(state_wf(self.units[q], arch_of(*self, q)));
                        assert forall|i: int| 0 <= i < self.units.len() implies state_wf(
                            #[trigger] self.units[i],
                            arch_of(*self, i),
                        ) by {
                            if i < q {
                                assert(self.units[i] == prev2.units[i]);
                                assert(state_wf(prev2.units[i], arch_of(prev2, i)));
                            }
                        }
                        assert forall|i: int|
                            block.units.len() <= i < self.units.len() implies arch_of(
                            *self,
                            i,
                        ).base == Base::Interceptor && (#[trigger] self.units[i]).parent == Some(
                            p as u32,
                        ) && self.units[i].hull@ > 0 by {
                            if i < q {
                                assert(self.units[i] == prev2.units[i]);
                            }
                        }
                    }
                    o = o + 1;
                }
            }
            proof {
                let fin = *self;
                assert(forall|i: int|
                    0 <= i < block.units.len() ==> #[trigger] fin.units[i] == block.units[i]);
                if !is_carrier {
                    assert forall|m: int|
                        base_len <= m < fin.units.len() implies arch_of(fin, m) == unit
                            && #[trigger] fin.units[m] == spec_new_state(
                            unit,
                            fin.units[m].base as int,
                        ) by {
                        if m < prev.units.len() {
                            assert(prev.units@.push(s)[m] == prev.units@[m]);
                            assert(fin.units[m] == prev.units[m]);
                            assert(prev.units[m] == spec_new_state(unit, prev.units[m].base as int));
                        } else {
                            assert(fin.units[m] == spec_new_state(unit, j as int));
                        }
                    }
                } else {
                    assert forall|m: int|
                        #![trigger fin.units[base_len + m * 9]]
                        0 <= m < c + 1 implies {
                            let q = base_len + m * 9;
                            &&& arch_of(fin, q) == unit
                            &&& fin.units[q] == spec_new_state(unit, fin.units[q].base as int)
                            &&& forall|o2: int|
                                q < o2 < q + 9 ==> arch_of(fin, o2).base == Base::Interceptor && (
                                #[trigger] fin.units[o2]).parent == Some(q as u32) && fin.units[o2].hull@
                                    > 0
                        } by {
                        let q = base_len + m * 9;
                        if m < c {
                            assert(q + 9 <= prev.units.len());
                            assert(prev.units[q] == spec_new_state(unit, prev.units[q].base as int));
                            assert(prev.units@.push(s)[q] == prev.units@[q]);
                            assert(fin.units[q] == prev.units[q]);
                            assert forall|o2: int|
                                q < o2 < q + 9 implies arch_of(fin, o2).base == Base::Interceptor
                                    && (#[trigger] fin.units[o2]).parent == Some(q as u32)
                                    && fin.units[o2].hull@ > 0 by {
                                assert(prev.units@.push(s)[o2] == prev.units@[o2]);
                                assert(fin.units[o2] == prev.units[o2]);
                                assert(arch_of(prev, o2).base == Base::Interceptor);
                            }
                        } else {
                            assert(q == prev.units.len());
                            assert(fin.units[q] == spec_new_state(unit, j as int));
                            assert forall|o2: int|
                                q < o2 < q + 9 implies arch_of(fin, o2).base == Base::Interceptor
                                    && (#[trigger] fin.units[o2]).parent == Some(q as u32)
                                    && fin.units[o2].hull@ > 0 by {}
                        }
                    }
                }
            }
            c = c + 1;
        }
        proof {
            assert(mid.positions == old(self).positions);
            assert(mid.trackers == old(self).trackers);
            assert forall|i: int|
                0 <= i < old(self).units.len() implies #[trigger] self.positions[i] == old(
                self,
            ).positions[i] && self.trackers[i] == old(self).trackers[i] by {
                assert(self.positions[i] == mid.positions[i]);
                assert(self.trackers[i] == mid.trackers[i]);
            }
        }
    }
}

/// One unit's state after a regeneration tick at the given time: a living
/// unit's hull climbs by its regeneration rate up to the maximum, shields
/// recharge once the damage-free window has passed, and energy refills by
/// the fixed increment; a dead unit is left alone.
pub open spec fn spec_healed(s: State, arch: Unit, time: int) -> State {
    if s.hull@ > 0 {
        let hull2 = crate::fixed::min_raw(
            arch.hull.max@,
            add_raw(s.hull@, mul_raw(arch.hull.regen@, crate::TICK_BITS as int)),
        );
        let shields2 = if s.last_damaged matches Some(t) && sub_raw(time, t@)
            > crate::SHIELD_RECHARGE_DELAY_BITS {
            crate::fixed::min_raw(
                arch.shields.max@,
                add_raw(s.shields@, mul_raw(arch.shields.regen@, crate::TICK_BITS as int)),
            )
        } else {
            s.shields@
        };
        let energy2 = match s.energy {
            Some(e) => Some(
                crate::fixed::fx(
                    crate::fixed::min_raw(
                        arch.energy_max@,
                        add_raw(e@, crate::ENERGY_REGEN_BITS as int),
                    ),
                ),
            ),
            None => None,
        };
        State {
            hull: crate::fixed::fx(hull2),
            shields: crate::fixed::fx(shields2),
            energy: energy2,
            ..s
        }
    } else {
        s
    }
}

/// The state a unit returns to on a reset: archetype maxima, waiting, no
/// target, no cooldown, starting energy, no effects. Bookkeeping such as
/// the last-damaged stamp and the parent link is left as it stands.
pub open spec fn spec_reset_state(s: State, arch: Unit) -> State {
    State {
        hull: arch.hull.max,
        shields: arch.shields.max,
        state: ActionState::Wait,
        target: None,
        attack_cd: crate::fixed::fx(0),
        can_attack: arch.weapons[0] is Some || arch.weapons[1] is Some,
        energy: if arch.energy_max@ > 0 {
            Some(arch.energy_start)
        } else {
            None
        },
        effects: [None, None],
        ..s
    }
}

/// The whole army after one regeneration tick: every unit healed against
/// its archetype, everything else untouched.
pub open spec fn spec_healed_army(m: ArmyModel, time: int) -> ArmyModel {
    ArmyModel {
        units: m.units.map(|k: int, u: State| spec_healed(u, m.base_units[u.base as int], time)),
        ..m
    }
}

impl Army {
    /// Applies one regeneration tick to every living unit: hull, then
    /// shields once the damage-free window has passed, then energy, each
    /// clamped to its archetype maximum.
    pub fn heal(&mut self, time: Fixed32)
        requires
            army_wf(*old(self)),
        ensures
            army_wf(*final(self)),
            final(self).units.len() == old(self).units.len(),
            final(self).base_units == old(self).base_units,
            final(self).positions == old(self).positions,
            final(self).trackers == old(self).trackers,
            final(self).projectiles == old(self).projectiles,
            forall|i: int|
                0 <= i < old(self).units.len() ==> #[trigger] final(self).units[i] == spec_healed(
                    old(self).units[i],
                    arch_of(*old(self), i),
                    time@,
                ),
            final(self)@ == spec_healed_army(old(self)@, time@),
    {
        let mut i: usize = 0;
        while i < self.units.len()
            invariant
                army_wf(*self),
                army_wf(*old(self)),
                i <= self.units.len(),
                self.units.len() == old(self).units.len(),
                self.base_units == old(self).base_units,
                self.positions == old(self).positions,
                self.trackers == old(self).trackers,
                self.projectiles == old(self).projectiles,
                forall|k: int|
                    0 <= k < i ==> #[trigger] self.units[k] == spec_healed(
                        old(self).units[k],
                        arch_of(*old(self), k),
                        time@,
                    ),
                forall|k: int|
                    i <= k < self.units.len() ==> #[trigger] self.units[k] == old(self).units[k],
            decreases self.units.len() - i,
        {
            let u = self.units[i];
            if u.hull.is_positive() {
                let hull_max = self.base_units[u.base].hull.max;
                let hull_regen = self.base_units[u.base].hull.regen;
                let shield_max = self.base_units[u.base].shields.max;
                let shield_regen = self.base_units[u.base].shields.regen;
                let energy_max = self.base_units[u.base].energy_max;
                proof {
                    assert(state_wf(old(self).units[i as int], arch_of(*old(self), i as int)));
                    assert(unit_wf(arch_of(*old(self), i as int)));
                    crate::fixed::lemma_mul_raw_small(
                        hull_regen@,
                        crate::TICK_BITS as int,
                        crate::STAT_MAX_BITS as int,
                        crate::TICK_BITS as int,
                    );
                    crate::fixed::lemma_mul_raw_small(
                        shield_regen@,
                        crate::TICK_BITS as int,
                        crate::STAT_MAX_BITS as int,
                        crate::TICK_BITS as int,
                    );
                }
                let mut u2 = u;
                u2.hull = hull_max.min(
                    u.hull.const_add(hull_regen.const_mul(Fixed32 { bits: crate::TICK_BITS })),
                );
                let recharge = match u.last_damaged {
                    Some(t) => time.const_sub(t).const_gt(
                        Fixed32 { bits: crate::SHIELD_RECHARGE_DELAY_BITS },
                    ),
                    None => false,
                };
                if recharge {
                    u2.shields = shield_max.min(
                        u.shields.const_add(
                            shield_regen.const_mul(Fixed32 { bits: crate::TICK_BITS }),
                        ),
                    );
                }
                u2.energy = match u.energy {
                    Some(e) => Some(
                        energy_max.min(e.const_add(Fixed32 { bits: crate::ENERGY_REGEN_BITS })),
                    ),
                    None => None,
                };
                self.units.set(i, u2);
                proof {
                    assert(self.units[i as int] == spec_healed(
                        old(self).units[i as int],
                        arch_of(*old(self), i as int),
                        time@,
                    ));
                    assert(state_wf(self.units[i as int], arch_of(*self, i as int)));
                }
            }
            i = i + 1;
        }
        proof {
            assert(self.units@ =~= old(self).units@.map(
                |k: int, u: State| spec_healed(u, old(self).base_units@[u.base as int], time@),
            ));
            assert(self@ =~= spec_healed_army(old(self)@, time@));
        }
    }

    /// Restores every unit to its archetype's starting state, returns every
    /// position to the origin, clears the projectile backlog, and resets the
    /// trackers. The army's composition is preserved.
    pub fn reset(&mut self)
        requires
            army_wf(*old(self)),
        ensures
            army_wf(*final(self)),
            final(self).units.len() == old(self).units.len(),
            final(self).base_units == old(self).base_units,
            final(self).projectiles.len() == 0,
            final(self).positions.len() == old(self).positions.len(),
            final(self).trackers.len() == old(self).trackers.len(),
            forall|i: int|
                0 <= i < old(self).units.len() ==> #[trigger] final(self).units[i]
                    == spec_reset_state(old(self).units[i], arch_of(*old(self), i)),
            forall|i: int|
                0 <= i < old(self).units.len() ==> {
                    &&& (#[trigger] final(self).positions[i]).pos.x@ == 0
                    &&& final(self).positions[i].pos.y@ == 0
                    &&& final(self).positions[i].r == old(self).positions[i].r
                    &&& final(self).positions[i].plane == old(self).positions[i].plane
                },
            forall|i: int|
                0 <= i < old(self).units.len() ==> {
                    &&& (#[trigger] final(self).trackers[i]).damage_dealt@ == 0
                    &&& final(self).trackers[i].overkill@ == 0
                    &&& final(self).trackers[i].death_timestamp is None
                },
    {
        let mut i: usize = 0;
        while i < self.units.len()
            invariant
                army_wf(*self),
                army_wf(*old(self)),
                i <= self.units.len(),
                self.units.len() == old(self).units.len(),
                self.base_units == old(self).base_units,
                self.positions.len() == old(self).positions.len(),
                self.trackers.len() == old(self).trackers.len(),
                self.projectiles == old(self).projectiles,
                forall|k: int|
                    0 <= k < i ==> #[trigger] self.units[k] == spec_reset_state(
                        old(self).units[k],
                        arch_of(*old(self), k),
                    ),
                forall|k: int|
                    i <= k < self.units.len() ==> #[trigger] self.units[k] == old(self).units[k],
                forall|k: int|
                    0 <= k < i ==> {
                        &&& (#[trigger] self.positions[k]).pos.x@ == 0
                        &&& self.positions[k].pos.y@ == 0
                        &&& self.positions[k].r == old(self).positions[k].r
                        &&& self.positions[k].plane == old(self).positions[k].plane
                    },
                forall|k: int|
                    i <= k < self.positions.len() ==> #[trigger] self.positions[k] == old(
                        self,
                    ).positions[k],
                forall|k: int|
                    0 <= k < i ==> {
                        &&& (#[trigger] self.trackers[k]).damage_dealt@ == 0
                        &&& self.trackers[k].overkill@ == 0
                        &&& self.trackers[k].death_timestamp is None
                    },
            decreases self.units.len() - i,
        {
            let u = self.units[i];
            let arch_hull_max = self.base_units[u.base].hull.max;
            let arch_shield_max = self.base_units[u.base].shields.max;
            let arch_energy_start = self.base_units[u.base].energy_start;
            let arch_energy_max = self.base_units[u.base].energy_max;
            let has_w0 = self.base_units[u.base].weapons[0].is_some();
            let has_w1 = self.base_units[u.base].weapons[1].is_some();
            let mut u2 = u;
            u2.hull = arch_hull_max;
            u2.shields = arch_shield_max;
            u2.state = ActionState::Wait;
            u2.target = None;
            u2.attack_cd = Fixed32::zero();
            u2.can_attack = has_w0 || has_w1;
            u2.energy = if arch_energy_max.is_positive() {
                Some(arch_energy_start)
            } else {
                None
            };
            u2.effects = [None, None];
            self.units.set(i, u2);
            let oldpos = self.positions[i];
            let newpos = CollCircle::new(Pos::origin(), oldpos.r, oldpos.plane);
            self.positions.set(i, newpos);
            self.trackers.set(i, Tracker::new());
            proof {
                assert(state_wf(old(self).units[i as int], arch_of(*old(self), i as int)));
                assert(unit_wf(arch_of(*old(self), i as int)));
                assert(self.units[i as int] == spec_reset_state(
                    old(self).units[i as int],
                    arch_of(*old(self), i as int),
                ));
            }
            i = i + 1;
        }
        self.projectiles = Vec::new();
    }
}

/// Whether the opposing unit at the given handle is a target the shooter's
/// archetype can engage: alive, with a weapon slot that reaches its plane.
pub open spec fn spec_candidate(shooter: Unit, opnt: Army, h: int) -> bool {
    &&& opnt.units[h].hull@ > 0
    &&& spec_weapon_against(shooter, arch_of(opnt, h).collision) is Some
}

/// The candidate test over the army model.
pub open spec fn spec_candidate_in(shooter: Unit, o: ArmyModel, h: int) -> bool {
    &&& o.units[h].hull@ > 0
    &&& spec_weapon_against(shooter, arch_in(o, h).collision) is Some
}

/// What the capped random search finds for one shooter: up to 64 draws
/// from the source, stopping at the first candidate handle, with the
/// source state it leaves behind.
pub open spec fn spec_pick_draws(shooter: Unit, o: ArmyModel, rng: u64, attempts: int) -> (
    Option<int>,
    u64,
)
    decreases 64 - attempts,
{
    if attempts < 0 || attempts >= 64 {
        (None, rng)
    } else {
        let s2 = crate::rng::step_state(rng);
        let h = (crate::rng::mix_output(s2) % (o.units.len() as u64)) as int;
        if spec_candidate_in(shooter, o, h) {
            (Some(h), s2)
        } else {
            spec_pick_draws(shooter, o, s2, attempts + 1)
        }
    }
}

/// The deterministic backstop: the first candidate handle at or after `k`.
pub open spec fn spec_scan_from(shooter: Unit, o: ArmyModel, k: int) -> Option<int>
    decreases o.units.len() - k,
{
    if k < 0 || k >= o.units.len() {
        None
    } else if spec_candidate_in(shooter, o, k) {
        Some(k)
    } else {
        spec_scan_from(shooter, o, k + 1)
    }
}

/// What the targeting pass does to one unit: a live target is kept; else a
/// capped random search, then the deterministic sweep, assigns the choice
/// and readies the unit, or clears the target when no candidate exists.
pub open spec fn spec_retargeted(u: State, shooter: Unit, o: ArmyModel, rng: u64) -> (State, u64) {
    let keep = u.target matches Some(t) && o.units[t as int].hull@ > 0;
    if keep {
        (u, rng)
    } else {
        let drawn = spec_pick_draws(shooter, o, rng, 0);
        let chosen = if drawn.0 is Some {
            drawn.0
        } else {
            spec_scan_from(shooter, o, 0)
        };
        match chosen {
            Some(h) => (State { target: Some(h as u32), state: ActionState::Attack, ..u }, drawn.1),
            None => (State { target: None, ..u }, drawn.1),
        }
    }
}

/// What the targeting pass does to the first `n` units, in handle order,
/// threading the random source through each unit's draws.
pub open spec fn spec_acquire_below(m: ArmyModel, o: ArmyModel, rng: u64, n: int) -> (
    Seq<State>,
    u64,
)
    decreases n,
{
    if n <= 0 {
        (m.units, rng)
    } else {
        let prev = spec_acquire_below(m, o, rng, n - 1);
        let one = spec_retargeted(
            prev.0[n - 1],
            m.base_units[prev.0[n - 1].base as int],
            o,
            prev.1,
        );
        (prev.0.update(n - 1, one.0), one.1)
    }
}

impl Army {
    /// True when the opposing unit at the handle is alive and the archetype
    /// at the given table index has a weapon that reaches it.
    fn candidate(&self, opnt: &Army, base: usize, h: usize) -> (r: bool)
        requires
            army_wf(*self),
            army_wf(*opnt),
            base < self.base_units.len(),
            h < opnt.units.len(),
        ensures
            r == (opnt.units[h as int].hull@ > 0 && spec_weapon_against(
                self.base_units[base as int],
                arch_of(*opnt, h as int).collision,
            ) is Some),
    {
        if opnt.units[h].is_alive() {
            let w = self.base_units[base].try_get_weapon(&opnt.base_units[opnt.units[h].base]);
            w.is_some()
        } else {
            false
        }
    }

    /// Gives every unit a live target it can engage: a unit whose target has
    /// died lets it go, and a unit without one samples opposing handles at
    /// random, rejecting the dead and the unreachable. The random draws are
    /// capped, with a deterministic sweep as the backstop, so the pass
    /// always terminates; a unit keeps no target only when the opponent has
    /// no candidate for it at all.
    #[verifier::rlimit(100)]
    pub fn acquire_targets(&mut self, opnt: &Army, rng: &mut DelaySource)
        requires
            army_wf(*old(self)),
            army_wf(*opnt),
            opnt.units.len() > 0,
            forall|i: int|
                0 <= i < old(self).units.len() ==> ((#[trigger] old(self).units[i]).target
                    matches Some(t) ==> t < opnt.units.len()),
        ensures
            army_wf(*final(self)),
            final(self).units.len() == old(self).units.len(),
            final(self).base_units == old(self).base_units,
            final(self).positions == old(self).positions,
            final(self).trackers == old(self).trackers,
            final(self).projectiles == old(self).projectiles,
            forall|i: int|
                0 <= i < old(self).units.len() ==> {
                    let u0 = old(self).units[i];
                    let u1 = #[trigger] final(self).units[i];
                    &&& (u1.target matches Some(h) ==> h < opnt.units.len()
                        && opnt.units[h as int].hull@ > 0)
                    &&& ((u0.target matches Some(t) && opnt.units[t as int].hull@ > 0) ==> u1
                        == u0)
                    &&& (u1 == u0 || u1 == State { target: None, ..u0 } || (u1.state
                        == ActionState::Attack && u1 == State {
                        target: u1.target,
                        state: ActionState::Attack,
                        ..u0
                    } && (u1.target matches Some(h) ==> spec_candidate(
                        arch_of(*old(self), i),
                        *opnt,
                        h as int,
                    ))))
                    &&& (u1.target is None ==> forall|h: int|
                        0 <= h < opnt.units.len() ==> !spec_candidate(
                            arch_of(*old(self), i),
                            *opnt,
                            h,
                        ))
                },
            ({
                let run = spec_acquire_below(
                    old(self)@,
                    opnt@,
                    old(rng).state,
                    old(self).units.len() as int,
                );
                &&& final(self)@ == (ArmyModel { units: run.0, ..old(self)@ })
                &&& final(rng).state == run.1
            }),
    {
        let n = opnt.units.len();
        let mut i: usize = 0;
        while i < self.units.len()
            invariant
                army_wf(*self),
                army_wf(*old(self)),
                army_wf(*opnt),
                0 < n == opnt.units.len(),
                i <= self.units.len(),
                self.units.len() == old(self).units.len(),
                self.base_units == old(self).base_units,
                self.positions == old(self).positions,
                self.trackers == old(self).trackers,
                self.projectiles == old(self).projectiles,
                forall|k: int|
                    0 <= k < self.units.len() ==> ((#[trigger] old(self).units[k]).target
                        matches Some(t) ==> t < opnt.units.len()),
                ({
                    let run = spec_acquire_below(old(self)@, opnt@, old(rng).state, i as int);
                    &&& self.units@ == run.0
                    &&& rng.state == run.1
                }),
                forall|k: int|
                    i <= k < self.units.len() ==> #[trigger] self.units[k] == old(self).units[k],
                forall|k: int|
                    0 <= k < i ==> {
                        let u0 = old(self).units[k];
                        let u1 = #[trigger] self.units[k];
                        &&& (u1.target matches Some(h) ==> h < opnt.units.len()
                            && opnt.units[h as int].hull@ > 0)
                        &&& ((u0.target matches Some(t) && opnt.units[t as int].hull@ > 0) ==> u1
                            == u0)
                        &&& (u1 == u0 || u1 == State { target: None, ..u0 } || (u1.state
                            == ActionState::Attack && u1 == State {
                            target: u1.target,
                            state: ActionState::Attack,
                            ..u0
                        } && (u1.target matches Some(h) ==> spec_candidate(
                            arch_of(*old(self), k),
                            *opnt,
                            h as int,
                        ))))
                        &&& (u1.target is None ==> forall|h: int|
                            0 <= h < opnt.units.len() ==> !spec_candidate(
                                arch_of(*old(self), k),
                                *opnt,
                                h,
                            ))
                    },
            decreases self.units.len() - i,
        {
            let ghost pre_units = self.units@;
            let ghost s_entry = rng.state;
            let u = self.units[i];
            let ghost shooter = self.base_units@[u.base as int];
            let keep = match u.target {
                Some(t) => opnt.units[t as usize].is_alive(),
                None => false,
            };
            if !keep {
                let mut chosen: Option<usize> = None;
                let mut attempts: usize = 0;
                while attempts < 64 && chosen.is_none()
                    invariant
                        army_wf(*self),
                        army_wf(*opnt),
                        0 < n == opnt.units.len(),
                        i < self.units.len(),
                        self.units[i as int].base < self.base_units.len(),
                        u == self.units[i as int],
                        attempts <= 64,
                        shooter == self.base_units@[u.base as int],
                        chosen is None ==> spec_pick_draws(shooter, opnt@, s_entry, 0)
                            == spec_pick_draws(shooter, opnt@, rng.state, attempts as int),
                        chosen matches Some(h) ==> spec_pick_draws(shooter, opnt@, s_entry, 0) == (
                            Some(h as int),
                            rng.state,
                        ),
                        chosen matches Some(h) ==> h < n && spec_candidate(
                            self.base_units[u.base as int],
                            *opnt,
                            h as int,
                        ),
                    decreases 64 - attempts,
                {
                    let ghost s_pre = rng.state;
                    let h = rng.below(n as u64) as usize;
                    if self.candidate(opnt, u.base, h) {
                        chosen = Some(h);
                    }
                    proof {
                        assert(spec_pick_draws(shooter, opnt@, s_pre, attempts as int) == (
                        if spec_candidate_in(shooter, opnt@, h as int) {
                            (Some(h as int), rng.state)
                        } else {
                            spec_pick_draws(shooter, opnt@, rng.state, attempts + 1)
                        }));
                        assert(spec_candidate_in(shooter, opnt@, h as int) == spec_candidate(
                            self.base_units[u.base as int],
                            *opnt,
                            h as int,
                        ));
                    }
                    attempts = attempts + 1;
                }
                if chosen.is_none() {
                    let mut k: usize = 0;
                    while k < n && chosen.is_none()
                        invariant
                            army_wf(*self),
                            army_wf(*opnt),
                            0 < n == opnt.units.len(),
                            i < self.units.len(),
                            self.units[i as int].base < self.base_units.len(),
                            u == self.units[i as int],
                            k <= n,
                            shooter == self.base_units@[u.base as int],
                            chosen is None ==> spec_scan_from(shooter, opnt@, 0)
                                == spec_scan_from(shooter, opnt@, k as int),
                            chosen matches Some(h) ==> spec_scan_from(shooter, opnt@, 0) == Some(
                                h as int,
                            ),
                            chosen is None ==> forall|m: int|
                                0 <= m < k ==> !spec_candidate(
                                    self.base_units[u.base as int],
                                    *opnt,
                                    m,
                                ),
                            chosen matches Some(h) ==> h < n && spec_candidate(
                                self.base_units[u.base as int],
                                *opnt,
                                h as int,
                            ),
                        decreases n - k,
                    {
                        if self.candidate(opnt, u.base, k) {
                            chosen = Some(k);
                        }
                        proof {
                            assert(spec_candidate_in(shooter, opnt@, k as int) == spec_candidate(
                                self.base_units[u.base as int],
                                *opnt,
                                k as int,
                            ));
                        }
                        k = k + 1;
                    }
                }
                let mut u2 = u;
                match chosen {
                    Some(h) => {
                        u2.target = Some(h as u32);
                        u2.state = ActionState::Attack;
                    },
                    None => {
                        u2.target = None;
                    },
                }
                self.units.set(i, u2);
                proof {
                    let one = spec_retargeted(u, shooter, opnt@, s_entry);
                    assert(u2 == one.0 && rng.state == one.1);
                    assert(self.units@ == pre_units.update(i as int, u2));
                }
            } else {
                proof {
                    let one = spec_retargeted(u, shooter, opnt@, s_entry);
                    assert(one.0 == u && one.1 == rng.state);
                    assert(self.units@ =~= pre_units.update(i as int, one.0));
                }
            }
            proof {
                let run = spec_acquire_below(old(self)@, opnt@, old(rng).state, i + 1);
                assert(self.units@ == run.0 && rng.state == run.1);
            }
            i = i + 1;
        }
    }
}


/// The field-wise wrapping sum of two costs.
pub open spec fn cost_plus(x: Cost, y: Cost) -> Cost {
    Cost {
        minerals: crate::fixed::fx(add_raw(x.minerals@, y.minerals@)),
        gas: crate::fixed::fx(add_raw(x.gas@, y.gas@)),
        supply: crate::fixed::fx(add_raw(x.supply@, y.supply@)),
        build_time: crate::fixed::fx(add_raw(x.build_time@, y.build_time@)),
    }
}

/// A cost of nothing.
pub open spec fn cost_zero() -> Cost {
    Cost {
        minerals: crate::fixed::fx(0),
        gas: crate::fixed::fx(0),
        supply: crate::fixed::fx(0),
        build_time: crate::fixed::fx(0),
    }
}

/// The summed archetype cost of the army's first `n` units.
pub open spec fn spec_total_cost(a: Army, n: int) -> Cost
    decreases n,
{
    if n <= 0 {
        cost_zero()
    } else {
        cost_plus(spec_total_cost(a, n - 1), arch_of(a, n - 1).cost)
    }
}

/// The summed archetype cost of those of the army's first `n` units on
/// which the predicate of life agrees with `alive`.
pub open spec fn spec_cost_where(a: Army, n: int, alive: bool) -> Cost
    decreases n,
{
    if n <= 0 {
        cost_zero()
    } else {
        let prev = spec_cost_where(a, n - 1, alive);
        if (a.units[n - 1].hull@ > 0) == alive {
            cost_plus(prev, arch_of(a, n - 1).cost)
        } else {
            prev
        }
    }
}

/// The summed maximum health (hull plus shields) of the first `n` units.
pub open spec fn spec_total_health(a: Army, n: int) -> int
    decreases n,
{
    if n <= 0 {
        0
    } else {
        add_raw(
            spec_total_health(a, n - 1),
            add_raw(arch_of(a, n - 1).hull.max@, arch_of(a, n - 1).shields.max@),
        )
    }
}

/// The summed current health (hull plus shields) of the first `n` units.
pub open spec fn spec_total_health_curr(a: Army, n: int) -> int
    decreases n,
{
    if n <= 0 {
        0
    } else {
        add_raw(
            spec_total_health_curr(a, n - 1),
            add_raw(a.units[n - 1].hull@, a.units[n - 1].shields@),
        )
    }
}

/// The summed damage dealt recorded by the first `n` trackers.
pub open spec fn spec_damage_dealt(a: Army, n: int) -> int
    decreases n,
{
    if n <= 0 {
        0
    } else {
        add_raw(spec_damage_dealt(a, n - 1), a.trackers[n - 1].damage_dealt@)
    }
}

/// The summed overkill recorded by the first `n` trackers.
pub open spec fn spec_overkill(a: Army, n: int) -> int
    decreases n,
{
    if n <= 0 {
        0
    } else {
        add_raw(spec_overkill(a, n - 1), a.trackers[n - 1].overkill@)
    }
}

impl Army {
    /// The summed archetype cost of every unit, dead or alive.
    pub fn total_cost(&self) -> (r: Cost)
        requires
            army_wf(*self),
        ensures
            r == spec_total_cost(*self, self.units.len() as int),
    {
        let mut acc = Cost::free();
        let mut i: usize = 0;
        while i < self.units.len()
            invariant
                army_wf(*self),
                i <= self.units.len(),
                acc == spec_total_cost(*self, i as int),
            decreases self.units.len() - i,
        {
            acc = acc.plus(self.base_units[self.units[i].base].cost);
            i = i + 1;
        }
        acc
    }

    /// The summed archetype cost of the units matching the given life
    /// state: the winner's losses or its survivors.
    pub fn cost_where(&self, alive: bool) -> (r: Cost)
        requires
            army_wf(*self),
        ensures
            r == spec_cost_where(*self, self.units.len() as int, alive),
    {
        let mut acc = Cost::free();
        let mut i: usize = 0;
        while i < self.units.len()
            invariant
                army_wf(*self),
                i <= self.units.len(),
                acc == spec_cost_where(*self, i as int, alive),
            decreases self.units.len() - i,
        {
            if self.units[i].is_alive() == alive {
                acc = acc.plus(self.base_units[self.units[i].base].cost);
            }
            i = i + 1;
        }
        acc
    }

    /// The summed maximum health (hull plus shields) of the whole army.
    pub fn total_health(&self) -> (r: Fixed32)
        requires
            army_wf(*self),
        ensures
            r@ == spec_total_health(*self, self.units.len() as int),
    {
        let mut acc = Fixed32::zero();
        let mut i: usize = 0;
        while i < self.units.len()
            invariant
                army_wf(*self),
                i <= self.units.len(),
                acc@ == spec_total_health(*self, i as int),
            decreases self.units.len() - i,
        {
            let b = self.units[i].base;
            acc = acc.const_add(
                self.base_units[b].hull.max.const_add(self.base_units[b].shields.max),
            );
            i = i + 1;
        }
        acc
    }

    /// The summed current health (hull plus shields) of the whole army.
    pub fn total_health_curr(&self) -> (r: Fixed32)
        ensures
            r@ == spec_total_health_curr(*self, self.units.len() as int),
    {
        let mut acc = Fixed32::zero();
        let mut i: usize = 0;
        while i < self.units.len()
            invariant
                i <= self.units.len(),
                acc@ == spec_total_health_curr(*self, i as int),
            decreases self.units.len() - i,
        {
            acc = acc.const_add(self.units[i].hull.const_add(self.units[i].shields));
            i = i + 1;
        }
        acc
    }

    /// The summed damage this army's units have dealt.
    pub fn damage_dealt(&self) -> (r: Fixed32)
        ensures
            r@ == spec_damage_dealt(*self, self.trackers.len() as int),
    {
        let mut acc = Fixed32::zero();
        let mut i: usize = 0;
        while i < self.trackers.len()
            invariant
                i <= self.trackers.len(),
                acc@ == spec_damage_dealt(*self, i as int),
            decreases self.trackers.len() - i,
        {
            acc = acc.const_add(self.trackers[i].damage_dealt);
            i = i + 1;
        }
        acc
    }

    /// The summed overkill this army's units have inflicted.
    pub fn overkill_total(&self) -> (r: Fixed32)
        ensures
            r@ == spec_overkill(*self, self.trackers.len() as int),
    {
        let mut acc = Fixed32::zero();
        let mut i: usize = 0;
        while i < self.trackers.len()
            invariant
                i <= self.trackers.len(),
                acc@ == spec_overkill(*self, i as int),
            decreases self.trackers.len() - i,
        {
            acc = acc.const_add(self.trackers[i].overkill);
            i = i + 1;
        }
        acc
    }
}

impl Default for Army {
    /// The default army is empty.
    fn default() -> (r: Army)
        ensures
            army_wf(r),
            r.units.len() == 0,
    {
        Army::new()
    }
}

} // verus!
