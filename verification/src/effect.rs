//! Status effects and the area-effect record: tagged variants with a small
//! known behavior set, applied to unit state by explicit dispatch.

use vstd::prelude::*;

use crate::fixed::{mul_raw, Fixed32};
use crate::utils::{CollCircle, Pos};

verus! {

/// Whose units an area effect touches, relative to its owning team.
#[derive(Clone, Copy, PartialEq, Eq, Structural, Debug)]
pub enum Affects {
    Friendly,
    Enemy,
    Both,
}

/// The statistic a status effect modifies.
#[derive(Clone, Copy, PartialEq, Eq, Structural, Debug)]
pub enum Stat {
    Speed,
}

/// A status effect carried by a unit: a stat change, applied once or held
/// until an expiry timestamp.
#[derive(Clone, Copy, PartialEq, Eq, Structural, Debug)]
pub enum Effect {
    /// Scales the statistic once, permanently.
    StatModOnce { stat: Stat, factor: Fixed32 },
    /// Scales the statistic until the timestamp passes.
    StatModTemp { stat: Stat, factor: Fixed32, timestamp: Fixed32 },
}

impl Effect {
    /// The concussive-shell slow: half speed until it wears off.
    pub fn concussive() -> (r: Effect)
        ensures
            r == (Effect::StatModTemp {
                stat: Stat::Speed,
                factor: Fixed32 { bits: 2048 },
                timestamp: Fixed32 { bits: 0 },
            }),
    {
        Effect::StatModTemp {
            stat: Stat::Speed,
            factor: Fixed32 { bits: 2048 },
            timestamp: Fixed32 { bits: 0 },
        }
    }

    /// The factor this effect applies to the given statistic: one (no
    /// change) when the effect touches another statistic.
    pub open spec fn spec_factor_on(self, stat: Stat) -> int {
        match self {
            Effect::StatModOnce { stat: s, factor } => if s == stat {
                factor@
            } else {
                4096
            },
            Effect::StatModTemp { stat: s, factor, .. } => if s == stat {
                factor@
            } else {
                4096
            },
        }
    }

    /// Applies the effect's factor for the given statistic to a value.
    pub fn apply_to(self, stat: Stat, value: Fixed32) -> (r: Fixed32)
        ensures
            r@ == mul_raw(value@, self.spec_factor_on(stat)),
    {
        let factor = match self {
            Effect::StatModOnce { stat: s, factor } => if s == stat {
                factor
            } else {
                Fixed32::one()
            },
            Effect::StatModTemp { stat: s, factor, .. } => if s == stat {
                factor
            } else {
                Fixed32::one()
            },
        };
        value.const_mul(factor)
    }
}

/// An area effect: a circle with an expiry, an affiliation relative to the
/// owning team, and the status effect it presses onto overlapping units.
#[derive(Clone, Copy, Debug)]
pub struct AoE {
    pub circle: CollCircle,
    pub expires: Fixed32,
    pub team: crate::coordinator::Team,
    pub affects: Affects,
    pub effect: Effect,
}

impl AoE {
    /// True when the area touches the given collision circle: the planes
    /// interact and the circles overlap.
    pub fn collides_with(&self, other: CollCircle) -> (r: bool)
        ensures
            r == self.circle.spec_collides_with(other),
    {
        self.circle.collides_with(other)
    }

    /// Moves the area to a new centre.
    pub fn set_pos(&mut self, pos: Pos)
        ensures
            final(self).circle.pos == pos,
            final(self).circle.r == old(self).circle.r,
            final(self).circle.plane == old(self).circle.plane,
            final(self).expires == old(self).expires,
            final(self).team == old(self).team,
            final(self).affects == old(self).affects,
            final(self).effect == old(self).effect,
    {
        self.circle.pos = pos;
    }
}

} // verus!
