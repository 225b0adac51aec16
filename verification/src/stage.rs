//! One stage of a combo: its damage curve, its reach and its timing.

use crate::time::duration_nanos;
use std::time::Duration;
use vstd::prelude::*;

verus! {

/// One step of a multi-step attack.
///
/// `F` is the scalar in which the reach of the strike is measured. The engine
/// never computes with it: knockback, range and angle are handed on as they
/// were configured.
#[derive(Debug, PartialEq)]
pub struct Stage<F> {
    /// Position of this stage in the combo, counted from 1
    pub stage: u32,
    /// Initial damage of stage
    pub base_damage: u32,
    /// Max damage of stage
    pub max_damage: u32,
    /// Damage added per full cycle through all stages
    pub damage_increase: u32,
    /// Knockback of stage
    pub knockback: F,
    /// Range of attack
    pub range: F,
    /// Angle of attack, in degrees
    pub angle: F,
    /// How long until the stage can deal damage
    pub base_buildup_duration: Duration,
    /// How long the stage recovers after its strike
    pub base_recover_duration: Duration,
}

impl<F: Copy> Copy for Stage<F> {

}

impl<F: Copy> Clone for Stage<F> {
    fn clone(&self) -> (copy: Self)
        ensures
            copy == *self,
    {
        *self
    }
}

/// A stage with its durations read as nanoseconds.
pub struct StageView<F> {
    pub stage: u32,
    pub base_damage: u32,
    pub max_damage: u32,
    pub damage_increase: u32,
    pub knockback: F,
    pub range: F,
    pub angle: F,
    pub base_buildup_duration: nat,
    pub base_recover_duration: nat,
}

impl<F> View for Stage<F> {
    type V = StageView<F>;

    open spec fn view(&self) -> StageView<F> {
        StageView {
            stage: self.stage,
            base_damage: self.base_damage,
            max_damage: self.max_damage,
            damage_increase: self.damage_increase,
            knockback: self.knockback,
            range: self.range,
            angle: self.angle,
            base_buildup_duration: duration_nanos(self.base_buildup_duration),
            base_recover_duration: duration_nanos(self.base_recover_duration),
        }
    }
}

impl<F> StageView<F> {
    /// How many full cycles through the combo `combo` chained strikes make.
    pub open spec fn cycles(combo: nat, num_stages: nat) -> int {
        (combo / num_stages) as int
    }

    /// Damage before the ceiling is applied: the base, raised once per full
    /// cycle through all stages.
    pub open spec fn raw_damage(self, combo: nat, num_stages: nat) -> int {
        self.base_damage + Self::cycles(combo, num_stages) * self.damage_increase
    }

    /// Damage dealt by this stage after `combo` chained strikes: the raw
    /// damage, capped at `max_damage`.
    pub open spec fn damage(self, combo: nat, num_stages: nat) -> int {
        if self.raw_damage(combo, num_stages) <= self.max_damage {
            self.raw_damage(combo, num_stages)
        } else {
            self.max_damage as int
        }
    }

    /// The stage's own rules: the base damage is no more than the ceiling, and
    /// the ceiling can be written as a negative 32-bit health change.
    pub open spec fn well_formed(self) -> bool {
        &&& self.base_damage <= self.max_damage
        &&& self.max_damage <= i32::MAX
    }
}

impl<F: Copy> Stage<F> {
    /// Damage dealt by this stage after `combo` chained strikes in a combo of
    /// `num_stages` stages.
    pub fn damage(&self, combo: u32, num_stages: u32) -> (d: u32)
        requires
            num_stages > 0,
        ensures
            d == self@.damage(combo as nat, num_stages as nat),
            d <= self.max_damage,
    {
        let cycles: u64 = (combo / num_stages) as u64;
        let increase: u64 = self.damage_increase as u64;
        assert(cycles * increase <= 0xFFFF_FFFF * 0xFFFF_FFFF) by (nonlinear_arith)
            requires
                cycles <= 0xFFFF_FFFF,
                increase <= 0xFFFF_FFFF,
        ;
        let raw: u64 = self.base_damage as u64 + cycles * increase;
        if raw <= self.max_damage as u64 {
            raw as u32
        } else {
            self.max_damage
        }
    }
}

} // verus!
