//! What the engine reads each tick, and what it asks the mutation sink to do.

use crate::time::duration_nanos;
use std::time::Duration;
use vstd::prelude::*;

verus! {

/// The control inputs of one entity for the current tick.
#[derive(Clone, Copy, Debug, PartialEq, Eq, Structural)]
pub struct Inputs {
    /// The primary action went from released to pressed this tick
    pub primary_pressed: bool,
    /// The primary action is held down
    pub primary_held: bool,
}

/// What hit resolution reported about the entity's attack marker.
#[derive(Clone, Copy, Debug, PartialEq, Eq, Structural)]
pub struct AttackReport {
    /// The attack has been resolved against nearby entities
    pub applied: bool,
    /// How many entities it struck
    pub hit_count: u32,
}

impl AttackReport {
    /// The attack was resolved and struck at least one entity.
    pub open spec fn landed(self) -> bool {
        self.applied && self.hit_count > 0
    }
}

/// Everything the engine consumes in one tick.
#[derive(Debug, PartialEq)]
pub struct JoinData {
    /// Time elapsed in this tick
    pub dt: Duration,
    /// Control inputs of this tick
    pub inputs: Inputs,
    /// Outcome of the attack marker that was active before this tick, if any
    pub attacking: Option<AttackReport>,
}

impl Copy for JoinData {

}

impl Clone for JoinData {
    fn clone(&self) -> (copy: Self)
        ensures
            copy == *self,
    {
        *self
    }
}

/// One tick's input with the elapsed time read as nanoseconds.
pub struct JoinDataView {
    pub dt: nat,
    pub inputs: Inputs,
    pub attacking: Option<AttackReport>,
}

impl View for JoinData {
    type V = JoinDataView;

    open spec fn view(&self) -> JoinDataView {
        JoinDataView {
            dt: duration_nanos(self.dt),
            inputs: self.inputs,
            attacking: self.attacking,
        }
    }
}

impl JoinDataView {
    /// The report of this tick says that the previous attack landed.
    pub open spec fn rewarded(self) -> bool {
        self.attacking matches Some(report) && report.landed()
    }
}

/// Why an entity's energy changes.
#[derive(Clone, Copy, Debug, PartialEq, Eq, Structural)]
pub enum EnergySource {
    HitEnemy,
}

/// A deferred mutation, applied by the sink once every entity has run its
/// behavior for the tick.
#[derive(Debug, PartialEq)]
pub enum MutationRequest<F> {
    /// Place the attack marker, replacing any marker still present. The
    /// health change is never positive; the angle is in degrees.
    AttackRequest { healthchange: i32, range: F, angle: F, knockback: F },
    /// Remove the attack marker, if there is one
    AttackWithdraw,
    /// Grant energy
    EnergyGain { amount: i32, source: EnergySource },
}

impl<F: Copy> Copy for MutationRequest<F> {

}

impl<F: Copy> Clone for MutationRequest<F> {
    fn clone(&self) -> (copy: Self)
        ensures
            copy == *self,
    {
        *self
    }
}

impl<F> MutationRequest<F> {
    /// This request places an attack marker.
    pub open spec fn is_attack(self) -> bool {
        self is AttackRequest
    }

    /// This request grants energy.
    pub open spec fn is_energy_gain(self) -> bool {
        self is EnergyGain
    }
}

} // verus!
