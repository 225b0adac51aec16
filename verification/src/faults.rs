//! What can be wrong with an action state, and the checks that find it.
//!
//! A configuration is checked once, when it is loaded. The engine itself
//! never fails: `Data::tick` checks the state on entry, and a state that
//! breaks an invariant ends the action instead of being advanced.

use crate::combo_melee::{CharacterState, Data, DataView, StateUpdate, StateUpdateView};
use crate::requests::JoinData;
use crate::stage::{Stage, StageView};
use std::time::Duration;
use crate::time::duration_nanos;
use vstd::prelude::*;

verus! {

/// A stage table that must not be used.
#[derive(Clone, Copy, Debug, PartialEq, Eq, Structural)]
pub enum ConfigurationError {
    /// The combo declares no stage at all
    NoStages,
    /// The table does not hold as many stages as the combo declares
    StageCountMismatch,
    /// The largest energy gain does not fit a signed 32-bit amount
    EnergyGainOutOfRange,
    /// The entry at `position`, counted from 1, carries another stage index
    StageOutOfOrder { position: u32 },
    /// The stage at `position` has a base damage above its maximum
    BaseDamageAboveMaximum { position: u32 },
    /// The maximum damage of the stage at `position` does not fit a signed
    /// 32-bit health change
    DamageOutOfRange { position: u32 },
}

/// A state that the engine must never be handed.
#[derive(Clone, Copy, Debug, PartialEq, Eq, Structural)]
pub enum InvariantViolation {
    /// The current stage is not one of the `num_stages` stages of the combo
    StageOutOfRange { stage: u32, num_stages: u32 },
}

/// Anything that keeps a state from being advanced.
#[derive(Clone, Copy, Debug, PartialEq, Eq, Structural)]
pub enum Fault {
    Configuration(ConfigurationError),
    Invariant(InvariantViolation),
}

/// The outcome of a tick on a state that was checked first.
#[derive(Debug, PartialEq)]
pub struct Tick<F> {
    /// What to store and what to hand to the sink
    pub update: StateUpdate<F>,
    /// The fault that ended the action, if the state was unsound
    pub fault: Option<Fault>,
}

impl<F> StageView<F> {
    /// What is wrong with this stage as the entry at `position`, counted
    /// from 1; `None` when nothing is.
    pub open spec fn fault_at(self, position: int) -> Option<ConfigurationError> {
        if self.stage != position {
            Some(ConfigurationError::StageOutOfOrder { position: position as u32 })
        } else if self.base_damage > self.max_damage {
            Some(ConfigurationError::BaseDamageAboveMaximum { position: position as u32 })
        } else if self.max_damage > i32::MAX {
            Some(ConfigurationError::DamageOutOfRange { position: position as u32 })
        } else {
            None
        }
    }
}

impl<F> DataView<F> {
    /// The counts and the energy ceiling are sound; only the stages remain
    /// to be looked at.
    pub open spec fn header_valid(self) -> bool {
        &&& self.num_stages >= 1
        &&& self.stage_data.len() == self.num_stages
        &&& self.max_energy_gain <= i32::MAX
    }

    /// The entry at `position`, counted from 1, is the first unsound stage,
    /// and `error` is what is wrong with it.
    pub open spec fn first_stage_fault(self, position: int, error: ConfigurationError) -> bool {
        &&& 1 <= position <= self.stage_data.len()
        &&& self.stage_data[position - 1].fault_at(position) == Some(error)
        &&& forall|i: int|
            0 <= i < position - 1 ==> (#[trigger] self.stage_data[i]).fault_at(i + 1) is None
    }

    /// `error` is the configuration error of this state: the first rule
    /// that the configuration breaks, the counts before the energy ceiling
    /// and the ceiling before the stages in table order.
    pub open spec fn table_fault(self, error: ConfigurationError) -> bool {
        match error {
            ConfigurationError::NoStages => self.num_stages == 0,
            ConfigurationError::StageCountMismatch => {
                &&& self.num_stages >= 1
                &&& self.stage_data.len() != self.num_stages
            },
            ConfigurationError::EnergyGainOutOfRange => {
                &&& self.num_stages >= 1
                &&& self.stage_data.len() == self.num_stages
                &&& self.max_energy_gain > i32::MAX
            },
            ConfigurationError::StageOutOfOrder { position } => {
                &&& self.header_valid()
                &&& self.first_stage_fault(position as int, error)
            },
            ConfigurationError::BaseDamageAboveMaximum { position } => {
                &&& self.header_valid()
                &&& self.first_stage_fault(position as int, error)
            },
            ConfigurationError::DamageOutOfRange { position } => {
                &&& self.header_valid()
                &&& self.first_stage_fault(position as int, error)
            },
        }
    }

    /// `fault` is what keeps this state from being advanced: its
    /// configuration error if it has one, else the stage that is out of
    /// range.
    pub open spec fn fault(self, fault: Fault) -> bool {
        match fault {
            Fault::Configuration(error) => self.table_fault(error),
            Fault::Invariant(InvariantViolation::StageOutOfRange { stage, num_stages }) => {
                &&& self.table_valid()
                &&& !(1 <= self.stage <= self.num_stages)
                &&& stage == self.stage
                &&& num_stages == self.num_stages
            },
        }
    }
}

/// A configuration that has an error is not sound.
pub proof fn table_fault_excludes_valid<F>(d: DataView<F>, error: ConfigurationError)
    requires
        d.table_fault(error),
    ensures
        !d.table_valid(),
{
    match error {
        ConfigurationError::StageOutOfOrder { position } => {
            assert(d.stage_data[position - 1].fault_at(position as int) is Some);
        },
        ConfigurationError::BaseDamageAboveMaximum { position } => {
            assert(d.stage_data[position - 1].fault_at(position as int) is Some);
        },
        ConfigurationError::DamageOutOfRange { position } => {
            assert(d.stage_data[position - 1].fault_at(position as int) is Some);
        },
        _ => {},
    }
}

/// A configuration has at most one configuration error.
pub proof fn table_fault_unique<F>(d: DataView<F>, a: ConfigurationError, b: ConfigurationError)
    requires
        d.table_fault(a),
        d.table_fault(b),
    ensures
        a == b,
{
    if d.header_valid() {
        let p = choose|p: int| d.first_stage_fault(p, a);
        let q = choose|q: int| d.first_stage_fault(q, b);
        assert(d.first_stage_fault(p, a));
        assert(d.first_stage_fault(q, b));
        if p < q {
            assert(d.stage_data[p - 1].fault_at(p - 1 + 1) is None);
        }
        if q < p {
            assert(d.stage_data[q - 1].fault_at(q - 1 + 1) is None);
        }
    }
}

/// A state has at most one fault, and a state that has one is not valid.
pub proof fn fault_unique<F>(d: DataView<F>, a: Fault, b: Fault)
    requires
        d.fault(a),
        d.fault(b),
    ensures
        a == b,
        !d.valid(),
{
    match (a, b) {
        (Fault::Configuration(x), Fault::Configuration(y)) => {
            table_fault_unique(d, x, y);
            table_fault_excludes_valid(d, x);
        },
        (Fault::Configuration(x), Fault::Invariant(_)) => {
            table_fault_excludes_valid(d, x);
        },
        (Fault::Invariant(_), Fault::Configuration(y)) => {
            table_fault_excludes_valid(d, y);
        },
        (Fault::Invariant(_), Fault::Invariant(_)) => {},
    }
}

impl<F: Copy> Data<F> {
    /// Enters the action with the given configuration, at its first stage.
    ///
    /// The configuration is checked as `validate` checks it; a table of more
    /// stages than a `u32` counts is reported as a count mismatch.
    pub fn enter(
        stage_data: Vec<Stage<F>>,
        initial_energy_gain: u32,
        max_energy_gain: u32,
        energy_increase: u32,
        combo_duration: Duration,
    ) -> (result: Result<Data<F>, ConfigurationError>)
        ensures
            result is Ok <==> DataView::entered(
                stage_data@.map_values(|s: Stage<F>| s@),
                initial_energy_gain,
                max_energy_gain,
                energy_increase,
                duration_nanos(combo_duration),
            ).table_valid(),
            result matches Ok(data) ==> data@.valid() && data@ == DataView::entered(
                stage_data@.map_values(|s: Stage<F>| s@),
                initial_energy_gain,
                max_energy_gain,
                energy_increase,
                duration_nanos(combo_duration),
            ),
            result matches Err(error) ==> DataView::entered(
                stage_data@.map_values(|s: Stage<F>| s@),
                initial_energy_gain,
                max_energy_gain,
                energy_increase,
                duration_nanos(combo_duration),
            ).table_fault(error),
    {
        let count = stage_data.len();
        let num_stages: u32 = if count <= 0xFFFF_FFFF {
            count as u32
        } else {
            0xFFFF_FFFF
        };
        let data = Data {
            stage: 1,
            num_stages,
            combo: 0,
            stage_data,
            exhausted: false,
            initial_energy_gain,
            max_energy_gain,
            energy_increase,
            combo_duration,
            timer: Duration::new(0, 0),
        };
        match data.validate() {
            Ok(()) => Ok(data),
            Err(error) => Err(error),
        }
    }

    /// Checks the static configuration, as a loader does once.
    ///
    /// The result is `Ok` exactly when the configuration is sound. Otherwise
    /// it is the first rule that is broken: the counts, then the energy
    /// ceiling, then the stages in table order.
    pub fn validate(&self) -> (result: Result<(), ConfigurationError>)
        ensures
            result is Ok <==> self@.table_valid(),
            result matches Err(error) ==> self@.table_fault(error),
    {
        if self.num_stages == 0 {
            return Err(ConfigurationError::NoStages);
        }
        if self.stage_data.len() != self.num_stages as usize {
            return Err(ConfigurationError::StageCountMismatch);
        }
        if self.max_energy_gain > 0x7FFF_FFFF {
            return Err(ConfigurationError::EnergyGainOutOfRange);
        }
        let mut i: usize = 0;
        while i < self.stage_data.len()
            invariant
                i <= self.stage_data.len(),
                self@.header_valid(),
                forall|j: int| 0 <= j < i ==> (#[trigger] self@.stage_data[j]).fault_at(j + 1) is None,
            decreases self.stage_data.len() - i,
        {
            let position: u32 = (i + 1) as u32;
            let entry = &self.stage_data[i];
            assert(self@.stage_data[i as int] == entry@);
            if entry.stage != position {
                let error = ConfigurationError::StageOutOfOrder { position };
                proof {
                    table_fault_excludes_valid(self@, error);
                }
                return Err(error);
            }
            if entry.base_damage > entry.max_damage {
                let error = ConfigurationError::BaseDamageAboveMaximum { position };
                proof {
                    table_fault_excludes_valid(self@, error);
                }
                return Err(error);
            }
            if entry.max_damage > 0x7FFF_FFFF {
                let error = ConfigurationError::DamageOutOfRange { position };
                proof {
                    table_fault_excludes_valid(self@, error);
                }
                return Err(error);
            }
            i = i + 1;
        }
        Ok(())
    }

    /// Checks the whole state: the configuration, then the current stage.
    pub fn check(&self) -> (result: Result<(), Fault>)
        ensures
            result is Ok <==> self@.valid(),
            result matches Err(fault) ==> self@.fault(fault),
    {
        match self.validate() {
            Err(error) => Err(Fault::Configuration(error)),
            Ok(()) => {
                if 1 <= self.stage && self.stage <= self.num_stages {
                    Ok(())
                } else {
                    Err(
                        Fault::Invariant(
                            InvariantViolation::StageOutOfRange {
                                stage: self.stage,
                                num_stages: self.num_stages,
                            },
                        ),
                    )
                }
            },
        }
    }

    /// Advances the action by one tick, whatever state it is handed.
    ///
    /// A valid state is advanced as `behavior` does, and no fault is
    /// reported. Any other state ends the action: the entity goes idle, the
    /// attack marker is withdrawn, and the fault is reported for the caller
    /// to log.
    pub fn tick(&self, data: &JoinData) -> (tick: Tick<F>)
        ensures
            self@.valid() ==> tick.fault is None && tick.update@ == self@.step(data@),
            tick.update.character matches CharacterState::ComboMelee(next) ==> next@.valid(),
            !self@.valid() ==> tick.update@ == StateUpdateView::<F>::forced_exit(),
            !self@.valid() ==> (tick.fault matches Some(fault) && self@.fault(fault)),
    {
        match self.check() {
            Ok(()) => Tick { update: self.behavior(data), fault: None },
            Err(fault) => Tick { update: StateUpdate::forced_exit(), fault: Some(fault) },
        }
    }
}

} // verus!
