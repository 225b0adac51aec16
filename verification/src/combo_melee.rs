//! The combo-melee action: a sequence of strikes that chain into each other
//! and hit harder the longer the chain runs.
//!
//! Each stage passes through buildup, a single active hit, recovery and a
//! chain window. The engine is a function from the action state and one tick
//! of input to the next state and the requests for the mutation sink.

use crate::requests::{EnergySource, JoinData, JoinDataView, MutationRequest};
use crate::stage::{Stage, StageView};
use crate::theorems::step_preserves_validity;
use crate::time::{advance, advanced_nanos, duration_nanos};
use std::time::Duration;
use vstd::prelude::*;

verus! {

/// A sequence of attacks that can incrementally become faster and more
/// damaging.
#[derive(Debug, PartialEq)]
pub struct Data<F> {
    /// Indicates what stage the combo is in
    pub stage: u32,
    /// Indicates number of stages in combo
    pub num_stages: u32,
    /// Number of consecutive strikes
    pub combo: u32,
    /// Data for each stage, first stage first
    pub stage_data: Vec<Stage<F>>,
    /// Whether the current stage has already issued its hit
    pub exhausted: bool,
    /// Initial energy gain per strike
    pub initial_energy_gain: u32,
    /// Max energy gain per strike
    pub max_energy_gain: u32,
    /// Energy gain increase per combo
    pub energy_increase: u32,
    /// Duration for the next stage to be activated
    pub combo_duration: Duration,
    /// Timer for each stage
    pub timer: Duration,
}

/// The action state as a mathematical value, durations in nanoseconds.
pub struct DataView<F> {
    pub stage: u32,
    pub num_stages: u32,
    pub combo: u32,
    pub stage_data: Seq<StageView<F>>,
    pub exhausted: bool,
    pub initial_energy_gain: u32,
    pub max_energy_gain: u32,
    pub energy_increase: u32,
    pub combo_duration: nat,
    pub timer: nat,
}

impl<F> View for Data<F> {
    type V = DataView<F>;

    open spec fn view(&self) -> DataView<F> {
        DataView {
            stage: self.stage,
            num_stages: self.num_stages,
            combo: self.combo,
            stage_data: self.stage_data@.map_values(|s: Stage<F>| s@),
            exhausted: self.exhausted,
            initial_energy_gain: self.initial_energy_gain,
            max_energy_gain: self.max_energy_gain,
            energy_increase: self.energy_increase,
            combo_duration: duration_nanos(self.combo_duration),
            timer: duration_nanos(self.timer),
        }
    }
}

/// Where in its cycle the current stage stands.
#[derive(Clone, Copy, Debug, PartialEq, Eq, Structural)]
pub enum Phase {
    /// Winding up; the hit has not been issued yet
    Buildup,
    /// The buildup is over and the hit is due
    ActiveHit,
    /// The hit has been issued and the stage is recovering
    Recovery,
    /// Recovered; a fresh press of the primary input chains the next stage
    ChainWindow,
    /// The chain window closed without input
    Done,
}

/// The action an entity performs after a tick.
#[derive(Debug, PartialEq)]
pub enum CharacterState<F> {
    /// Still in the combo, with this state
    ComboMelee(Data<F>),
    /// The combo is over; the entity holds its weapon idle
    Wielding,
}

/// `CharacterState` as a mathematical value.
pub enum CharacterView<F> {
    ComboMelee(DataView<F>),
    Wielding,
}

impl<F> View for CharacterState<F> {
    type V = CharacterView<F>;

    open spec fn view(&self) -> CharacterView<F> {
        match self {
            CharacterState::ComboMelee(data) => CharacterView::ComboMelee(data@),
            CharacterState::Wielding => CharacterView::Wielding,
        }
    }
}

/// The outcome of one tick: the action to store for the next tick and the
/// requests for the mutation sink, in the order in which they were issued.
#[derive(Debug, PartialEq)]
pub struct StateUpdate<F> {
    pub character: CharacterState<F>,
    pub requests: Vec<MutationRequest<F>>,
}

/// `StateUpdate` as a mathematical value.
pub struct StateUpdateView<F> {
    pub character: CharacterView<F>,
    pub requests: Seq<MutationRequest<F>>,
}

impl<F> View for StateUpdate<F> {
    type V = StateUpdateView<F>;

    open spec fn view(&self) -> StateUpdateView<F> {
        StateUpdateView { character: self.character@, requests: self.requests@ }
    }
}

impl<F> StateUpdateView<F> {
    /// The update that ends an action from outside: the entity goes idle and
    /// any attack marker is withdrawn.
    pub open spec fn forced_exit() -> StateUpdateView<F> {
        StateUpdateView {
            character: CharacterView::Wielding,
            requests: seq![MutationRequest::AttackWithdraw],
        }
    }
}

impl<F: Copy> StateUpdate<F> {
    /// Ends an action from outside, as when the entity dies or a more
    /// urgent action interrupts it. A withdrawal that is already pending
    /// does no harm: withdrawing twice is withdrawing once.
    pub fn forced_exit() -> (update: StateUpdate<F>)
        ensures
            update@ == StateUpdateView::<F>::forced_exit(),
    {
        let mut requests: Vec<MutationRequest<F>> = Vec::new();
        requests.push(MutationRequest::AttackWithdraw);
        assert(requests@ =~= StateUpdateView::<F>::forced_exit().requests);
        StateUpdate { character: CharacterState::Wielding, requests }
    }
}

impl<F> DataView<F> {
    /// The state of an action that has just been entered: the first stage,
    /// no strike chained yet, the hit still to come, the timer at zero.
    pub open spec fn entered(
        stage_data: Seq<StageView<F>>,
        initial_energy_gain: u32,
        max_energy_gain: u32,
        energy_increase: u32,
        combo_duration: nat,
    ) -> DataView<F> {
        DataView {
            stage: 1,
            num_stages: if stage_data.len() <= u32::MAX {
                stage_data.len() as u32
            } else {
                u32::MAX
            },
            combo: 0,
            stage_data,
            exhausted: false,
            initial_energy_gain,
            max_energy_gain,
            energy_increase,
            combo_duration,
            timer: 0,
        }
    }

    /// The parameters of the stage the combo is in.
    pub open spec fn current(self) -> StageView<F> {
        self.stage_data[self.stage - 1]
    }

    /// The static configuration is sound: there is at least one stage, the
    /// table has as many entries as declared, entry `i` is stage `i + 1`,
    /// every stage is well formed, and the largest energy gain fits the
    /// signed 32-bit amount of an energy request.
    pub open spec fn table_valid(self) -> bool {
        &&& self.num_stages >= 1
        &&& self.stage_data.len() == self.num_stages
        &&& self.max_energy_gain <= i32::MAX
        &&& forall|i: int|
            0 <= i < self.stage_data.len() ==> {
                &&& (#[trigger] self.stage_data[i]).stage == i + 1
                &&& self.stage_data[i].well_formed()
            }
    }

    /// The configuration is sound and the current stage is one of the table.
    pub open spec fn valid(self) -> bool {
        &&& self.table_valid()
        &&& 1 <= self.stage <= self.num_stages
    }

    /// The hit has not been issued and the buildup is still running.
    pub open spec fn in_buildup(self) -> bool {
        !self.exhausted && self.timer < self.current().base_buildup_duration
    }

    /// The hit has not been issued and the buildup is over.
    pub open spec fn in_active_hit(self) -> bool {
        !self.exhausted && self.timer >= self.current().base_buildup_duration
    }

    /// The hit has been issued and the recovery is still running.
    pub open spec fn in_recovery(self) -> bool {
        self.exhausted && self.timer < self.current().base_recover_duration
    }

    /// The stage has recovered and the chain window is open.
    pub open spec fn in_chain_window(self) -> bool {
        &&& self.exhausted
        &&& self.current().base_recover_duration <= self.timer
        &&& self.timer < self.current().base_recover_duration + self.combo_duration
    }

    /// The chain window has closed.
    pub open spec fn is_done(self) -> bool {
        &&& self.exhausted
        &&& self.timer >= self.current().base_recover_duration + self.combo_duration
    }

    /// The phase the state is in.
    pub open spec fn phase(self) -> Phase {
        if self.in_buildup() {
            Phase::Buildup
        } else if self.in_active_hit() {
            Phase::ActiveHit
        } else if self.in_recovery() {
            Phase::Recovery
        } else if self.in_chain_window() {
            Phase::ChainWindow
        } else {
            Phase::Done
        }
    }

    /// Damage of the current stage at the current combo count.
    pub open spec fn damage(self) -> int {
        self.current().damage(self.combo as nat, self.num_stages as nat)
    }

    /// Energy before the ceiling is applied: the initial gain, raised once
    /// per chained strike.
    pub open spec fn raw_energy_reward_at(self, combo: nat) -> int {
        self.initial_energy_gain + combo * self.energy_increase
    }

    /// Energy granted for a hit landed after `combo` chained strikes: the raw
    /// reward, capped at `max_energy_gain`.
    pub open spec fn energy_reward_at(self, combo: nat) -> int {
        if self.raw_energy_reward_at(combo) <= self.max_energy_gain {
            self.raw_energy_reward_at(combo)
        } else {
            self.max_energy_gain as int
        }
    }

    /// Energy granted for a landed hit at the current combo count.
    pub open spec fn energy_reward(self) -> int {
        self.energy_reward_at(self.combo as nat)
    }

    /// The stage that follows the current one; the last stage wraps to the
    /// first.
    pub open spec fn next_stage(self) -> u32 {
        (self.stage % self.num_stages + 1) as u32
    }

    /// The combo count after one more chained strike. It stops at the largest
    /// count that can be represented.
    pub open spec fn next_combo(self) -> u32 {
        if self.combo < u32::MAX {
            (self.combo + 1) as u32
        } else {
            self.combo
        }
    }

    /// The same state with `dt` more on the timer.
    pub open spec fn waited(self, dt: nat) -> DataView<F> {
        DataView { timer: advanced_nanos(self.timer, dt), ..self }
    }

    /// The same stage with the hit issued and the timer restarted.
    pub open spec fn struck(self) -> DataView<F> {
        DataView { exhausted: true, timer: 0, ..self }
    }

    /// The next stage, fresh, with one more strike on the combo count.
    pub open spec fn chained(self) -> DataView<F> {
        DataView {
            stage: self.next_stage(),
            combo: self.next_combo(),
            exhausted: false,
            timer: 0,
            ..self
        }
    }

    /// The action that follows this state after one tick.
    pub open spec fn next_character(self, tick: JoinDataView) -> CharacterView<F> {
        match self.phase() {
            Phase::Buildup => CharacterView::ComboMelee(self.waited(tick.dt)),
            Phase::ActiveHit => CharacterView::ComboMelee(self.struck()),
            Phase::Recovery => CharacterView::ComboMelee(self.waited(tick.dt)),
            Phase::ChainWindow => if tick.inputs.primary_pressed {
                CharacterView::ComboMelee(self.chained())
            } else {
                CharacterView::ComboMelee(self.waited(tick.dt))
            },
            Phase::Done => CharacterView::Wielding,
        }
    }

    /// The attack request of the current stage at the current combo count.
    pub open spec fn attack_request(self) -> MutationRequest<F> {
        MutationRequest::AttackRequest {
            healthchange: (-self.damage()) as i32,
            range: self.current().range,
            angle: self.current().angle,
            knockback: self.current().knockback,
        }
    }

    /// What the phase itself asks of the sink: the attack when the hit is
    /// due, a withdrawal when the action ends, nothing otherwise.
    pub open spec fn phase_requests(self) -> Seq<MutationRequest<F>> {
        match self.phase() {
            Phase::ActiveHit => seq![self.attack_request()],
            Phase::Done => seq![MutationRequest::AttackWithdraw],
            _ => Seq::empty(),
        }
    }

    /// What a landed hit asks of the sink, whatever the phase: the marker is
    /// withdrawn and energy is granted.
    pub open spec fn reward_requests(self, tick: JoinDataView) -> Seq<MutationRequest<F>> {
        if tick.rewarded() {
            seq![
                MutationRequest::AttackWithdraw,
                MutationRequest::EnergyGain {
                    amount: self.energy_reward() as i32,
                    source: EnergySource::HitEnemy,
                },
            ]
        } else {
            Seq::empty()
        }
    }

    /// One tick of the engine: the next action, and the requests of the phase
    /// followed by those of the reward.
    pub open spec fn step(self, tick: JoinDataView) -> StateUpdateView<F> {
        StateUpdateView {
            character: self.next_character(tick),
            requests: self.phase_requests() + self.reward_requests(tick),
        }
    }
}

/// Copies a stage table entry by entry.
fn copy_stages<F: Copy>(stages: &Vec<Stage<F>>) -> (copy: Vec<Stage<F>>)
    ensures
        copy@ == stages@,
{
    let mut copy: Vec<Stage<F>> = Vec::new();
    let mut i: usize = 0;
    while i < stages.len()
        invariant
            i <= stages.len(),
            copy@ == stages@.subrange(0, i as int),
        decreases stages.len() - i,
    {
        copy.push(stages[i]);
        i = i + 1;
        assert(copy@ =~= stages@.subrange(0, i as int));
    }
    assert(stages@.subrange(0, i as int) =~= stages@);
    copy
}

impl<F: Copy> Clone for Data<F> {
    fn clone(&self) -> (copy: Self)
        ensures
            copy@ == self@,
    {
        self.rebuilt(self.stage, self.combo, self.exhausted, self.timer)
    }
}

impl<F: Copy> Data<F> {
    /// The same configuration with a new progress through the combo.
    fn rebuilt(&self, stage: u32, combo: u32, exhausted: bool, timer: Duration) -> (next: Data<F>)
        ensures
            next@ == (DataView {
                stage,
                combo,
                exhausted,
                timer: duration_nanos(timer),
                ..self@
            }),
    {
        Data {
            stage,
            num_stages: self.num_stages,
            combo,
            stage_data: copy_stages(&self.stage_data),
            exhausted,
            initial_energy_gain: self.initial_energy_gain,
            max_energy_gain: self.max_energy_gain,
            energy_increase: self.energy_increase,
            combo_duration: self.combo_duration,
            timer,
        }
    }

    /// The parameters of the stage the combo is in.
    pub fn current_stage(&self) -> (stage: Stage<F>)
        requires
            1 <= self.stage <= self.stage_data.len(),
        ensures
            stage@ == self@.current(),
    {
        self.stage_data[(self.stage - 1) as usize]
    }

    /// The phase the state is in.
    pub fn phase(&self) -> (phase: Phase)
        requires
            1 <= self.stage <= self.stage_data.len(),
        ensures
            phase == self@.phase(),
    {
        let stage = self.current_stage();
        let timer = self.timer.as_nanos();
        if !self.exhausted {
            if timer < stage.base_buildup_duration.as_nanos() {
                Phase::Buildup
            } else {
                Phase::ActiveHit
            }
        } else {
            let recover = stage.base_recover_duration.as_nanos();
            if timer < recover {
                Phase::Recovery
            } else if timer - recover < self.combo_duration.as_nanos() {
                Phase::ChainWindow
            } else {
                Phase::Done
            }
        }
    }

    /// Energy granted for a landed hit at the current combo count.
    pub fn energy_reward(&self) -> (energy: u32)
        ensures
            energy == self@.energy_reward(),
            energy <= self.max_energy_gain,
    {
        let combo: u64 = self.combo as u64;
        let increase: u64 = self.energy_increase as u64;
        assert(combo * increase <= 0xFFFF_FFFF * 0xFFFF_FFFF) by (nonlinear_arith)
            requires
                combo <= 0xFFFF_FFFF,
                increase <= 0xFFFF_FFFF,
        ;
        let raw: u64 = self.initial_energy_gain as u64 + combo * increase;
        if raw <= self.max_energy_gain as u64 {
            raw as u32
        } else {
            self.max_energy_gain
        }
    }

    /// Advances the action by one tick.
    ///
    /// The result is the next action together with the requests for the
    /// mutation sink: the single attack of a stage when its buildup is over,
    /// a withdrawal when the action ends, and, in any phase, a withdrawal
    /// followed by an energy gain when the report says that the previous
    /// attack landed.
    pub fn behavior(&self, data: &JoinData) -> (update: StateUpdate<F>)
        requires
            self@.valid(),
        ensures
            update@ == self@.step(data@),
            update.character matches CharacterState::ComboMelee(next) ==> next@.valid(),
    {
        proof {
            step_preserves_validity(self@, data@);
        }
        let stage = self.current_stage();
        let mut requests: Vec<MutationRequest<F>> = Vec::new();
        let character = match self.phase() {
            Phase::Buildup => CharacterState::ComboMelee(
                self.rebuilt(self.stage, self.combo, self.exhausted, advance(self.timer, data.dt)),
            ),
            Phase::ActiveHit => {
                let damage = stage.damage(self.combo, self.num_stages);
                requests.push(
                    MutationRequest::AttackRequest {
                        healthchange: -(damage as i32),
                        range: stage.range,
                        angle: stage.angle,
                        knockback: stage.knockback,
                    },
                );
                CharacterState::ComboMelee(
                    self.rebuilt(self.stage, self.combo, true, Duration::new(0, 0)),
                )
            },
            Phase::Recovery => CharacterState::ComboMelee(
                self.rebuilt(self.stage, self.combo, self.exhausted, advance(self.timer, data.dt)),
            ),
            Phase::ChainWindow => {
                if data.inputs.primary_pressed {
                    let next_combo = if self.combo < u32::MAX {
                        self.combo + 1
                    } else {
                        self.combo
                    };
                    CharacterState::ComboMelee(
                        self.rebuilt(
                            self.stage % self.num_stages + 1,
                            next_combo,
                            false,
                            Duration::new(0, 0),
                        ),
                    )
                } else {
                    CharacterState::ComboMelee(
                        self.rebuilt(
                            self.stage,
                            self.combo,
                            self.exhausted,
                            advance(self.timer, data.dt),
                        ),
                    )
                }
            },
            Phase::Done => {
                requests.push(MutationRequest::AttackWithdraw);
                CharacterState::Wielding
            },
        };
        assert(requests@ =~= self@.phase_requests());
        match data.attacking {
            Some(report) => {
                if report.applied && report.hit_count > 0 {
                    requests.push(MutationRequest::AttackWithdraw);
                    requests.push(
                        MutationRequest::EnergyGain {
                            amount: self.energy_reward() as i32,
                            source: EnergySource::HitEnemy,
                        },
                    );
                }
            },
            None => {},
        }
        assert(requests@ =~= self@.phase_requests() + self@.reward_requests(data@));
        StateUpdate { character, requests }
    }
}

} // verus!
