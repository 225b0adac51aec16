use simcore::combo_melee::{CharacterState, Data, StateUpdate};
use simcore::faults::{ConfigurationError, Fault, InvariantViolation};
use simcore::requests::{AttackReport, Inputs, JoinData, MutationRequest};
use simcore::stage::Stage;
use std::time::Duration;

fn stage(index: u32, base: u32, max: u32) -> Stage<f32> {
    Stage {
        stage: index,
        base_damage: base,
        max_damage: max,
        damage_increase: 2,
        knockback: 1.0,
        range: 2.0,
        angle: 3.0,
        base_buildup_duration: Duration::from_millis(100),
        base_recover_duration: Duration::from_millis(100),
    }
}

fn combo(stages: Vec<Stage<f32>>) -> Data<f32> {
    Data {
        stage: 1,
        num_stages: stages.len() as u32,
        combo: 0,
        stage_data: stages,
        exhausted: false,
        initial_energy_gain: 10,
        max_energy_gain: 50,
        energy_increase: 7,
        combo_duration: Duration::from_millis(400),
        timer: Duration::ZERO,
    }
}

fn any_tick() -> JoinData {
    JoinData {
        dt: Duration::from_millis(16),
        inputs: Inputs { primary_pressed: true, primary_held: true },
        attacking: Some(AttackReport { applied: true, hit_count: 2 }),
    }
}

#[test]
fn sound_configuration_validates() {
    let data = combo(vec![stage(1, 10, 20), stage(2, 0, 0), stage(3, 0x7FFF_FFFF, 0x7FFF_FFFF)]);
    assert_eq!(data.validate(), Ok(()));
    assert_eq!(data.check(), Ok(()));
    let mut edge = combo(vec![stage(1, 5, 5)]);
    edge.max_energy_gain = 0x7FFF_FFFF;
    assert_eq!(edge.validate(), Ok(()));
}

#[test]
fn combo_without_stages_is_refused() {
    let data = combo(vec![]);
    assert_eq!(data.validate(), Err(ConfigurationError::NoStages));
    let mut declared_none = combo(vec![stage(1, 1, 2)]);
    declared_none.num_stages = 0;
    assert_eq!(declared_none.validate(), Err(ConfigurationError::NoStages));
}

#[test]
fn stage_count_must_match_the_table() {
    let mut data = combo(vec![stage(1, 1, 2), stage(2, 1, 2)]);
    data.num_stages = 3;
    assert_eq!(data.validate(), Err(ConfigurationError::StageCountMismatch));
    data.num_stages = 1;
    assert_eq!(data.validate(), Err(ConfigurationError::StageCountMismatch));
    let mut empty = combo(vec![]);
    empty.num_stages = 2;
    assert_eq!(empty.validate(), Err(ConfigurationError::StageCountMismatch));
}

#[test]
fn energy_ceiling_must_fit_a_signed_amount() {
    let mut data = combo(vec![stage(1, 1, 2)]);
    data.max_energy_gain = 0x8000_0000;
    assert_eq!(data.validate(), Err(ConfigurationError::EnergyGainOutOfRange));
    data.max_energy_gain = u32::MAX;
    assert_eq!(data.validate(), Err(ConfigurationError::EnergyGainOutOfRange));
}

#[test]
fn stages_must_be_numbered_in_table_order() {
    let data = combo(vec![stage(1, 1, 2), stage(3, 1, 2), stage(2, 1, 2)]);
    assert_eq!(data.validate(), Err(ConfigurationError::StageOutOfOrder { position: 2 }));
    let zero_based = combo(vec![stage(0, 1, 2), stage(1, 1, 2)]);
    assert_eq!(zero_based.validate(), Err(ConfigurationError::StageOutOfOrder { position: 1 }));
}

#[test]
fn base_damage_must_not_exceed_the_maximum() {
    let data = combo(vec![stage(1, 1, 2), stage(2, 9, 8)]);
    assert_eq!(data.validate(), Err(ConfigurationError::BaseDamageAboveMaximum { position: 2 }));
}

#[test]
fn maximum_damage_must_fit_a_signed_health_change() {
    let data = combo(vec![stage(1, 1, 0x8000_0000)]);
    assert_eq!(data.validate(), Err(ConfigurationError::DamageOutOfRange { position: 1 }));
}

#[test]
fn first_broken_rule_is_reported() {
    // the counts come before the energy ceiling, the ceiling before the stages
    let mut data = combo(vec![stage(2, 9, 8)]);
    data.max_energy_gain = u32::MAX;
    data.num_stages = 4;
    assert_eq!(data.validate(), Err(ConfigurationError::StageCountMismatch));
    data.num_stages = 1;
    assert_eq!(data.validate(), Err(ConfigurationError::EnergyGainOutOfRange));
    data.max_energy_gain = 3;
    assert_eq!(data.validate(), Err(ConfigurationError::StageOutOfOrder { position: 1 }));

    // within a stage: the index, then the damage order, then the damage range
    let both = combo(vec![stage(1, 1, 2), stage(2, u32::MAX, 0x8000_0000)]);
    assert_eq!(both.validate(), Err(ConfigurationError::BaseDamageAboveMaximum { position: 2 }));
    // across stages: the earlier stage
    let two = combo(vec![stage(1, 1, 0x8000_0000), stage(5, 1, 2)]);
    assert_eq!(two.validate(), Err(ConfigurationError::DamageOutOfRange { position: 1 }));
}

#[test]
fn current_stage_must_be_one_of_the_table() {
    let mut data = combo(vec![stage(1, 1, 2), stage(2, 1, 2)]);
    data.stage = 0;
    assert_eq!(data.validate(), Ok(()));
    assert_eq!(
        data.check(),
        Err(Fault::Invariant(InvariantViolation::StageOutOfRange { stage: 0, num_stages: 2 }))
    );
    data.stage = 3;
    assert_eq!(
        data.check(),
        Err(Fault::Invariant(InvariantViolation::StageOutOfRange { stage: 3, num_stages: 2 }))
    );
    data.stage = 2;
    assert_eq!(data.check(), Ok(()));
}

#[test]
fn configuration_error_is_reported_before_the_stage() {
    let mut data = combo(vec![stage(1, 3, 2)]);
    data.stage = 9;
    assert_eq!(
        data.check(),
        Err(Fault::Configuration(ConfigurationError::BaseDamageAboveMaximum { position: 1 }))
    );
}

#[test]
fn tick_on_a_valid_state_is_the_behavior() {
    let mut data = combo(vec![stage(1, 1, 2), stage(2, 1, 2)]);
    data.exhausted = true;
    data.timer = Duration::from_millis(150);
    let tick = data.tick(&any_tick());
    assert_eq!(tick.fault, None);
    assert_eq!(tick.update, data.behavior(&any_tick()));
    match tick.update.character {
        CharacterState::ComboMelee(next) => assert_eq!(next.stage, 2),
        CharacterState::Wielding => panic!("the action ended"),
    }
}

#[test]
fn tick_on_an_unsound_state_ends_the_action() {
    let mut data = combo(vec![stage(1, 1, 2), stage(2, 1, 2)]);
    data.stage = 7;
    let tick = data.tick(&any_tick());
    assert_eq!(
        tick.fault,
        Some(Fault::Invariant(InvariantViolation::StageOutOfRange { stage: 7, num_stages: 2 }))
    );
    assert_eq!(tick.update.character, CharacterState::Wielding);
    assert_eq!(tick.update.requests, vec![MutationRequest::AttackWithdraw]);

    let broken = combo(vec![]);
    let tick = broken.tick(&any_tick());
    assert_eq!(tick.fault, Some(Fault::Configuration(ConfigurationError::NoStages)));
    assert_eq!(tick.update, StateUpdate::forced_exit());
}

#[test]
fn forced_exit_withdraws_the_attack() {
    let update: StateUpdate<f32> = StateUpdate::forced_exit();
    assert_eq!(update.character, CharacterState::Wielding);
    assert_eq!(update.requests, vec![MutationRequest::AttackWithdraw]);
}

#[test]
fn entering_starts_at_the_first_stage() {
    let stages = vec![stage(1, 1, 2), stage(2, 3, 4)];
    let data = Data::enter(stages.clone(), 10, 50, 7, Duration::from_millis(400)).unwrap();
    assert_eq!(data, combo(stages));
    assert_eq!(data.stage, 1);
    assert_eq!(data.num_stages, 2);
    assert_eq!(data.combo, 0);
    assert!(!data.exhausted);
    assert_eq!(data.timer, Duration::ZERO);
    assert_eq!(data.check(), Ok(()));
    assert_eq!(data.clone(), data);
}

#[test]
fn entering_refuses_an_unsound_configuration() {
    let window = Duration::from_millis(400);
    assert_eq!(
        Data::<f32>::enter(vec![], 10, 50, 7, window),
        Err(ConfigurationError::NoStages)
    );
    assert_eq!(
        Data::enter(vec![stage(1, 1, 2)], 10, u32::MAX, 7, window),
        Err(ConfigurationError::EnergyGainOutOfRange)
    );
    assert_eq!(
        Data::enter(vec![stage(1, 1, 2), stage(1, 1, 2)], 10, 50, 7, window),
        Err(ConfigurationError::StageOutOfOrder { position: 2 })
    );
    assert_eq!(
        Data::enter(vec![stage(1, 3, 2)], 10, 50, 7, window),
        Err(ConfigurationError::BaseDamageAboveMaximum { position: 1 })
    );
    assert_eq!(
        Data::enter(vec![stage(1, 3, u32::MAX)], 10, 50, 7, window),
        Err(ConfigurationError::DamageOutOfRange { position: 1 })
    );
}
