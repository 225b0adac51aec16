use simcore::combo_melee::{CharacterState, Data};
use simcore::requests::{AttackReport, EnergySource, Inputs, JoinData, MutationRequest};
use simcore::sink::{Attacking, Components, MutationSink};
use simcore::stage::Stage;
use std::collections::HashMap;
use std::time::Duration;

fn attack(healthchange: i32) -> MutationRequest<f32> {
    MutationRequest::AttackRequest { healthchange, range: 3.0, angle: 40.0, knockback: 2.0 }
}

fn marker(healthchange: i32) -> Attacking<f32> {
    Attacking {
        base_healthchange: healthchange,
        range: 3.0,
        angle: 40.0,
        knockback: 2.0,
        applied: false,
        hit_count: 0,
    }
}

fn gain(amount: i32) -> MutationRequest<f32> {
    MutationRequest::EnergyGain { amount, source: EnergySource::HitEnemy }
}

fn idle(energy: i32) -> Components<f32> {
    Components { attacking: None, energy }
}

#[test]
fn attack_request_places_a_fresh_marker() {
    let mut components = idle(100);
    components.apply(attack(-12));
    assert_eq!(components.attacking, Some(marker(-12)));
    assert_eq!(components.energy, 100);
    assert_eq!(
        components.attack_report(),
        Some(AttackReport { applied: false, hit_count: 0 })
    );
}

#[test]
fn later_attack_request_supersedes_the_earlier_one() {
    let mut resolved = marker(-5);
    resolved.applied = true;
    resolved.hit_count = 3;
    let mut components = Components { attacking: Some(resolved), energy: 1 };
    components.apply(attack(-9));
    assert_eq!(components.attacking, Some(marker(-9)));

    let mut twice = idle(1);
    twice.apply(attack(-5));
    twice.apply(attack(-9));
    assert_eq!(twice, components);
}

#[test]
fn withdraw_is_safe_to_repeat() {
    let mut components = idle(7);
    components.apply(attack(-12));
    components.apply(MutationRequest::AttackWithdraw);
    assert_eq!(components, idle(7));
    components.apply(MutationRequest::AttackWithdraw);
    assert_eq!(components, idle(7));
    assert_eq!(components.attack_report(), None);
}

#[test]
fn energy_gain_is_held_within_range() {
    let mut components = idle(100);
    components.apply(gain(25));
    assert_eq!(components.energy, 125);
    components.apply(gain(-200));
    assert_eq!(components.energy, -75);
    components.apply(gain(i32::MAX));
    assert_eq!(components.energy, i32::MAX - 75);
    components.apply(gain(76));
    assert_eq!(components.energy, i32::MAX);
    let mut low = idle(i32::MIN + 1);
    low.apply(gain(-2));
    assert_eq!(low.energy, i32::MIN);
    assert_eq!(low.attacking, None);
}

#[test]
fn marker_reports_its_resolution() {
    let mut resolved = marker(-5);
    assert_eq!(resolved.report(), AttackReport { applied: false, hit_count: 0 });
    resolved.resolve(2);
    assert_eq!(resolved.base_healthchange, -5);
    assert!(resolved.applied);
    assert_eq!(resolved.report(), AttackReport { applied: true, hit_count: 2 });
    let components = Components { attacking: Some(resolved), energy: 0 };
    assert_eq!(components.attack_report(), Some(AttackReport { applied: true, hit_count: 2 }));
}

#[test]
fn nothing_is_visible_before_the_sink_is_applied() {
    let mut world: HashMap<u64, Components<f32>> = HashMap::new();
    world.insert(1, idle(10));
    let mut sink = MutationSink::new();
    sink.submit(1, attack(-4));
    sink.submit(1, gain(5));
    assert_eq!(sink.len(), 2);
    assert_eq!(world[&1], idle(10));
    sink.apply(&mut world);
    assert_eq!(sink.len(), 0);
    assert_eq!(world[&1], Components { attacking: Some(marker(-4)), energy: 15 });
}

#[test]
fn requests_for_missing_entities_are_dropped() {
    let mut world: HashMap<u64, Components<f32>> = HashMap::new();
    world.insert(1, idle(10));
    let mut sink = MutationSink::new();
    sink.submit(2, attack(-4));
    sink.submit(1, gain(1));
    sink.submit(3, MutationRequest::AttackWithdraw);
    sink.apply(&mut world);
    assert_eq!(world.len(), 1);
    assert_eq!(world[&1], idle(11));
    assert_eq!(sink.len(), 0);
}

#[test]
fn entities_do_not_interfere_whatever_the_order() {
    let mut first: HashMap<u64, Components<f32>> = HashMap::new();
    first.insert(1, idle(0));
    first.insert(2, idle(0));
    let mut second = HashMap::new();
    second.insert(1, idle(0));
    second.insert(2, idle(0));

    let mut sink = MutationSink::new();
    sink.submit(1, attack(-1));
    sink.submit(1, gain(3));
    sink.submit(2, attack(-2));
    sink.submit(2, MutationRequest::AttackWithdraw);
    sink.apply(&mut first);

    let mut sink = MutationSink::new();
    sink.submit(2, attack(-2));
    sink.submit(1, attack(-1));
    sink.submit(2, MutationRequest::AttackWithdraw);
    sink.submit(1, gain(3));
    sink.apply(&mut second);

    assert_eq!(first, second);
    assert_eq!(first[&1], Components { attacking: Some(marker(-1)), energy: 3 });
    assert_eq!(first[&2], idle(0));
}

#[test]
fn requests_of_a_tick_are_queued_in_their_order() {
    let mut world: HashMap<u64, Components<f32>> = HashMap::new();
    world.insert(9, idle(0));
    let mut sink = MutationSink::new();
    sink.submit(9, gain(1));
    sink.submit_all(9, &vec![attack(-3), MutationRequest::AttackWithdraw, gain(20)]);
    assert_eq!(sink.len(), 4);
    sink.submit_all(9, &vec![]);
    assert_eq!(sink.len(), 4);
    sink.apply(&mut world);
    assert_eq!(world[&9], idle(21));
}

#[test]
fn engine_and_sink_run_a_strike_from_entry_to_reward() {
    let stage = Stage {
        stage: 1,
        base_damage: 10,
        max_damage: 20,
        damage_increase: 5,
        knockback: 2.0,
        range: 3.0,
        angle: 40.0,
        base_buildup_duration: Duration::from_millis(200),
        base_recover_duration: Duration::from_millis(100),
    };
    let mut data =
        Data::enter(vec![stage], 25, 100, 20, Duration::from_millis(150)).unwrap();
    let mut world: HashMap<u64, Components<f32>> = HashMap::new();
    world.insert(1, idle(0));
    let mut sink = MutationSink::new();
    let mut ended = false;

    for round in 0..40 {
        let join = JoinData {
            dt: Duration::from_millis(50),
            inputs: Inputs { primary_pressed: false, primary_held: false },
            attacking: world[&1].attack_report(),
        };
        let update = data.behavior(&join);
        sink.submit_all(1, &update.requests);
        sink.apply(&mut world);
        // hit resolution strikes one entity on the tick after the marker appears
        if round == 5 {
            let marker = world.get_mut(&1).unwrap().attacking.as_mut().unwrap();
            assert_eq!(marker.base_healthchange, -10);
            marker.resolve(1);
        }
        match update.character {
            CharacterState::ComboMelee(next) => data = next,
            CharacterState::Wielding => {
                ended = true;
                break;
            }
        }
    }
    assert!(ended);
    assert_eq!(world[&1], idle(25));
}
