//! What holds of the engine on every state and every input.

use crate::combo_melee::{CharacterView, DataView, Phase};
use crate::requests::{JoinDataView, MutationRequest};
use crate::sink::{requests_of, world_after, world_after_one, Components};
use crate::stage::StageView;
use crate::time::max_duration_nanos;
use vstd::arithmetic::div_mod::{
    lemma_div_is_ordered, lemma_fundamental_div_mod_converse, lemma_mod_self_0, lemma_small_mod,
};
use vstd::prelude::*;

verus! {

/// 1 for a condition that holds, 0 for one that does not.
pub open spec fn as_count(condition: bool) -> nat {
    if condition {
        1
    } else {
        0
    }
}

/// The number of attack requests among `requests`.
pub open spec fn attack_count<F>(requests: Seq<MutationRequest<F>>) -> nat
    decreases requests.len(),
{
    if requests.len() == 0 {
        0
    } else {
        as_count(requests.last().is_attack()) + attack_count(requests.drop_last())
    }
}

/// The number of energy gains among `requests`.
pub open spec fn energy_gain_count<F>(requests: Seq<MutationRequest<F>>) -> nat
    decreases requests.len(),
{
    if requests.len() == 0 {
        0
    } else {
        as_count(requests.last().is_energy_gain()) + energy_gain_count(requests.drop_last())
    }
}

/// The state after the engine has consumed `ticks` one after the other, or
/// `None` when the action ended on the way.
pub open spec fn run<F>(d: DataView<F>, ticks: Seq<JoinDataView>) -> Option<DataView<F>>
    decreases ticks.len(),
{
    if ticks.len() == 0 {
        Some(d)
    } else {
        match d.step(ticks.first()).character {
            CharacterView::ComboMelee(next) => run(next, ticks.drop_first()),
            CharacterView::Wielding => None,
        }
    }
}

/// The number of attack requests issued while the engine consumes `ticks`,
/// up to the end of the action.
pub open spec fn attacks_issued<F>(d: DataView<F>, ticks: Seq<JoinDataView>) -> nat
    decreases ticks.len(),
{
    if ticks.len() == 0 {
        0
    } else {
        attack_count(d.step(ticks.first()).requests) + match d.step(ticks.first()).character {
            CharacterView::ComboMelee(next) => attacks_issued(next, ticks.drop_first()),
            CharacterView::Wielding => 0,
        }
    }
}

/// The phases partition the states: every state is in exactly one of
/// buildup, active hit, recovery, chain window and done, and that one is its
/// phase.
pub proof fn phases_partition<F>(d: DataView<F>)
    ensures
        as_count(d.in_buildup()) + as_count(d.in_active_hit()) + as_count(d.in_recovery())
            + as_count(d.in_chain_window()) + as_count(d.is_done()) == 1,
        d.in_buildup() <==> d.phase() == Phase::Buildup,
        d.in_active_hit() <==> d.phase() == Phase::ActiveHit,
        d.in_recovery() <==> d.phase() == Phase::Recovery,
        d.in_chain_window() <==> d.phase() == Phase::ChainWindow,
        d.is_done() <==> d.phase() == Phase::Done,
{
}

/// A tick issues an attack request exactly when the hit is due, and then
/// exactly one; the state that follows has its hit issued.
pub proof fn attack_exactly_when_due<F>(d: DataView<F>, tick: JoinDataView)
    ensures
        attack_count(d.step(tick).requests) == as_count(d.phase() == Phase::ActiveHit),
        d.phase() == Phase::ActiveHit ==> d.step(tick).character == CharacterView::ComboMelee(
            d.struck(),
        ) && d.struck().exhausted,
{
    reveal_with_fuel(attack_count, 4);
    let requests = d.step(tick).requests;
    let phase = d.phase_requests();
    let reward = d.reward_requests(tick);
    assert(requests =~= phase + reward);
    if reward.len() == 0 {
        assert(requests =~= phase);
    } else {
        assert(requests.last() == reward[1]);
        assert(requests.drop_last().last() == reward[0]);
        assert(requests.drop_last().drop_last() =~= phase);
    }
}

/// A tick issues an energy gain exactly when the report says that the
/// previous attack landed, whatever the phase, and then exactly one.
pub proof fn energy_gain_exactly_when_landed<F>(d: DataView<F>, tick: JoinDataView)
    ensures
        energy_gain_count(d.step(tick).requests) == as_count(tick.rewarded()),
{
    reveal_with_fuel(energy_gain_count, 4);
    let requests = d.step(tick).requests;
    let phase = d.phase_requests();
    let reward = d.reward_requests(tick);
    assert(requests =~= phase + reward);
    if reward.len() == 0 {
        assert(requests =~= phase);
    } else {
        assert(requests.last() == reward[1]);
        assert(requests.drop_last().last() == reward[0]);
        assert(requests.drop_last().drop_last() =~= phase);
    }
}

/// While no input chains the next stage, a stage issues its attack once:
/// over any run of ticks, one attack request is issued if the hit was still
/// to come at the start and has been issued by the end, and none otherwise.
/// The stage and the combo count stay as they were.
pub proof fn one_attack_per_stage_visit<F>(d: DataView<F>, ticks: Seq<JoinDataView>)
    requires
        forall|i: int| 0 <= i < ticks.len() ==> !(#[trigger] ticks[i]).inputs.primary_pressed,
    ensures
        attacks_issued(d, ticks) <= 1,
        attacks_issued(d, ticks) == 1 <==> !d.exhausted && (run(d, ticks) matches Some(end)
            ==> end.exhausted),
        run(d, ticks) matches Some(end) ==> end.stage == d.stage && end.combo == d.combo && (
        d.exhausted ==> end.exhausted),
    decreases ticks.len(),
{
    if ticks.len() > 0 {
        let tick = ticks.first();
        assert(tick == ticks[0]);
        attack_exactly_when_due(d, tick);
        match d.step(tick).character {
            CharacterView::ComboMelee(next) => {
                let rest = ticks.drop_first();
                assert forall|i: int| 0 <= i < rest.len() implies !(
                #[trigger] rest[i]).inputs.primary_pressed by {
                    assert(rest[i] == ticks[i + 1]);
                }
                one_attack_per_stage_visit(next, rest);
            },
            CharacterView::Wielding => {},
        }
    }
}

/// Damage never falls as the combo count grows, and never exceeds the
/// maximum damage of the stage.
pub proof fn damage_grows_with_combo<F>(
    stage: StageView<F>,
    earlier: nat,
    later: nat,
    num_stages: nat,
)
    requires
        earlier <= later,
        num_stages >= 1,
    ensures
        stage.damage(earlier, num_stages) <= stage.damage(later, num_stages),
        stage.damage(later, num_stages) <= stage.max_damage,
{
    lemma_div_is_ordered(earlier as int, later as int, num_stages as int);
    let low = StageView::<F>::cycles(earlier, num_stages);
    let high = StageView::<F>::cycles(later, num_stages);
    let increase = stage.damage_increase as int;
    assert(low * increase <= high * increase) by (nonlinear_arith)
        requires
            low <= high,
            0 <= increase,
    ;
}

/// Damage rises once per full cycle through all stages, not with every
/// strike: after `cycles` full cycles and `rest` further strikes of the next
/// one, the raw damage is the base damage raised `cycles` times. Within the
/// first cycle it is the base damage.
pub proof fn damage_steps_once_per_cycle<F>(
    stage: StageView<F>,
    cycles: nat,
    rest: nat,
    num_stages: nat,
)
    requires
        rest < num_stages,
    ensures
        stage.raw_damage(cycles * num_stages + rest, num_stages) == stage.base_damage + cycles
            * stage.damage_increase,
        stage.raw_damage(rest, num_stages) == stage.base_damage,
{
    lemma_fundamental_div_mod_converse(
        (cycles * num_stages + rest) as int,
        num_stages as int,
        cycles as int,
        rest as int,
    );
    lemma_fundamental_div_mod_converse(rest as int, num_stages as int, 0, rest as int);
    let increase = stage.damage_increase as int;
    assert(0 * increase == 0);
}

/// The first strike of a combo is rewarded with the initial energy gain,
/// capped at the maximum.
pub proof fn first_strike_grants_initial_energy<F>(d: DataView<F>)
    ensures
        d.raw_energy_reward_at(0) == d.initial_energy_gain,
{
    let increase = d.energy_increase as int;
    assert(0 * increase == 0);
}

/// The energy reward never falls as the combo count grows, and never exceeds
/// the maximum energy gain.
pub proof fn energy_reward_grows_with_combo<F>(d: DataView<F>, earlier: nat, later: nat)
    requires
        earlier <= later,
    ensures
        d.energy_reward_at(earlier) <= d.energy_reward_at(later),
        d.energy_reward_at(later) <= d.max_energy_gain,
{
    let increase = d.energy_increase as int;
    assert(earlier * increase <= later * increase) by (nonlinear_arith)
        requires
            earlier <= later,
            0 <= increase,
    ;
}

/// On a valid state the requests say exactly what the formulas give: the
/// health change of an attack is the damage negated, so never positive, and
/// the amount of an energy gain is the energy reward.
pub proof fn requests_are_exact<F>(d: DataView<F>)
    requires
        d.valid(),
    ensures
        d.attack_request() matches MutationRequest::AttackRequest { healthchange, .. }
            && healthchange == -d.damage() && healthchange <= 0,
        0 <= d.energy_reward() <= i32::MAX,
        0 <= d.damage() <= i32::MAX,
{
    let stage = d.current();
    assert(stage == d.stage_data[d.stage - 1]);
    assert(stage.well_formed());
    let cycles = StageView::<F>::cycles(d.combo as nat, d.num_stages as nat);
    let increase = stage.damage_increase as int;
    assert(0 <= cycles * increase) by (nonlinear_arith)
        requires
            0 <= cycles,
            0 <= increase,
    ;
    let combo = d.combo as int;
    let gain = d.energy_increase as int;
    assert(0 <= combo * gain) by (nonlinear_arith)
        requires
            0 <= combo,
            0 <= gain,
    ;
}

/// Chaining moves to the following stage, and from the last stage back to
/// the first.
pub proof fn chain_wraps<F>(d: DataView<F>)
    requires
        d.valid(),
    ensures
        d.stage < d.num_stages ==> d.chained().stage == d.stage + 1,
        d.stage == d.num_stages ==> d.chained().stage == 1,
        1 <= d.chained().stage <= d.num_stages,
        d.combo < u32::MAX ==> d.chained().combo == d.combo + 1,
{
    if d.stage < d.num_stages {
        lemma_small_mod(d.stage as nat, d.num_stages as nat);
    } else {
        lemma_mod_self_0(d.num_stages as int);
    }
}

/// A tick keeps a valid state valid: the configuration is untouched, the
/// stage stays within the table, the combo count never falls, and the timer
/// stays representable.
pub proof fn step_preserves_validity<F>(d: DataView<F>, tick: JoinDataView)
    requires
        d.valid(),
    ensures
        d.step(tick).character matches CharacterView::ComboMelee(next) ==> {
            &&& next.valid()
            &&& next.combo >= d.combo
            &&& next.timer <= max_duration_nanos()
            &&& next.stage_data == d.stage_data
            &&& next.num_stages == d.num_stages
            &&& next.initial_energy_gain == d.initial_energy_gain
            &&& next.max_energy_gain == d.max_energy_gain
            &&& next.energy_increase == d.energy_increase
            &&& next.combo_duration == d.combo_duration
        },
{
    chain_wraps(d);
}

/// Without elapsed time nothing moves: a state that is building up or
/// recovering, or that waits in its chain window while no input chains the
/// next stage, is left exactly as it was by any number of ticks of zero
/// length, and no attack is issued.
pub proof fn zero_dt_changes_nothing<F>(d: DataView<F>, ticks: Seq<JoinDataView>)
    requires
        d.timer <= max_duration_nanos(),
        forall|i: int| 0 <= i < ticks.len() ==> (#[trigger] ticks[i]).dt == 0,
        d.phase() == Phase::Buildup || d.phase() == Phase::Recovery || (d.phase()
            == Phase::ChainWindow && forall|i: int|
            0 <= i < ticks.len() ==> !(#[trigger] ticks[i]).inputs.primary_pressed),
    ensures
        run(d, ticks) == Some(d),
        attacks_issued(d, ticks) == 0,
    decreases ticks.len(),
{
    if ticks.len() > 0 {
        let tick = ticks.first();
        assert(tick == ticks[0]);
        attack_exactly_when_due(d, tick);
        assert(d.waited(0) == d);
        assert(d.step(tick).character == CharacterView::ComboMelee(d));
        let rest = ticks.drop_first();
        assert forall|i: int| 0 <= i < rest.len() implies (#[trigger] rest[i]).dt == 0 by {
            assert(rest[i] == ticks[i + 1]);
        }
        if d.phase() == Phase::ChainWindow {
            assert forall|i: int| 0 <= i < rest.len() implies !(
            #[trigger] rest[i]).inputs.primary_pressed by {
                assert(rest[i] == ticks[i + 1]);
            }
        }
        zero_dt_changes_nothing(d, rest);
    }
}

/// Withdrawing twice is withdrawing once.
pub proof fn withdraw_is_idempotent<F>(c: Components<F>)
    ensures
        c.applied(MutationRequest::AttackWithdraw).applied(MutationRequest::AttackWithdraw)
            == c.applied(MutationRequest::AttackWithdraw),
        c.applied(MutationRequest::AttackWithdraw).attacking is None,
{
}

/// Of two attack requests the later one wins: the marker it places is the
/// one it would have placed had the earlier request never been made.
pub proof fn last_attack_wins<F>(
    c: Components<F>,
    earlier: MutationRequest<F>,
    later: MutationRequest<F>,
)
    requires
        earlier.is_attack(),
        later.is_attack(),
    ensures
        c.applied(earlier).applied(later) == c.applied(later),
        c.applied(later).attacking matches Some(marker) && !marker.applied && marker.hit_count
            == 0,
{
}

/// Applying the sink creates no entity and removes none, and a request for
/// an entity that does not exist changes nothing.
pub proof fn world_keeps_its_entities<F>(
    world: Map<u64, Components<F>>,
    pending: Seq<(u64, MutationRequest<F>)>,
)
    ensures
        world_after(world, pending).dom() == world.dom(),
        forall|entity: u64, request: MutationRequest<F>|
            !world.contains_key(entity) ==> #[trigger] world_after_one(world, entity, request)
                == world,
    decreases pending.len(),
{
    if pending.len() > 0 {
        world_keeps_its_entities(world, pending.drop_last());
        let before = world_after(world, pending.drop_last());
        let after = world_after(world, pending);
        assert(after.dom() =~= before.dom());
    }
}

/// What the sink does to an entity depends on the requests for that entity
/// alone: its components end as if only its own requests had been applied,
/// in their order.
pub proof fn world_after_is_per_entity<F>(
    world: Map<u64, Components<F>>,
    pending: Seq<(u64, MutationRequest<F>)>,
    entity: u64,
)
    requires
        world.contains_key(entity),
    ensures
        world_after(world, pending).contains_key(entity),
        world_after(world, pending)[entity] == world[entity].applied_all(
            requests_of(pending, entity),
        ),
    decreases pending.len(),
{
    if pending.len() > 0 {
        world_after_is_per_entity(world, pending.drop_last(), entity);
        let own = requests_of(pending.drop_last(), entity);
        if pending.last().0 == entity {
            let grown = own.push(pending.last().1);
            assert(grown.drop_last() =~= own);
            assert(grown.last() == pending.last().1);
        }
    }
}

/// The order in which different entities queued their requests does not
/// matter: two queues that hold the same requests for every entity, each
/// entity's in the same order, lead to the same world.
pub proof fn order_across_entities_is_irrelevant<F>(
    world: Map<u64, Components<F>>,
    a: Seq<(u64, MutationRequest<F>)>,
    b: Seq<(u64, MutationRequest<F>)>,
)
    requires
        forall|entity: u64| #[trigger] requests_of(a, entity) == requests_of(b, entity),
    ensures
        world_after(world, a) == world_after(world, b),
{
    world_keeps_its_entities(world, a);
    world_keeps_its_entities(world, b);
    assert forall|entity: u64| world.contains_key(entity) implies #[trigger] world_after(
        world,
        a,
    )[entity] == world_after(world, b)[entity] by {
        world_after_is_per_entity(world, a, entity);
        world_after_is_per_entity(world, b, entity);
        assert(requests_of(a, entity) == requests_of(b, entity));
    }
    assert(world_after(world, a) =~= world_after(world, b));
}

/// No attack marker outlives the action, and none outlives a landed hit:
/// once the requests of a tick that ended the action, or of a tick whose
/// report said that the attack landed, have been applied, the entity
/// carries no marker.
pub proof fn ended_action_leaves_no_marker<F>(
    d: DataView<F>,
    tick: JoinDataView,
    c: Components<F>,
)
    requires
        d.step(tick).character is Wielding || tick.rewarded(),
    ensures
        c.applied_all(d.step(tick).requests).attacking is None,
{
    reveal_with_fuel(Components::applied_all, 4);
    let requests = d.step(tick).requests;
    let phase = d.phase_requests();
    let reward = d.reward_requests(tick);
    assert(requests =~= phase + reward);
    if reward.len() == 0 {
        assert(requests =~= phase);
        assert(requests.last() == MutationRequest::<F>::AttackWithdraw);
    } else {
        assert(requests.last() == reward[1]);
        assert(requests.drop_last().last() == reward[0]);
    }
}

/// A landed hit is rewarded once: when the requests of the rewarded tick
/// have been applied, the report that the engine is handed next is absent,
/// so the next tick grants nothing for the same attack.
pub proof fn landed_hit_is_rewarded_once<F>(
    d: DataView<F>,
    tick: JoinDataView,
    c: Components<F>,
    next: JoinDataView,
)
    requires
        tick.rewarded(),
        next.attacking == c.applied_all(d.step(tick).requests).report(),
    ensures
        !next.rewarded(),
        forall|e: DataView<F>| energy_gain_count(#[trigger] e.step(next).requests) == 0,
{
    ended_action_leaves_no_marker(d, tick, c);
    assert forall|e: DataView<F>| energy_gain_count(#[trigger] e.step(next).requests) == 0 by {
        energy_gain_exactly_when_landed(e, next);
    }
}

} // verus!
