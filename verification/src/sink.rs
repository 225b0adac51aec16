//! The mutation sink: a command buffer that collects the requests of a tick
//! and applies them once every entity has run its behavior.
//!
//! While a tick runs, engines only queue requests; nothing they queue can be
//! seen before the sink is applied. Applying touches only entities that still
//! exist: a request for any other entity is dropped.

use crate::requests::{AttackReport, MutationRequest};
use std::collections::HashMap;
use vstd::prelude::*;

verus! {

broadcast use vstd::std_specs::hash::group_hash_axioms;

/// The marker an entity carries while one of its attacks awaits or has
/// received its resolution.
#[derive(Debug, PartialEq)]
pub struct Attacking<F> {
    /// Health change dealt to whatever is struck; never positive
    pub base_healthchange: i32,
    /// Range of attack
    pub range: F,
    /// Angle of attack, in degrees
    pub angle: F,
    /// Knockback of attack
    pub knockback: F,
    /// The attack has been resolved against nearby entities
    pub applied: bool,
    /// How many entities it struck
    pub hit_count: u32,
}

impl<F: Copy> Copy for Attacking<F> {

}

impl<F: Copy> Clone for Attacking<F> {
    fn clone(&self) -> (copy: Self)
        ensures
            copy == *self,
    {
        *self
    }
}

impl<F: Copy> Attacking<F> {
    /// Records what hit resolution found: the attack has been applied and
    /// struck `hit_count` entities.
    pub fn resolve(&mut self, hit_count: u32)
        ensures
            *final(self) == (Attacking { applied: true, hit_count, ..*old(self) }),
    {
        self.applied = true;
        self.hit_count = hit_count;
    }

    /// What the engine reads of this marker on the following tick.
    pub fn report(&self) -> (report: AttackReport)
        ensures
            report == (AttackReport { applied: self.applied, hit_count: self.hit_count }),
    {
        AttackReport { applied: self.applied, hit_count: self.hit_count }
    }
}

/// What the sink can change of one entity.
#[derive(Debug, PartialEq)]
pub struct Components<F> {
    /// The outstanding attack marker, at most one
    pub attacking: Option<Attacking<F>>,
    /// The entity's energy
    pub energy: i32,
}

impl<F: Copy> Copy for Components<F> {

}

impl<F: Copy> Clone for Components<F> {
    fn clone(&self) -> (copy: Self)
        ensures
            copy == *self,
    {
        *self
    }
}

/// `energy + amount`, held within the range of a signed 32-bit number.
pub open spec fn energy_after(energy: i32, amount: i32) -> i32 {
    if energy + amount > i32::MAX {
        i32::MAX
    } else if energy + amount < i32::MIN {
        i32::MIN
    } else {
        (energy + amount) as i32
    }
}

impl<F> Components<F> {
    /// These components after `request` has been applied: an attack request
    /// places a fresh marker over whatever was there, a withdrawal removes
    /// the marker, an energy gain changes the energy.
    pub open spec fn applied(self, request: MutationRequest<F>) -> Components<F> {
        match request {
            MutationRequest::AttackRequest { healthchange, range, angle, knockback } => Components {
                attacking: Some(
                    Attacking {
                        base_healthchange: healthchange,
                        range,
                        angle,
                        knockback,
                        applied: false,
                        hit_count: 0,
                    },
                ),
                ..self
            },
            MutationRequest::AttackWithdraw => Components { attacking: None, ..self },
            MutationRequest::EnergyGain { amount, source } => Components {
                energy: energy_after(self.energy, amount),
                ..self
            },
        }
    }

    /// These components after `requests` have been applied in order.
    pub open spec fn applied_all(self, requests: Seq<MutationRequest<F>>) -> Components<F>
        decreases requests.len(),
    {
        if requests.len() == 0 {
            self
        } else {
            self.applied_all(requests.drop_last()).applied(requests.last())
        }
    }

    /// What the engine of this entity is handed as its attack report.
    pub open spec fn report(self) -> Option<AttackReport> {
        match self.attacking {
            Some(marker) => Some(
                AttackReport { applied: marker.applied, hit_count: marker.hit_count },
            ),
            None => None,
        }
    }
}

impl<F: Copy> Components<F> {
    /// Applies one request.
    pub fn apply(&mut self, request: MutationRequest<F>)
        ensures
            *final(self) == old(self).applied(request),
    {
        match request {
            MutationRequest::AttackRequest { healthchange, range, angle, knockback } => {
                self.attacking = Some(
                    Attacking {
                        base_healthchange: healthchange,
                        range,
                        angle,
                        knockback,
                        applied: false,
                        hit_count: 0,
                    },
                );
            },
            MutationRequest::AttackWithdraw => {
                self.attacking = None;
            },
            MutationRequest::EnergyGain { amount, source } => {
                let sum: i64 = self.energy as i64 + amount as i64;
                self.energy = if sum > i32::MAX as i64 {
                    i32::MAX
                } else if sum < i32::MIN as i64 {
                    i32::MIN
                } else {
                    sum as i32
                };
            },
        }
    }

    /// The attack report for the engine's next tick, absent when no marker
    /// is outstanding.
    pub fn attack_report(&self) -> (report: Option<AttackReport>)
        ensures
            report == self.report(),
    {
        match &self.attacking {
            Some(marker) => Some(marker.report()),
            None => None,
        }
    }
}

/// The world after one request for `entity` has been applied: the entity's
/// components change if it exists, and nothing changes if it does not.
pub open spec fn world_after_one<F>(
    world: Map<u64, Components<F>>,
    entity: u64,
    request: MutationRequest<F>,
) -> Map<u64, Components<F>> {
    if world.contains_key(entity) {
        world.insert(entity, world[entity].applied(request))
    } else {
        world
    }
}

/// The world after the queued requests have been applied in order.
pub open spec fn world_after<F>(
    world: Map<u64, Components<F>>,
    pending: Seq<(u64, MutationRequest<F>)>,
) -> Map<u64, Components<F>>
    decreases pending.len(),
{
    if pending.len() == 0 {
        world
    } else {
        world_after_one(world_after(world, pending.drop_last()), pending.last().0, pending.last().1)
    }
}

/// The requests that `pending` holds for `entity`, in their order.
pub open spec fn requests_of<F>(pending: Seq<(u64, MutationRequest<F>)>, entity: u64) -> Seq<
    MutationRequest<F>,
>
    decreases pending.len(),
{
    if pending.len() == 0 {
        Seq::empty()
    } else if pending.last().0 == entity {
        requests_of(pending.drop_last(), entity).push(pending.last().1)
    } else {
        requests_of(pending.drop_last(), entity)
    }
}

/// The deferred command buffer of one tick.
pub struct MutationSink<F> {
    pending: Vec<(u64, MutationRequest<F>)>,
}

impl<F> View for MutationSink<F> {
    type V = Seq<(u64, MutationRequest<F>)>;

    closed spec fn view(&self) -> Seq<(u64, MutationRequest<F>)> {
        self.pending@
    }
}

impl<F: Copy> MutationSink<F> {
    /// An empty sink.
    pub fn new() -> (sink: Self)
        ensures
            sink@ == Seq::<(u64, MutationRequest<F>)>::empty(),
    {
        MutationSink { pending: Vec::new() }
    }

    /// The number of requests that wait in the sink.
    pub fn len(&self) -> (count: usize)
        ensures
            count == self@.len(),
    {
        self.pending.len()
    }

    /// Queues one request for `entity`, behind everything queued before.
    pub fn submit(&mut self, entity: u64, request: MutationRequest<F>)
        ensures
            final(self)@ == old(self)@.push((entity, request)),
    {
        self.pending.push((entity, request));
    }

    /// Queues the requests of one engine tick for `entity`, in their order.
    pub fn submit_all(&mut self, entity: u64, requests: &Vec<MutationRequest<F>>)
        ensures
            final(self)@ == old(self)@ + requests@.map_values(
                |request: MutationRequest<F>| (entity, request),
            ),
    {
        let mut i: usize = 0;
        while i < requests.len()
            invariant
                i <= requests.len(),
                self@ == old(self)@ + requests@.subrange(0, i as int).map_values(
                    |request: MutationRequest<F>| (entity, request),
                ),
            decreases requests.len() - i,
        {
            self.pending.push((entity, requests[i]));
            i = i + 1;
            assert(self@ =~= old(self)@ + requests@.subrange(0, i as int).map_values(
                |request: MutationRequest<F>| (entity, request),
            ));
        }
        assert(requests@.subrange(0, i as int) =~= requests@);
    }

    /// Applies everything that was queued, in the order of queueing, and
    /// leaves the sink empty. This is the barrier at the end of a tick.
    pub fn apply(&mut self, world: &mut HashMap<u64, Components<F>>)
        ensures
            final(world)@ == world_after(old(world)@, old(self)@),
            final(self)@ == Seq::<(u64, MutationRequest<F>)>::empty(),
    {
        let mut i: usize = 0;
        while i < self.pending.len()
            invariant
                i <= self.pending.len(),
                self.pending@ == old(self).pending@,
                world@ == world_after(old(world)@, self.pending@.subrange(0, i as int)),
            decreases self.pending.len() - i,
        {
            let (entity, request) = self.pending[i];
            let found = match world.get(&entity) {
                Some(components) => Some(*components),
                None => None,
            };
            match found {
                Some(components) => {
                    let mut components = components;
                    components.apply(request);
                    world.insert(entity, components);
                },
                None => {},
            }
            proof {
                let before = self.pending@.subrange(0, i as int);
                let after = self.pending@.subrange(0, i + 1);
                assert(after.drop_last() =~= before);
                assert(after.last() == (entity, request));
            }
            i = i + 1;
        }
        assert(self.pending@.subrange(0, i as int) =~= self.pending@);
        self.pending.clear();
    }
}

} // verus!
