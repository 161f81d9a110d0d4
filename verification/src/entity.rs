//! From an entity packet to the published entities and the event about it.

use std::sync::Arc;

use vstd::prelude::*;

use crate::contract::{BackendEventPayload, FactSource};
use crate::entity_events::{
    EntityIdentity, EntityProducerInput, EntityProducerToken, NormalizedEntityEvent,
    NormalizedEntitySnapshot,
};
use crate::number::Vec3Value;
use crate::state::{ProducerView, RuntimeView, SharedRuntime};
use crate::time::UtcInstant;
use crate::tracking::{
    law_residuals_stay_bounded, EntityObservationResidual, EntityResidualAction, ObservationView,
};

verus! {

/// The published observation after an entity event; none if the event cannot be
/// published under this epoch.
pub open spec fn observed_after(
    observation: ObservationView,
    epoch: u64,
    event: NormalizedEntityEvent,
    action: EntityResidualAction,
) -> Option<ObservationView> {
    match event {
        NormalizedEntityEvent::Spawned { entity } => shown_entity(
            observation,
            epoch,
            entity,
            action,
        ),
        NormalizedEntityEvent::Moved { entity } => shown_entity(observation, epoch, entity, action),
        NormalizedEntityEvent::Updated { entity, .. } => shown_entity(
            observation,
            epoch,
            entity,
            action,
        ),
        NormalizedEntityEvent::Removed { entity, .. } => if entity.epoch == epoch {
            Some(observation.without(entity))
        } else {
            None
        },
        _ => Some(observation),
    }
}

/// The published observation with one entity's new state.
pub open spec fn shown_entity(
    observation: ObservationView,
    epoch: u64,
    entity: Arc<NormalizedEntitySnapshot>,
    action: EntityResidualAction,
) -> Option<ObservationView> {
    if entity.publishable() && entity.identity.epoch == epoch {
        Some(
            observation.upserted(Arc::new(entity.shown())).with_residual(
                entity.identity,
                entity.head_yaw,
                Some(entity.velocity),
                action,
            ),
        )
    } else {
        None
    }
}

/// What a packet does to the residuals of its entity by default: a new entity
/// starts without any.
pub open spec fn default_residual_action(input: EntityProducerInput) -> EntityResidualAction {
    match input {
        EntityProducerInput::Spawn { .. } => EntityResidualAction::Clear,
        _ => EntityResidualAction::Retain,
    }
}

impl RuntimeView {
    /// The event that a packet of this owner and epoch gives rise to, with the
    /// scope in which it was taken.
    pub open spec fn entity_taken(self, owner: u64, epoch: u64, input: EntityProducerInput) -> (
        RuntimeView,
        Option<(NormalizedEntityEvent, u64)>,
    ) {
        if self.producer.owner == Some((owner, epoch)) {
            (
                self.with_producer(
                    ProducerView {
                        cache: self.producer.cache.after(epoch, input),
                        ..self.producer
                    },
                ),
                match self.producer.cache.emitted(epoch, input) {
                    Some(event) => Some((event, self.producer.scope_generation)),
                    None => None,
                },
            )
        } else {
            (self, None)
        }
    }

    /// The scope in which an event was taken is still the current one.
    pub open spec fn entity_scope_holds(self, owner: u64, epoch: u64, scope_generation: u64) -> bool {
        self.producer.owner == Some((owner, epoch)) && self.producer.scope_generation
            == scope_generation
    }

    /// An event that was taken in this scope becomes visible: first in the
    /// published entities, then as an event.
    pub open spec fn entity_published(
        self,
        owner: u64,
        epoch: u64,
        scope_generation: u64,
        event: NormalizedEntityEvent,
        action: EntityResidualAction,
        at: UtcInstant,
    ) -> (RuntimeView, bool) {
        if !self.entity_scope_holds(owner, epoch, scope_generation) {
            (self, false)
        } else {
            match observed_after(self.observation, epoch, event, action) {
                None => (self, false),
                Some(observation) => {
                    let shown = RuntimeView { observation, ..self };
                    if shown.running() && shown.epoch() == epoch {
                        (
                            shown.emitted(
                                FactSource::ServerObserved,
                                BackendEventPayload::Entity(event.shown()),
                                at,
                            ),
                            true,
                        )
                    } else {
                        (shown, false)
                    }
                },
            }
        }
    }

    /// A packet is taken and published in one go.
    pub open spec fn entity_emitted(
        self,
        owner: u64,
        epoch: u64,
        input: EntityProducerInput,
        action: EntityResidualAction,
        at: UtcInstant,
    ) -> (RuntimeView, bool) {
        let taken = self.entity_taken(owner, epoch, input);
        match taken.1 {
            None => (taken.0, false),
            Some((event, scope_generation)) => taken.0.entity_published(
                owner,
                epoch,
                scope_generation,
                event,
                action,
                at,
            ),
        }
    }

    /// A new velocity is published; no event comes of it.
    pub open spec fn motion_observed(
        self,
        owner: u64,
        epoch: u64,
        token: EntityProducerToken,
        entity: EntityIdentity,
        velocity: Vec3Value,
    ) -> (RuntimeView, bool) {
        if self.producer.owner != Some((owner, epoch)) || !self.producer.cache.admits_velocity(
            epoch,
            token,
            entity,
            velocity,
        ) {
            (self, false)
        } else {
            let state = Arc::new(self.producer.cache.with_velocity(entity, velocity));
            let taken = self.with_producer(
                ProducerView {
                    cache: self.producer.cache.after_velocity(epoch, token, entity, velocity),
                    ..self.producer
                },
            );
            if state.representable() {
                (
                    RuntimeView {
                        observation: taken.observation.upserted(
                            Arc::new(state.shown()),
                        ).with_residual(
                            state.identity,
                            None,
                            Some(state.velocity),
                            EntityResidualAction::Update,
                        ),
                        ..taken
                    },
                    true,
                )
            } else {
                (taken, false)
            }
        }
    }
}

impl SharedRuntime {
    /// Takes an entity packet of this owner and epoch. The scope in which it
    /// was taken goes with the event: publishing checks it again.
    pub fn apply_entity_input_for_owner_with_generation(
        &mut self,
        owner: u64,
        epoch: u64,
        input: EntityProducerInput,
    ) -> (taken: Option<(NormalizedEntityEvent, u64)>)
        requires
            old(self)@.wf(),
        ensures
            (final(self)@, taken) == old(self)@.entity_taken(owner, epoch, input),
            final(self)@.wf(),
    {
        if !self.producer.is_owner(owner, epoch) {
            return None;
        }
        reveal(ProducerView::wf);
        let scope_generation: u64 = self.producer.scope_generation;
        match self.producer.cache.apply(epoch, input) {
            Some(event) => Some((event, scope_generation)),
            None => None,
        }
    }

    fn show_entity(
        &mut self,
        epoch: u64,
        entity: &Arc<NormalizedEntitySnapshot>,
        action: EntityResidualAction,
    ) -> (shown: bool)
        requires
            old(self)@.wf(),
        ensures
            shown == (shown_entity(old(self)@.observation, epoch, *entity, action) is Some),
            final(self)@ == (match shown_entity(old(self)@.observation, epoch, *entity, action) {
                Some(observation) => RuntimeView { observation, ..old(self)@ },
                None => old(self)@,
            }),
            final(self)@.wf(),
    {
        if !entity.is_publishable() || entity.identity.epoch != epoch {
            return false;
        }
        proof {
            law_residuals_stay_bounded(
                self@.observation.entity_residuals,
                entity.identity,
                entity.head_yaw,
                Some(entity.velocity),
                action,
            );
        }
        self.observation.upsert_entity_observation(Arc::new(entity.published()));
        self.observation.record_residual(
            entity.identity,
            entity.head_yaw,
            Some(entity.velocity),
            action,
        );
        true
    }

    fn hide_entity(&mut self, entity: EntityIdentity)
        requires
            old(self)@.wf(),
        ensures
            final(self)@ == (RuntimeView {
                observation: old(self)@.observation.without(entity),
                ..old(self)@
            }),
            final(self)@.wf(),
    {
        proof {
            self@.observation.entity_residuals.lemma_filter_len(
                |r: EntityObservationResidual| r.entity != entity,
            );
        }
        self.observation.remove_entity(entity);
    }

    /// Brings the published entities up to date with an event that is about to
    /// be emitted. Tells whether it can be published under this epoch.
    pub fn apply_entity_observation_event(
        &mut self,
        epoch: u64,
        event: &NormalizedEntityEvent,
        action: EntityResidualAction,
    ) -> (shown: bool)
        requires
            old(self)@.wf(),
        ensures
            shown == (observed_after(old(self)@.observation, epoch, *event, action) is Some),
            final(self)@ == (match observed_after(
                old(self)@.observation,
                epoch,
                *event,
                action,
            ) {
                Some(observation) => RuntimeView { observation, ..old(self)@ },
                None => old(self)@,
            }),
            final(self)@.wf(),
    {
        match event {
            NormalizedEntityEvent::Spawned { entity } => self.show_entity(epoch, entity, action),
            NormalizedEntityEvent::Moved { entity } => self.show_entity(epoch, entity, action),
            NormalizedEntityEvent::Updated { entity, .. } => self.show_entity(
                epoch,
                entity,
                action,
            ),
            NormalizedEntityEvent::Removed { entity, .. } => {
                if entity.epoch != epoch {
                    return false;
                }
                self.hide_entity(*entity);
                true
            },
            _ => true,
        }
    }

    /// Publishes an event that was taken in this scope. If the owner, the epoch
    /// or the scope has changed since, the event is dropped: it is never
    /// published under another attempt's name.
    pub fn publish_entity_event(
        &mut self,
        owner: u64,
        epoch: u64,
        scope_generation: u64,
        event: NormalizedEntityEvent,
        action: EntityResidualAction,
        at: UtcInstant,
    ) -> (published: bool)
        requires
            old(self)@.wf(),
        ensures
            (final(self)@, published) == old(self)@.entity_published(
                owner,
                epoch,
                scope_generation,
                event,
                action,
                at,
            ),
            final(self)@.wf(),
    {
        if !self.producer.is_owner(owner, epoch) || self.producer.scope_generation
            != scope_generation {
            return false;
        }
        if !self.apply_entity_observation_event(epoch, &event, action) {
            return false;
        }
        if !self.command_execution_allowed() || self.writer.connection_epoch != epoch {
            return false;
        }
        self.emit(
            FactSource::ServerObserved,
            BackendEventPayload::Entity(event.published()),
            at,
        );
        true
    }

    /// Takes and publishes an entity packet, with an explicit effect on the
    /// residuals of its entity.
    pub fn emit_entity_input_with_velocity_residual(
        &mut self,
        owner: u64,
        epoch: u64,
        input: EntityProducerInput,
        action: EntityResidualAction,
        at: UtcInstant,
    ) -> (published: bool)
        requires
            old(self)@.wf(),
        ensures
            (final(self)@, published) == old(self)@.entity_emitted(owner, epoch, input, action, at),
            final(self)@.wf(),
    {
        match self.apply_entity_input_for_owner_with_generation(owner, epoch, input) {
            Some((event, scope_generation)) => self.publish_entity_event(
                owner,
                epoch,
                scope_generation,
                event,
                action,
                at,
            ),
            None => false,
        }
    }

    /// Takes and publishes an entity packet.
    pub fn emit_entity_input(
        &mut self,
        owner: u64,
        epoch: u64,
        input: EntityProducerInput,
        at: UtcInstant,
    ) -> (published: bool)
        requires
            old(self)@.wf(),
        ensures
            (final(self)@, published) == old(self)@.entity_emitted(
                owner,
                epoch,
                input,
                default_residual_action(input),
                at,
            ),
            final(self)@.wf(),
    {
        let action = match &input {
            EntityProducerInput::Spawn { .. } => EntityResidualAction::Clear,
            _ => EntityResidualAction::Retain,
        };
        self.emit_entity_input_with_velocity_residual(owner, epoch, input, action, at)
    }

    fn take_velocity(
        &mut self,
        epoch: u64,
        token: EntityProducerToken,
        entity: EntityIdentity,
        velocity: Vec3Value,
    ) -> (state: Option<Arc<NormalizedEntitySnapshot>>)
        requires
            old(self)@.wf(),
        ensures
            state == (if old(self)@.producer.cache.admits_velocity(epoch, token, entity, velocity) {
                Some(Arc::new(old(self)@.producer.cache.with_velocity(entity, velocity)))
            } else {
                None
            }),
            final(self)@ == old(self)@.with_producer(
                ProducerView {
                    cache: old(self)@.producer.cache.after_velocity(
                        epoch,
                        token,
                        entity,
                        velocity,
                    ),
                    ..old(self)@.producer
                },
            ),
            final(self)@.wf(),
    {
        reveal(ProducerView::wf);
        self.producer.cache.apply_velocity_residual(epoch, token, entity, velocity)
    }

    fn show_velocity(&mut self, state: Arc<NormalizedEntitySnapshot>)
        requires
            old(self)@.wf(),
        ensures
            final(self)@ == (RuntimeView {
                observation: old(self)@.observation.upserted(Arc::new(state.shown())).with_residual(
                    state.identity,
                    None,
                    Some(state.velocity),
                    EntityResidualAction::Update,
                ),
                ..old(self)@
            }),
            final(self)@.wf(),
    {
        proof {
            law_residuals_stay_bounded(
                self@.observation.entity_residuals,
                state.identity,
                None,
                Some(state.velocity),
                EntityResidualAction::Update,
            );
        }
        let identity = state.identity;
        let velocity = state.velocity;
        self.observation.upsert_entity_observation(Arc::new(state.published()));
        self.observation.record_residual(
            identity,
            None,
            Some(velocity),
            EntityResidualAction::Update,
        );
    }

    /// Takes a new velocity of an entity and publishes it without an event.
    pub fn emit_entity_motion_residual(
        &mut self,
        owner: u64,
        epoch: u64,
        token: EntityProducerToken,
        entity: EntityIdentity,
        velocity: Vec3Value,
    ) -> (published: bool)
        requires
            old(self)@.wf(),
        ensures
            (final(self)@, published) == old(self)@.motion_observed(
                owner,
                epoch,
                token,
                entity,
                velocity,
            ),
            final(self)@.wf(),
    {
        if !self.producer.is_owner(owner, epoch) {
            return false;
        }
        match self.take_velocity(epoch, token, entity, velocity) {
            Some(state) => {
                if !state.is_representable() {
                    return false;
                }
                self.show_velocity(state);
                true
            },
            None => false,
        }
    }
}

/// An event that was taken before a new attempt is never published after it,
/// and neither is one that was taken before its scope was reset.
pub proof fn law_taken_events_do_not_cross_scopes(
    runtime: RuntimeView,
    owner: u64,
    epoch: u64,
    scope_generation: u64,
    event: NormalizedEntityEvent,
    action: EntityResidualAction,
    at: UtcInstant,
)
    requires
        runtime.producer.owner != Some((owner, epoch)) || runtime.producer.scope_generation
            != scope_generation,
    ensures
        runtime.entity_published(owner, epoch, scope_generation, event, action, at) == (
            runtime,
            false,
        ),
{
}

/// A packet of anyone but the owner of the current stream changes nothing.
pub proof fn law_foreign_packets_change_nothing(
    runtime: RuntimeView,
    owner: u64,
    epoch: u64,
    input: EntityProducerInput,
    action: EntityResidualAction,
    at: UtcInstant,
)
    requires
        runtime.producer.owner != Some((owner, epoch)),
    ensures
        runtime.entity_emitted(owner, epoch, input, action, at) == (runtime, false),
{
}

/// An event becomes visible exactly if its scope is still the current one and it
/// can be published under its epoch; while the runtime runs it is then told, after
/// the published entities show it.
pub proof fn law_when_an_entity_event_is_told(
    runtime: RuntimeView,
    owner: u64,
    epoch: u64,
    scope_generation: u64,
    event: NormalizedEntityEvent,
    action: EntityResidualAction,
    at: UtcInstant,
)
    ensures
        ({
            let (after, told) = runtime.entity_published(
                owner,
                epoch,
                scope_generation,
                event,
                action,
                at,
            );
            let current = runtime.producer.owner == Some((owner, epoch))
                && runtime.producer.scope_generation == scope_generation;
            let visible = match event {
                NormalizedEntityEvent::Spawned { entity } => entity.publishable()
                    && entity.identity.epoch == epoch,
                NormalizedEntityEvent::Moved { entity } => entity.publishable()
                    && entity.identity.epoch == epoch,
                NormalizedEntityEvent::Updated { entity, .. } => entity.publishable()
                    && entity.identity.epoch == epoch,
                NormalizedEntityEvent::Removed { entity, .. } => entity.epoch == epoch,
                NormalizedEntityEvent::Animation { .. } => true,
                NormalizedEntityEvent::Hurt { .. } => true,
            };
            let running = !runtime.flags.stopping && !runtime.flags.disconnect_reported
                && runtime.writer.connection_epoch == epoch;
            &&& told <==> current && visible && running
            &&& !(current && visible) ==> after == runtime
            &&& current && visible && !running ==> after == (RuntimeView {
                observation: after.observation,
                ..runtime
            })
            &&& told ==> after == (RuntimeView {
                observation: observed_after(runtime.observation, epoch, event, action)->0,
                ..runtime
            }).emitted(
                FactSource::ServerObserved,
                BackendEventPayload::Entity(event.shown()),
                at,
            )
        }),
{
}

/// The state that an event reports is the published one from then on, in the
/// published precision; what its packet told is remembered beside it. An entity
/// that is gone is not published; an animation or a hurt changes nothing.
pub proof fn law_entity_events_are_shown(
    observation: ObservationView,
    epoch: u64,
    event: NormalizedEntityEvent,
    action: EntityResidualAction,
)
    requires
        observed_after(observation, epoch, event, action) is Some,
    ensures
        ({
            let after = observed_after(observation, epoch, event, action)->0;
            match event {
                NormalizedEntityEvent::Spawned { entity } => shows(
                    observation,
                    after,
                    entity,
                    action,
                ),
                NormalizedEntityEvent::Moved { entity } => shows(
                    observation,
                    after,
                    entity,
                    action,
                ),
                NormalizedEntityEvent::Updated { entity, .. } => shows(
                    observation,
                    after,
                    entity,
                    action,
                ),
                NormalizedEntityEvent::Removed { entity, .. } => after == observation.without(
                    entity,
                ),
                NormalizedEntityEvent::Animation { .. } => after == observation,
                NormalizedEntityEvent::Hurt { .. } => after == observation,
            }
        }),
{
}

/// The entity is published in this state, its packet's facts are remembered, and
/// nothing else has changed.
pub open spec fn shows(
    before: ObservationView,
    after: ObservationView,
    entity: Arc<NormalizedEntitySnapshot>,
    action: EntityResidualAction,
) -> bool {
    &&& after.tracked_entities == crate::tracking::upserted(
        before.tracked_entities,
        Arc::new(entity.shown()),
    )
    &&& after.entity_residuals == crate::tracking::residuals_after(
        before.entity_residuals,
        entity.identity,
        entity.head_yaw,
        Some(entity.velocity),
        action,
    )
    &&& after.generation != before.generation
    &&& after == (ObservationView {
        generation: after.generation,
        tracked_entities: after.tracked_entities,
        entity_residuals: after.entity_residuals,
        ..before
    })
}

/// A packet of the owner goes through the stream's own state; what it gives rise
/// to is marked with the scope in which it was taken.
pub proof fn law_owners_packets_are_taken(
    runtime: RuntimeView,
    owner: u64,
    epoch: u64,
    input: EntityProducerInput,
)
    requires
        runtime.producer.owner == Some((owner, epoch)),
    ensures
        ({
            let (after, taken) = runtime.entity_taken(owner, epoch, input);
            &&& taken is Some <==> runtime.producer.cache.emitted(epoch, input) is Some
            &&& taken matches Some((event, generation)) ==> generation
                == runtime.producer.scope_generation && Some(event)
                == runtime.producer.cache.emitted(epoch, input)
            &&& after.producer.cache == runtime.producer.cache.after(epoch, input)
            &&& after.producer.owner == runtime.producer.owner
            &&& after.producer.scope_generation == runtime.producer.scope_generation
            &&& after.observation == runtime.observation
        }),
{
}

/// A new velocity of a known entity is published without an event, and remembered
/// even where the captured state knows nothing of it.
pub proof fn law_new_velocities_are_published(
    runtime: RuntimeView,
    owner: u64,
    epoch: u64,
    token: EntityProducerToken,
    entity: EntityIdentity,
    velocity: Vec3Value,
)
    ensures
        ({
            let (after, published) = runtime.motion_observed(owner, epoch, token, entity, velocity);
            let taken = runtime.producer.owner == Some((owner, epoch))
                && runtime.producer.cache.admits_velocity(epoch, token, entity, velocity);
            let state = NormalizedEntitySnapshot {
                velocity,
                ..*runtime.producer.cache.shadows[entity.protocol_id]
            };
            &&& !taken ==> after == runtime && !published
            &&& taken ==> published == state.representable()
            &&& taken ==> after.producer.cache == runtime.producer.cache.after_velocity(
                epoch,
                token,
                entity,
                velocity,
            )
            &&& taken && !published ==> after.observation == runtime.observation
            &&& published ==> after.observation.tracked_entities == crate::tracking::upserted(
                runtime.observation.tracked_entities,
                Arc::new(state.shown()),
            )
            &&& published ==> after.observation.entity_residuals
                == crate::tracking::residuals_after(
                runtime.observation.entity_residuals,
                state.identity,
                None,
                Some(velocity),
                EntityResidualAction::Update,
            )
            &&& after.writer == runtime.writer
            &&& after.effects == runtime.effects
        }),
{
}

/// An entity that is new starts without anything that was remembered; any other
/// packet keeps it.
pub proof fn law_new_entities_start_without_memories(input: EntityProducerInput)
    ensures
        default_residual_action(input) is Clear <==> input is Spawn,
        default_residual_action(input) is Retain <==> !(input is Spawn),
{
}

} // verus!
