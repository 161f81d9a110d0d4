//! Attempt identity, source admission and reconnect ownership.
//!
//! A connection attempt is reserved before network work starts, then bound to
//! the entity of its client. Everything that a packet or a client event does to
//! the runtime has to prove first that it comes from the bound attempt.

use vstd::prelude::*;

use crate::contract::{BackendEventPayload, BackendLifecyclePayload, FactSource};
use crate::lanes::successor;
use crate::light::LightView;
use crate::state::{
    next_number, AttemptAdmissionState, CanonicalSourceAdmission, ConnectionState, EventWriter,
    ProducerView, RuntimeCounters, RuntimeView, SharedRuntime,
};
use crate::time::UtcInstant;
use crate::tracking::ObservationView;

verus! {

impl ProducerView {
    /// The entity becomes the owner of a fresh scope.
    pub open spec fn owned(self, entity: u64, epoch: u64) -> ProducerView {
        ProducerView {
            owner: Some((entity, epoch)),
            source_fence: self.source_fence.bound(entity),
            ..self
        }.scope_opened(epoch)
    }

    /// Nobody owns the stream; its scope is closed.
    pub open spec fn disowned(self) -> ProducerView {
        ProducerView { owner: None, ..self }.scope_closed()
    }

    /// A lifecycle message of this source may close the current attempt.
    pub open spec fn closable(
        self,
        entity: u64,
        epoch: u64,
        allow_unbound: bool,
        token: Option<u64>,
    ) -> bool {
        self.source_admitted(entity, epoch, token) && match self.attempt {
            AttemptAdmissionState::Bound { epoch: e, entity: n, attempt_token, .. } => e == epoch
                && n == entity && attempt_token == token && self.owner == Some((entity, epoch)),
            AttemptAdmissionState::Reserved {
                epoch: e,
                join_started_epoch,
                attempt_token,
                ..
            } => allow_unbound && e == epoch && attempt_token == token && join_started_epoch
                == Some(epoch),
            _ => false,
        }
    }
}

/// A producer that nobody owns is well-formed in any attempt state.
pub proof fn lemma_disowned_wf(producer: ProducerView, attempt: AttemptAdmissionState)
    requires
        producer.wf(),
    ensures
        producer.disowned().wf(),
        (ProducerView { attempt, ..producer.disowned() }).wf(),
{
    reveal(ProducerView::wf);
}

/// A new owner makes a well-formed producer, together with its attempt.
pub proof fn lemma_owned_wf(
    producer: ProducerView,
    entity: u64,
    epoch: u64,
    reconnect_token: Option<u64>,
    attempt_token: Option<u64>,
)
    requires
        producer.wf(),
    ensures
        (ProducerView {
            attempt: AttemptAdmissionState::Bound { epoch, entity, reconnect_token, attempt_token },
            ..producer.owned(entity, epoch)
        }).wf(),
{
    reveal(ProducerView::wf);
}

impl RuntimeView {
    pub open spec fn with_producer(self, producer: ProducerView) -> RuntimeView {
        RuntimeView { producer, ..self }
    }

    /// The epoch of the stream that an entity owns.
    pub open spec fn epoch_owned_by(self, entity: u64) -> Option<u64> {
        match self.producer.owner {
            Some((owner, epoch)) => if owner == entity {
                Some(epoch)
            } else {
                None
            },
            None => None,
        }
    }

    /// The stamp for a source that is admitted now.
    pub open spec fn admitted_source(
        self,
        entity: u64,
        token: Option<u64>,
    ) -> Option<CanonicalSourceAdmission> {
        if self.producer.owner == Some((entity, self.epoch())) && self.producer.source_admitted(
            entity,
            self.epoch(),
            token,
        ) {
            Some(
                CanonicalSourceAdmission {
                    entity,
                    epoch: self.epoch(),
                    scope_generation: self.producer.scope_generation,
                    attempt_token: token,
                },
            )
        } else {
            None
        }
    }

    /// A stamp still holds: same epoch, owner and scope, and still admitted.
    pub open spec fn source_valid(self, source: CanonicalSourceAdmission) -> bool {
        &&& self.epoch() == source.epoch
        &&& self.producer.owner == Some((source.entity, source.epoch))
        &&& self.producer.scope_generation == source.scope_generation
        &&& self.producer.source_admitted(source.entity, source.epoch, source.attempt_token)
    }

    pub open spec fn dimension_set(self, dimension: String) -> RuntimeView {
        RuntimeView {
            writer: EventWriter { dimension: Some(dimension), ..self.writer },
            connection: ConnectionState { reported_dimension: Some(dimension), ..self.connection },
            ..self
        }
    }

    /// The dimension is set; a change of a known one is reported.
    pub open spec fn dimension_observed(self, dimension: String, at: UtcInstant) -> (
        RuntimeView,
        bool,
    ) {
        let set = self.dimension_set(dimension);
        match self.connection.reported_dimension {
            None => (set, false),
            Some(previous) => if previous@ == dimension@ {
                (set, false)
            } else {
                set.enqueued(
                    FactSource::ServerObserved,
                    BackendEventPayload::Lifecycle(
                        BackendLifecyclePayload::DimensionChanged { from: previous, to: dimension },
                    ),
                    at,
                )
            },
        }
    }

    /// A login or respawn of the owner starts a new scope of everything.
    pub open spec fn scope_reset(
        self,
        epoch: u64,
        dimension: Option<String>,
        has_skylight: Option<bool>,
    ) -> RuntimeView {
        let producer = self.producer.scope_opened(epoch);
        let emptied = self.observation.without_world();
        let stale_armor = self.observation.armor_epoch != Some(epoch);
        RuntimeView {
            producer,
            observation: ObservationView {
                armor: if stale_armor {
                    None
                } else {
                    emptied.armor
                },
                armor_epoch: if stale_armor {
                    None
                } else {
                    emptied.armor_epoch
                },
                light: LightView::scoped(
                    epoch,
                    producer.scope_generation,
                    dimension,
                    has_skylight,
                ),
                ..emptied
            }.bumped(),
            ..self
        }
    }

    /// The boundary belongs to the current owner.
    pub open spec fn scope_resettable(self, entity: u64, epoch: u64) -> bool {
        self.epoch() == epoch && self.producer.owner == Some((entity, epoch))
            && self.producer.source_fence.allows(entity)
    }

    pub open spec fn scope_boundary(
        self,
        entity: u64,
        epoch: u64,
        dimension: Option<String>,
        has_skylight: Option<bool>,
        at: UtcInstant,
    ) -> RuntimeView {
        if self.scope_resettable(entity, epoch) {
            let reset = self.scope_reset(epoch, dimension, has_skylight);
            match dimension {
                Some(dimension) => Self::followed(reset.dimension_observed(dimension, at)),
                None => reset,
            }
        } else {
            self
        }
    }
}

impl SharedRuntime {
    /// The epoch of the stream that an entity owns, if it owns it.
    pub fn entity_producer_epoch_for(&self, entity: u64) -> (epoch: Option<u64>)
        ensures
            epoch == self@.epoch_owned_by(entity),
    {
        match self.producer.owner {
            Some(owner) => if owner.0 == entity {
                Some(owner.1)
            } else {
                None
            },
            None => None,
        }
    }

    /// Starts a new scope of the entity stream, if this entity owns it.
    pub fn reset_entity_scope_for_owner(&mut self, entity: u64) -> (reset: bool)
        requires
            old(self)@.wf(),
        ensures
            reset == (old(self)@.epoch_owned_by(entity) is Some),
            final(self)@ == (match old(self)@.epoch_owned_by(entity) {
                Some(epoch) => old(self)@.with_producer(old(self)@.producer.scope_opened(epoch)),
                None => old(self)@,
            }),
            final(self)@.wf(),
    {
        reveal(ProducerView::wf);
        match self.entity_producer_epoch_for(entity) {
            Some(epoch) => {
                self.producer.reset_scope(epoch);
                true
            },
            None => false,
        }
    }

    /// Ends the ownership of this entity, if it has it.
    pub fn deactivate_entity_producer_owner(&mut self, entity: u64) -> (ended: bool)
        requires
            old(self)@.wf(),
        ensures
            ended == (old(self)@.epoch_owned_by(entity) is Some),
            final(self)@ == (if ended {
                old(self)@.with_producer(old(self)@.producer.disowned())
            } else {
                old(self)@
            }),
            final(self)@.wf(),
    {
        if self.entity_producer_epoch_for(entity).is_none() {
            return false;
        }
        proof {
            lemma_disowned_wf(self@.producer, self@.producer.attempt);
        }
        self.producer.owner = None;
        self.producer.deactivate_scope();
        true
    }

    /// Ends the ownership of whoever owns the stream.
    pub fn deactivate_current_entity_producer_owner(&mut self) -> (ended: bool)
        requires
            old(self)@.wf(),
        ensures
            ended == (old(self)@.producer.owner is Some),
            final(self)@ == (if ended {
                old(self)@.with_producer(old(self)@.producer.disowned())
            } else {
                old(self)@
            }),
            final(self)@.wf(),
    {
        if self.producer.owner.is_none() {
            return false;
        }
        proof {
            lemma_disowned_wf(self@.producer, self@.producer.attempt);
        }
        self.producer.owner = None;
        self.producer.deactivate_scope();
        true
    }

    /// Claims a lifecycle transition for its source. The epoch is the one that
    /// was observed where the message was read: it tells a reused entity's late
    /// messages from current ones.
    pub fn admit_entity_lifecycle_owner(
        &mut self,
        entity: u64,
        expected_epoch: u64,
        allow_unbound_attempt: bool,
        attempt_token: Option<u64>,
    ) -> (claimed: bool)
        requires
            old(self)@.wf(),
        ensures
            claimed == (old(self)@.epoch() == expected_epoch && old(self)@.producer.closable(
                entity,
                expected_epoch,
                allow_unbound_attempt,
                attempt_token,
            )),
            final(self)@ == (if claimed {
                old(self)@.with_producer(old(self)@.producer.disowned())
            } else {
                old(self)@
            }),
            final(self)@.wf(),
    {
        if self.writer.connection_epoch != expected_epoch {
            return false;
        }
        if !self.producer.admits_source(entity, expected_epoch, attempt_token) {
            return false;
        }
        let claimed = match self.producer.attempt {
            AttemptAdmissionState::Bound { epoch, entity: bound_entity, attempt_token: bound, .. } =>
            epoch == expected_epoch && bound_entity == entity && bound == attempt_token
                && self.producer.is_owner(entity, expected_epoch),
            AttemptAdmissionState::Reserved {
                epoch,
                join_started_epoch,
                attempt_token: reserved,
                ..
            } => allow_unbound_attempt && epoch == expected_epoch && reserved == attempt_token
                && join_started_epoch == Some(expected_epoch),
            _ => false,
        };
        if claimed {
            proof {
                reveal(ProducerView::wf);
                lemma_disowned_wf(self@.producer, self@.producer.attempt);
            }
            self.producer.owner = None;
            self.producer.deactivate_scope();
        }
        claimed
    }

    /// The number of a packet, in the order of admission.
    pub fn next_entity_packet_admission(&mut self) -> (number: u64)
        requires
            old(self)@.wf(),
        ensures
            number == old(self)@.counters.entity_packet_admission,
            final(self)@ == (RuntimeView {
                counters: RuntimeCounters {
                    entity_packet_admission: successor(number),
                    ..old(self)@.counters
                },
                ..old(self)@
            }),
            final(self)@.wf(),
    {
        let number: u64 = self.counters.entity_packet_admission;
        self.counters.entity_packet_admission = next_number(number);
        number
    }

    /// Stamps a source that belongs to the current owner.
    pub fn admit_canonical_source_with_token(
        &self,
        entity: u64,
        attempt_token: Option<u64>,
    ) -> (source: Option<CanonicalSourceAdmission>)
        ensures
            source == self@.admitted_source(entity, attempt_token),
    {
        let epoch: u64 = self.writer.connection_epoch;
        if self.producer.is_owner(entity, epoch) && self.producer.admits_source(
            entity,
            epoch,
            attempt_token,
        ) {
            Some(
                CanonicalSourceAdmission {
                    entity,
                    epoch,
                    scope_generation: self.producer.scope_generation,
                    attempt_token,
                },
            )
        } else {
            None
        }
    }

    /// Tells whether a stamp still holds.
    pub fn canonical_source_still_valid(&self, source: CanonicalSourceAdmission) -> (r: bool)
        ensures
            r == self@.source_valid(source),
    {
        self.writer.connection_epoch == source.epoch && self.producer.is_owner(
            source.entity,
            source.epoch,
        ) && self.producer.scope_generation == source.scope_generation
            && self.producer.admits_source(source.entity, source.epoch, source.attempt_token)
    }

    /// Tells whether packets of this entity and epoch are the current owner's.
    pub fn admit_canonical_packet_source_for_epoch(
        &self,
        entity: u64,
        source_epoch: u64,
    ) -> (r: bool)
        ensures
            r == (self@.epoch() == source_epoch && self@.producer.owner == Some(
                (entity, source_epoch),
            )),
    {
        self.writer.connection_epoch == source_epoch && self.producer.is_owner(entity, source_epoch)
    }

    /// Sets the dimension and hands back the one that was reported before.
    pub fn set_dimension(&mut self, dimension: String) -> (previous: Option<String>)
        requires
            old(self)@.wf(),
        ensures
            previous == old(self)@.connection.reported_dimension,
            final(self)@ == old(self)@.dimension_set(dimension),
            final(self)@.wf(),
    {
        let previous = self.connection.reported_dimension.clone();
        self.writer.dimension = Some(dimension.clone());
        self.connection.reported_dimension = Some(dimension);
        previous
    }

    /// Sets the dimension, unless the runtime stops or has disconnected.
    pub fn set_dimension_if_running(&mut self, dimension: String) -> (set: bool)
        requires
            old(self)@.wf(),
        ensures
            set == old(self)@.running(),
            final(self)@ == (if set {
                old(self)@.dimension_set(dimension)
            } else {
                old(self)@
            }),
            final(self)@.wf(),
    {
        if !self.command_execution_allowed() {
            return false;
        }
        let _ = self.set_dimension(dimension);
        true
    }

    fn note_dimension(&mut self, dimension: String, at: UtcInstant) -> (should_drain: bool)
        requires
            old(self)@.wf(),
        ensures
            (final(self)@, should_drain) == old(self)@.dimension_observed(dimension, at),
            final(self)@.wf(),
    {
        let to = dimension.clone();
        match self.set_dimension(dimension) {
            None => false,
            Some(previous) => {
                if previous == to {
                    return false;
                }
                self.enqueue_event(
                    FactSource::ServerObserved,
                    BackendEventPayload::Lifecycle(
                        BackendLifecyclePayload::DimensionChanged { from: previous, to },
                    ),
                    at,
                )
            },
        }
    }

    /// Records the dimension and reports a change, while the runtime runs.
    pub fn observe_dimension(&mut self, dimension: String, at: UtcInstant)
        requires
            old(self)@.wf(),
        ensures
            final(self)@ == (if old(self)@.running() {
                RuntimeView::followed(old(self)@.dimension_observed(dimension, at))
            } else {
                old(self)@
            }),
            final(self)@.wf(),
    {
        if !self.command_execution_allowed() {
            return;
        }
        if self.note_dimension(dimension, at) {
            self.drain_events();
        }
    }

    /// Records the dimension of a loaded world, if the world is the owner's.
    pub fn observe_dimension_from_world_boundary_with_token(
        &mut self,
        entity: u64,
        dimension: String,
        attempt_token: Option<u64>,
        at: UtcInstant,
    ) -> (accepted: bool)
        requires
            old(self)@.wf(),
        ensures
            accepted == (old(self)@.running() && old(self)@.admitted_source(
                entity,
                attempt_token,
            ) is Some),
            final(self)@ == (if accepted {
                RuntimeView::followed(old(self)@.dimension_observed(dimension, at))
            } else {
                old(self)@
            }),
            final(self)@.wf(),
    {
        if !self.command_execution_allowed() {
            return false;
        }
        if self.admit_canonical_source_with_token(entity, attempt_token).is_none() {
            return false;
        }
        if self.note_dimension(dimension, at) {
            self.drain_events();
        }
        true
    }

    fn begin_scope(&mut self, epoch: u64, dimension: Option<String>, has_skylight: Option<bool>)
        requires
            old(self)@.wf(),
            old(self)@.epoch() == epoch,
            old(self)@.producer.owner is Some,
        ensures
            final(self)@ == old(self)@.scope_reset(epoch, dimension, has_skylight),
            final(self)@.wf(),
    {
        reveal(ProducerView::wf);
        self.producer.reset_scope(epoch);
        let stale_armor = self.observation.armor_epoch != Some(epoch);
        self.observation.clear_world();
        if stale_armor {
            self.observation.armor = None;
            self.observation.armor_epoch = None;
        }
        self.observation.light_cache.reset_scope(
            epoch,
            self.producer.scope_generation,
            dimension,
            has_skylight,
        );
        self.observation.bump_generation();
    }

    /// Resets everything public at a login or respawn of the owner. A dimension
    /// that the same packet carries is recorded after the reset.
    pub fn reset_entity_scope_for_owner_at_epoch_with_dimension_and_light(
        &mut self,
        entity: u64,
        expected_epoch: u64,
        dimension: Option<String>,
        has_skylight: Option<bool>,
        at: UtcInstant,
    ) -> (accepted: bool)
        requires
            old(self)@.wf(),
        ensures
            accepted == old(self)@.scope_resettable(entity, expected_epoch),
            final(self)@ == old(self)@.scope_boundary(
                entity,
                expected_epoch,
                dimension,
                has_skylight,
                at,
            ),
            final(self)@.wf(),
    {
        if self.writer.connection_epoch != expected_epoch {
            return false;
        }
        if !self.producer.is_owner(entity, expected_epoch)
            || !self.producer.source_fence.allows_unstamped(entity) {
            return false;
        }
        self.begin_scope(expected_epoch, dimension.clone(), has_skylight);
        if let Some(dimension) = dimension {
            if self.note_dimension(dimension, at) {
                self.drain_events();
            }
        }
        true
    }
}

/// A message may close the current attempt exactly if it is admitted and comes
/// from the client that the attempt is bound to, under the same token. An attempt
/// that was joined but not bound is closed only where that is allowed.
pub proof fn law_who_may_close(
    producer: ProducerView,
    entity: u64,
    epoch: u64,
    allow_unbound: bool,
    token: Option<u64>,
)
    ensures
        producer.closable(entity, epoch, allow_unbound, token) <==> {
            &&& match token {
                Some(token) => producer.bindings.contains((token, epoch)),
                None => !producer.source_fence.ambiguous
                    && producer.source_fence.pending_rebind_entity != Some(entity),
            }
            &&& match producer.attempt {
                AttemptAdmissionState::Bound {
                    epoch: bound_epoch,
                    entity: bound_entity,
                    attempt_token,
                    ..
                } => bound_epoch == epoch && bound_entity == entity && attempt_token == token
                    && producer.owner == Some((entity, epoch)),
                AttemptAdmissionState::Reserved {
                    epoch: reserved_epoch,
                    join_started_epoch,
                    attempt_token,
                    ..
                } => allow_unbound && reserved_epoch == epoch && join_started_epoch == Some(epoch)
                    && attempt_token == token,
                AttemptAdmissionState::NotStarted => false,
                AttemptAdmissionState::Closed { .. } => false,
            }
        },
{
}

/// Who owns the stream owns a new scope of it; who is disowned leaves none. The
/// fence remembers the owner, and the tokens stay bound.
pub proof fn law_owners_come_and_go(producer: ProducerView, entity: u64, epoch: u64)
    requires
        producer.scope_generation < u64::MAX,
    ensures
        ({
            let owned = producer.owned(entity, epoch);
            &&& owned.owner == Some((entity, epoch))
            &&& owned.source_fence.last_bound == Some(entity)
            &&& owned.scope_generation == producer.scope_generation + 1
            &&& owned.bindings == producer.bindings
            &&& owned.attempt == producer.attempt
            &&& owned.cache.epoch == Some(epoch)
        }),
        ({
            let disowned = producer.disowned();
            &&& disowned.owner is None
            &&& disowned.source_fence == producer.source_fence
            &&& disowned.scope_generation == producer.scope_generation + 1
            &&& disowned.bindings == producer.bindings
            &&& disowned.attempt == producer.attempt
            &&& disowned.cache.epoch is None
        }),
{
}

/// An entity owns the stream only in the epoch in which it was bound.
pub proof fn law_the_epoch_of_the_owner(runtime: RuntimeView, entity: u64, epoch: u64)
    ensures
        runtime.epoch_owned_by(entity) == Some(epoch) <==> runtime.producer.owner == Some(
            (entity, epoch),
        ),
{
}

/// A packet is stamped exactly if its source owns the stream in the current epoch
/// and is admitted; the stamp says whose it is, of which epoch and scope. It holds
/// as long as all of that does.
pub proof fn law_packets_are_stamped(runtime: RuntimeView, entity: u64, token: Option<u64>)
    ensures
        ({
            let epoch = runtime.writer.connection_epoch;
            let admitted = match token {
                Some(token) => runtime.producer.bindings.contains((token, epoch)),
                None => !runtime.producer.source_fence.ambiguous
                    && runtime.producer.source_fence.pending_rebind_entity != Some(entity),
            };
            let stamp = runtime.admitted_source(entity, token);
            &&& stamp is Some <==> runtime.producer.owner == Some((entity, epoch)) && admitted
            &&& stamp matches Some(source) ==> {
                &&& source.entity == entity
                &&& source.epoch == epoch
                &&& source.scope_generation == runtime.producer.scope_generation
                &&& source.attempt_token == token
                &&& runtime.source_valid(source)
            }
        }),
{
}

/// A stamp holds exactly while its epoch, its owner and its scope are the current
/// ones and its token is still admitted.
pub proof fn law_when_a_stamp_holds(runtime: RuntimeView, source: CanonicalSourceAdmission)
    ensures
        runtime.source_valid(source) <==> {
            &&& runtime.writer.connection_epoch == source.epoch
            &&& runtime.producer.owner == Some((source.entity, source.epoch))
            &&& runtime.producer.scope_generation == source.scope_generation
            &&& match source.attempt_token {
                Some(token) => runtime.producer.bindings.contains((token, source.epoch)),
                None => !runtime.producer.source_fence.ambiguous
                    && runtime.producer.source_fence.pending_rebind_entity != Some(source.entity),
            }
        },
{
}

/// The dimension that is set is the one that events are stamped with and changes
/// are told against.
pub proof fn law_the_dimension_is_set(runtime: RuntimeView, dimension: String)
    ensures
        ({
            let after = runtime.dimension_set(dimension);
            &&& after.writer.dimension == Some(dimension)
            &&& after.connection.reported_dimension == Some(dimension)
            &&& after.writer.connection_epoch == runtime.writer.connection_epoch
            &&& after.writer.next_event == runtime.writer.next_event
            &&& after.connection.state == runtime.connection.state
            &&& after.observation == runtime.observation
            &&& after.producer == runtime.producer
        }),
{
}

/// A dimension that is the first, or the same as before, is not told; one that is
/// another is told once, as the next event.
pub proof fn law_only_changes_of_the_dimension_are_told(
    runtime: RuntimeView,
    dimension: String,
    at: UtcInstant,
)
    ensures
        ({
            let (after, _) = runtime.dimension_observed(dimension, at);
            let known = runtime.connection.reported_dimension;
            let changed = known is Some && (known->0)@ != dimension@;
            &&& after.writer.dimension == Some(dimension)
            &&& after.connection.reported_dimension == Some(dimension)
            &&& !changed ==> after.writer.next_event == runtime.writer.next_event
            &&& changed ==> after == runtime.dimension_set(dimension).enqueued(
                FactSource::ServerObserved,
                BackendEventPayload::Lifecycle(
                    BackendLifecyclePayload::DimensionChanged { from: known->0, to: dimension },
                ),
                at,
            ).0
            &&& changed && runtime.writer.next_event < u64::MAX ==> after.writer.next_event
                == runtime.writer.next_event + 1
        }),
{
    reveal(RuntimeView::dispatched);
}

/// A login or a respawn of the owner starts everything anew: no world, no snapshot
/// and no entity of before is published, the scope has a new number, and the light
/// is that of the new scope, empty. Armor stays only if it was told in this epoch.
pub proof fn law_a_new_scope_starts_empty(
    runtime: RuntimeView,
    epoch: u64,
    dimension: Option<String>,
    has_skylight: Option<bool>,
)
    requires
        runtime.producer.scope_generation < u64::MAX,
    ensures
        ({
            let after = runtime.scope_reset(epoch, dimension, has_skylight);
            let seen = after.observation;
            &&& after.producer.scope_generation == runtime.producer.scope_generation + 1
            &&& after.producer.owner == runtime.producer.owner
            &&& seen.world is None
            &&& seen.snapshot is None
            &&& seen.snapshot_scope_generation == 0
            &&& seen.source is None
            &&& seen.tracked_entities.len() == 0
            &&& seen.entity_residuals.len() == 0
            &&& seen.generation != runtime.observation.generation
            &&& runtime.observation.armor_epoch == Some(epoch) ==> seen.armor
                == runtime.observation.armor && seen.armor_epoch == Some(epoch)
            &&& runtime.observation.armor_epoch != Some(epoch) ==> seen.armor is None
                && seen.armor_epoch is None
            &&& seen.light.chunks == Map::<i64, crate::light::ChunkLight>::empty()
            &&& seen.light.context is Some <==> dimension is Some
            &&& seen.light.context matches Some(context) ==> {
                &&& context.epoch == epoch
                &&& context.scope_generation == after.producer.scope_generation
                &&& Some(context.dimension) == dimension
                &&& context.has_skylight == has_skylight
                &&& context.geometry is None
            }
        }),
{
}

/// The boundary of a world is taken exactly from the owner in the current epoch,
/// if no earlier attempt can be meant.
pub proof fn law_whose_boundaries_count(
    runtime: RuntimeView,
    entity: u64,
    epoch: u64,
    dimension: Option<String>,
    has_skylight: Option<bool>,
    at: UtcInstant,
)
    ensures
        ({
            let taken = runtime.writer.connection_epoch == epoch && runtime.producer.owner == Some(
                (entity, epoch),
            ) && !runtime.producer.source_fence.ambiguous
                && runtime.producer.source_fence.pending_rebind_entity != Some(entity);
            let after = runtime.scope_boundary(entity, epoch, dimension, has_skylight, at);
            &&& runtime.scope_resettable(entity, epoch) <==> taken
            &&& !taken ==> after == runtime
            &&& taken && dimension is None ==> after == runtime.scope_reset(
                epoch,
                dimension,
                has_skylight,
            )
            &&& taken && dimension is Some ==> after == RuntimeView::followed(
                runtime.scope_reset(epoch, dimension, has_skylight).dimension_observed(
                    dimension->0,
                    at,
                ),
            )
        }),
{
}

} // verus!
