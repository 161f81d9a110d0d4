//! What holds across the operations of the runtime.

use std::sync::Arc;

use vstd::prelude::*;

use crate::closing::CloseEvidence;
use crate::config::{PhaseDeadlineToken, StopWatchdogToken};
use crate::command::component_failure;
use crate::contract::{
    Actuation, BackendClose, BackendError, BackendEventEnvelope, BackendEventKind,
    BackendEventPayload, BackendFailure, BackendLifecyclePayload, BackendState, CommandId,
    FactSource, Operation, StopReason,
};
use crate::entity_events::{EntityIdentity, NormalizedEntitySnapshot};
use crate::events::{lemma_drained_frame, same_but_queues};
use crate::execution::ReleaseStep;
use crate::lanes::successor;
use crate::observation::RuntimeObservationSource;
use crate::producers::RemovalPacket;
use crate::state::{
    AttemptAdmissionState, CanonicalSourceAdmission, ClientRef, ConnectionState, Effect,
    MovementState, ProducerView, QueuedCommand, RuntimeCounters, RuntimeFlags,
    RuntimeView,
};
use crate::time::UtcInstant;
use crate::timers::shown_attempt;

verus! {

/// Two states differ at most in their queues, in what was written and in the
/// count of lifecycle events: nothing was decided in between.
pub open spec fn same_decisions(a: RuntimeView, b: RuntimeView) -> bool {
    &&& a.config == b.config
    &&& a.flags == b.flags
    &&& a.movement == b.movement
    &&& a.connection == b.connection
    &&& a.producer == b.producer
    &&& a.observation == b.observation
    &&& a.commands == b.commands
    &&& a.completions == b.completions
    &&& a.epoch() == b.epoch()
    &&& a.writer.dimension == b.writer.dimension
    &&& a.writer.connection_attempt_id == b.writer.connection_attempt_id
    &&& a.counters == (RuntimeCounters {
        lifecycle_revision: a.counters.lifecycle_revision,
        ..b.counters
    })
}

/// Two states agree on who owns the attempt and on the flags; only commands,
/// movement and queues may differ.
pub open spec fn same_ownership(a: RuntimeView, b: RuntimeView) -> bool {
    &&& a.config == b.config
    &&& a.flags == b.flags
    &&& a.connection == b.connection
    &&& a.producer == b.producer
    &&& a.observation == b.observation
    &&& a.writer == b.writer
    &&& a.counters == (RuntimeCounters {
        movement_generation: a.counters.movement_generation,
        ..b.counters
    })
}

pub proof fn lemma_dispatched_frame(runtime: RuntimeView, event: Arc<BackendEventEnvelope>)
    ensures
        same_but_queues(runtime.dispatched(event).0, runtime),
        runtime.dispatched(event).0.effects == runtime.effects,
{
    reveal(RuntimeView::dispatched);
}

pub proof fn lemma_followed_frame(step: (RuntimeView, bool))
    ensures
        same_but_queues(RuntimeView::followed(step), step.0),
{
    lemma_drained_frame(step.0);
}

/// Writing an event decides nothing.
pub proof fn lemma_enqueued_frame(
    runtime: RuntimeView,
    source: FactSource,
    payload: BackendEventPayload,
    at: UtcInstant,
)
    ensures
        same_decisions(runtime.enqueued(source, payload, at).0, runtime),
        runtime.enqueued(source, payload, at).0.writer == runtime.writer.advanced(),
{
    let event = Arc::new(runtime.writer.event(source, payload, at));
    let written = RuntimeView {
        counters: if payload.spec_kind() == BackendEventKind::Lifecycle {
            runtime.revised()
        } else {
            runtime.counters
        },
        writer: runtime.writer.advanced(),
        ..runtime
    };
    lemma_dispatched_frame(written, event);
}

/// Writing an event and handing it on decides nothing.
pub proof fn lemma_emitted_frame(
    runtime: RuntimeView,
    source: FactSource,
    payload: BackendEventPayload,
    at: UtcInstant,
)
    ensures
        same_decisions(runtime.emitted(source, payload, at), runtime),
        runtime.emitted(source, payload, at).writer == runtime.writer.advanced(),
{
    lemma_enqueued_frame(runtime, source, payload, at);
    lemma_followed_frame(runtime.enqueued(source, payload, at));
}

/// Letting those who wait for room try again decides nothing.
pub proof fn lemma_pumped_frame(runtime: RuntimeView)
    ensures
        same_but_queues(runtime.pumped(), runtime),
{
    reveal(RuntimeView::pumped);
    let resumed = runtime.with_subscribers_resumed();
    lemma_drained_frame(resumed);
    let retried = resumed.drained_if_active().with_stalled_retried();
    lemma_drained_frame(retried);
}

/// Two states differ at most in completions and effects.
pub open spec fn same_but_completions(a: RuntimeView, b: RuntimeView) -> bool {
    &&& a.config == b.config
    &&& a.flags == b.flags
    &&& a.counters == b.counters
    &&& a.movement == b.movement
    &&& a.connection == b.connection
    &&& a.writer == b.writer
    &&& a.producer == b.producer
    &&& a.observation == b.observation
    &&& a.commands == b.commands
}

/// Settling a command changes nothing but its completion.
pub proof fn lemma_completion_frames(
    runtime: RuntimeView,
    id: Option<u64>,
    operation: Operation,
    release_on_cancel: bool,
    result: Result<(), BackendError>,
)
    ensures
        same_but_completions(
            runtime.completion_cancelled(id, operation, release_on_cancel),
            runtime,
        ),
        same_but_completions(runtime.completion_finished(id, result), runtime),
{
}

proof fn lemma_commands_cancelled_frame(runtime: RuntimeView, commands: Seq<QueuedCommand>)
    ensures
        same_ownership(runtime.commands_cancelled(commands), runtime),
        runtime.commands_cancelled(commands).movement == runtime.movement,
        runtime.commands_cancelled(commands).commands == runtime.commands,
        runtime.commands_cancelled(commands).counters == runtime.counters,
    decreases commands.len(),
{
    if commands.len() > 0 {
        lemma_commands_cancelled_frame(runtime, commands.drop_last());
    }
}

/// Cancelling the queued commands leaves the attempt and the movement alone.
pub proof fn lemma_pending_cancelled_frame(runtime: RuntimeView)
    ensures
        same_ownership(runtime.pending_cancelled(), runtime),
        runtime.pending_cancelled().movement == runtime.movement,
        runtime.pending_cancelled().commands == Seq::<QueuedCommand>::empty(),
        runtime.pending_cancelled().counters == runtime.counters,
{
    reveal(RuntimeView::pending_cancelled);
    lemma_commands_cancelled_frame(
        RuntimeView { commands: Seq::empty(), ..runtime },
        runtime.commands,
    );
}

/// Cancelling the movement leaves the attempt alone.
pub proof fn lemma_movement_cancelled_frame(runtime: RuntimeView, release_on_cancel: bool)
    ensures
        same_ownership(runtime.movement_cancelled(release_on_cancel), runtime),
        release_on_cancel ==> runtime.movement_cancelled(release_on_cancel).counters
            == runtime.counters,
        release_on_cancel && runtime.movement.cancel_signal is Some ==> runtime.movement_cancelled(
            release_on_cancel,
        ).movement.id == runtime.movement.id,
        runtime.movement == MovementState::idle() ==> runtime.movement_cancelled(
            release_on_cancel,
        ).movement == MovementState::idle(),
{
    let signal = runtime.movement.cancel_signal;
    let completion = runtime.movement.completion;
    let begun = if release_on_cancel {
        runtime
    } else {
        runtime.generation_advanced()
    };
    lemma_completion_frames(
        begun,
        completion,
        Operation::MovementSuperseded,
        release_on_cancel,
        Ok(()),
    );
    lemma_superseded_frame(
        begun,
        begun.completion_cancelled(completion, Operation::MovementSuperseded, release_on_cancel),
        signal,
        completion,
        release_on_cancel,
    );
}

proof fn lemma_superseded_frame(
    begun: RuntimeView,
    told: RuntimeView,
    signal: Option<u64>,
    completion: Option<u64>,
    release_on_cancel: bool,
)
    requires
        same_but_completions(told, begun),
    ensures
        ({
            let raised = told.signal_raised(signal);
            let after = if release_on_cancel && raised.release_deferred(signal, completion) {
                raised.with_movement(MovementState { cancel_signal: None, ..raised.movement })
            } else {
                raised.with_movement(
                    MovementState {
                        registration: raised.movement.registration,
                        ..MovementState::idle()
                    },
                )
            };
            &&& same_ownership(after, begun)
            &&& after.counters == begun.counters
            &&& release_on_cancel && signal is Some ==> after.movement.id == begun.movement.id
            &&& begun.movement == MovementState::idle() ==> after.movement
                == MovementState::idle()
        }),
{
}

/// A new attempt has the next epoch, no owner and nothing published, and waits
/// for the client it is reserved for.
pub proof fn law_attempts_start_afresh(
    runtime: RuntimeView,
    reconnect_token: Option<u64>,
    at: UtcInstant,
)
    requires
        runtime.attempt_begun(reconnect_token, at).1 is Some,
    ensures
        ({
            let after = runtime.attempt_begun(reconnect_token, at).0;
            &&& after.epoch() == runtime.epoch() + 1
            &&& after.producer.owner is None
            &&& after.producer.bindings == runtime.producer.bindings
            &&& after.producer.attempt == (AttemptAdmissionState::Reserved {
                epoch: after.epoch(),
                reconnect_token,
                join_started_epoch: None,
                attempt_token: None,
            })
            &&& after.observation.snapshot is None
            &&& after.observation.world is None
            &&& after.writer.dimension is None
            &&& after.running()
            &&& after.writer.next_event == successor(runtime.writer.next_event)
            &&& after.connection.state is Connecting
        }),
{
    reveal(RuntimeView::attempt_begun);
    reveal(RuntimeView::attempt_cleaned);
    reveal(RuntimeView::attempt_reserved);
    reveal(RuntimeView::attempt_announced);
    let reserved = runtime.add_marked(reconnect_token).attempt_cleaned().attempt_reserved(
        reconnect_token,
    );
    let event = Arc::new(
        reserved.writer.event(
            FactSource::Commanded,
            BackendEventPayload::Lifecycle(
                BackendLifecyclePayload::ConnectionRequested {
                    attempt: shown_attempt(reserved.counters.retry_ordinal),
                },
            ),
            at,
        ),
    );
    lemma_dispatched_frame(
        RuntimeView { writer: reserved.writer.advanced(), ..reserved },
        event,
    );
}

/// Whatever was stamped in an earlier attempt is void in the next one: packets,
/// clients and readers alike.
pub proof fn law_attempts_do_not_mix(
    runtime: RuntimeView,
    reconnect_token: Option<u64>,
    at: UtcInstant,
    source: CanonicalSourceAdmission,
    client: ClientRef,
    reader: RuntimeObservationSource,
)
    requires
        runtime.attempt_begun(reconnect_token, at).1 is Some,
        source.epoch <= runtime.epoch(),
        reader.bound_epoch <= runtime.epoch(),
    ensures
        ({
            let after = runtime.attempt_begun(reconnect_token, at).0;
            &&& !after.source_valid(source)
            &&& !after.owned_by(client)
            &&& after.stale(reader) == Some(
                BackendError::StaleEpoch {
                    bound_epoch: reader.bound_epoch,
                    current_epoch: after.epoch(),
                },
            )
        }),
{
    law_attempts_start_afresh(runtime, reconnect_token, at);
}

/// A token that belongs to an earlier attempt neither closes the current one nor
/// claims its reconnect, and its packets are not taken.
pub proof fn law_old_tokens_are_powerless(
    runtime: RuntimeView,
    token: u64,
    old_epoch: u64,
    entity: u64,
    evidence: CloseEvidence,
    failure_entity: Option<u64>,
    at: UtcInstant,
)
    requires
        runtime.wf(),
        runtime.producer.bindings.contains((token, old_epoch)),
        old_epoch != runtime.epoch(),
    ensures
        runtime.ended_by_source(
            evidence,
            entity,
            runtime.epoch(),
            failure_entity,
            Some(token),
            at,
        ) == (runtime, None::<BackendClose>),
        !runtime.reconnect_claimable(Some(token)),
        runtime.admitted_source(entity, Some(token)) is None,
        !runtime.join_admitted(runtime.epoch(), Some(token)) || runtime.join_repeated(
            runtime.epoch(),
        ),
{
    reveal(ProducerView::wf);
    let bindings = runtime.producer.bindings;
    let i = choose|i: int| 0 <= i < bindings.len() && bindings[i] == (token, old_epoch);
    if bindings.contains((token, runtime.epoch())) {
        let j = choose|j: int| 0 <= j < bindings.len() && bindings[j] == (token, runtime.epoch());
        assert(i != j);
    }
    assert(bindings[i].0 == token);
}

/// An attempt belongs to the one client that bound it: no other can bind it.
pub proof fn law_attempts_are_bound_once(
    runtime: RuntimeView,
    entity: u64,
    retry: Option<u64>,
    init_path: bool,
    token: Option<u64>,
    at: UtcInstant,
    other: u64,
    other_retry: Option<u64>,
    other_path: bool,
    other_token: Option<u64>,
)
    requires
        runtime.binds_reservation(entity, retry, init_path, token),
        other != entity,
    ensures
        ({
            let after = runtime.attempt_bound(entity, retry, init_path, token, at).0;
            &&& after.producer.owner == Some((entity, runtime.epoch()))
            &&& !after.binds_reservation(other, other_retry, other_path, other_token)
            &&& !after.bound_already(other, other_retry, other_path, other_token)
            &&& after.attempt_bound(other, other_retry, other_path, other_token, at) == (
                after,
                None::<(bool, Option<PhaseDeadlineToken>)>,
            )
        }),
{
    lemma_bound_frame(runtime, entity, retry, init_path, token, at);
    reveal(RuntimeView::attempt_bound);
}

pub proof fn lemma_bound_frame(
    runtime: RuntimeView,
    entity: u64,
    retry: Option<u64>,
    init_path: bool,
    token: Option<u64>,
    at: UtcInstant,
)
    requires
        runtime.binds_reservation(entity, retry, init_path, token),
    ensures
        ({
            let after = runtime.attempt_bound(entity, retry, init_path, token, at).0;
            &&& after.producer == runtime.attempt_owned(entity, token).producer
            &&& after.flags == runtime.flags
            &&& after.epoch() == runtime.epoch()
            &&& after.counters.reconnect_attempt_token
                == runtime.counters.reconnect_attempt_token
            &&& after.producer.owner == Some((entity, runtime.epoch()))
            &&& after.producer.bindings == runtime.producer.bindings
            &&& after.producer.attempt == (AttemptAdmissionState::Bound {
                epoch: runtime.epoch(),
                entity,
                reconnect_token: runtime.producer.attempt->Reserved_reconnect_token,
                attempt_token: token,
            })
        }),
{
    reveal(RuntimeView::attempt_bound);
    reveal(RuntimeView::attempt_owned);
    reveal(RuntimeView::login_started);
    let owned = runtime.attempt_owned(entity, token);
    if owned.running() {
        let shown = owned.with_state(
            BackendState::LoggingIn {
                epoch: owned.epoch(),
                attempt_id: owned.writer.connection_attempt_id,
                attempt: shown_attempt(owned.counters.retry_ordinal),
            },
        ).stable_advanced();
        lemma_enqueued_frame(
            shown.phase_advanced(),
            FactSource::ServerObserved,
            BackendEventPayload::Lifecycle(
                BackendLifecyclePayload::TransportConnected,
            ),
            at,
        );
    }
}

/// The same client may bind its attempt again; nothing changes by it, and the
/// connection is not announced twice.
pub proof fn law_binding_again_changes_nothing(
    runtime: RuntimeView,
    entity: u64,
    token: Option<u64>,
    at: UtcInstant,
    later: UtcInstant,
)
    requires
        runtime.binds_reservation(entity, None, true, token),
    ensures
        ({
            let after = runtime.attempt_bound(entity, None, true, token, at).0;
            after.attempt_bound(entity, None, true, token, later) == (
                after,
                Some((false, None::<PhaseDeadlineToken>)),
            )
        }),
{
    lemma_bound_frame(runtime, entity, None, true, token, at);
    reveal(RuntimeView::attempt_bound);
}

pub proof fn lemma_swept_frame(runtime: RuntimeView)
    ensures
        runtime.attempt_swept().flags == runtime.flags,
        runtime.attempt_swept().writer == runtime.writer,
        runtime.attempt_swept().producer == runtime.producer,
        runtime.attempt_swept().connection == (ConnectionState {
            reported_dimension: None,
            ..runtime.connection
        }),
        runtime.attempt_swept().commands == Seq::<QueuedCommand>::empty(),
        runtime.attempt_swept().observation == runtime.observation.cleared(),
        runtime.attempt_swept().config == runtime.config,
        runtime.attempt_swept().counters == runtime.counters,
        runtime.movement.cancel_signal is Some ==> runtime.attempt_swept().movement.id
            == runtime.movement.id,
        runtime.movement == MovementState::idle() ==> runtime.attempt_swept().movement
            == MovementState::idle(),
{
    lemma_movement_cancelled_frame(runtime, true);
    lemma_pending_cancelled_frame(runtime.movement_cancelled(true));
}

pub proof fn lemma_disconnected_frame(
    runtime: RuntimeView,
    evidence: CloseEvidence,
    failure_entity: Option<u64>,
    at: UtcInstant,
)
    requires
        !runtime.flags.stopped_reported,
        !runtime.flags.disconnect_reported,
    ensures
        ({
            let step = runtime.disconnected(evidence, failure_entity, at);
            &&& step.0.flags == (RuntimeFlags {
                disconnect_reported: true,
                ready: false,
                ..runtime.flags
            })
            &&& step.0.connection.last_close == Some(step.1)
            &&& step.0.connection.stop_reason == runtime.connection.stop_reason
            &&& step.0.connection.swarm == runtime.connection.swarm
            &&& step.0.connection.active_client is None
            &&& step.0.producer.owner is None
            &&& step.0.producer.attempt == (AttemptAdmissionState::Closed {
                epoch: runtime.epoch(),
            })
            &&& step.0.epoch() == runtime.epoch()
            &&& step.0.writer == runtime.writer.advanced()
            &&& step.0.commands == Seq::<QueuedCommand>::empty()
            &&& step.0.observation == runtime.observation.cleared()
            &&& step.0.config == runtime.config
            &&& !step.3
            &&& step.0.counters.movement_generation == runtime.counters.movement_generation
            &&& runtime.movement.cancel_signal is Some ==> step.0.movement.id
                == runtime.movement.id
            &&& runtime.movement == MovementState::idle() ==> step.0.movement
                == MovementState::idle()
            &&& step.1 == runtime.effective_evidence(evidence).close(runtime.epoch(), at)
        }),
{
    reveal(RuntimeView::disconnected);
    reveal(RuntimeView::sealed);
    let effective = runtime.effective_evidence(evidence);
    let close = effective.close(runtime.epoch(), at);
    let sealed = runtime.sealed(close, effective.failure, failure_entity);
    lemma_swept_frame(sealed);
    lemma_enqueued_frame(
        sealed.attempt_swept(),
        FactSource::ServerObserved,
        BackendEventPayload::Lifecycle(
            BackendLifecyclePayload::ConnectionClosed { close },
        ),
        at,
    );
}

/// The end of a connection is written once. Whoever reports it again gets the
/// close that is on record, and nothing more is written.
pub proof fn law_a_close_is_written_once(
    runtime: RuntimeView,
    first: CloseEvidence,
    at: UtcInstant,
    second: CloseEvidence,
    later: UtcInstant,
)
    requires
        !runtime.flags.stopped_reported,
        !runtime.flags.disconnect_reported,
    ensures
        ({
            let after = runtime.ended_by(first, None, at);
            let close = runtime.disconnected(first, None, at).1;
            &&& after.flags.disconnect_reported
            &&& after.writer == runtime.writer.advanced()
            &&& after.disconnected(second, None, later).1 == close
            &&& after.ended_by(second, None, later).writer == after.writer
            &&& after.ended_by(second, None, later).connection.last_close == Some(close)
        }),
{
    lemma_disconnected_frame(runtime, first, None, at);
    let step = runtime.disconnected(first, None, at);
    lemma_followed_frame((step.0, step.2));
    let after = runtime.ended_by(first, None, at);
    reveal(RuntimeView::disconnected);
    lemma_swept_frame(after);
}

/// Once a connection has ended nobody owns it: its packets, its client and its
/// commands are not taken any more, and nothing of it stays published.
pub proof fn law_a_closed_attempt_is_over(
    runtime: RuntimeView,
    evidence: CloseEvidence,
    at: UtcInstant,
    entity: u64,
    token: Option<u64>,
    client: ClientRef,
)
    requires
        !runtime.flags.stopped_reported,
        !runtime.flags.disconnect_reported,
    ensures
        ({
            let after = runtime.ended_by(evidence, None, at);
            &&& after.admitted_source(entity, token) is None
            &&& !after.owned_by(client)
            &&& !after.running()
            &&& after.commands == Seq::<QueuedCommand>::empty()
            &&& after.observation.snapshot is None
            &&& !after.binds_reservation(entity, None, true, token)
            &&& !after.bound_already(entity, None, true, token)
        }),
{
    lemma_disconnected_frame(runtime, evidence, None, at);
    let step = runtime.disconnected(evidence, None, at);
    lemma_followed_frame((step.0, step.2));
}

/// Whoever hears of a removal still finds every other entity as it was: a
/// packet's later removals show only once their own turn comes.
pub proof fn law_a_removal_leaves_the_others(
    runtime: RuntimeView,
    packet: RemovalPacket,
    local_protocol_id: Option<i32>,
    index: u64,
    id: i32,
    at: UtcInstant,
    other: int,
)
    requires
        0 <= other < runtime.observation.tracked_entities.len(),
        runtime.observation.tracked_entities[other].identity != (EntityIdentity {
            epoch: packet.epoch,
            protocol_id: id,
        }),
    ensures
        runtime.entity_removed(
            packet,
            local_protocol_id,
            index,
            id,
            at,
        ).observation.tracked_entities.contains(runtime.observation.tracked_entities[other]),
{
    let entities = runtime.observation.tracked_entities;
    let removed = EntityIdentity { epoch: packet.epoch, protocol_id: id };
    let input = packet.input(index, id);
    let taken = runtime.entity_taken(packet.owner, packet.epoch, input);
    entities.lemma_filter_contains(
        |e: Arc<NormalizedEntitySnapshot>| e.identity != removed,
        other,
    );
    assert(entities.contains(entities[other]));
    if let Some((event, _)) = taken.1 {
        let shown = RuntimeView { observation: runtime.observation.without(removed), ..taken.0 };
        lemma_emitted_frame(
            shown,
            FactSource::ServerObserved,
            BackendEventPayload::Entity(event.shown()),
            at,
        );
    }
}

/// A boundary of the world voids every stamp that was made before it, so no
/// packet of the old world is taken in the new one.
pub proof fn law_world_boundaries_void_stamps(
    runtime: RuntimeView,
    source: CanonicalSourceAdmission,
    dimension: Option<String>,
    has_skylight: Option<bool>,
    at: UtcInstant,
)
    requires
        runtime.source_valid(source),
        runtime.scope_resettable(source.entity, source.epoch),
    ensures
        ({
            let after = runtime.scope_boundary(
                source.entity,
                source.epoch,
                dimension,
                has_skylight,
                at,
            );
            &&& !after.source_valid(source)
            &&& after.producer.owner == runtime.producer.owner
            &&& after.epoch() == runtime.epoch()
            &&& after.observation.snapshot is None
            &&& after.observation.tracked_entities.len() == 0
        }),
{
    let reset = runtime.scope_reset(source.epoch, dimension, has_skylight);
    assert(successor(runtime.producer.scope_generation) != runtime.producer.scope_generation);
    if let Some(dimension) = dimension {
        let set = reset.dimension_set(dimension);
        if let Some(previous) = reset.connection.reported_dimension {
            lemma_enqueued_frame(
                set,
                FactSource::ServerObserved,
                BackendEventPayload::Lifecycle(
                    BackendLifecyclePayload::DimensionChanged {
                        from: previous,
                        to: dimension,
                    },
                ),
                at,
            );
        }
        lemma_followed_frame(reset.dimension_observed(dimension, at));
    }
}

pub proof fn lemma_death_frame(runtime: RuntimeView, released: bool)
    ensures
        runtime.movement_ended_by_death(released).flags == runtime.flags,
        runtime.movement_ended_by_death(released).connection == runtime.connection,
        runtime.movement_ended_by_death(released).movement == MovementState::idle(),
        runtime.movement_ended_by_death(released).writer == runtime.writer,
{
    reveal(RuntimeView::movement_ended_by_death);
    let completion = runtime.movement.completion;
    let advanced = runtime.generation_advanced();
    let result = if released {
        Err(BackendError::Cancelled { operation: Operation::MovementStoppedByDeath })
    } else {
        Err(component_failure(Actuation::DeathMove))
    };
    lemma_completion_frames(
        advanced,
        completion,
        Operation::MovementStoppedByDeath,
        true,
        result,
    );
    let told = if runtime.movement.id is Some || completion is Some
        || runtime.movement.registration {
        advanced.completion_cancelled(
            completion,
            Operation::MovementStoppedByDeath,
            true,
        ).signal_raised(runtime.movement.cancel_signal)
    } else {
        runtime
    };
    assert(told.flags == runtime.flags && told.connection == runtime.connection && told.writer
        == runtime.writer);
    lemma_completion_frames(
        told.with_movement(MovementState::idle()),
        completion,
        Operation::MovementStoppedByDeath,
        true,
        result,
    );
}

/// A death is taken once per life: until the next spawn, a second one is not,
/// and the movement of the dead is over.
pub proof fn law_one_death_per_life(
    runtime: RuntimeView,
    released: bool,
    at: UtcInstant,
    again: bool,
    later: UtcInstant,
)
    requires
        runtime.death_admissible(),
    ensures
        ({
            let after = runtime.died(released, at);
            &&& !after.death_admissible()
            &&& after.died(again, later) == after
            &&& after.movement == MovementState::idle()
            &&& !after.flags.ready
            &&& after.connection.state is Dead
            &&& after.spawn_marked().death_admissible()
        }),
{
    let marked = runtime.with_flags(
        RuntimeFlags { death_reported: true, ready: false, ..runtime.flags },
    ).with_state(
        BackendState::Dead {
            epoch: runtime.epoch(),
            attempt_id: runtime.writer.connection_attempt_id,
            died_at: at,
        },
    );
    lemma_death_frame(marked, released);
    lemma_emitted_frame(
        marked.movement_ended_by_death(released),
        FactSource::ServerObserved,
        BackendEventPayload::Lifecycle(BackendLifecyclePayload::Died),
        at,
    );
}

/// A failure is reported once per attempt; a later one is not.
pub proof fn law_one_fault_per_attempt(
    runtime: RuntimeView,
    failure: BackendFailure,
    at: UtcInstant,
    other: BackendFailure,
    later: UtcInstant,
)
    requires
        runtime.fault_admissible(),
    ensures
        runtime.faulted(failure, at).faulted(other, later) == runtime.faulted(failure, at),
        runtime.faulted(failure, at).connection.state == (BackendState::Faulted { failure }),
        runtime.faulted(failure, at).writer == runtime.writer.advanced(),
{
    lemma_emitted_frame(
        runtime.with_flags(
            RuntimeFlags { faulted_reported: true, ..runtime.flags },
        ).with_state(BackendState::Faulted { failure }),
        FactSource::ServerObserved,
        BackendEventPayload::Lifecycle(
            BackendLifecyclePayload::Faulted { failure },
        ),
        at,
    );
}

/// The flags once a stop has been asked for.
pub open spec fn stop_flags(flags: RuntimeFlags) -> RuntimeFlags {
    RuntimeFlags { stop_requested: true, dispatch_cancelled: true, ..flags }
}

pub proof fn lemma_signalled_frame(runtime: RuntimeView)
    ensures
        runtime.stop_signalled().flags == stop_flags(runtime.flags),
        runtime.stop_signalled().movement == runtime.movement,
        runtime.stop_signalled().connection == runtime.connection,
        runtime.stop_signalled().producer == runtime.producer,
        runtime.stop_signalled().writer == runtime.writer,
        runtime.stop_signalled().commands == runtime.commands,
        runtime.stop_signalled().completions == runtime.completions,
        runtime.stop_signalled().counters == runtime.counters,
{
    lemma_pumped_frame(
        runtime.with_flags(
            RuntimeFlags { stop_requested: true, ..runtime.flags },
        ).admission_ended(),
    );
}

pub proof fn lemma_shutdown_frame(runtime: RuntimeView)
    ensures
        runtime.shutdown_asked().flags == (RuntimeFlags {
            shutdown_requested: true,
            dispatch_cancelled: true,
            ..runtime.flags
        }),
        runtime.shutdown_asked().movement == runtime.movement,
        runtime.shutdown_asked().connection == runtime.connection,
        runtime.shutdown_asked().producer == runtime.producer,
        runtime.shutdown_asked().writer == runtime.writer,
        runtime.shutdown_asked().commands == runtime.commands,
{
    lemma_pumped_frame(
        runtime.with_flags(
            RuntimeFlags { shutdown_requested: true, ..runtime.flags },
        ).with_effect(Effect::Shutdown).admission_ended(),
    );
}

pub proof fn lemma_begun_frame(runtime: RuntimeView, reason: StopReason)
    ensures
        ({
            let after = runtime.stop_begun(reason).stop_timed().pending_cancelled();
            &&& after.flags == (RuntimeFlags {
                stopping: true,
                stop_requested: true,
                reconnect_add_pending: false,
                reconnect_pending: false,
                ready: false,
                ..runtime.flags
            })
            &&& after.connection.stop_reason == Some(reason)
            &&& after.connection.state is Stopping
            &&& after.movement == runtime.movement
            &&& after.producer == runtime.producer
            &&& after.counters.movement_generation == runtime.counters.movement_generation
            &&& after.epoch() == runtime.epoch()
            &&& after.writer == runtime.writer
            &&& after.commands == Seq::<QueuedCommand>::empty()
        }),
{
    reveal(RuntimeView::stop_begun);
    lemma_pending_cancelled_frame(runtime.stop_begun(reason).stop_timed());
}

pub proof fn lemma_closed_by_stop_frame(runtime: RuntimeView, at: UtcInstant)
    requires
        runtime.flags.stopping,
        !runtime.flags.stopped_reported,
    ensures
        ({
            let after = runtime.closed_by_stop(at);
            &&& after.flags.stopping
            &&& after.flags.stop_requested == runtime.flags.stop_requested
            &&& !after.flags.stopped_reported
            &&& !after.flags.reconnect_pending || runtime.flags.reconnect_pending
            &&& after.connection.stop_reason == runtime.connection.stop_reason
            &&& after.epoch() == runtime.epoch()
            &&& after.producer.owner is None || after.producer == runtime.producer
            &&& after.counters.movement_generation == runtime.counters.movement_generation
            &&& runtime.movement.cancel_signal is Some ==> after.movement.id
                == runtime.movement.id
            &&& runtime.commands.len() == 0 ==> after.commands.len() == 0
            &&& runtime.movement == MovementState::idle() ==> after.movement
                == MovementState::idle()
        }),
{
    let evidence = CloseEvidence::deliberate_stop();
    if runtime.epoch() > 0 && !runtime.flags.disconnect_reported {
        lemma_disconnected_frame(runtime, evidence, None, at);
        let step = runtime.disconnected(evidence, None, at);
        lemma_followed_frame((step.0, step.2));
    } else {
        lemma_movement_cancelled_frame(runtime, true);
    }
}

/// The end of a run is announced once: the first announcement sets the state,
/// and every later one changes nothing and writes nothing.
pub proof fn law_the_end_is_announced_once(
    runtime: RuntimeView,
    reason: StopReason,
    cancel_watchdog: bool,
    at: UtcInstant,
    other: StopReason,
    other_cancel: bool,
    later: UtcInstant,
)
    requires
        !runtime.flags.stopped_reported,
    ensures
        ({
            let after = runtime.stop_announced(reason, cancel_watchdog, at).0;
            &&& after.flags == (RuntimeFlags { stopped_reported: true, ..runtime.flags })
            &&& after.connection.state == (BackendState::Stopped { reason: Some(reason) })
            &&& after.writer == runtime.writer.advanced()
            &&& after.epoch() == runtime.epoch()
            &&& after.commands == runtime.commands
            &&& after.movement == runtime.movement
            &&& after.stop_announced(other, other_cancel, later) == (after, false)
        }),
{
    reveal(RuntimeView::stop_announced);
    let sealed = runtime.with_flags(
        RuntimeFlags { stopped_reported: true, ..runtime.flags },
    ).watchdog_advanced();
    let told = if cancel_watchdog {
        sealed.with_effect(Effect::CancelStopWatchdog)
    } else {
        sealed
    };
    lemma_enqueued_frame(
        told.with_state(BackendState::Stopped { reason: Some(reason) }),
        FactSource::Commanded,
        BackendEventPayload::Lifecycle(
            BackendLifecyclePayload::Stopped { reason },
        ),
        at,
    );
}

pub proof fn lemma_finalized_frame(runtime: RuntimeView, at: UtcInstant)
    requires
        runtime.flags.stopping,
        !runtime.flags.stopped_reported,
    ensures
        ({
            let after = runtime.stop_finalized(at);
            &&& after.flags.stopping
            &&& after.flags.stop_requested == runtime.flags.stop_requested
            &&& after.flags.reconnect_pending == runtime.flags.reconnect_pending
            &&& after.commands == runtime.commands
            &&& runtime.stop_ready() ==> after.flags.stopped_reported
                && after.flags.shutdown_requested && after.connection.state
                == (BackendState::Stopped { reason: runtime.connection.stop_reason })
            &&& !runtime.stop_ready() ==> after == runtime
        }),
{
    reveal(RuntimeView::stop_finalized);
    if runtime.stop_ready() {
        let reason = runtime.connection.stop_reason->0;
        law_the_end_is_announced_once(
            runtime.without_stop_reason(),
            reason,
            true,
            at,
            reason,
            true,
            at,
        );
        let step = runtime.without_stop_reason().stop_announced(reason, true, at);
        lemma_followed_frame(step);
        lemma_shutdown_frame(RuntimeView::followed(step));
    }
}

pub proof fn lemma_stopped_frame(runtime: RuntimeView, reason: StopReason, at: UtcInstant)
    requires
        !runtime.flags.stopping,
        !runtime.flags.stopped_reported,
    ensures
        ({
            let after = runtime.stopped_by(reason, at);
            &&& after.flags.stopping
            &&& after.flags.stop_requested
            &&& !after.flags.reconnect_pending
            &&& after.commands.len() == 0
            &&& runtime.movement == MovementState::idle() ==> after.flags.stopped_reported
                && after.flags.shutdown_requested && after.connection.state
                == (BackendState::Stopped { reason: Some(reason) })
        }),
{
    lemma_signalled_frame(runtime);
    let signalled = runtime.stop_signalled();
    lemma_begun_frame(signalled, reason);
    let begun = signalled.stop_begun(reason).stop_timed().pending_cancelled();
    lemma_closed_by_stop_frame(begun, at);
    let exited = begun.closed_by_stop(at).swarm_exited();
    assert(exited.flags == begun.closed_by_stop(at).flags);
    assert(exited.connection == begun.closed_by_stop(at).connection);
    assert(exited.movement == begun.closed_by_stop(at).movement);
    assert(exited.commands == begun.closed_by_stop(at).commands);
    lemma_finalized_frame(exited, at);
}

/// A stop is final. No attempt begins after it, no reconnect is claimed, no
/// command is queued or left in the queue, and a second stop writes nothing and
/// keeps the state that the first one reached.
pub proof fn law_a_stop_is_final(
    runtime: RuntimeView,
    reason: StopReason,
    at: UtcInstant,
    reconnect_token: Option<u64>,
    token: Option<u64>,
    other: StopReason,
    later: UtcInstant,
)
    requires
        !runtime.flags.stopping,
        !runtime.flags.stopped_reported,
    ensures
        ({
            let after = runtime.stopped_by(reason, at);
            &&& after.attempt_begun(reconnect_token, later) == (after, None::<bool>)
            &&& !after.reconnect_claimable(token)
            &&& after.retry_admitted(later) == (after, None::<u64>)
            &&& after.commands.len() == 0
            &&& after.command_refusal(None) is Some
            &&& after.stopped_by(other, later) == after.stop_signalled()
            &&& after.stopped_by(other, later).writer == after.writer
            &&& after.stopped_by(other, later).connection == after.connection
        }),
{
    lemma_stopped_frame(runtime, reason, at);
    let after = runtime.stopped_by(reason, at);
    lemma_signalled_frame(after);
    reveal(RuntimeView::attempt_begun);
}

/// A stop that finds no movement ends at once: the end is announced with the
/// reason that was given, whether or not there ever was a connection.
pub proof fn law_a_stop_without_movement_ends_at_once(
    runtime: RuntimeView,
    reason: StopReason,
    at: UtcInstant,
)
    requires
        !runtime.flags.stopping,
        !runtime.flags.stopped_reported,
        runtime.movement == MovementState::idle(),
    ensures
        runtime.stopped_by(reason, at).connection.state == (BackendState::Stopped {
            reason: Some(reason),
        }),
        runtime.stopped_by(reason, at).flags.stopped_reported,
        runtime.stopped_by(reason, at).flags.shutdown_requested,
{
    lemma_stopped_frame(runtime, reason, at);
}

/// A stop leaves the keys to the movement that holds them: the movement is still
/// there, and its own client may release the inputs.
pub proof fn law_a_stop_leaves_the_release_to_the_movement(
    runtime: RuntimeView,
    client: ClientRef,
    id: CommandId,
    generation: u64,
    reason: StopReason,
    at: UtcInstant,
)
    requires
        !runtime.flags.stopping,
        !runtime.flags.stopped_reported,
        runtime.owned_by(client),
        runtime.movement_owned(id, generation),
        runtime.movement.cancel_signal is Some,
    ensures
        runtime.stopped_by(reason, at).flags.stopping,
        runtime.stopped_by(reason, at).movement_owned(id, generation),
        runtime.stopped_by(reason, at).release_permitted(client, runtime.epoch(), id, generation)
            == ReleaseStep::Release,
{
    lemma_signalled_frame(runtime);
    let signalled = runtime.stop_signalled();
    lemma_begun_frame(signalled, reason);
    let begun = signalled.stop_begun(reason).stop_timed().pending_cancelled();
    lemma_closed_by_stop_frame(begun, at);
    let exited = begun.closed_by_stop(at).swarm_exited();
    assert(exited.movement == begun.closed_by_stop(at).movement);
    lemma_finalized_frame(exited, at);
    assert(runtime.stopped_by(reason, at) == exited);
}

proof fn lemma_all_settled_frame(runtime: RuntimeView, commands: Seq<QueuedCommand>)
    ensures
        same_but_completions(runtime.all_settled(commands), runtime),
    decreases commands.len(),
{
    if commands.len() > 0 {
        lemma_all_settled_frame(runtime, commands.drop_last());
        let before = runtime.all_settled(commands.drop_last());
        let result = Err(BackendError::Cancelled { operation: Operation::StopWatchdog });
        let completion = commands.last().completion;
        lemma_completion_frames(before, completion, Operation::StopWatchdog, false, result);
        lemma_completion_frames(
            before.completion_cancelled(completion, Operation::StopWatchdog, false),
            completion,
            Operation::StopWatchdog,
            false,
            result,
        );
    }
}

proof fn lemma_watchdog_settled_frame(runtime: RuntimeView, completion: Option<u64>)
    ensures
        same_but_completions(runtime.watchdog_settled(completion), runtime),
{
    let result = Err(BackendError::Cancelled { operation: Operation::StopWatchdog });
    lemma_completion_frames(runtime, completion, Operation::StopWatchdog, false, result);
    lemma_completion_frames(
        runtime.completion_cancelled(completion, Operation::StopWatchdog, false),
        completion,
        Operation::StopWatchdog,
        false,
        result,
    );
}

/// A stop that does not end by itself is ended by its watchdog, whatever it
/// waited for; after that the watchdog has nothing left to do.
pub proof fn law_the_watchdog_ends_every_stop(
    runtime: RuntimeView,
    token: StopWatchdogToken,
    at: UtcInstant,
    other: StopWatchdogToken,
    later: UtcInstant,
)
    requires
        runtime.watchdog_current(token),
    ensures
        ({
            let after = runtime.stop_forced(token, at);
            &&& after.connection.state == (BackendState::Stopped {
                reason: Some(runtime.forced_reason()),
            })
            &&& after.flags.stopped_reported
            &&& after.flags.shutdown_requested
            &&& after.movement == MovementState::idle()
            &&& after.commands == Seq::<QueuedCommand>::empty()
            &&& after.stop_forced(other, later) == after
        }),
{
    reveal(RuntimeView::given_up);
    let given = runtime.given_up();
    let reason = runtime.forced_reason();
    law_the_end_is_announced_once(given, reason, false, at, reason, false, at);
    let step = given.stop_announced(reason, false, at);
    let told = step.0.with_effect(Effect::CancelPhaseDeadlines).with_effect(
        Effect::CancelStableResets,
    ).with_effect(Effect::CancelReconnect);
    lemma_watchdog_settled_frame(told, runtime.movement.completion);
    let settled = told.watchdog_settled(runtime.movement.completion);
    lemma_all_settled_frame(settled, runtime.commands);
    let cleared = settled.all_settled(runtime.commands).observations_cleared();
    let dropped = cleared.client_dropped(runtime.connection.active_client).swarm_dropped(
        runtime.connection.swarm,
    );
    assert(dropped.flags == step.0.flags);
    assert(dropped.movement == step.0.movement);
    assert(dropped.commands == step.0.commands);
    assert(dropped.connection.state == step.0.connection.state);
    lemma_followed_frame((dropped, step.1));
    lemma_shutdown_frame(RuntimeView::followed((dropped, step.1)));
}

/// A command whose physical release its own task still owes.
pub open spec fn settles_later(runtime: RuntimeView, id: u64) -> bool {
    runtime.completions[id].active_release && runtime.completions[id].release_on_cancel
}

proof fn lemma_cancelled_settled(
    runtime: RuntimeView,
    commands: Seq<QueuedCommand>,
    id: u64,
    at: int,
)
    requires
        runtime.completions.contains_key(id),
        !settles_later(runtime, id),
    ensures
        runtime.commands_cancelled(commands).completions.contains_key(id),
        !settles_later(runtime.commands_cancelled(commands), id),
        runtime.completions[id].settled_result is Some ==> runtime.commands_cancelled(
            commands,
        ).completions[id].settled_result is Some,
        0 <= at < commands.len() && commands[at].completion == Some(id)
            ==> runtime.commands_cancelled(commands).completions[id].settled_result is Some,
    decreases commands.len(),
{
    if commands.len() > 0 {
        lemma_cancelled_settled(runtime, commands.drop_last(), id, at);
        let before = runtime.commands_cancelled(commands.drop_last());
        if at < commands.len() - 1 && 0 <= at {
            assert(commands.drop_last()[at] == commands[at]);
        }
        assert(runtime.commands_cancelled(commands) == before.completion_cancelled(
            commands.last().completion,
            Operation::Command(commands.last().envelope.id),
            false,
        ));
    }
}

/// Nobody waits for ever: once the queue is given up, every command that was in
/// it has its result, unless its own task still has to release the inputs.
pub proof fn law_given_up_commands_are_settled(runtime: RuntimeView, at: int, id: u64)
    requires
        0 <= at < runtime.commands.len(),
        runtime.commands[at].completion == Some(id),
        runtime.completions.contains_key(id),
        !settles_later(runtime, id),
    ensures
        runtime.pending_cancelled().completions[id].settled_result is Some,
        runtime.pending_cancelled().commands.len() == 0,
{
    reveal(RuntimeView::pending_cancelled);
    lemma_pending_cancelled_frame(runtime);
    lemma_cancelled_settled(
        RuntimeView { commands: Seq::empty(), ..runtime },
        runtime.commands,
        id,
        at,
    );
}

} // verus!
