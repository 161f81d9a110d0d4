//! What comes of what: from an event in the life of a connection to what the
//! runtime shows, starts and tells.

use std::sync::Arc;

use vstd::prelude::*;

use crate::closing::{
    announces_return, in_lower_case, law_a_server_that_goes_down_is_worth_a_retry, CloseEvidence,
};
use crate::config::{PhaseDeadlineToken, StableResetToken, TransportPhase};
use crate::contract::{
    AttemptId, BackendClose, BackendEventEnvelope, BackendEventPayload, BackendFailure,
    BackendFailureCode, BackendLifecyclePayload, BackendState, CloseCode, EventId, FactSource,
    FailureMessage,
};
use crate::driver::SwarmDisconnect;
use crate::events::{law_a_dispatched_event_is_read_next, quiet};
use crate::guarantees::{
    lemma_disconnected_frame, lemma_emitted_frame, lemma_enqueued_frame, lemma_followed_frame,
    lemma_shutdown_frame, lemma_swept_frame,
};
use crate::state::{
    AttemptAdmissionState, Effect, EventWriter, QueuedCommand, RuntimeFlags, RuntimeView,
};
use crate::time::UtcInstant;

verus! {

/// A retry count as states show it: as far as it fits.
pub open spec fn retries_shown(ordinal: u64) -> u32 {
    if ordinal <= u32::MAX {
        ordinal as u32
    } else {
        u32::MAX
    }
}

/// Once the server let the player in, the wait for the world is watched: the
/// state shows it, and the last thing to do is to start a deadline of the
/// spawning phase, which is the current one. It allows what the configuration
/// allows for a spawn.
pub proof fn law_the_wait_for_the_world_is_watched(
    runtime: RuntimeView,
    version: String,
    dimension: String,
    at: UtcInstant,
)
    requires
        !runtime.flags.stopping,
        !runtime.flags.disconnect_reported,
        runtime.flags.timers_enabled,
        runtime.counters.phase_generation < u64::MAX,
    ensures
        ({
            let after = runtime.logged_in_and_followed(version, dimension, at);
            let token = PhaseDeadlineToken {
                epoch: runtime.writer.connection_epoch,
                attempt: runtime.counters.retry_ordinal,
                phase: TransportPhase::Spawning,
                generation: (runtime.counters.phase_generation + 1) as u64,
            };
            &&& after.effects.len() >= 2
            &&& after.effects[after.effects.len() - 2] == Effect::CancelPhaseDeadlines
            &&& after.effects[after.effects.len() - 1] == (Effect::StartPhaseDeadline {
                token,
                after_ms: runtime.config.timeouts.spawn_ms,
            })
            &&& after.counters.phase_generation == token.generation
            &&& after.connection.state == (BackendState::Spawning {
                epoch: runtime.writer.connection_epoch,
                attempt_id: runtime.writer.connection_attempt_id,
                attempt: retries_shown(runtime.counters.retry_ordinal),
            })
            &&& after.writer.dimension == Some(dimension)
            &&& !runtime.flags.stop_requested && !runtime.flags.stopped_reported
                ==> after.phase_deadline_current(token)
        }),
{
    reveal(RuntimeView::logged_in);
    let shown = runtime.dimension_set(dimension).stable_advanced().with_state(
        BackendState::Spawning {
            epoch: runtime.epoch(),
            attempt_id: runtime.writer.connection_attempt_id,
            attempt: crate::timers::shown_attempt(runtime.counters.retry_ordinal),
        },
    );
    lemma_enqueued_frame(
        shown.phase_advanced(),
        FactSource::ServerObserved,
        BackendEventPayload::Lifecycle(BackendLifecyclePayload::LoggedIn { version, dimension }),
        at,
    );
    let step = runtime.logged_in(version, dimension, at);
    lemma_followed_frame((step.0, step.1));
}

/// A client that gets its attempt owns it, and its login is watched: the last
/// thing to do is to start a deadline of the login phase, which is the current
/// one. It allows what the configuration allows for a login.
pub proof fn law_the_login_is_watched(
    runtime: RuntimeView,
    entity: u64,
    retry: Option<u64>,
    init_path: bool,
    token: Option<u64>,
    at: UtcInstant,
)
    requires
        runtime.binds_reservation(entity, retry, init_path, token),
        !runtime.flags.disconnect_reported,
        runtime.flags.timers_enabled,
        runtime.counters.phase_generation < u64::MAX,
    ensures
        ({
            let after = runtime.attempt_bound_and_followed(entity, retry, init_path, token, at);
            let deadline = PhaseDeadlineToken {
                epoch: runtime.writer.connection_epoch,
                attempt: runtime.counters.retry_ordinal,
                phase: TransportPhase::LoggingIn,
                generation: (runtime.counters.phase_generation + 1) as u64,
            };
            &&& after.effects.len() >= 2
            &&& after.effects[after.effects.len() - 2] == Effect::CancelPhaseDeadlines
            &&& after.effects[after.effects.len() - 1] == (Effect::StartPhaseDeadline {
                token: deadline,
                after_ms: runtime.config.timeouts.login_ms,
            })
            &&& after.counters.phase_generation == deadline.generation
            &&& after.connection.state == (BackendState::LoggingIn {
                epoch: runtime.writer.connection_epoch,
                attempt_id: runtime.writer.connection_attempt_id,
                attempt: retries_shown(runtime.counters.retry_ordinal),
            })
            &&& after.producer.owner == Some((entity, runtime.writer.connection_epoch))
            &&& !runtime.flags.stop_requested && !runtime.flags.stopped_reported
                ==> after.phase_deadline_current(deadline)
        }),
{
    reveal(RuntimeView::attempt_bound);
    reveal(RuntimeView::attempt_owned);
    reveal(RuntimeView::login_started);
    let owned = runtime.attempt_owned(entity, token);
    let shown = owned.with_state(
        BackendState::LoggingIn {
            epoch: owned.epoch(),
            attempt_id: owned.writer.connection_attempt_id,
            attempt: crate::timers::shown_attempt(owned.counters.retry_ordinal),
        },
    ).stable_advanced();
    lemma_enqueued_frame(
        shown.phase_advanced(),
        FactSource::ServerObserved,
        BackendEventPayload::Lifecycle(BackendLifecyclePayload::TransportConnected),
        at,
    );
    let step = runtime.attempt_bound(entity, retry, init_path, token, at);
    lemma_followed_frame((step.0, (step.1->0).0));
}

/// Where timers are not enabled, no phase is watched.
pub proof fn law_without_timers_nothing_is_watched(
    runtime: RuntimeView,
    phase: Option<PhaseDeadlineToken>,
    stable: Option<StableResetToken>,
)
    requires
        !runtime.flags.timers_enabled,
    ensures
        runtime.phase_deadline_started(phase) == runtime,
        runtime.stable_reset_started(stable) == runtime,
{
}

/// A player who is in the world is shown as ready, and the reset of the retry
/// count is started: it is due when the connection has been stable for as long
/// as the configuration says. No phase is watched any more.
pub proof fn law_a_ready_player_is_shown_and_timed(
    runtime: RuntimeView,
    snapshot_revision: u64,
    at: UtcInstant,
)
    requires
        !runtime.flags.stopping,
        !runtime.flags.disconnect_reported,
        runtime.flags.timers_enabled,
        runtime.counters.stable_generation < u64::MAX,
        runtime.counters.phase_generation < u64::MAX,
    ensures
        ({
            let after = runtime.ready_and_followed(snapshot_revision, at);
            let token = StableResetToken {
                epoch: runtime.writer.connection_epoch,
                attempt: runtime.counters.retry_ordinal,
                generation: (runtime.counters.stable_generation + 1) as u64,
            };
            &&& after.effects.len() >= 3
            &&& after.effects[after.effects.len() - 3] == Effect::CancelPhaseDeadlines
            &&& after.effects[after.effects.len() - 2] == Effect::CancelStableResets
            &&& after.effects[after.effects.len() - 1] == (Effect::StartStableReset {
                token,
                after_ms: runtime.config.reconnect.stable_reset_ms,
            })
            &&& after.flags.ready
            &&& after.connection.state == (BackendState::Ready {
                epoch: runtime.writer.connection_epoch,
                attempt_id: runtime.writer.connection_attempt_id,
                ready_at: at,
            })
            &&& forall|old: PhaseDeadlineToken|
                old.generation == runtime.counters.phase_generation
                    ==> !#[trigger] after.phase_deadline_current(old)
            &&& !runtime.flags.stop_requested && !runtime.flags.stopped_reported ==> {
                &&& after.stable_reset_current(token)
                &&& after.stable_reset_fired(token).counters.retry_ordinal == 0
            }
        }),
{
    reveal(RuntimeView::became_ready);
    let marked = runtime.with_flags(
        RuntimeFlags { ready: true, ..runtime.flags },
    ).phase_advanced();
    let shown = marked.stable_advanced().with_state(
        BackendState::Ready {
            epoch: runtime.epoch(),
            attempt_id: runtime.writer.connection_attempt_id,
            ready_at: at,
        },
    );
    lemma_enqueued_frame(
        shown,
        FactSource::ServerObserved,
        BackendEventPayload::Lifecycle(BackendLifecyclePayload::Ready { snapshot_revision }),
        at,
    );
    let step = runtime.became_ready(snapshot_revision, at);
    lemma_followed_frame((step.0, step.1));
}

/// A deadline fires into the runtime exactly if it is of the phase, the epoch,
/// the retry and the generation that are current, and nobody has asked for a stop
/// or heard of an end.
pub proof fn law_only_the_current_deadline_fires(runtime: RuntimeView, token: PhaseDeadlineToken)
    ensures
        runtime.phase_deadline_current(token) <==> {
            &&& !runtime.flags.stopping
            &&& !runtime.flags.stop_requested
            &&& !runtime.flags.stopped_reported
            &&& !runtime.flags.disconnect_reported
            &&& runtime.counters.phase_generation == token.generation
            &&& runtime.counters.retry_ordinal == token.attempt
            &&& runtime.writer.connection_epoch == token.epoch
            &&& match runtime.connection.state {
                BackendState::Connecting { epoch, attempt, .. } => token.phase
                    == TransportPhase::Connecting && epoch == token.epoch && attempt
                    == retries_shown(token.attempt),
                BackendState::LoggingIn { epoch, attempt, .. } => token.phase
                    == TransportPhase::LoggingIn && epoch == token.epoch && attempt
                    == retries_shown(token.attempt),
                BackendState::Spawning { epoch, attempt, .. } => token.phase
                    == TransportPhase::Spawning && epoch == token.epoch && attempt
                    == retries_shown(token.attempt),
                _ => false,
            }
        },
{
}

/// A phase that takes too long ends the connection: the close says which phase it
/// was and that a retry is worth it, and the client is to be disconnected. If
/// there are no retries, the run fails and ends; otherwise it goes on.
#[verifier::rlimit(60)]
pub proof fn law_a_phase_that_takes_too_long_ends_the_connection(
    runtime: RuntimeView,
    token: PhaseDeadlineToken,
    at: UtcInstant,
)
    requires
        runtime.phase_deadline_current(token),
    ensures
        ({
            let after = runtime.phase_timed_out(token, at);
            &&& after.flags.disconnect_reported
            &&& !after.flags.ready
            &&& after.connection.active_client is None
            &&& after.connection.last_close matches Some(close)
            &&& close.epoch == runtime.writer.connection_epoch
            &&& close.at == at
            &&& close.retryable
            &&& !close.deliberate
            &&& close.code == (match token.phase {
                TransportPhase::Connecting => CloseCode::ConnectionTimeout,
                TransportPhase::LoggingIn => CloseCode::LoginTimeout,
                TransportPhase::Spawning => CloseCode::SpawnTimeout,
            })
            &&& runtime.config.reconnect.enabled ==> {
                &&& runtime.connection.active_client matches Some(client) ==> after.effects.len()
                    > 0 && after.effects[after.effects.len() - 1] == Effect::DisconnectClient(
                    client,
                )
                &&& after.connection.state == runtime.connection.state
                &&& after.flags.faulted_reported == runtime.flags.faulted_reported
                &&& after.flags.shutdown_requested == runtime.flags.shutdown_requested
            }
            &&& !runtime.config.reconnect.enabled ==> {
                &&& after.flags.shutdown_requested
                &&& !runtime.flags.faulted_reported ==> after.connection.state == (
                BackendState::Faulted {
                    failure: BackendFailure {
                        code: BackendFailureCode::ReconnectDisabled,
                        message: FailureMessage::ReconnectDisabled(close.code),
                        retryable: false,
                    },
                })
            }
        }),
{
    let evidence = CloseEvidence::of_timeout(token.phase);
    let voided = runtime.phase_advanced();
    lemma_disconnected_frame(voided, evidence, None, at);
    lemma_closed_failure(voided, evidence, None, at);
    let step = voided.disconnected(evidence, None, at);
    let told = step.0.with_effect(Effect::CancelPhaseDeadlines);
    lemma_followed_frame((told, step.2));
    let drained = RuntimeView::followed((told, step.2));
    let gone = match runtime.connection.active_client {
        Some(client) => drained.with_effect(Effect::DisconnectClient(client)),
        None => drained,
    };
    if !runtime.config.reconnect.enabled {
        let failure = gone.close_failure(step.1);
        lemma_fault_frame(gone, failure, at);
        lemma_shutdown_frame(gone.faulted(failure, at));
    }
}

/// The end of a connection keeps the state that is shown and records the failure
/// that its evidence proves.
pub proof fn lemma_closed_failure(
    runtime: RuntimeView,
    evidence: CloseEvidence,
    failure_entity: Option<u64>,
    at: UtcInstant,
)
    requires
        !runtime.flags.stopped_reported,
        !runtime.flags.disconnect_reported,
    ensures
        ({
            let step = runtime.disconnected(evidence, failure_entity, at);
            &&& step.0.connection.last_failure == runtime.effective_evidence(evidence).failure
            &&& step.0.connection.state == runtime.connection.state
        }),
{
    reveal(RuntimeView::disconnected);
    reveal(RuntimeView::sealed);
    let effective = runtime.effective_evidence(evidence);
    let close = effective.close(runtime.epoch(), at);
    let sealed = runtime.sealed(close, effective.failure, failure_entity);
    lemma_swept_frame(sealed);
    lemma_enqueued_frame(
        sealed.attempt_swept(),
        FactSource::ServerObserved,
        BackendEventPayload::Lifecycle(BackendLifecyclePayload::ConnectionClosed { close }),
        at,
    );
}

pub proof fn lemma_fault_frame(runtime: RuntimeView, failure: BackendFailure, at: UtcInstant)
    ensures
        ({
            let after = runtime.faulted(failure, at);
            &&& after.config == runtime.config
            &&& after.connection.last_close == runtime.connection.last_close
            &&& after.connection.active_client == runtime.connection.active_client
            &&& after.flags.disconnect_reported == runtime.flags.disconnect_reported
            &&& after.flags.ready == runtime.flags.ready
            &&& after.flags.stopping == runtime.flags.stopping
            &&& !runtime.flags.stopping && !runtime.flags.stopped_reported
                && !runtime.flags.faulted_reported ==> after.connection.state == (
            BackendState::Faulted { failure }) && after.flags.faulted_reported
        }),
{
    lemma_emitted_frame(
        runtime.with_flags(
            RuntimeFlags { faulted_reported: true, ..runtime.flags },
        ).with_state(BackendState::Faulted { failure }),
        FactSource::ServerObserved,
        BackendEventPayload::Lifecycle(BackendLifecyclePayload::Faulted { failure }),
        at,
    );
}

/// What follows a close: nothing, if it was wanted; another try, if that is worth
/// it and allowed; otherwise the run fails and ends. Whoever does not retry gives
/// the reconnect back.
pub proof fn law_a_close_leads_to_a_retry_or_a_fault(
    runtime: RuntimeView,
    close: BackendClose,
    at: UtcInstant,
)
    requires
        !runtime.flags.stopping,
    ensures
        ({
            let (after, next) = runtime.close_settled(close, at);
            &&& close.deliberate ==> {
                &&& next == SwarmDisconnect::Ended
                &&& !after.flags.reconnect_pending
                &&& after.connection == runtime.connection
            }
            &&& !close.deliberate && close.retryable && runtime.config.reconnect.enabled ==> {
                &&& next == (SwarmDisconnect::Retry { close })
                &&& after == runtime
            }
            &&& !close.deliberate && !(close.retryable && runtime.config.reconnect.enabled) ==> {
                &&& next == SwarmDisconnect::Faulted
                &&& after.flags.shutdown_requested
                &&& !after.flags.reconnect_pending
                &&& !runtime.flags.stopped_reported && !runtime.flags.faulted_reported
                    ==> after.connection.state is Faulted && after.flags.faulted_reported
            }
        }),
{
    let failure = runtime.close_failure(close);
    lemma_fault_frame(runtime, failure, at);
    lemma_shutdown_frame(runtime.faulted(failure, at));
}

/// The failure that is reported for a close: one that rules out a retry comes
/// first; then, where retries are switched off, that; then whatever failed.
pub proof fn law_the_strongest_failure_is_reported(runtime: RuntimeView, close: BackendClose)
    ensures
        ({
            let failure = runtime.close_failure(close);
            let known = runtime.connection.last_failure;
            let no_retries = close.retryable && !runtime.config.reconnect.enabled;
            &&& known matches Some(cause) ==> !cause.retryable ==> failure == cause
            &&& (known matches Some(cause) ==> cause.retryable) && no_retries ==> {
                &&& failure.code == BackendFailureCode::ReconnectDisabled
                &&& failure.message == FailureMessage::ReconnectDisabled(close.code)
                &&& !failure.retryable
            }
            &&& known matches Some(cause) ==> cause.retryable && !no_retries ==> failure == cause
            &&& known is None && !no_retries ==> {
                &&& failure.code == BackendFailureCode::ProtocolError
                &&& failure.message == FailureMessage::NonRetryable(close.code)
                &&& !failure.retryable
            }
        }),
{
}

/// A server that goes down is tried again. Its words end the connection, and when
/// the client's manager then reports the disconnect, the answer is to retry, with
/// that very close.
pub proof fn law_a_server_that_goes_down_is_tried_again(
    runtime: RuntimeView,
    reason: String,
    words: Seq<char>,
    token: Option<u64>,
    at: UtcInstant,
    later: UtcInstant,
)
    requires
        reason@ != "deliberate_stop"@,
        in_lower_case(words, reason@),
        announces_return(words),
        !runtime.flags.stopping,
        !runtime.flags.stopped_reported,
        !runtime.flags.disconnect_reported,
        runtime.config.reconnect.enabled,
    ensures
        ({
            let evidence = CloseEvidence::of_reason(Some(reason), !runtime.flags.ready);
            let close = runtime.disconnected(evidence, None, at).1;
            let after = runtime.ended_by(evidence, None, at);
            &&& close.code == CloseCode::ServerShutdown
            &&& close.retryable
            &&& !close.deliberate
            &&& close.kick matches Some(kick) && kick.text == reason && kick.during_login
                == !runtime.flags.ready
            &&& after.connection.last_close == Some(close)
            &&& after.connection.last_failure is None
            &&& after.close_settled(close, later) == (after, SwarmDisconnect::Retry { close })
            &&& after.reconnect_claimable(token) ==> after.swarm_disconnected(token, later).1 == (
            SwarmDisconnect::Retry { close })
        }),
{
    let evidence = CloseEvidence::of_reason(Some(reason), !runtime.flags.ready);
    law_a_server_that_goes_down_is_worth_a_retry(reason, words, !runtime.flags.ready);
    lemma_disconnected_frame(runtime, evidence, None, at);
    lemma_closed_failure(runtime, evidence, None, at);
    let step = runtime.disconnected(evidence, None, at);
    lemma_followed_frame((step.0, step.2));
    let after = runtime.ended_by(evidence, None, at);
    if after.reconnect_claimable(token) {
        law_a_disconnect_is_settled_by_the_close_on_record(after, token, later, step.1);
    }
}

/// When the client's manager reports a disconnect whose close is on record, that
/// close decides what follows.
pub proof fn law_a_disconnect_is_settled_by_the_close_on_record(
    runtime: RuntimeView,
    token: Option<u64>,
    at: UtcInstant,
    close: BackendClose,
)
    requires
        runtime.reconnect_claimable(token),
        !runtime.flags.stopped_reported,
        runtime.flags.disconnect_reported,
        runtime.connection.last_close == Some(close),
    ensures
        runtime.swarm_disconnected(token, at).1 == (if close.deliberate {
            SwarmDisconnect::Ended
        } else if close.retryable && runtime.config.reconnect.enabled {
            SwarmDisconnect::Retry { close }
        } else {
            SwarmDisconnect::Faulted
        }),
{
    reveal(RuntimeView::disconnected);
    let claimed = runtime.reconnect_claimed(token);
    lemma_swept_frame(claimed);
    lemma_followed_frame((claimed.attempt_swept(), false));
}

/// The retry that is announced is the next one, it is due exactly its delay from
/// now, and it names the close that made it necessary.
pub proof fn law_the_next_retry_is_announced(
    runtime: RuntimeView,
    close: BackendClose,
    delay_ms: u64,
    at: UtcInstant,
)
    requires
        !runtime.flags.stopping,
        !runtime.flags.stopped_reported,
        runtime.counters.retry_ordinal < u64::MAX,
    ensures
        runtime.retry_scheduled(close, delay_ms, at).connection.state == (
        BackendState::Reconnecting {
            attempt: retries_shown((runtime.counters.retry_ordinal + 1) as u64),
            retry_at: crate::time::retry_instant(at, delay_ms),
            last_close: close,
        }),
        runtime.retry_scheduled(close, delay_ms, at).writer == runtime.writer.advanced(),
        runtime.retry_scheduled(close, delay_ms, at).counters.retry_ordinal
            == runtime.counters.retry_ordinal,
{
    let attempt = crate::timers::shown_attempt((runtime.counters.retry_ordinal + 1) as u64);
    let retry_at = crate::time::retry_instant(at, delay_ms);
    lemma_emitted_frame(
        runtime.with_state(
            BackendState::Reconnecting { attempt, retry_at, last_close: close },
        ),
        FactSource::ClientPredicted,
        BackendEventPayload::Lifecycle(
            BackendLifecyclePayload::ReconnectScheduled {
                attempt,
                retry_at,
                close_code: close.code,
            },
        ),
        at,
    );
}

/// Nothing is on its way, and no counter of the queues is at its end: what is
/// told now is heard at once.
pub open spec fn hearing(runtime: RuntimeView) -> bool {
    &&& quiet(runtime)
    &&& runtime.dispatch.lanes.next_sequence < u64::MAX
    &&& forall|i: int|
        0 <= i < runtime.subscribers.len() ==> (
        #[trigger] runtime.subscribers[i]).queue.lanes.next_sequence < u64::MAX - 1
}

/// What the subscriber reads next is this fact, with the number and the stamp
/// that this writer gives.
pub open spec fn hears(
    after: RuntimeView,
    subscriber: int,
    writer: EventWriter,
    source: FactSource,
    payload: BackendEventPayload,
    at: UtcInstant,
) -> bool {
    &&& 0 <= subscriber < after.subscribers.len()
    &&& after.subscribers[subscriber].queue.lanes.next_item() matches Some(item)
    &&& *item.event == (BackendEventEnvelope {
        id: EventId::Event(writer.next_event),
        occurred_at: at,
        process_session_id: writer.process_session_id,
        connection_epoch: writer.connection_epoch,
        connection_attempt_id: writer.connection_attempt_id,
        world_id: writer.world_id,
        dimension: writer.dimension,
        source,
        payload,
    })
}

/// What is written while nothing is on its way is heard next.
pub proof fn lemma_heard(
    runtime: RuntimeView,
    source: FactSource,
    payload: BackendEventPayload,
    at: UtcInstant,
    subscriber: int,
)
    requires
        hearing(runtime),
        0 <= subscriber < runtime.subscribers.len(),
    ensures
        hears(
            RuntimeView::followed(runtime.enqueued(source, payload, at)),
            subscriber,
            runtime.writer,
            source,
            payload,
            at,
        ),
{
    let event = Arc::new(runtime.writer.event(source, payload, at));
    let written = RuntimeView {
        counters: if payload.spec_kind() == crate::contract::BackendEventKind::Lifecycle {
            runtime.revised()
        } else {
            runtime.counters
        },
        writer: runtime.writer.advanced(),
        ..runtime
    };
    assert(hearing(written));
    law_a_dispatched_event_is_read_next(written, event, subscriber);
}

/// A new attempt has the next epoch and the next retry number, is shown as
/// connecting, and everyone hears that it was requested. Nothing of the attempt
/// before is left: no client, no close, no failure, no report of an end and no
/// running timer.
pub proof fn law_everyone_hears_of_an_attempt(
    runtime: RuntimeView,
    at: UtcInstant,
    subscriber: int,
)
    requires
        !runtime.flags.stopping,
        !runtime.flags.stop_requested,
        runtime.writer.connection_epoch < u64::MAX,
        runtime.counters.retry_ordinal < u64::MAX,
        hearing(runtime),
        0 <= subscriber < runtime.subscribers.len(),
    ensures
        ({
            let after = runtime.connection_attempted(at);
            let epoch = (runtime.writer.connection_epoch + 1) as u64;
            let retry = (runtime.counters.retry_ordinal + 1) as u64;
            &&& after.writer.connection_epoch == epoch
            &&& after.counters.retry_ordinal == retry
            &&& after.connection.state == (BackendState::Connecting {
                epoch,
                attempt_id: AttemptId { epoch },
                attempt: retries_shown(retry),
            })
            &&& after.connection.active_client is None
            &&& after.connection.last_close is None
            &&& after.connection.last_failure is None
            &&& !after.flags.disconnect_reported
            &&& !after.flags.stopped_reported
            &&& !after.flags.faulted_reported
            &&& !after.flags.shutdown_requested
            &&& !after.flags.dispatch_cancelled
            &&& after.producer.owner is None
            &&& after.producer.source_fence.pending_rebind_entity
                == runtime.producer.source_fence.last_bound
            &&& after.producer.attempt == (AttemptAdmissionState::Reserved {
                epoch,
                reconnect_token: None,
                join_started_epoch: None,
                attempt_token: None,
            })
            &&& after.effects.len() >= 2
            &&& after.effects[after.effects.len() - 2] == Effect::CancelPhaseDeadlines
            &&& after.effects[after.effects.len() - 1] == Effect::CancelStableResets
            &&& hears(
                after,
                subscriber,
                EventWriter {
                    connection_epoch: epoch,
                    connection_attempt_id: AttemptId { epoch },
                    dimension: None,
                    ..runtime.writer
                },
                FactSource::Commanded,
                BackendEventPayload::Lifecycle(
                    BackendLifecyclePayload::ConnectionRequested { attempt: retries_shown(retry) },
                ),
                at,
            )
        }),
{
    reveal(RuntimeView::attempt_begun);
    reveal(RuntimeView::attempt_cleaned);
    reveal(RuntimeView::attempt_reserved);
    reveal(RuntimeView::attempt_announced);
    let reserved = runtime.attempt_cleaned().attempt_reserved(None);
    let event = Arc::new(
        reserved.writer.event(
            FactSource::Commanded,
            BackendEventPayload::Lifecycle(
                BackendLifecyclePayload::ConnectionRequested {
                    attempt: crate::timers::shown_attempt(reserved.counters.retry_ordinal),
                },
            ),
            at,
        ),
    );
    let written = RuntimeView { writer: reserved.writer.advanced(), ..reserved };
    assert(hearing(written));
    crate::guarantees::lemma_dispatched_frame(written, event);
    lemma_followed_frame(written.dispatched(event));
    law_a_dispatched_event_is_read_next(written, event, subscriber);
}

/// Everyone hears that a client is connected, once it has its attempt.
pub proof fn law_everyone_hears_of_the_transport(
    runtime: RuntimeView,
    entity: u64,
    retry: Option<u64>,
    init_path: bool,
    token: Option<u64>,
    at: UtcInstant,
    subscriber: int,
)
    requires
        runtime.binds_reservation(entity, retry, init_path, token),
        !runtime.flags.disconnect_reported,
        hearing(runtime),
        0 <= subscriber < runtime.subscribers.len(),
    ensures
        hears(
            runtime.attempt_bound_and_followed(entity, retry, init_path, token, at),
            subscriber,
            runtime.writer,
            FactSource::ServerObserved,
            BackendEventPayload::Lifecycle(BackendLifecyclePayload::TransportConnected),
            at,
        ),
{
    reveal(RuntimeView::attempt_bound);
    reveal(RuntimeView::attempt_owned);
    reveal(RuntimeView::login_started);
    let owned = runtime.attempt_owned(entity, token);
    let shown = owned.with_state(
        BackendState::LoggingIn {
            epoch: owned.epoch(),
            attempt_id: owned.writer.connection_attempt_id,
            attempt: crate::timers::shown_attempt(owned.counters.retry_ordinal),
        },
    ).stable_advanced();
    assert(hearing(shown.phase_advanced()));
    lemma_heard(
        shown.phase_advanced(),
        FactSource::ServerObserved,
        BackendEventPayload::Lifecycle(BackendLifecyclePayload::TransportConnected),
        at,
        subscriber,
    );
}

/// Everyone hears that the server let the player in, with the version of the game
/// and the dimension, which the event is stamped with.
pub proof fn law_everyone_hears_of_the_login(
    runtime: RuntimeView,
    version: String,
    dimension: String,
    at: UtcInstant,
    subscriber: int,
)
    requires
        !runtime.flags.stopping,
        !runtime.flags.disconnect_reported,
        hearing(runtime),
        0 <= subscriber < runtime.subscribers.len(),
    ensures
        hears(
            runtime.logged_in_and_followed(version, dimension, at),
            subscriber,
            EventWriter { dimension: Some(dimension), ..runtime.writer },
            FactSource::ServerObserved,
            BackendEventPayload::Lifecycle(
                BackendLifecyclePayload::LoggedIn { version, dimension },
            ),
            at,
        ),
        runtime.logged_in_and_followed(version, dimension, at).connection.reported_dimension
            == Some(dimension),
{
    reveal(RuntimeView::logged_in);
    let shown = runtime.dimension_set(dimension).stable_advanced().with_state(
        BackendState::Spawning {
            epoch: runtime.epoch(),
            attempt_id: runtime.writer.connection_attempt_id,
            attempt: crate::timers::shown_attempt(runtime.counters.retry_ordinal),
        },
    );
    let payload = BackendEventPayload::Lifecycle(
        BackendLifecyclePayload::LoggedIn { version, dimension },
    );
    assert(hearing(shown.phase_advanced()));
    lemma_heard(shown.phase_advanced(), FactSource::ServerObserved, payload, at, subscriber);
    lemma_enqueued_frame(shown.phase_advanced(), FactSource::ServerObserved, payload, at);
    let step = runtime.logged_in(version, dimension, at);
    lemma_followed_frame((step.0, step.1));
}

/// Everyone hears that the player is ready, and of which snapshot.
pub proof fn law_everyone_hears_of_readiness(
    runtime: RuntimeView,
    snapshot_revision: u64,
    at: UtcInstant,
    subscriber: int,
)
    requires
        !runtime.flags.stopping,
        !runtime.flags.disconnect_reported,
        hearing(runtime),
        0 <= subscriber < runtime.subscribers.len(),
    ensures
        hears(
            runtime.ready_and_followed(snapshot_revision, at),
            subscriber,
            runtime.writer,
            FactSource::ServerObserved,
            BackendEventPayload::Lifecycle(BackendLifecyclePayload::Ready { snapshot_revision }),
            at,
        ),
{
    reveal(RuntimeView::became_ready);
    let shown = runtime.with_flags(
        RuntimeFlags { ready: true, ..runtime.flags },
    ).phase_advanced().stable_advanced().with_state(
        BackendState::Ready {
            epoch: runtime.epoch(),
            attempt_id: runtime.writer.connection_attempt_id,
            ready_at: at,
        },
    );
    assert(hearing(shown));
    lemma_heard(
        shown,
        FactSource::ServerObserved,
        BackendEventPayload::Lifecycle(BackendLifecyclePayload::Ready { snapshot_revision }),
        at,
        subscriber,
    );
}

/// A failure of the run is shown, and everyone hears of it.
pub proof fn law_everyone_hears_of_a_fault(
    runtime: RuntimeView,
    failure: BackendFailure,
    at: UtcInstant,
    subscriber: int,
)
    requires
        !runtime.flags.stopping,
        !runtime.flags.stopped_reported,
        !runtime.flags.faulted_reported,
        hearing(runtime),
        0 <= subscriber < runtime.subscribers.len(),
    ensures
        runtime.faulted(failure, at).connection.state == (BackendState::Faulted { failure }),
        runtime.faulted(failure, at).flags.faulted_reported,
        hears(
            runtime.faulted(failure, at),
            subscriber,
            runtime.writer,
            FactSource::ServerObserved,
            BackendEventPayload::Lifecycle(BackendLifecyclePayload::Faulted { failure }),
            at,
        ),
{
    let shown = runtime.with_flags(
        RuntimeFlags { faulted_reported: true, ..runtime.flags },
    ).with_state(BackendState::Faulted { failure });
    assert(hearing(shown));
    lemma_fault_frame(runtime, failure, at);
    lemma_heard(
        shown,
        FactSource::ServerObserved,
        BackendEventPayload::Lifecycle(BackendLifecyclePayload::Faulted { failure }),
        at,
        subscriber,
    );
}

/// Everyone hears when the next retry is due and why.
pub proof fn law_everyone_hears_of_the_next_retry(
    runtime: RuntimeView,
    close: BackendClose,
    delay_ms: u64,
    at: UtcInstant,
    subscriber: int,
)
    requires
        !runtime.flags.stopping,
        !runtime.flags.stopped_reported,
        runtime.counters.retry_ordinal < u64::MAX,
        hearing(runtime),
        0 <= subscriber < runtime.subscribers.len(),
    ensures
        hears(
            runtime.retry_scheduled(close, delay_ms, at),
            subscriber,
            runtime.writer,
            FactSource::ClientPredicted,
            BackendEventPayload::Lifecycle(
                BackendLifecyclePayload::ReconnectScheduled {
                    attempt: retries_shown((runtime.counters.retry_ordinal + 1) as u64),
                    retry_at: crate::time::retry_instant(at, delay_ms),
                    close_code: close.code,
                },
            ),
            at,
        ),
{
    let attempt = crate::timers::shown_attempt((runtime.counters.retry_ordinal + 1) as u64);
    let retry_at = crate::time::retry_instant(at, delay_ms);
    let shown = runtime.with_state(
        BackendState::Reconnecting { attempt, retry_at, last_close: close },
    );
    assert(hearing(shown));
    lemma_heard(
        shown,
        FactSource::ClientPredicted,
        BackendEventPayload::Lifecycle(
            BackendLifecyclePayload::ReconnectScheduled {
                attempt,
                retry_at,
                close_code: close.code,
            },
        ),
        at,
        subscriber,
    );
}

proof fn lemma_commands_cancelled_queues(runtime: RuntimeView, commands: Seq<QueuedCommand>)
    ensures
        runtime.commands_cancelled(commands).dispatch == runtime.dispatch,
        runtime.commands_cancelled(commands).stalled == runtime.stalled,
        runtime.commands_cancelled(commands).subscribers == runtime.subscribers,
        runtime.commands_cancelled(commands).listeners == runtime.listeners,
    decreases commands.len(),
{
    if commands.len() > 0 {
        lemma_commands_cancelled_queues(runtime, commands.drop_last());
    }
}

proof fn lemma_swept_queues(runtime: RuntimeView)
    ensures
        runtime.attempt_swept().dispatch == runtime.dispatch,
        runtime.attempt_swept().stalled == runtime.stalled,
        runtime.attempt_swept().subscribers == runtime.subscribers,
        runtime.attempt_swept().listeners == runtime.listeners,
{
    reveal(RuntimeView::pending_cancelled);
    let calmed = runtime.movement_cancelled(true);
    lemma_commands_cancelled_queues(
        RuntimeView { commands: Seq::empty(), ..calmed },
        calmed.commands,
    );
}

/// Everyone hears of the end of a connection: of the close that goes on record.
pub proof fn law_everyone_hears_of_the_close(
    runtime: RuntimeView,
    evidence: CloseEvidence,
    failure_entity: Option<u64>,
    at: UtcInstant,
    subscriber: int,
)
    requires
        !runtime.flags.stopped_reported,
        !runtime.flags.disconnect_reported,
        hearing(runtime),
        0 <= subscriber < runtime.subscribers.len(),
    ensures
        ({
            let after = runtime.ended_by(evidence, failure_entity, at);
            &&& after.connection.last_close matches Some(close)
            &&& hears(
                after,
                subscriber,
                runtime.writer,
                FactSource::ServerObserved,
                BackendEventPayload::Lifecycle(
                    BackendLifecyclePayload::ConnectionClosed { close },
                ),
                at,
            )
        }),
{
    reveal(RuntimeView::disconnected);
    reveal(RuntimeView::sealed);
    lemma_disconnected_frame(runtime, evidence, failure_entity, at);
    let effective = runtime.effective_evidence(evidence);
    let close = effective.close(runtime.epoch(), at);
    let sealed = runtime.sealed(close, effective.failure, failure_entity);
    lemma_swept_frame(sealed);
    lemma_swept_queues(sealed);
    let swept = sealed.attempt_swept();
    assert(hearing(swept));
    lemma_heard(
        swept,
        FactSource::ServerObserved,
        BackendEventPayload::Lifecycle(BackendLifecyclePayload::ConnectionClosed { close }),
        at,
        subscriber,
    );
    let step = runtime.disconnected(evidence, failure_entity, at);
    lemma_followed_frame((step.0, step.2));
}

} // verus!
