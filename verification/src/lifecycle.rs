//! The phases of a connection as the runtime reports them.

use vstd::prelude::*;

use crate::closing::CloseEvidence;
use crate::command::{command_component_failure, component_failure};
use crate::config::{
    next_reconnect_random, next_seed, schedule_retry, PhaseDeadlineToken, StableResetToken,
    TransportPhase,
};
use crate::contract::{
    Actuation, BackendClose, BackendError, BackendEventPayload, BackendFailure, BackendFailureCode,
    BackendLifecyclePayload, BackendState, FactSource, FailureMessage, Operation,
};
use crate::lanes::successor;
use crate::state::{
    next_number, ClientRef, ConnectionState, Effect, MovementState, RuntimeCounters, RuntimeFlags,
    RuntimeView, SharedRuntime,
};
use crate::time::{retry_instant, UtcInstant};
use crate::timers::{attempt_shown, shown_attempt};

verus! {

impl RuntimeView {
    /// Lifecycle facts are reported until a stop begins.
    pub open spec fn lifecycle_open(self) -> bool {
        !self.flags.stopping && !self.flags.stopped_reported
    }

    /// The server let the player in; the world is still to come.
    #[verifier::opaque]
    pub open spec fn logged_in(self, version: String, dimension: String, at: UtcInstant) -> (
        RuntimeView,
        bool,
        Option<PhaseDeadlineToken>,
    ) {
        let shown = self.dimension_set(dimension).stable_advanced().with_state(
            BackendState::Spawning {
                epoch: self.epoch(),
                attempt_id: self.writer.connection_attempt_id,
                attempt: shown_attempt(self.counters.retry_ordinal),
            },
        );
        let step = shown.phase_advanced().enqueued(
            FactSource::ServerObserved,
            BackendEventPayload::Lifecycle(
                BackendLifecyclePayload::LoggedIn { version, dimension },
            ),
            at,
        );
        (step.0, step.1, shown.phase_token(TransportPhase::Spawning))
    }

    pub open spec fn logged_in_and_followed(
        self,
        version: String,
        dimension: String,
        at: UtcInstant,
    ) -> RuntimeView {
        if self.running() {
            let step = self.logged_in(version, dimension, at);
            step.0.bind_followed(step.1, step.2)
        } else {
            self
        }
    }

    /// The player is in the world.
    #[verifier::opaque]
    pub open spec fn became_ready(self, snapshot_revision: u64, at: UtcInstant) -> (
        RuntimeView,
        bool,
        Option<StableResetToken>,
    ) {
        let marked = self.with_flags(
            RuntimeFlags { ready: true, ..self.flags },
        ).phase_advanced();
        let step = marked.stable_advanced().with_state(
            BackendState::Ready {
                epoch: self.epoch(),
                attempt_id: self.writer.connection_attempt_id,
                ready_at: at,
            },
        ).enqueued(
            FactSource::ServerObserved,
            BackendEventPayload::Lifecycle(BackendLifecyclePayload::Ready { snapshot_revision }),
            at,
        );
        (step.0, step.1, marked.stable_token())
    }

    pub open spec fn ready_and_followed(self, snapshot_revision: u64, at: UtcInstant) -> RuntimeView {
        if self.running() {
            let step = self.became_ready(snapshot_revision, at);
            Self::followed((step.0, step.1)).attempt_timers_cancelled().stable_reset_started(step.2)
        } else {
            self
        }
    }

    /// A death is taken once per life.
    pub open spec fn death_admissible(self) -> bool {
        self.running() && !self.flags.death_reported
    }

    /// The movement is ended by death: it can act no more and waits for nothing.
    #[verifier::opaque]
    pub open spec fn movement_ended_by_death(self, released: bool) -> RuntimeView {
        let completion = self.movement.completion;
        let told = if self.movement.id is Some || completion is Some
            || self.movement.registration {
            self.generation_advanced().completion_cancelled(
                completion,
                Operation::MovementStoppedByDeath,
                true,
            ).signal_raised(self.movement.cancel_signal)
        } else {
            self
        };
        told.with_movement(MovementState::idle()).completion_finished(
            completion,
            if released {
                Err(BackendError::Cancelled { operation: Operation::MovementStoppedByDeath })
            } else {
                Err(component_failure(Actuation::DeathMove))
            },
        )
    }

    /// The player died. The movement is over before anyone hears of it.
    pub open spec fn died(self, released: bool, at: UtcInstant) -> RuntimeView {
        if self.death_admissible() {
            self.with_flags(
                RuntimeFlags { death_reported: true, ready: false, ..self.flags },
            ).with_state(
                BackendState::Dead {
                    epoch: self.epoch(),
                    attempt_id: self.writer.connection_attempt_id,
                    died_at: at,
                },
            ).movement_ended_by_death(released).emitted(
                FactSource::ServerObserved,
                BackendEventPayload::Lifecycle(BackendLifecyclePayload::Died),
                at,
            )
        } else {
            self
        }
    }

    /// The failure to report for a close. A failure that allows no retry is
    /// stronger than the reconnect policy.
    pub open spec fn close_failure(self, close: BackendClose) -> BackendFailure {
        match self.connection.last_failure {
            Some(failure) => if !failure.retryable {
                failure
            } else if close.retryable && !self.config.reconnect.enabled {
                BackendFailure {
                    code: BackendFailureCode::ReconnectDisabled,
                    message: FailureMessage::ReconnectDisabled(close.code),
                    retryable: false,
                }
            } else {
                failure
            },
            None => if close.retryable && !self.config.reconnect.enabled {
                BackendFailure {
                    code: BackendFailureCode::ReconnectDisabled,
                    message: FailureMessage::ReconnectDisabled(close.code),
                    retryable: false,
                }
            } else {
                BackendFailure {
                    code: BackendFailureCode::ProtocolError,
                    message: FailureMessage::NonRetryable(close.code),
                    retryable: false,
                }
            },
        }
    }

    /// A failure is reported once per attempt, until a stop begins.
    pub open spec fn fault_admissible(self) -> bool {
        self.lifecycle_open() && !self.flags.faulted_reported
    }

    pub open spec fn faulted(self, failure: BackendFailure, at: UtcInstant) -> RuntimeView {
        if self.fault_admissible() {
            self.with_flags(RuntimeFlags { faulted_reported: true, ..self.flags }).with_state(
                BackendState::Faulted { failure },
            ).emitted(
                FactSource::ServerObserved,
                BackendEventPayload::Lifecycle(BackendLifecyclePayload::Faulted { failure }),
                at,
            )
        } else {
            self
        }
    }

    /// The next retry is announced.
    pub open spec fn retry_scheduled(
        self,
        close: BackendClose,
        delay_ms: u64,
        at: UtcInstant,
    ) -> RuntimeView {
        if self.retry_schedulable() {
            let attempt = shown_attempt((self.counters.retry_ordinal + 1) as u64);
            let retry_at = retry_instant(at, delay_ms);
            self.with_state(
                BackendState::Reconnecting { attempt, retry_at, last_close: close },
            ).emitted(
                FactSource::ClientPredicted,
                BackendEventPayload::Lifecycle(
                    BackendLifecyclePayload::ReconnectScheduled {
                        attempt,
                        retry_at,
                        close_code: close.code,
                    },
                ),
                at,
            )
        } else {
            self
        }
    }

    pub open spec fn retry_schedulable(self) -> bool {
        self.counters.retry_ordinal < u64::MAX && self.lifecycle_open()
    }

    /// The run is asked to end.
    pub open spec fn shutdown_asked(self) -> RuntimeView {
        self.with_flags(
            RuntimeFlags { shutdown_requested: true, ..self.flags },
        ).with_effect(Effect::Shutdown).admission_cancelled()
    }

    /// What follows a timeout: the client goes, and without a reconnect policy
    /// the run fails.
    pub open spec fn timeout_followed(
        self,
        close: BackendClose,
        client: Option<ClientRef>,
        at: UtcInstant,
    ) -> RuntimeView {
        if close.deliberate || self.flags.stopping {
            self
        } else {
            let told = match client {
                Some(client) => self.with_effect(Effect::DisconnectClient(client)),
                None => self,
            };
            if told.config.reconnect.enabled {
                told
            } else {
                told.faulted(told.close_failure(close), at).shutdown_asked()
            }
        }
    }

    /// A phase took too long.
    pub open spec fn phase_timed_out(self, token: PhaseDeadlineToken, at: UtcInstant) -> RuntimeView {
        if self.phase_deadline_current(token) {
            let client = self.connection.active_client;
            let step = self.phase_advanced().disconnected(
                CloseEvidence::of_timeout(token.phase),
                None,
                at,
            );
            Self::followed(
                (
                    if step.3 {
                        step.0.with_effect(Effect::CancelPhaseDeadlines).attempt_swept()
                    } else {
                        step.0.with_effect(Effect::CancelPhaseDeadlines)
                    },
                    step.2,
                ),
            ).timeout_followed(step.1, client, at)
        } else {
            self
        }
    }

    pub open spec fn with_swarm(self, swarm: Option<u64>) -> RuntimeView {
        RuntimeView { connection: ConnectionState { swarm, ..self.connection }, ..self }
    }

    pub open spec fn swarm_exited(self) -> RuntimeView {
        match self.connection.swarm {
            Some(swarm) => self.with_effect(Effect::ExitSwarm(swarm)),
            None => self,
        }
    }

    pub open spec fn with_client(self, client: ClientRef) -> RuntimeView {
        RuntimeView {
            connection: ConnectionState { active_client: Some(client), ..self.connection },
            ..self
        }
    }
}

impl SharedRuntime {
    /// The identity that states and events show.
    pub fn connection_identity(&self) -> (r: (u64, crate::contract::AttemptId, u32))
        ensures
            r == (
                self@.epoch(),
                self@.writer.connection_attempt_id,
                shown_attempt(self@.counters.retry_ordinal),
            ),
    {
        (
            self.writer.connection_epoch,
            self.writer.connection_attempt_id,
            attempt_shown(self.counters.retry_ordinal),
        )
    }

    fn log_in(&mut self, version: String, dimension: String, at: UtcInstant) -> (r: (
        bool,
        Option<PhaseDeadlineToken>,
    ))
        requires
            old(self)@.wf(),
        ensures
            (final(self)@, r.0, r.1) == old(self)@.logged_in(version, dimension, at),
            final(self)@.wf(),
    {
        reveal(RuntimeView::logged_in);
        let (epoch, attempt_id, attempt) = self.connection_identity();
        let _ = self.set_dimension(dimension.clone());
        self.invalidate_stable_reset();
        self.set_backend_state(BackendState::Spawning { epoch, attempt_id, attempt });
        let deadline = self.arm_phase_deadline(TransportPhase::Spawning);
        let should_drain = self.enqueue_event(
            FactSource::ServerObserved,
            BackendEventPayload::Lifecycle(
                BackendLifecyclePayload::LoggedIn { version, dimension },
            ),
            at,
        );
        (should_drain, deadline)
    }

    /// Reports that the server let the player in, and arms the spawn deadline.
    pub fn emit_logged_in(&mut self, version: String, dimension: String, at: UtcInstant)
        requires
            old(self)@.wf(),
        ensures
            final(self)@ == old(self)@.logged_in_and_followed(version, dimension, at),
            final(self)@.wf(),
    {
        if !self.command_execution_allowed() {
            return;
        }
        let (should_drain, deadline) = self.log_in(version, dimension, at);
        if should_drain {
            self.drain_events();
        }
        self.request_effect(Effect::CancelPhaseDeadlines);
        self.start_phase_deadline(deadline);
    }

    fn mark_ready(&mut self)
        requires
            old(self)@.wf(),
        ensures
            final(self)@ == old(self)@.with_flags(
                RuntimeFlags { ready: true, ..old(self)@.flags },
            ).phase_advanced(),
            final(self)@.wf(),
    {
        self.put_flags(RuntimeFlags { ready: true, ..self.flags });
        self.invalidate_phase();
    }

    fn become_ready(&mut self, snapshot_revision: u64, at: UtcInstant) -> (r: (
        bool,
        Option<StableResetToken>,
    ))
        requires
            old(self)@.wf(),
        ensures
            (final(self)@, r.0, r.1) == old(self)@.became_ready(snapshot_revision, at),
            final(self)@.wf(),
    {
        reveal(RuntimeView::became_ready);
        let (epoch, attempt_id, _) = self.connection_identity();
        self.mark_ready();
        let token = self.arm_stable_reset();
        self.set_backend_state(BackendState::Ready { epoch, attempt_id, ready_at: at });
        let should_drain = self.enqueue_event(
            FactSource::ServerObserved,
            BackendEventPayload::Lifecycle(BackendLifecyclePayload::Ready { snapshot_revision }),
            at,
        );
        (should_drain, token)
    }

    /// Reports that the player is in the world, and arms the reset of the
    /// retry count.
    pub fn emit_ready(&mut self, snapshot_revision: u64, at: UtcInstant)
        requires
            old(self)@.wf(),
        ensures
            final(self)@ == old(self)@.ready_and_followed(snapshot_revision, at),
            final(self)@.wf(),
    {
        if !self.command_execution_allowed() {
            return;
        }
        let (should_drain, token) = self.become_ready(snapshot_revision, at);
        if should_drain {
            self.drain_events();
        }
        self.request_effect(Effect::CancelPhaseDeadlines);
        self.request_effect(Effect::CancelStableResets);
        self.start_stable_reset(token);
    }

    /// Tells whether a death would be taken now.
    pub fn death_is_admissible(&self) -> (r: bool)
        ensures
            r == self@.death_admissible(),
    {
        self.command_execution_allowed() && !self.flags.death_reported
    }

    fn end_movement_by_death(&mut self, released: bool)
        requires
            old(self)@.wf(),
        ensures
            final(self)@ == old(self)@.movement_ended_by_death(released),
            final(self)@.wf(),
    {
        reveal(RuntimeView::movement_ended_by_death);
        let completion = self.movement.completion;
        let signal = self.movement.cancel_signal;
        if self.movement.id.is_some() || completion.is_some() || self.movement.registration {
            let generation: u64 = next_number(self.counters.movement_generation);
            self.put_counters(
                RuntimeCounters { movement_generation: generation, ..self.counters },
            );
            self.cancel_completion(completion, Operation::MovementStoppedByDeath, true);
            if let Some(signal) = signal {
                self.request_effect(Effect::RaiseSignal(signal));
            }
        }
        self.put_movement(
            MovementState {
                active: false,
                id: None,
                completion: None,
                cancel_signal: None,
                registration: false,
            },
        );
        self.finish_command(
            completion,
            if released {
                Err(BackendError::Cancelled { operation: Operation::MovementStoppedByDeath })
            } else {
                Err(command_component_failure(Actuation::DeathMove))
            },
        );
    }

    /// Takes the death of the player. The inputs have been released before,
    /// under the same admission; what became of that settles the movement.
    pub fn admit_death_and_release(&mut self, released: bool, at: UtcInstant) -> (admitted: Option<
        bool,
    >)
        requires
            old(self)@.wf(),
        ensures
            admitted == (if old(self)@.death_admissible() {
                Some(released)
            } else {
                None
            }),
            final(self)@ == old(self)@.died(released, at),
            final(self)@.wf(),
    {
        if !self.death_is_admissible() {
            return None;
        }
        let (epoch, attempt_id, _) = self.connection_identity();
        self.put_flags(RuntimeFlags { death_reported: true, ready: false, ..self.flags });
        self.set_backend_state(BackendState::Dead { epoch, attempt_id, died_at: at });
        self.end_movement_by_death(released);
        self.emit(
            FactSource::ServerObserved,
            BackendEventPayload::Lifecycle(BackendLifecyclePayload::Died),
            at,
        );
        Some(released)
    }

    /// Reports that a respawn was asked for.
    pub fn emit_respawn_transition_started(&mut self, from_dimension: String, at: UtcInstant)
        requires
            old(self)@.wf(),
        ensures
            final(self)@ == old(self)@.emitted_if_running(
                FactSource::Commanded,
                BackendEventPayload::Lifecycle(
                    BackendLifecyclePayload::RespawnTransitionStarted { from_dimension },
                ),
                at,
            ),
            final(self)@.wf(),
    {
        let _ = self.emit_if_running(
            FactSource::Commanded,
            BackendEventPayload::Lifecycle(
                BackendLifecyclePayload::RespawnTransitionStarted { from_dimension },
            ),
            at,
        );
    }

    /// Reports that the player has respawned.
    pub fn emit_respawned(&mut self, dimension: String, at: UtcInstant)
        requires
            old(self)@.wf(),
        ensures
            final(self)@ == old(self)@.emitted_if_running(
                FactSource::ServerObserved,
                BackendEventPayload::Lifecycle(BackendLifecyclePayload::Respawned { dimension }),
                at,
            ),
            final(self)@.wf(),
    {
        let _ = self.emit_if_running(
            FactSource::ServerObserved,
            BackendEventPayload::Lifecycle(BackendLifecyclePayload::Respawned { dimension }),
            at,
        );
    }

    /// The failure to report for a close.
    pub fn failure_for_close(&self, close: &BackendClose) -> (failure: BackendFailure)
        ensures
            failure == self@.close_failure(*close),
    {
        if let Some(failure) = &self.connection.last_failure {
            if !failure.retryable {
                return failure.clone();
            }
        }
        if close.retryable && !self.config.reconnect.enabled {
            return BackendFailure {
                code: BackendFailureCode::ReconnectDisabled,
                message: FailureMessage::ReconnectDisabled(close.code),
                retryable: false,
            };
        }
        match &self.connection.last_failure {
            Some(failure) => failure.clone(),
            None => BackendFailure {
                code: BackendFailureCode::ProtocolError,
                message: FailureMessage::NonRetryable(close.code),
                retryable: false,
            },
        }
    }

    /// Reports a failure, once per attempt.
    pub fn emit_faulted(&mut self, failure: BackendFailure, at: UtcInstant) -> (reported: bool)
        requires
            old(self)@.wf(),
        ensures
            reported == old(self)@.fault_admissible(),
            final(self)@ == old(self)@.faulted(failure, at),
            final(self)@.wf(),
    {
        if self.flags.stopping || self.flags.stopped_reported || self.flags.faulted_reported {
            return false;
        }
        self.put_flags(RuntimeFlags { faulted_reported: true, ..self.flags });
        self.set_backend_state(BackendState::Faulted { failure: failure.clone() });
        self.emit(
            FactSource::ServerObserved,
            BackendEventPayload::Lifecycle(BackendLifecyclePayload::Faulted { failure }),
            at,
        );
        true
    }

    /// Draws the jitter of the next retry: the numerator of a fraction of two
    /// to the power of 53.
    pub fn draw_jitter(&mut self) -> (numerator: u64)
        requires
            old(self)@.wf(),
        ensures
            numerator == next_seed(old(self)@.counters.reconnect_rng) / 2048,
            final(self)@ == old(self)@.with_counters(
                RuntimeCounters {
                    reconnect_rng: next_seed(old(self)@.counters.reconnect_rng),
                    ..old(self)@.counters
                },
            ),
            final(self)@.wf(),
    {
        next_reconnect_random(&mut self.counters.reconnect_rng)
    }

    /// Announces the next retry, `delay_ms` from now.
    pub fn emit_reconnect_scheduled(
        &mut self,
        close: &BackendClose,
        delay_ms: u64,
        at: UtcInstant,
    ) -> (scheduled: Option<u64>)
        requires
            old(self)@.wf(),
            at.valid(),
        ensures
            scheduled == (if old(self)@.retry_schedulable() {
                Some(delay_ms)
            } else {
                None
            }),
            final(self)@ == old(self)@.retry_scheduled(*close, delay_ms, at),
            final(self)@.wf(),
    {
        if self.counters.retry_ordinal == u64::MAX {
            return None;
        }
        if self.flags.stopping || self.flags.stopped_reported {
            return None;
        }
        let attempt: u32 = attempt_shown(self.counters.retry_ordinal + 1);
        let schedule = schedule_retry(at, delay_ms);
        self.set_backend_state(
            BackendState::Reconnecting {
                attempt,
                retry_at: schedule.retry_at,
                last_close: close.clone(),
            },
        );
        self.emit(
            FactSource::ClientPredicted,
            BackendEventPayload::Lifecycle(
                BackendLifecyclePayload::ReconnectScheduled {
                    attempt,
                    retry_at: schedule.retry_at,
                    close_code: close.code,
                },
            ),
            at,
        );
        Some(delay_ms)
    }

    /// Asks the run to end and ends all waiting for room.
    pub fn request_shutdown(&mut self)
        requires
            old(self)@.wf(),
        ensures
            final(self)@ == old(self)@.shutdown_asked(),
            final(self)@.wf(),
    {
        self.put_flags(RuntimeFlags { shutdown_requested: true, ..self.flags });
        self.request_effect(Effect::Shutdown);
        self.cancel_event_admission();
    }

    /// Remembers the client manager, until a stop begins.
    pub fn set_swarm(&mut self, swarm: u64) -> (set: bool)
        requires
            old(self)@.wf(),
        ensures
            set == old(self)@.lifecycle_open(),
            final(self)@ == (if set {
                old(self)@.with_swarm(Some(swarm))
            } else {
                old(self)@
            }),
            final(self)@.wf(),
    {
        if self.flags.stopping || self.flags.stopped_reported {
            return false;
        }
        self.connection.swarm = Some(swarm);
        true
    }

    /// Remembers the active client, if it is the current owner's.
    pub fn set_active_client_if_current(&mut self, client: ClientRef) -> (set: bool)
        requires
            old(self)@.wf(),
        ensures
            set == (old(self)@.running() && old(self)@.owned_by(client)),
            final(self)@ == (if set {
                old(self)@.with_client(client)
            } else {
                old(self)@
            }),
            final(self)@.wf(),
    {
        if !self.command_execution_allowed() || !self.client_is_current_owner(client) {
            return false;
        }
        self.connection.active_client = Some(client);
        true
    }

    /// Asks the client manager to exit, if there is one.
    pub fn exit_swarm(&mut self) -> (asked: bool)
        requires
            old(self)@.wf(),
        ensures
            asked == (old(self)@.connection.swarm is Some),
            final(self)@ == old(self)@.swarm_exited(),
            final(self)@.wf(),
    {
        match self.connection.swarm {
            Some(swarm) => {
                self.request_effect(Effect::ExitSwarm(swarm));
                true
            },
            None => false,
        }
    }

    fn follow_timeout(&mut self, close: BackendClose, client: Option<ClientRef>, at: UtcInstant)
        requires
            old(self)@.wf(),
        ensures
            final(self)@ == old(self)@.timeout_followed(close, client, at),
            final(self)@.wf(),
    {
        if close.deliberate || self.flags.stopping {
            return;
        }
        if let Some(client) = client {
            self.request_effect(Effect::DisconnectClient(client));
        }
        if !self.config.reconnect.enabled {
            let failure = self.failure_for_close(&close);
            let _ = self.emit_faulted(failure, at);
            self.request_shutdown();
        }
    }

    /// A phase deadline has passed. If it is still the current one, the
    /// connection is closed as timed out and its client is disconnected.
    pub fn fire_phase_deadline(&mut self, token: PhaseDeadlineToken, at: UtcInstant)
        requires
            old(self)@.wf(),
        ensures
            final(self)@ == old(self)@.phase_timed_out(token, at),
            final(self)@.wf(),
    {
        if !self.phase_deadline_matches(token) {
            return;
        }
        let client = self.connection.active_client;
        self.invalidate_phase();
        let (close, should_drain, duplicate) = self.disconnect(
            CloseEvidence::timeout_close_evidence(token.phase),
            None,
            at,
        );
        self.request_effect(Effect::CancelPhaseDeadlines);
        if duplicate {
            self.sweep_attempt();
        }
        if should_drain {
            self.drain_events();
        }
        self.follow_timeout(close, client, at);
    }
}

/// Lifecycle facts are reported until a stop begins or has ended.
pub proof fn law_when_lifecycle_facts_are_reported(runtime: RuntimeView)
    ensures
        runtime.lifecycle_open() <==> !runtime.flags.stopping && !runtime.flags.stopped_reported,
        runtime.fault_admissible() <==> !runtime.flags.stopping && !runtime.flags.stopped_reported
            && !runtime.flags.faulted_reported,
        runtime.retry_schedulable() <==> !runtime.flags.stopping
            && !runtime.flags.stopped_reported && runtime.counters.retry_ordinal < u64::MAX,
{
}

/// What may not be reported changes nothing.
pub proof fn law_what_is_not_reported_changes_nothing(
    runtime: RuntimeView,
    failure: BackendFailure,
    close: BackendClose,
    delay_ms: u64,
    snapshot_revision: u64,
    version: String,
    dimension: String,
    at: UtcInstant,
)
    ensures
        runtime.flags.stopping || runtime.flags.stopped_reported || runtime.flags.faulted_reported
            ==> runtime.faulted(failure, at) == runtime,
        runtime.flags.stopping || runtime.flags.stopped_reported || runtime.counters.retry_ordinal
            == u64::MAX ==> runtime.retry_scheduled(close, delay_ms, at) == runtime,
        runtime.flags.stopping || runtime.flags.disconnect_reported ==> runtime.ready_and_followed(
            snapshot_revision,
            at,
        ) == runtime,
        runtime.flags.stopping || runtime.flags.disconnect_reported
            ==> runtime.logged_in_and_followed(version, dimension, at) == runtime,
{
}

/// A timeout that was wanted, or that comes while the run stops, leads to nothing.
pub proof fn law_wanted_ends_lead_to_nothing(
    runtime: RuntimeView,
    close: BackendClose,
    client: Option<ClientRef>,
    token: PhaseDeadlineToken,
    at: UtcInstant,
)
    ensures
        close.deliberate || runtime.flags.stopping ==> runtime.timeout_followed(close, client, at)
            == runtime,
        !runtime.phase_deadline_current(token) ==> runtime.phase_timed_out(token, at) == runtime,
{
}

/// The client and the manager that are known are those that were told.
pub proof fn law_clients_and_managers_are_known(
    runtime: RuntimeView,
    client: ClientRef,
    swarm: Option<u64>,
)
    ensures
        runtime.with_client(client) == (RuntimeView {
            connection: ConnectionState { active_client: Some(client), ..runtime.connection },
            ..runtime
        }),
        runtime.with_swarm(swarm) == (RuntimeView {
            connection: ConnectionState { swarm, ..runtime.connection },
            ..runtime
        }),
{
}

} // verus!
