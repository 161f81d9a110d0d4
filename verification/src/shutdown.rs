//! Stopping: one admission, one terminal event, and a watchdog behind them.

use std::collections::VecDeque;

use vstd::prelude::*;

use crate::closing::CloseEvidence;
use crate::config::{checked_next, StopWatchdogToken};
use crate::contract::{
    BackendError, BackendEventPayload, BackendLifecyclePayload, BackendState, FactSource,
    Operation, StopReason,
};
use crate::state::{
    ClientRef, ConnectionState, Effect, MovementState, QueuedCommand, RuntimeCounters,
    RuntimeFlags, RuntimeView, SharedRuntime,
};
use crate::time::UtcInstant;

verus! {

impl RuntimeView {
    /// The end of the runtime is announced, unless it was before.
    #[verifier::opaque]
    pub open spec fn stop_announced(
        self,
        reason: StopReason,
        cancel_watchdog: bool,
        at: UtcInstant,
    ) -> (RuntimeView, bool) {
        if self.flags.stopped_reported {
            (self, false)
        } else {
            let sealed = self.with_flags(
                RuntimeFlags { stopped_reported: true, ..self.flags },
            ).watchdog_advanced();
            let told = if cancel_watchdog {
                sealed.with_effect(Effect::CancelStopWatchdog)
            } else {
                sealed
            };
            told.with_state(BackendState::Stopped { reason: Some(reason) }).enqueued(
                FactSource::Commanded,
                BackendEventPayload::Lifecycle(BackendLifecyclePayload::Stopped { reason }),
                at,
            )
        }
    }

    /// Nothing keeps a stop from ending: no movement is being registered,
    /// carried out or released.
    pub open spec fn stop_ready(self) -> bool {
        self.flags.stopping && !self.movement.registration && self.movement.completion is None
            && self.movement.id is None && self.connection.stop_reason is Some
    }

    pub open spec fn without_stop_reason(self) -> RuntimeView {
        RuntimeView {
            connection: ConnectionState { stop_reason: None, ..self.connection },
            ..self
        }
    }

    /// The stop ends, once nothing keeps it from ending.
    #[verifier::opaque]
    pub open spec fn stop_finalized(self, at: UtcInstant) -> RuntimeView {
        if self.stop_ready() {
            Self::followed(
                self.without_stop_reason().stop_announced(
                    self.connection.stop_reason->0,
                    true,
                    at,
                ),
            ).shutdown_asked()
        } else {
            self
        }
    }

    /// A stop is asked for: producers that wait for room are released first.
    pub open spec fn stop_signalled(self) -> RuntimeView {
        self.with_flags(RuntimeFlags { stop_requested: true, ..self.flags }).admission_cancelled()
    }

    /// The stop wins admission: nothing new begins and nothing is retried.
    #[verifier::opaque]
    pub open spec fn stop_begun(self, reason: StopReason) -> RuntimeView {
        RuntimeView {
            flags: RuntimeFlags {
                stopping: true,
                stop_requested: true,
                reconnect_add_pending: false,
                reconnect_pending: false,
                ready: false,
                ..self.flags
            },
            counters: RuntimeCounters {
                reconnect_attempt_token: checked_next(self.counters.reconnect_attempt_token),
                phase_generation: checked_next(self.counters.phase_generation),
                stable_generation: checked_next(self.counters.stable_generation),
                ..self.counters
            },
            connection: ConnectionState {
                stop_reason: Some(reason),
                state: BackendState::Stopping {
                    epoch: if self.epoch() != 0 {
                        Some(self.epoch())
                    } else {
                        None
                    },
                    reason,
                },
                ..self.connection
            },
            ..self
        }
    }

    /// Waits and timers of the connection are cancelled, and the watchdog runs.
    pub open spec fn stop_timed(self) -> RuntimeView {
        self.watchdog_advanced().with_effect(Effect::CancelReconnect).with_effect(
            Effect::CancelPhaseDeadlines,
        ).with_effect(Effect::CancelStableResets).stop_watchdog_started(self.watchdog_token())
    }

    /// The connection, if there is one, is closed on purpose.
    pub open spec fn closed_by_stop(self, at: UtcInstant) -> RuntimeView {
        if self.epoch() > 0 && !self.flags.disconnect_reported {
            self.ended_by(CloseEvidence::deliberate_stop(), None, at)
        } else {
            self.movement_cancelled(true)
        }
    }

    /// The whole of a stop, as far as it gets at once.
    pub open spec fn stopped_by(self, reason: StopReason, at: UtcInstant) -> RuntimeView {
        let signalled = self.stop_signalled();
        if signalled.flags.stopping {
            signalled
        } else {
            signalled.stop_begun(reason).stop_timed().pending_cancelled().closed_by_stop(
                at,
            ).swarm_exited().stop_finalized(at)
        }
    }

    /// The watchdog may fire: the stop has not ended, and it is the armed one.
    pub open spec fn watchdog_current(self, token: StopWatchdogToken) -> bool {
        self.flags.stopping && !self.flags.stopped_reported
            && self.counters.stop_watchdog_generation == token.generation
    }

    /// The reason that a forced stop reports.
    pub open spec fn forced_reason(self) -> StopReason {
        match self.connection.stop_reason {
            Some(reason) => reason,
            None => StopReason::Watchdog,
        }
    }

    /// Everything that a stop waited for is given up.
    #[verifier::opaque]
    pub open spec fn given_up(self) -> RuntimeView {
        RuntimeView {
            flags: RuntimeFlags {
                reconnect_add_pending: false,
                reconnect_pending: false,
                ready: false,
                ..self.flags
            },
            counters: RuntimeCounters {
                stop_watchdog_generation: checked_next(self.counters.stop_watchdog_generation),
                phase_generation: u64::MAX,
                stable_generation: u64::MAX,
                reconnect_attempt_token: checked_next(self.counters.reconnect_attempt_token),
                movement_generation: u64::MAX,
                ..self.counters
            },
            movement: MovementState::idle(),
            connection: ConnectionState {
                stop_reason: None,
                active_client: None,
                swarm: None,
                ..self.connection
            },
            commands: Seq::empty(),
            ..self
        }
    }

    pub open spec fn watchdog_settled(self, completion: Option<u64>) -> RuntimeView {
        self.completion_cancelled(completion, Operation::StopWatchdog, false).completion_finished(
            completion,
            Err(BackendError::Cancelled { operation: Operation::StopWatchdog }),
        )
    }

    /// The commands that a forced stop found in the queue settle, in order.
    pub open spec fn all_settled(self, commands: Seq<QueuedCommand>) -> RuntimeView
        decreases commands.len(),
    {
        if commands.len() == 0 {
            self
        } else {
            self.all_settled(commands.drop_last()).watchdog_settled(commands.last().completion)
        }
    }

    pub open spec fn client_dropped(self, client: Option<ClientRef>) -> RuntimeView {
        match client {
            Some(client) => self.with_effect(Effect::DisconnectClient(client)),
            None => self,
        }
    }

    pub open spec fn swarm_dropped(self, swarm: Option<u64>) -> RuntimeView {
        match swarm {
            Some(swarm) => self.with_effect(Effect::ExitSwarm(swarm)),
            None => self,
        }
    }

    /// The stop is forced.
    pub open spec fn stop_forced(self, token: StopWatchdogToken, at: UtcInstant) -> RuntimeView {
        if self.watchdog_current(token) {
            let step = self.given_up().stop_announced(self.forced_reason(), false, at);
            Self::followed(
                (
                    step.0.with_effect(Effect::CancelPhaseDeadlines).with_effect(
                        Effect::CancelStableResets,
                    ).with_effect(Effect::CancelReconnect).watchdog_settled(
                        self.movement.completion,
                    ).all_settled(self.commands).observations_cleared().client_dropped(
                        self.connection.active_client,
                    ).swarm_dropped(self.connection.swarm),
                    step.1,
                ),
            ).shutdown_asked()
        } else {
            self
        }
    }
}

impl SharedRuntime {
    /// Announces the end of the runtime. Every way to stop ends here, so the
    /// terminal event comes once.
    fn announce_stop(&mut self, reason: StopReason, cancel_watchdog: bool, at: UtcInstant) -> (
        should_drain: bool)
        requires
            old(self)@.wf(),
        ensures
            (final(self)@, should_drain) == old(self)@.stop_announced(
                reason,
                cancel_watchdog,
                at,
            ),
            final(self)@.wf(),
    {
        reveal(RuntimeView::stop_announced);
        if self.flags.stopped_reported {
            return false;
        }
        self.put_flags(RuntimeFlags { stopped_reported: true, ..self.flags });
        self.invalidate_stop_watchdog();
        if cancel_watchdog {
            self.request_effect(Effect::CancelStopWatchdog);
        }
        self.set_backend_state(BackendState::Stopped { reason: Some(reason.clone()) });
        self.enqueue_event(
            FactSource::Commanded,
            BackendEventPayload::Lifecycle(BackendLifecyclePayload::Stopped { reason }),
            at,
        )
    }

    fn take_stop_reason(&mut self) -> (reason: Option<StopReason>)
        requires
            old(self)@.wf(),
        ensures
            reason == old(self)@.connection.stop_reason,
            final(self)@ == old(self)@.without_stop_reason(),
            final(self)@.wf(),
    {
        let reason = self.connection.stop_reason.clone();
        self.connection.stop_reason = None;
        reason
    }

    /// Ends the stop, once no movement is left to release.
    pub fn finalize_stop_if_ready(&mut self, at: UtcInstant)
        requires
            old(self)@.wf(),
        ensures
            final(self)@ == old(self)@.stop_finalized(at),
            final(self)@.wf(),
    {
        reveal(RuntimeView::stop_finalized);
        if !self.flags.stopping || self.movement.registration || self.movement.completion.is_some()
            || self.movement.id.is_some() || self.connection.stop_reason.is_none() {
            return;
        }
        if let Some(reason) = self.take_stop_reason() {
            if self.announce_stop(reason, true, at) {
                self.drain_events();
            }
            self.request_shutdown();
        }
    }

    fn begin_stop(&mut self, reason: StopReason)
        requires
            old(self)@.wf(),
        ensures
            final(self)@ == old(self)@.stop_begun(reason),
            final(self)@.wf(),
    {
        reveal(RuntimeView::stop_begun);
        let epoch: u64 = self.writer.connection_epoch;
        self.put_flags(
            RuntimeFlags {
                stopping: true,
                stop_requested: true,
                reconnect_add_pending: false,
                reconnect_pending: false,
                ready: false,
                ..self.flags
            },
        );
        let mut counters = self.counters;
        let _ = crate::config::checked_increment(&mut counters.reconnect_attempt_token);
        let _ = crate::config::checked_increment(&mut counters.phase_generation);
        let _ = crate::config::checked_increment(&mut counters.stable_generation);
        self.put_counters(counters);
        self.connection.stop_reason = Some(reason.clone());
        self.connection.state = BackendState::Stopping {
            epoch: if epoch != 0 {
                Some(epoch)
            } else {
                None
            },
            reason,
        };
    }

    fn time_stop(&mut self)
        requires
            old(self)@.wf(),
        ensures
            final(self)@ == old(self)@.stop_timed(),
            final(self)@.wf(),
    {
        let token = self.arm_stop_watchdog();
        self.request_effect(Effect::CancelReconnect);
        self.request_effect(Effect::CancelPhaseDeadlines);
        self.request_effect(Effect::CancelStableResets);
        self.start_stop_watchdog(token);
    }

    fn close_by_stop(&mut self, at: UtcInstant)
        requires
            old(self)@.wf(),
        ensures
            final(self)@ == old(self)@.closed_by_stop(at),
            final(self)@.wf(),
    {
        if self.writer.connection_epoch > 0 && !self.flags.disconnect_reported {
            let _ = self.mark_disconnected_evidence(CloseEvidence::stop(), None, at);
        } else {
            let _ = self.cancel_active_movement(true);
        }
    }

    fn signal_stop(&mut self)
        requires
            old(self)@.wf(),
        ensures
            final(self)@ == old(self)@.stop_signalled(),
            final(self)@.wf(),
    {
        self.put_flags(RuntimeFlags { stop_requested: true, ..self.flags });
        self.cancel_event_admission();
    }

    /// Stops the runtime. Producers that wait for room are released before the
    /// stop takes admission; a second stop only releases them again.
    pub fn initiate_stop(&mut self, reason: StopReason, at: UtcInstant)
        requires
            old(self)@.wf(),
        ensures
            final(self)@ == old(self)@.stopped_by(reason, at),
            final(self)@.wf(),
    {
        self.signal_stop();
        if self.flags.stopping {
            return;
        }
        self.begin_stop(reason);
        self.time_stop();
        self.cancel_pending_commands();
        self.close_by_stop(at);
        let _ = self.exit_swarm();
        self.finalize_stop_if_ready(at);
    }

    fn give_up(&mut self) -> (commands: VecDeque<QueuedCommand>)
        requires
            old(self)@.wf(),
        ensures
            commands@ == old(self)@.commands,
            final(self)@ == old(self)@.given_up(),
            final(self)@.wf(),
    {
        reveal(RuntimeView::given_up);
        self.put_flags(
            RuntimeFlags {
                reconnect_add_pending: false,
                reconnect_pending: false,
                ready: false,
                ..self.flags
            },
        );
        let mut counters = self.counters;
        let _ = crate::config::checked_increment(&mut counters.stop_watchdog_generation);
        let _ = crate::config::checked_increment(&mut counters.reconnect_attempt_token);
        counters.phase_generation = u64::MAX;
        counters.stable_generation = u64::MAX;
        counters.movement_generation = u64::MAX;
        self.put_counters(counters);
        self.put_movement(
            MovementState {
                active: false,
                id: None,
                completion: None,
                cancel_signal: None,
                registration: false,
            },
        );
        self.connection.stop_reason = None;
        self.connection.active_client = None;
        self.connection.swarm = None;
        let mut commands = VecDeque::new();
        core::mem::swap(&mut commands, &mut self.commands);
        commands
    }

    fn settle_by_watchdog(&mut self, completion: Option<u64>)
        requires
            old(self)@.wf(),
        ensures
            final(self)@ == old(self)@.watchdog_settled(completion),
            final(self)@.wf(),
    {
        self.cancel_completion(completion, Operation::StopWatchdog, false);
        self.finish_command(
            completion,
            Err(BackendError::Cancelled { operation: Operation::StopWatchdog }),
        );
    }

    fn settle_all(&mut self, commands: VecDeque<QueuedCommand>)
        requires
            old(self)@.wf(),
        ensures
            final(self)@ == old(self)@.all_settled(commands@),
            final(self)@.wf(),
    {
        let ghost before = self@;
        let mut i: usize = 0;
        while i < commands.len()
            invariant
                i <= commands@.len(),
                self@.wf(),
                self@ == before.all_settled(commands@.take(i as int)),
            decreases commands@.len() - i,
        {
            let completion = commands[i].completion;
            proof {
                assert(commands@.take(i + 1).drop_last() =~= commands@.take(i as int));
                assert(commands@.take(i + 1).last() == commands@[i as int]);
            }
            self.settle_by_watchdog(completion);
            i = i + 1;
        }
        assert(commands@.take(i as int) =~= commands@);
    }

    fn release_connection(&mut self, client: Option<ClientRef>, swarm: Option<u64>)
        requires
            old(self)@.wf(),
        ensures
            final(self)@ == old(self)@.client_dropped(client).swarm_dropped(swarm),
            final(self)@.wf(),
    {
        if let Some(client) = client {
            self.request_effect(Effect::DisconnectClient(client));
        }
        if let Some(swarm) = swarm {
            self.request_effect(Effect::ExitSwarm(swarm));
        }
    }

    /// The watchdog has waited long enough. If the stop has not ended, it ends
    /// now: whatever it waited for is given up and settled.
    pub fn fire_stop_watchdog(&mut self, token: StopWatchdogToken, at: UtcInstant)
        requires
            old(self)@.wf(),
        ensures
            final(self)@ == old(self)@.stop_forced(token, at),
            final(self)@.wf(),
    {
        if !self.flags.stopping || self.flags.stopped_reported
            || self.counters.stop_watchdog_generation != token.generation {
            return;
        }
        let reason = match &self.connection.stop_reason {
            Some(reason) => reason.clone(),
            None => StopReason::Watchdog,
        };
        let completion = self.movement.completion;
        let client = self.connection.active_client;
        let swarm = self.connection.swarm;
        let commands = self.give_up();
        let should_drain = self.announce_stop(reason, false, at);
        self.request_effect(Effect::CancelPhaseDeadlines);
        self.request_effect(Effect::CancelStableResets);
        self.request_effect(Effect::CancelReconnect);
        self.settle_by_watchdog(completion);
        self.settle_all(commands);
        self.clear_observations();
        self.release_connection(client, swarm);
        if should_drain {
            self.drain_events();
        }
        self.request_shutdown();
    }
}

} // verus!
