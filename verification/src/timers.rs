//! Phase deadlines, the reset of the retry count and the stop watchdog.
//!
//! An armed timer is a token. It fires into the runtime only while its
//! generation, attempt and epoch are still the current ones.

use vstd::prelude::*;

use crate::config::{
    checked_increment, checked_next, PhaseDeadlineToken, StableResetToken, StopWatchdogToken,
    TransportPhase,
};
use crate::contract::BackendState;
use crate::state::{Effect, RuntimeCounters, RuntimeView, SharedRuntime};

verus! {

/// A retry count as states show it.
pub open spec fn shown_attempt(attempt: u64) -> u32 {
    if attempt > u32::MAX {
        u32::MAX
    } else {
        attempt as u32
    }
}

/// A retry count as states show it.
pub fn attempt_shown(attempt: u64) -> (n: u32)
    ensures
        n == shown_attempt(attempt),
{
    if attempt > u32::MAX as u64 {
        u32::MAX
    } else {
        attempt as u32
    }
}

impl RuntimeView {
    pub open spec fn phase_advanced(self) -> RuntimeView {
        RuntimeView {
            counters: RuntimeCounters {
                phase_generation: checked_next(self.counters.phase_generation),
                ..self.counters
            },
            ..self
        }
    }

    pub open spec fn stable_advanced(self) -> RuntimeView {
        RuntimeView {
            counters: RuntimeCounters {
                stable_generation: checked_next(self.counters.stable_generation),
                ..self.counters
            },
            ..self
        }
    }

    pub open spec fn watchdog_advanced(self) -> RuntimeView {
        RuntimeView {
            counters: RuntimeCounters {
                stop_watchdog_generation: checked_next(self.counters.stop_watchdog_generation),
                ..self.counters
            },
            ..self
        }
    }

    /// The token of a phase deadline armed now; none once the numbers run out.
    pub open spec fn phase_token(self, phase: TransportPhase) -> Option<PhaseDeadlineToken> {
        if self.counters.phase_generation == u64::MAX {
            None
        } else {
            Some(
                PhaseDeadlineToken {
                    epoch: self.epoch(),
                    attempt: self.counters.retry_ordinal,
                    phase,
                    generation: checked_next(self.counters.phase_generation),
                },
            )
        }
    }

    pub open spec fn stable_token(self) -> Option<StableResetToken> {
        if self.counters.stable_generation == u64::MAX {
            None
        } else {
            Some(
                StableResetToken {
                    epoch: self.epoch(),
                    attempt: self.counters.retry_ordinal,
                    generation: checked_next(self.counters.stable_generation),
                },
            )
        }
    }

    pub open spec fn watchdog_token(self) -> Option<StopWatchdogToken> {
        if self.counters.stop_watchdog_generation == u64::MAX {
            None
        } else {
            Some(
                StopWatchdogToken {
                    generation: checked_next(self.counters.stop_watchdog_generation),
                },
            )
        }
    }

    /// How long a phase may take, in milliseconds.
    pub open spec fn phase_limit(self, phase: TransportPhase) -> u64 {
        match phase {
            TransportPhase::Connecting => self.config.timeouts.connect_ms,
            TransportPhase::LoggingIn => self.config.timeouts.login_ms,
            TransportPhase::Spawning => self.config.timeouts.spawn_ms,
        }
    }

    /// The phase and the attempt that the state shows.
    pub open spec fn shown_phase(self) -> Option<(TransportPhase, u64, u32)> {
        match self.connection.state {
            BackendState::Connecting { epoch, attempt, .. } => Some(
                (TransportPhase::Connecting, epoch, attempt),
            ),
            BackendState::LoggingIn { epoch, attempt, .. } => Some(
                (TransportPhase::LoggingIn, epoch, attempt),
            ),
            BackendState::Spawning { epoch, attempt, .. } => Some(
                (TransportPhase::Spawning, epoch, attempt),
            ),
            _ => None,
        }
    }

    /// No stop, no end and no disconnect of the current attempt.
    pub open spec fn attempt_alive(self) -> bool {
        !self.flags.stopping && !self.flags.stop_requested && !self.flags.stopped_reported
            && !self.flags.disconnect_reported
    }

    /// A phase deadline is still the current one.
    pub open spec fn phase_deadline_current(self, token: PhaseDeadlineToken) -> bool {
        &&& self.attempt_alive()
        &&& self.counters.phase_generation == token.generation
        &&& self.counters.retry_ordinal == token.attempt
        &&& self.epoch() == token.epoch
        &&& self.shown_phase() == Some((token.phase, token.epoch, shown_attempt(token.attempt)))
    }

    /// A reset of the retry count is still the current one.
    pub open spec fn stable_reset_current(self, token: StableResetToken) -> bool {
        &&& self.attempt_alive()
        &&& self.counters.stable_generation == token.generation
        &&& self.counters.retry_ordinal == token.attempt
        &&& self.epoch() == token.epoch
        &&& self.connection.state matches BackendState::Ready { epoch, .. }
        &&& epoch == token.epoch
    }

    /// A deadline is set for every phase that has a client to cancel.
    pub open spec fn phase_deadline_started(
        self,
        token: Option<PhaseDeadlineToken>,
    ) -> RuntimeView {
        match token {
            Some(token) => if token.phase == TransportPhase::Connecting
                || !self.flags.timers_enabled {
                self
            } else {
                self.with_effect(
                    Effect::StartPhaseDeadline { token, after_ms: self.phase_limit(token.phase) },
                )
            },
            None => self,
        }
    }

    pub open spec fn stable_reset_started(self, token: Option<StableResetToken>) -> RuntimeView {
        match token {
            Some(token) => if self.flags.timers_enabled {
                self.with_effect(
                    Effect::StartStableReset {
                        token,
                        after_ms: self.config.reconnect.stable_reset_ms,
                    },
                )
            } else {
                self
            },
            None => self,
        }
    }

    pub open spec fn stop_watchdog_started(self, token: Option<StopWatchdogToken>) -> RuntimeView {
        match token {
            Some(token) => if self.flags.timers_enabled {
                self.with_effect(
                    Effect::StartStopWatchdog { token, after_ms: self.config.timeouts.stop_ms },
                )
            } else {
                self
            },
            None => self,
        }
    }

    /// A stable connection starts the retry count over.
    pub open spec fn stable_reset_fired(self, token: StableResetToken) -> RuntimeView {
        if self.stable_reset_current(token) {
            RuntimeView {
                counters: RuntimeCounters { retry_ordinal: 0, ..self.counters },
                ..self
            }
        } else {
            self
        }
    }
}

impl SharedRuntime {
    /// Arms the deadline of a phase: every earlier phase deadline is void.
    pub fn arm_phase_deadline(&mut self, phase: TransportPhase) -> (token: Option<
        PhaseDeadlineToken,
    >)
        requires
            old(self)@.wf(),
        ensures
            token == old(self)@.phase_token(phase),
            final(self)@ == old(self)@.phase_advanced(),
            final(self)@.wf(),
    {
        match checked_increment(&mut self.counters.phase_generation) {
            Some(generation) => Some(
                PhaseDeadlineToken {
                    epoch: self.writer.connection_epoch,
                    attempt: self.counters.retry_ordinal,
                    phase,
                    generation,
                },
            ),
            None => None,
        }
    }

    /// Arms the reset of the retry count.
    pub fn arm_stable_reset(&mut self) -> (token: Option<StableResetToken>)
        requires
            old(self)@.wf(),
        ensures
            token == old(self)@.stable_token(),
            final(self)@ == old(self)@.stable_advanced(),
            final(self)@.wf(),
    {
        match checked_increment(&mut self.counters.stable_generation) {
            Some(generation) => Some(
                StableResetToken {
                    epoch: self.writer.connection_epoch,
                    attempt: self.counters.retry_ordinal,
                    generation,
                },
            ),
            None => None,
        }
    }

    /// Arms the stop watchdog.
    pub fn arm_stop_watchdog(&mut self) -> (token: Option<StopWatchdogToken>)
        requires
            old(self)@.wf(),
        ensures
            token == old(self)@.watchdog_token(),
            final(self)@ == old(self)@.watchdog_advanced(),
            final(self)@.wf(),
    {
        match checked_increment(&mut self.counters.stop_watchdog_generation) {
            Some(generation) => Some(StopWatchdogToken { generation }),
            None => None,
        }
    }

    /// Voids every armed phase deadline.
    pub fn invalidate_phase(&mut self)
        requires
            old(self)@.wf(),
        ensures
            final(self)@ == old(self)@.phase_advanced(),
            final(self)@.wf(),
    {
        let _ = checked_increment(&mut self.counters.phase_generation);
    }

    /// Voids every armed reset of the retry count.
    pub fn invalidate_stable_reset(&mut self)
        requires
            old(self)@.wf(),
        ensures
            final(self)@ == old(self)@.stable_advanced(),
            final(self)@.wf(),
    {
        let _ = checked_increment(&mut self.counters.stable_generation);
    }

    /// Voids the armed stop watchdog.
    pub fn invalidate_stop_watchdog(&mut self)
        requires
            old(self)@.wf(),
        ensures
            final(self)@ == old(self)@.watchdog_advanced(),
            final(self)@.wf(),
    {
        let _ = checked_increment(&mut self.counters.stop_watchdog_generation);
    }

    /// How long a phase may take, in milliseconds.
    pub fn phase_timeout(&self, phase: TransportPhase) -> (ms: u64)
        ensures
            ms == self@.phase_limit(phase),
    {
        match phase {
            TransportPhase::Connecting => self.config.timeouts.connect_ms,
            TransportPhase::LoggingIn => self.config.timeouts.login_ms,
            TransportPhase::Spawning => self.config.timeouts.spawn_ms,
        }
    }

    fn is_attempt_alive(&self) -> (r: bool)
        ensures
            r == self@.attempt_alive(),
    {
        !self.flags.stopping && !self.flags.stop_requested && !self.flags.stopped_reported
            && !self.flags.disconnect_reported
    }

    /// Tells whether a phase deadline is still the current one.
    pub fn phase_deadline_matches(&self, token: PhaseDeadlineToken) -> (r: bool)
        ensures
            r == self@.phase_deadline_current(token),
    {
        if !self.is_attempt_alive() || self.counters.phase_generation != token.generation
            || self.counters.retry_ordinal != token.attempt || self.writer.connection_epoch
            != token.epoch {
            return false;
        }
        let attempt: u32 = attempt_shown(token.attempt);
        match &self.connection.state {
            BackendState::Connecting { epoch, attempt: shown, .. } => token.phase
                == TransportPhase::Connecting && *epoch == token.epoch && *shown == attempt,
            BackendState::LoggingIn { epoch, attempt: shown, .. } => token.phase
                == TransportPhase::LoggingIn && *epoch == token.epoch && *shown == attempt,
            BackendState::Spawning { epoch, attempt: shown, .. } => token.phase
                == TransportPhase::Spawning && *epoch == token.epoch && *shown == attempt,
            _ => false,
        }
    }

    /// Tells whether a reset of the retry count is still the current one.
    pub fn stable_reset_matches(&self, token: StableResetToken) -> (r: bool)
        ensures
            r == self@.stable_reset_current(token),
    {
        if !self.is_attempt_alive() || self.counters.stable_generation != token.generation
            || self.counters.retry_ordinal != token.attempt || self.writer.connection_epoch
            != token.epoch {
            return false;
        }
        match &self.connection.state {
            BackendState::Ready { epoch, .. } => *epoch == token.epoch,
            _ => false,
        }
    }

    /// Starts the timer of a phase deadline. Before a client exists there is
    /// nothing to cancel, so the first phase has none.
    pub fn start_phase_deadline(&mut self, token: Option<PhaseDeadlineToken>)
        requires
            old(self)@.wf(),
        ensures
            final(self)@ == old(self)@.phase_deadline_started(token),
            final(self)@.wf(),
    {
        if let Some(token) = token {
            if token.phase == TransportPhase::Connecting || !self.flags.timers_enabled {
                return;
            }
            let after_ms: u64 = self.phase_timeout(token.phase);
            self.effects.push(Effect::StartPhaseDeadline { token, after_ms });
        }
    }

    /// Starts the timer of a reset of the retry count.
    pub fn start_stable_reset(&mut self, token: Option<StableResetToken>)
        requires
            old(self)@.wf(),
        ensures
            final(self)@ == old(self)@.stable_reset_started(token),
            final(self)@.wf(),
    {
        if let Some(token) = token {
            if self.flags.timers_enabled {
                let after_ms: u64 = self.config.reconnect.stable_reset_ms;
                self.effects.push(Effect::StartStableReset { token, after_ms });
            }
        }
    }

    /// Starts the timer of the stop watchdog.
    pub fn start_stop_watchdog(&mut self, token: Option<StopWatchdogToken>)
        requires
            old(self)@.wf(),
        ensures
            final(self)@ == old(self)@.stop_watchdog_started(token),
            final(self)@.wf(),
    {
        if let Some(token) = token {
            if self.flags.timers_enabled {
                let after_ms: u64 = self.config.timeouts.stop_ms;
                self.effects.push(Effect::StartStopWatchdog { token, after_ms });
            }
        }
    }

    /// The connection has been ready for long enough: retries count from zero.
    pub fn fire_stable_reset(&mut self, token: StableResetToken)
        requires
            old(self)@.wf(),
        ensures
            final(self)@ == old(self)@.stable_reset_fired(token),
            final(self)@.wf(),
    {
        if self.stable_reset_matches(token) {
            self.counters.retry_ordinal = 0;
        }
    }

    /// Records one effect for the owner of the runtime to perform.
    pub fn request_effect(&mut self, effect: Effect)
        requires
            old(self)@.wf(),
        ensures
            final(self)@ == old(self)@.with_effect(effect),
            final(self)@.wf(),
    {
        self.effects.push(effect);
    }
}

/// Arming a phase voids the deadlines armed before it.
pub proof fn law_arming_voids_earlier_deadlines(runtime: RuntimeView, token: PhaseDeadlineToken)
    requires
        runtime.phase_deadline_current(token),
        runtime.counters.phase_generation < u64::MAX,
    ensures
        !runtime.phase_advanced().phase_deadline_current(token),
{
}

/// A deadline of an attempt never fires into the next one: the epoch differs.
pub proof fn law_timers_do_not_cross_epochs(
    runtime: RuntimeView,
    phase: PhaseDeadlineToken,
    stable: StableResetToken,
)
    ensures
        runtime.epoch() != phase.epoch ==> !runtime.phase_deadline_current(phase),
        runtime.epoch() != stable.epoch ==> runtime.stable_reset_fired(stable) == runtime,
{
}

/// Once a stop is asked for, no phase deadline and no reset fires.
pub proof fn law_stop_voids_timers(
    runtime: RuntimeView,
    phase: PhaseDeadlineToken,
    stable: StableResetToken,
)
    requires
        runtime.flags.stop_requested,
    ensures
        !runtime.phase_deadline_current(phase),
        runtime.stable_reset_fired(stable) == runtime,
{
}

/// A retry count is shown as it is, as far as it fits.
pub proof fn law_retries_are_shown_as_they_are(attempt: u64)
    ensures
        attempt <= 0xFFFF_FFFF ==> shown_attempt(attempt) == attempt,
        attempt > 0xFFFF_FFFF ==> shown_attempt(attempt) == 0xFFFF_FFFF,
{
}

/// Every phase has a limit of its own in the configuration.
pub proof fn law_every_phase_has_its_limit(runtime: RuntimeView)
    ensures
        runtime.phase_limit(TransportPhase::Connecting) == runtime.config.timeouts.connect_ms,
        runtime.phase_limit(TransportPhase::LoggingIn) == runtime.config.timeouts.login_ms,
        runtime.phase_limit(TransportPhase::Spawning) == runtime.config.timeouts.spawn_ms,
{
}

/// A deadline is started for every phase that has a client to cancel, while timers
/// count, and it allows the limit of that phase.
pub proof fn law_phases_with_a_client_are_timed(runtime: RuntimeView, token: PhaseDeadlineToken)
    ensures
        ({
            let after = runtime.phase_deadline_started(Some(token));
            let limit = match token.phase {
                TransportPhase::Connecting => runtime.config.timeouts.connect_ms,
                TransportPhase::LoggingIn => runtime.config.timeouts.login_ms,
                TransportPhase::Spawning => runtime.config.timeouts.spawn_ms,
            };
            &&& runtime.flags.timers_enabled && (token.phase == TransportPhase::LoggingIn
                || token.phase == TransportPhase::Spawning) ==> after == (RuntimeView {
                effects: runtime.effects.push(
                    Effect::StartPhaseDeadline { token, after_ms: limit },
                ),
                ..runtime
            })
            &&& !runtime.flags.timers_enabled || token.phase == TransportPhase::Connecting ==> after
                == runtime
        }),
        runtime.phase_deadline_started(None) == runtime,
{
}

/// The reset of the retry count and the watchdog of a stop are started while
/// timers count, with their own limits.
pub proof fn law_resets_and_stops_are_timed(
    runtime: RuntimeView,
    stable: StableResetToken,
    stop: StopWatchdogToken,
)
    ensures
        runtime.flags.timers_enabled ==> runtime.stable_reset_started(Some(stable)).effects
            == runtime.effects.push(
            Effect::StartStableReset {
                token: stable,
                after_ms: runtime.config.reconnect.stable_reset_ms,
            },
        ),
        runtime.flags.timers_enabled ==> runtime.stop_watchdog_started(Some(stop)).effects
            == runtime.effects.push(
            Effect::StartStopWatchdog { token: stop, after_ms: runtime.config.timeouts.stop_ms },
        ),
        !runtime.flags.timers_enabled ==> runtime.stable_reset_started(Some(stable)) == runtime,
        !runtime.flags.timers_enabled ==> runtime.stop_watchdog_started(Some(stop)) == runtime,
        runtime.stable_reset_started(None) == runtime,
        runtime.stop_watchdog_started(None) == runtime,
{
}

/// A timer is armed under the next number of its kind, for the current epoch and
/// retry; when the numbers have run out none is armed.
pub proof fn law_timers_are_numbered(runtime: RuntimeView, phase: TransportPhase)
    ensures
        runtime.phase_token(phase) is None <==> runtime.counters.phase_generation == u64::MAX,
        runtime.stable_token() is None <==> runtime.counters.stable_generation == u64::MAX,
        runtime.watchdog_token() is None <==> runtime.counters.stop_watchdog_generation
            == u64::MAX,
        runtime.phase_token(phase) matches Some(token) ==> {
            &&& token.phase == phase
            &&& token.epoch == runtime.writer.connection_epoch
            &&& token.attempt == runtime.counters.retry_ordinal
            &&& token.generation == runtime.counters.phase_generation + 1
            &&& runtime.phase_advanced().counters.phase_generation == token.generation
        },
        runtime.stable_token() matches Some(token) ==> {
            &&& token.epoch == runtime.writer.connection_epoch
            &&& token.attempt == runtime.counters.retry_ordinal
            &&& token.generation == runtime.counters.stable_generation + 1
            &&& runtime.stable_advanced().counters.stable_generation == token.generation
        },
        runtime.watchdog_token() matches Some(token) ==> {
            &&& token.generation == runtime.counters.stop_watchdog_generation + 1
            &&& runtime.watchdog_advanced().counters.stop_watchdog_generation == token.generation
        },
{
}

/// The retry count starts over exactly when the current reset fires: the player is
/// ready in the epoch and the retry that it was armed in, and nobody has asked for
/// a stop or heard of an end.
pub proof fn law_a_stable_connection_starts_over(runtime: RuntimeView, token: StableResetToken)
    ensures
        ({
            let current = !runtime.flags.stopping && !runtime.flags.stop_requested
                && !runtime.flags.stopped_reported && !runtime.flags.disconnect_reported
                && runtime.counters.stable_generation == token.generation
                && runtime.counters.retry_ordinal == token.attempt
                && runtime.writer.connection_epoch == token.epoch && (
            match runtime.connection.state {
                BackendState::Ready { epoch, .. } => epoch == token.epoch,
                _ => false,
            });
            let after = runtime.stable_reset_fired(token);
            &&& runtime.stable_reset_current(token) <==> current
            &&& current ==> after == (RuntimeView {
                counters: RuntimeCounters { retry_ordinal: 0, ..runtime.counters },
                ..runtime
            })
            &&& !current ==> after == runtime
        }),
{
}

} // verus!
