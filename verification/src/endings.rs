//! How lives, stops and runs end: what is shown, told, given up and asked for.

use vstd::prelude::*;

use crate::closing::CloseEvidence;
use crate::command::component_failure;
use crate::config::StopWatchdogToken;
use crate::contract::{
    Actuation, BackendError, BackendEventPayload, BackendFailure, BackendLifecyclePayload,
    BackendState, CloseCode, FactSource, Operation, StopReason,
};
use crate::events::{drain_step, held, lemma_take_shrinks};
use crate::guarantees::{
    lemma_begun_frame, lemma_closed_by_stop_frame, lemma_death_frame, lemma_disconnected_frame,
    lemma_emitted_frame, lemma_followed_frame, lemma_shutdown_frame, lemma_signalled_frame,
};
use crate::promises::{hearing, hears, lemma_heard};
use crate::state::{
    ClientRef, Effect, MovementState, QueuedCommand, RuntimeCounters, RuntimeFlags, RuntimeView,
};
use crate::time::UtcInstant;

verus! {

/// Nothing that was to be done is forgotten: what is to be done now begins with
/// what was to be done before.
pub open spec fn keeps(before: Seq<Effect>, after: Seq<Effect>) -> bool {
    before.len() <= after.len() && after.take(before.len() as int) == before
}

proof fn lemma_kept(before: Seq<Effect>, between: Seq<Effect>, after: Seq<Effect>)
    requires
        keeps(before, between),
        keeps(between, after),
    ensures
        keeps(before, after),
        forall|effect: Effect| #[trigger] between.contains(effect) ==> after.contains(effect),
{
    assert(after.take(before.len() as int) =~= between.take(before.len() as int));
    assert forall|effect: Effect| #[trigger] between.contains(effect) implies after.contains(
        effect,
    ) by {
        let i = choose|i: int| 0 <= i < between.len() && between[i] == effect;
        assert(after.take(between.len() as int)[i] == effect);
        assert(after[i] == effect);
    }
}

proof fn lemma_drained_keeps(runtime: RuntimeView)
    ensures
        keeps(runtime.effects, runtime.drained().effects),
    decreases held(runtime.dispatch.lanes),
{
    reveal_with_fuel(RuntimeView::drained, 2);
    lemma_take_shrinks(runtime.dispatch.lanes);
    let effects = runtime.effects;
    assert(effects.take(effects.len() as int) =~= effects);
    if !runtime.backpressured() && runtime.dispatch.lanes.next_item() is Some {
        let step = drain_step(runtime);
        assert(step.effects.take(effects.len() as int) =~= effects);
        lemma_drained_keeps(step);
        lemma_kept(effects, step.effects, runtime.drained().effects);
    }
}

proof fn lemma_followed_keeps(step: (RuntimeView, bool))
    ensures
        keeps(step.0.effects, RuntimeView::followed(step).effects),
{
    lemma_drained_keeps(step.0);
    assert(step.0.effects.take(step.0.effects.len() as int) =~= step.0.effects);
}

proof fn lemma_pumped_keeps(runtime: RuntimeView)
    ensures
        keeps(runtime.effects, runtime.pumped().effects),
{
    reveal(RuntimeView::pumped);
    let effects = runtime.effects;
    assert(effects.take(effects.len() as int) =~= effects);
    let resumed = runtime.with_subscribers_resumed();
    lemma_drained_keeps(resumed);
    let once = resumed.drained_if_active();
    let retried = once.with_stalled_retried();
    lemma_drained_keeps(retried);
    assert(once.effects.take(once.effects.len() as int) =~= once.effects);
    lemma_kept(effects, once.effects, runtime.pumped().effects);
}

/// What is asked for stays asked for, whatever events are handed on meanwhile.
pub proof fn law_nothing_asked_for_is_forgotten(
    step: (RuntimeView, bool),
    source: FactSource,
    payload: BackendEventPayload,
    at: UtcInstant,
)
    ensures
        keeps(step.0.effects, RuntimeView::followed(step).effects),
        keeps(step.0.effects, step.0.pumped().effects),
        keeps(step.0.effects, step.0.drained().effects),
        keeps(step.0.effects, step.0.emitted(source, payload, at).effects),
{
    lemma_followed_keeps(step);
    lemma_pumped_keeps(step.0);
    lemma_drained_keeps(step.0);
    let queued = step.0.enqueued(source, payload, at);
    reveal(RuntimeView::dispatched);
    lemma_followed_keeps(queued);
}

/// A run that is asked to end says so, and nobody waits for room any more. What
/// was asked for before stays so.
pub proof fn law_a_run_is_asked_to_end(runtime: RuntimeView)
    ensures
        ({
            let after = runtime.shutdown_asked();
            &&& after.flags == (RuntimeFlags {
                shutdown_requested: true,
                dispatch_cancelled: true,
                ..runtime.flags
            })
            &&& keeps(runtime.effects, after.effects)
            &&& after.effects.contains(Effect::Shutdown)
            &&& after.effects.contains(Effect::WakeDispatch)
        }),
{
    lemma_shutdown_frame(runtime);
    let asked = runtime.effects.push(Effect::Shutdown);
    let woken = asked.push(Effect::WakeDispatch);
    let ended = runtime.with_flags(
        RuntimeFlags { shutdown_requested: true, ..runtime.flags },
    ).with_effect(Effect::Shutdown).admission_ended();
    assert(ended.effects == woken);
    lemma_pumped_keeps(ended);
    assert(woken[runtime.effects.len() as int] == Effect::Shutdown);
    assert(woken[(runtime.effects.len() + 1) as int] == Effect::WakeDispatch);
    assert(woken.take(runtime.effects.len() as int) =~= runtime.effects);
    lemma_kept(runtime.effects, woken, runtime.shutdown_asked().effects);
}

/// The death of the player is shown with its time, the movement is over before
/// anyone hears of it, and then everyone does.
pub proof fn law_everyone_hears_of_a_death(
    runtime: RuntimeView,
    released: bool,
    at: UtcInstant,
    subscriber: int,
)
    requires
        !runtime.flags.stopping,
        !runtime.flags.disconnect_reported,
        !runtime.flags.death_reported,
        hearing(runtime),
        0 <= subscriber < runtime.subscribers.len(),
    ensures
        ({
            let after = runtime.died(released, at);
            &&& after.connection.state == (BackendState::Dead {
                epoch: runtime.writer.connection_epoch,
                attempt_id: runtime.writer.connection_attempt_id,
                died_at: at,
            })
            &&& after.flags == (RuntimeFlags {
                death_reported: true,
                ready: false,
                ..runtime.flags
            })
            &&& after.movement == MovementState::idle()
            &&& hears(
                after,
                subscriber,
                runtime.writer,
                FactSource::ServerObserved,
                BackendEventPayload::Lifecycle(BackendLifecyclePayload::Died),
                at,
            )
        }),
{
    reveal(RuntimeView::movement_ended_by_death);
    let shown = runtime.with_flags(
        RuntimeFlags { death_reported: true, ready: false, ..runtime.flags },
    ).with_state(
        BackendState::Dead {
            epoch: runtime.epoch(),
            attempt_id: runtime.writer.connection_attempt_id,
            died_at: at,
        },
    );
    lemma_death_frame(shown, released);
    let still = shown.movement_ended_by_death(released);
    assert(hearing(still));
    lemma_emitted_frame(
        still,
        FactSource::ServerObserved,
        BackendEventPayload::Lifecycle(BackendLifecyclePayload::Died),
        at,
    );
    lemma_heard(
        still,
        FactSource::ServerObserved,
        BackendEventPayload::Lifecycle(BackendLifecyclePayload::Died),
        at,
        subscriber,
    );
}

/// A movement that death ends gives its command a result: that it was cancelled,
/// or that there was no player to release. Its signal is raised, and nothing that
/// it started may act any more.
pub proof fn law_death_ends_the_movement(runtime: RuntimeView, released: bool, completion: u64)
    requires
        runtime.movement.completion == Some(completion),
        runtime.completions.contains_key(completion),
        runtime.completions[completion].settled_result is None,
        runtime.completions[completion].active_release,
        runtime.counters.movement_generation < u64::MAX,
    ensures
        ({
            let after = runtime.movement_ended_by_death(released);
            &&& after.movement == MovementState::idle()
            &&& after.counters.movement_generation == runtime.counters.movement_generation + 1
            &&& after.completions[completion].cancelled
            &&& after.completions[completion].settled_result == Some(
                Err::<(), BackendError>(
                    if released {
                        BackendError::Cancelled { operation: Operation::MovementStoppedByDeath }
                    } else {
                        component_failure(Actuation::DeathMove)
                    },
                ),
            )
            &&& runtime.movement.cancel_signal matches Some(signal) ==> after.effects.contains(
                Effect::RaiseSignal(signal),
            )
        }),
{
    reveal(RuntimeView::movement_ended_by_death);
    let told = runtime.generation_advanced().completion_cancelled(
        Some(completion),
        Operation::MovementStoppedByDeath,
        true,
    );
    if let Some(signal) = runtime.movement.cancel_signal {
        let raised = told.effects.push(Effect::RaiseSignal(signal));
        let settled = raised.push(Effect::Settled(completion));
        assert(raised[told.effects.len() as int] == Effect::RaiseSignal(signal));
        assert(settled[told.effects.len() as int] == Effect::RaiseSignal(signal));
        assert(runtime.movement_ended_by_death(released).effects == settled);
    }
}

/// A death is not taken twice in one life, nor once the run is ending.
pub proof fn law_when_a_death_is_taken(runtime: RuntimeView, released: bool, at: UtcInstant)
    ensures
        runtime.death_admissible() <==> !runtime.flags.stopping
            && !runtime.flags.disconnect_reported && !runtime.flags.death_reported,
        !runtime.death_admissible() ==> runtime.died(released, at) == runtime,
{
}

/// A stop that begins is shown with its reason, and with the epoch if there ever
/// was one. Nothing is retried, no timer of before counts any more, and the player
/// is not ready.
pub proof fn law_a_stop_begins(runtime: RuntimeView, reason: StopReason)
    requires
        runtime.counters.reconnect_attempt_token < u64::MAX,
        runtime.counters.phase_generation < u64::MAX,
        runtime.counters.stable_generation < u64::MAX,
    ensures
        ({
            let after = runtime.stop_begun(reason);
            &&& after.flags == (RuntimeFlags {
                stopping: true,
                stop_requested: true,
                reconnect_add_pending: false,
                reconnect_pending: false,
                ready: false,
                ..runtime.flags
            })
            &&& after.connection.stop_reason == Some(reason)
            &&& after.connection.state == (BackendState::Stopping {
                epoch: if runtime.writer.connection_epoch == 0 {
                    None
                } else {
                    Some(runtime.writer.connection_epoch)
                },
                reason,
            })
            &&& after.counters == (RuntimeCounters {
                reconnect_attempt_token: (runtime.counters.reconnect_attempt_token + 1) as u64,
                phase_generation: (runtime.counters.phase_generation + 1) as u64,
                stable_generation: (runtime.counters.stable_generation + 1) as u64,
                ..runtime.counters
            })
            &&& after.connection.last_close == runtime.connection.last_close
            &&& after.connection.active_client == runtime.connection.active_client
            &&& after.movement == runtime.movement
            &&& after.commands == runtime.commands
        }),
{
    reveal(RuntimeView::stop_begun);
}

/// A stop cancels the wait for a reconnect and every timer of the connection, and
/// is watched itself: its watchdog allows what the configuration allows for a
/// stop.
pub proof fn law_a_stop_is_watched(runtime: RuntimeView)
    requires
        runtime.flags.timers_enabled,
        runtime.counters.stop_watchdog_generation < u64::MAX,
    ensures
        ({
            let after = runtime.stop_timed();
            let token = StopWatchdogToken {
                generation: (runtime.counters.stop_watchdog_generation + 1) as u64,
            };
            &&& after.effects == runtime.effects.push(Effect::CancelReconnect).push(
                Effect::CancelPhaseDeadlines,
            ).push(Effect::CancelStableResets).push(
                Effect::StartStopWatchdog { token, after_ms: runtime.config.timeouts.stop_ms },
            )
            &&& after.counters.stop_watchdog_generation == token.generation
            &&& runtime.flags.stopping && !runtime.flags.stopped_reported
                ==> after.watchdog_current(token)
        }),
{
}

/// A watchdog forces the stop exactly if it is the one that was armed last, and
/// the stop has not ended.
pub proof fn law_which_watchdog_fires(
    runtime: RuntimeView,
    token: StopWatchdogToken,
    at: UtcInstant,
)
    ensures
        runtime.watchdog_current(token) <==> runtime.flags.stopping
            && !runtime.flags.stopped_reported && runtime.counters.stop_watchdog_generation
            == token.generation,
        !runtime.watchdog_current(token) ==> runtime.stop_forced(token, at) == runtime,
        runtime.connection.stop_reason matches Some(reason) ==> runtime.forced_reason() == reason,
        runtime.connection.stop_reason is None ==> runtime.forced_reason() is Watchdog,
{
}

/// A stop can end exactly if it has begun, no movement is registered, carried out
/// or to be released, and its reason was not told yet.
pub proof fn law_when_a_stop_can_end(runtime: RuntimeView, at: UtcInstant)
    ensures
        runtime.stop_ready() <==> {
            &&& runtime.flags.stopping
            &&& !runtime.movement.registration
            &&& runtime.movement.completion is None
            &&& runtime.movement.id is None
            &&& runtime.connection.stop_reason is Some
        },
        !runtime.stop_ready() ==> runtime.stop_finalized(at) == runtime,
{
    reveal(RuntimeView::stop_finalized);
}

/// The end of a run is shown and everyone hears of it, with its reason; no
/// watchdog of before counts any more.
pub proof fn law_everyone_hears_of_the_end(
    runtime: RuntimeView,
    reason: StopReason,
    cancel_watchdog: bool,
    at: UtcInstant,
    subscriber: int,
)
    requires
        !runtime.flags.stopped_reported,
        runtime.counters.stop_watchdog_generation < u64::MAX,
        hearing(runtime),
        0 <= subscriber < runtime.subscribers.len(),
    ensures
        ({
            let after = RuntimeView::followed(runtime.stop_announced(reason, cancel_watchdog, at));
            &&& after.flags.stopped_reported
            &&& after.connection.state == (BackendState::Stopped { reason: Some(reason) })
            &&& after.counters.stop_watchdog_generation
                == runtime.counters.stop_watchdog_generation + 1
            &&& cancel_watchdog ==> after.effects.contains(Effect::CancelStopWatchdog)
            &&& hears(
                after,
                subscriber,
                runtime.writer,
                FactSource::Commanded,
                BackendEventPayload::Lifecycle(BackendLifecyclePayload::Stopped { reason }),
                at,
            )
        }),
{
    reveal(RuntimeView::stop_announced);
    let sealed = runtime.with_flags(
        RuntimeFlags { stopped_reported: true, ..runtime.flags },
    ).watchdog_advanced();
    let told = if cancel_watchdog {
        sealed.with_effect(Effect::CancelStopWatchdog)
    } else {
        sealed
    };
    let shown = told.with_state(BackendState::Stopped { reason: Some(reason) });
    let payload = BackendEventPayload::Lifecycle(BackendLifecyclePayload::Stopped { reason });
    assert(hearing(shown));
    lemma_emitted_frame(shown, FactSource::Commanded, payload, at);
    lemma_heard(shown, FactSource::Commanded, payload, at, subscriber);
    if cancel_watchdog {
        assert(shown.effects[runtime.effects.len() as int] == Effect::CancelStopWatchdog);
        let effects = shown.effects;
        assert(effects.take(effects.len() as int) =~= effects);
        law_nothing_asked_for_is_forgotten((shown, false), FactSource::Commanded, payload, at);
        lemma_kept(effects, effects, shown.emitted(FactSource::Commanded, payload, at).effects);
    }
}

/// A stop closes the connection on purpose, if there is one that has not ended:
/// that is no reason for a retry. Otherwise there is nothing to close.
pub proof fn law_a_stop_closes_on_purpose(runtime: RuntimeView, at: UtcInstant)
    requires
        runtime.flags.stopping,
        !runtime.flags.stopped_reported,
    ensures
        ({
            let after = runtime.closed_by_stop(at);
            let connected = runtime.writer.connection_epoch > 0
                && !runtime.flags.disconnect_reported;
            &&& connected ==> {
                &&& after.connection.last_close matches Some(close)
                &&& close.code == CloseCode::DeliberateStop
                &&& close.deliberate
                &&& !close.retryable
                &&& close.epoch == runtime.writer.connection_epoch
                &&& close.at == at
                &&& after.flags.disconnect_reported
                &&& after.producer.owner is None
                &&& after.connection.active_client is None
            }
            &&& !connected ==> after.connection == runtime.connection && after.flags
                == runtime.flags && after.writer == runtime.writer
        }),
{
    if runtime.writer.connection_epoch > 0 && !runtime.flags.disconnect_reported {
        let evidence = CloseEvidence::deliberate_stop();
        lemma_disconnected_frame(runtime, evidence, None, at);
        let step = runtime.disconnected(evidence, None, at);
        lemma_followed_frame((step.0, step.2));
    }
}

/// A report of a disconnect that comes while the run stops does not change why
/// the connection ends.
pub proof fn law_a_stop_is_stronger_than_a_disconnect(
    runtime: RuntimeView,
    evidence: CloseEvidence,
)
    ensures
        runtime.flags.stopping && !evidence.deliberate ==> {
            let effective = runtime.effective_evidence(evidence);
            &&& effective.code == CloseCode::DeliberateStop
            &&& effective.deliberate
            &&& !effective.retryable
            &&& effective.kick is None
            &&& effective.failure is None
        },
        !runtime.flags.stopping || evidence.deliberate ==> runtime.effective_evidence(evidence)
            == evidence,
{
}

proof fn lemma_watchdog_settles(runtime: RuntimeView, completion: u64, other: u64)
    requires
        runtime.completions.contains_key(other),
    ensures
        ({
            let after = runtime.watchdog_settled(Some(completion));
            &&& after.completions.contains_key(other)
            &&& runtime.completions[other].settled_result is Some || other == completion
                ==> after.completions[other].settled_result is Some
            &&& keeps(runtime.effects, after.effects)
        }),
{
    let effects = runtime.watchdog_settled(Some(completion)).effects;
    assert(effects.take(runtime.effects.len() as int) =~= runtime.effects);
}

proof fn lemma_all_settle(
    runtime: RuntimeView,
    commands: Seq<QueuedCommand>,
    at: int,
    completion: u64,
)
    requires
        runtime.completions.contains_key(completion),
    ensures
        ({
            let after = runtime.all_settled(commands);
            &&& after.completions.contains_key(completion)
            &&& runtime.completions[completion].settled_result is Some
                ==> after.completions[completion].settled_result is Some
            &&& 0 <= at < commands.len() && commands[at].completion == Some(completion)
                ==> after.completions[completion].settled_result is Some
        }),
    decreases commands.len(),
{
    if commands.len() > 0 {
        let rest = commands.drop_last();
        lemma_all_settle(runtime, rest, at, completion);
        let between = runtime.all_settled(rest);
        if at < rest.len() && 0 <= at {
            assert(rest[at] == commands[at]);
        }
        if let Some(last) = commands.last().completion {
            lemma_watchdog_settles(between, last, completion);
        }
    }
}

/// When a stop is forced, every command that was still queued gets a result, and
/// so does the movement that the stop waited for.
pub proof fn law_a_forced_stop_settles_everything(
    runtime: RuntimeView,
    commands: Seq<QueuedCommand>,
    at: int,
    completion: u64,
)
    requires
        runtime.completions.contains_key(completion),
    ensures
        runtime.watchdog_settled(Some(completion)).completions[completion].settled_result is Some,
        runtime.completions[completion].settled_result is None && !(
        runtime.completions[completion].active_release
            && runtime.completions[completion].release_on_cancel) ==> runtime.watchdog_settled(
            Some(completion),
        ).completions[completion].settled_result == Some(
            Err::<(), BackendError>(
                BackendError::Cancelled { operation: Operation::StopWatchdog },
            ),
        ),
        0 <= at < commands.len() && commands[at].completion == Some(completion)
            ==> runtime.all_settled(commands).completions[completion].settled_result is Some,
{
    lemma_all_settle(runtime, commands, at, completion);
}

/// A stop that is given up holds on to nothing: no movement, no client, no manager
/// and no command, and none of their timers counts any more.
pub proof fn law_a_stop_that_is_given_up_holds_nothing(runtime: RuntimeView)
    ensures
        ({
            let after = runtime.given_up();
            &&& after.movement == MovementState::idle()
            &&& after.commands.len() == 0
            &&& after.connection.active_client is None
            &&& after.connection.swarm is None
            &&& after.connection.stop_reason is None
            &&& after.connection.last_close == runtime.connection.last_close
            &&& after.flags == (RuntimeFlags {
                reconnect_add_pending: false,
                reconnect_pending: false,
                ready: false,
                ..runtime.flags
            })
            &&& after.counters.phase_generation == u64::MAX
            &&& after.counters.stable_generation == u64::MAX
            &&& after.counters.movement_generation == u64::MAX
            &&& after.counters.stop_watchdog_generation == (
            if runtime.counters.stop_watchdog_generation < u64::MAX {
                runtime.counters.stop_watchdog_generation + 1
            } else {
                u64::MAX as int
            })
            &&& after.completions == runtime.completions
        }),
{
    reveal(RuntimeView::given_up);
}

/// A client and a manager that are dropped are told to go.
pub proof fn law_whoever_is_dropped_is_told(runtime: RuntimeView, client: ClientRef, swarm: u64)
    ensures
        runtime.client_dropped(Some(client)).effects == runtime.effects.push(
            Effect::DisconnectClient(client),
        ),
        runtime.swarm_dropped(Some(swarm)).effects == runtime.effects.push(
            Effect::ExitSwarm(swarm),
        ),
        runtime.client_dropped(None) == runtime,
        runtime.swarm_dropped(None) == runtime,
        runtime.connection.swarm == Some(swarm) ==> runtime.swarm_exited().effects
            == runtime.effects.push(Effect::ExitSwarm(swarm)),
        runtime.connection.swarm is None ==> runtime.swarm_exited() == runtime,
{
}

/// A timeout sends the client away, whether or not a retry follows.
pub proof fn law_a_timeout_sends_the_client_away(
    runtime: RuntimeView,
    close: crate::contract::BackendClose,
    client: ClientRef,
    at: UtcInstant,
)
    requires
        !close.deliberate,
        !runtime.flags.stopping,
    ensures
        runtime.timeout_followed(close, Some(client), at).effects.contains(
            Effect::DisconnectClient(client),
        ),
        !runtime.config.reconnect.enabled ==> runtime.timeout_followed(
            close,
            Some(client),
            at,
        ).effects.contains(Effect::Shutdown),
{
    let told = runtime.with_effect(Effect::DisconnectClient(client));
    assert(told.effects[runtime.effects.len() as int] == Effect::DisconnectClient(client));
    if !runtime.config.reconnect.enabled {
        let failure: BackendFailure = told.close_failure(close);
        let failed = told.faulted(failure, at);
        let shown = told.with_flags(
            RuntimeFlags { faulted_reported: true, ..told.flags },
        ).with_state(BackendState::Faulted { failure });
        law_nothing_asked_for_is_forgotten(
            (shown, false),
            FactSource::ServerObserved,
            BackendEventPayload::Lifecycle(BackendLifecyclePayload::Faulted { failure }),
            at,
        );
        assert(told.effects.take(told.effects.len() as int) =~= told.effects);
        lemma_kept(told.effects, told.effects, failed.effects);
        law_a_run_is_asked_to_end(failed);
        lemma_kept(told.effects, failed.effects, failed.shutdown_asked().effects);
    }
}

/// A stop belongs to no other epoch than the one it found.
pub proof fn lemma_stop_keeps_the_epoch(runtime: RuntimeView, reason: StopReason, at: UtcInstant)
    requires
        !runtime.flags.stopping,
        !runtime.flags.stopped_reported,
    ensures
        runtime.stopped_by(reason, at).epoch() == runtime.epoch(),
{
    lemma_signalled_frame(runtime);
    let signalled = runtime.stop_signalled();
    lemma_begun_frame(signalled, reason);
    let begun = signalled.stop_begun(reason).stop_timed().pending_cancelled();
    lemma_closed_by_stop_frame(begun, at);
    let closed = begun.closed_by_stop(at).swarm_exited();
    reveal(RuntimeView::stop_finalized);
    if closed.stop_ready() {
        reveal(RuntimeView::stop_announced);
        let told = closed.without_stop_reason();
        let step = told.stop_announced(closed.connection.stop_reason->0, true, at);
        reveal(RuntimeView::dispatched);
        lemma_followed_frame(step);
        lemma_shutdown_frame(RuntimeView::followed(step));
    }
}

} // verus!
