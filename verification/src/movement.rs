//! The one movement that is carried out, and how it ends.

use vstd::prelude::*;

use crate::contract::{BackendError, CommandId, Operation};
use crate::lanes::successor;
use crate::state::{
    next_number, ClientRef, MovementState, QueuedCommand, RuntimeCounters, RuntimeView,
    SharedRuntime,
};

verus! {

/// The movement is the one of this command.
pub open spec fn moves(movement: MovementState, id: CommandId) -> bool {
    movement.id matches Some(active) && active.spec_text() == id.spec_text()
}

impl RuntimeView {
    pub open spec fn generation_advanced(self) -> RuntimeView {
        self.with_counters(
            RuntimeCounters {
                movement_generation: successor(self.counters.movement_generation),
                ..self.counters
            },
        )
    }

    /// A movement that still has to be released by its own task.
    pub open spec fn release_deferred(self, signal: Option<u64>, completion: Option<u64>) -> bool {
        signal is Some || self.owes_release(completion)
    }

    /// The movement is cancelled. Without a release it is superseded at once;
    /// with one it stays until its task has released the inputs.
    pub open spec fn movement_cancelled(self, release_on_cancel: bool) -> RuntimeView {
        let signal = self.movement.cancel_signal;
        let completion = self.movement.completion;
        let begun = if release_on_cancel {
            self
        } else {
            self.generation_advanced()
        };
        let told = begun.completion_cancelled(
            completion,
            Operation::MovementSuperseded,
            release_on_cancel,
        ).signal_raised(signal);
        if release_on_cancel && told.release_deferred(signal, completion) {
            told.with_movement(MovementState { cancel_signal: None, ..told.movement })
        } else {
            told.with_movement(
                MovementState { registration: told.movement.registration, ..MovementState::idle() },
            )
        }
    }

    pub open spec fn signal_raised(self, signal: Option<u64>) -> RuntimeView {
        match signal {
            Some(signal) => self.with_effect(crate::state::Effect::RaiseSignal(signal)),
            None => self,
        }
    }

    /// The completions of queued commands are cancelled, in order.
    pub open spec fn commands_cancelled(self, commands: Seq<QueuedCommand>) -> RuntimeView
        decreases commands.len(),
    {
        if commands.len() == 0 {
            self
        } else {
            let last = commands.last();
            self.commands_cancelled(commands.drop_last()).completion_cancelled(
                last.completion,
                Operation::Command(last.envelope.id),
                false,
            )
        }
    }

    /// No command is queued any more; those that were are cancelled.
    #[verifier::opaque]
    pub open spec fn pending_cancelled(self) -> RuntimeView {
        RuntimeView { commands: Seq::empty(), ..self }.commands_cancelled(self.commands)
    }

    /// The movement of this command and generation, as far as it is the active
    /// one, is no longer carried out.
    pub open spec fn movement_cleared(
        self,
        id: CommandId,
        generation: u64,
        signal: Option<u64>,
        completion: Option<u64>,
    ) -> RuntimeView {
        let owned = self.movement_owned(id, generation);
        self.with_movement(
            MovementState {
                active: self.movement.active && !owned,
                id: if owned {
                    None
                } else {
                    self.movement.id
                },
                cancel_signal: if signal is Some && self.movement.cancel_signal == signal {
                    None
                } else {
                    self.movement.cancel_signal
                },
                completion: if completion is Some && self.movement.completion == completion {
                    None
                } else {
                    self.movement.completion
                },
                registration: self.movement.registration,
            },
        )
    }

    pub open spec fn movement_owned(self, id: CommandId, generation: u64) -> bool {
        self.counters.movement_generation == generation && moves(self.movement, id)
    }

    /// Nothing moves, so nothing is remembered of a movement.
    pub open spec fn idle_cleared(self, generation: u64) -> RuntimeView {
        if self.counters.movement_generation != generation || self.movement.registration
            || self.movement.active || self.movement.id is Some {
            self
        } else {
            self.with_movement(
                MovementState { cancel_signal: None, completion: None, ..self.movement },
            )
        }
    }

    /// The runtime may disconnect a client by itself.
    pub open spec fn may_disconnect(self) -> bool {
        !self.flags.stopping && !self.flags.stopped_reported
    }

    /// Why a client's command of this epoch may not act, if it may not.
    pub open spec fn client_error(
        self,
        client: ClientRef,
        connection_epoch: u64,
        operation: Operation,
    ) -> Option<BackendError> {
        if self.epoch() != connection_epoch {
            Some(
                BackendError::StaleEpoch {
                    bound_epoch: connection_epoch,
                    current_epoch: self.epoch(),
                },
            )
        } else if !self.running() || !self.owned_by(client) {
            Some(BackendError::Cancelled { operation })
        } else {
            None
        }
    }

    /// Why the movement of a command may not act, if it may not.
    pub open spec fn movement_error(
        self,
        client: ClientRef,
        connection_epoch: u64,
        id: CommandId,
        generation: u64,
        completion: Option<u64>,
    ) -> Option<BackendError> {
        let operation = Operation::Command(id);
        match self.client_error(client, connection_epoch, operation) {
            Some(error) => Some(error),
            None => if !self.movement_owned(id, generation) || self.is_completion_cancelled(
                completion,
            ) {
                Some(BackendError::Cancelled { operation })
            } else {
                None
            },
        }
    }
}

impl SharedRuntime {
    fn is_moving(&self, id: &CommandId) -> (r: bool)
        ensures
            r == moves(self@.movement, *id),
    {
        match &self.movement.id {
            Some(active) => active.same(id),
            None => false,
        }
    }

    /// Tells whether this command and generation own the active movement.
    pub fn owns_movement(&self, id: &CommandId, generation: u64) -> (r: bool)
        ensures
            r == self@.movement_owned(*id, generation),
    {
        self.counters.movement_generation == generation && self.is_moving(id)
    }

    fn raise_signal(&mut self, signal: Option<u64>)
        requires
            old(self)@.wf(),
        ensures
            final(self)@ == old(self)@.signal_raised(signal),
            final(self)@.wf(),
    {
        if let Some(signal) = signal {
            self.request_effect(crate::state::Effect::RaiseSignal(signal));
        }
    }

    /// Cancels the active movement and hands back its completion.
    pub fn cancel_active_movement(&mut self, release_on_cancel: bool) -> (completion: Option<u64>)
        requires
            old(self)@.wf(),
        ensures
            completion == old(self)@.movement.completion,
            final(self)@ == old(self)@.movement_cancelled(release_on_cancel),
            final(self)@.wf(),
    {
        let signal = self.movement.cancel_signal;
        let completion = self.movement.completion;
        if !release_on_cancel {
            let generation: u64 = next_number(self.counters.movement_generation);
            self.put_counters(
                RuntimeCounters { movement_generation: generation, ..self.counters },
            );
        }
        self.cancel_completion(completion, Operation::MovementSuperseded, release_on_cancel);
        self.raise_signal(signal);
        let registration: bool = self.movement.registration;
        if release_on_cancel && (signal.is_some() || self.completion_owes_release(completion)) {
            let mut movement = self.movement.clone();
            movement.cancel_signal = None;
            self.put_movement(movement);
        } else {
            self.put_movement(
                MovementState {
                    active: false,
                    id: None,
                    completion: None,
                    cancel_signal: None,
                    registration,
                },
            );
        }
        completion
    }

    /// Cancels every command in the queue.
    pub fn cancel_pending_commands(&mut self)
        requires
            old(self)@.wf(),
        ensures
            final(self)@ == old(self)@.pending_cancelled(),
            final(self)@.wf(),
    {
        let commands = self.take_commands();
        let ghost emptied = self@;
        let mut i: usize = 0;
        while i < commands.len()
            invariant
                i <= commands@.len(),
                self@.wf(),
                self@ == emptied.commands_cancelled(commands@.take(i as int)),
            decreases commands@.len() - i,
        {
            let completion = commands[i].completion;
            let id = commands[i].envelope.id.clone();
            proof {
                assert(commands@.take(i + 1).drop_last() =~= commands@.take(i as int));
                assert(commands@.take(i + 1).last() == commands@[i as int]);
            }
            self.cancel_completion(completion, Operation::Command(id), false);
            i = i + 1;
        }
        proof {
            assert(commands@.take(i as int) =~= commands@);
            reveal(RuntimeView::pending_cancelled);
        }
    }

    fn take_commands(&mut self) -> (commands: std::collections::VecDeque<QueuedCommand>)
        requires
            old(self)@.wf(),
        ensures
            commands@ == old(self)@.commands,
            final(self)@ == (RuntimeView { commands: Seq::empty(), ..old(self)@ }),
            final(self)@.wf(),
    {
        let mut commands = std::collections::VecDeque::new();
        core::mem::swap(&mut commands, &mut self.commands);
        commands
    }

    /// Ends the bookkeeping of a movement, as far as it is the active one.
    /// Tells whether it owned the active movement.
    pub fn clear_registered_active_movement(
        &mut self,
        id: &CommandId,
        generation: u64,
        cancel_signal: Option<u64>,
        completion: Option<u64>,
    ) -> (owned: bool)
        requires
            old(self)@.wf(),
        ensures
            owned == old(self)@.movement_owned(*id, generation),
            final(self)@ == old(self)@.movement_cleared(
                *id,
                generation,
                cancel_signal,
                completion,
            ),
            final(self)@.wf(),
    {
        let owned = self.owns_movement(id, generation);
        let mut movement = self.movement.clone();
        if owned {
            movement.active = false;
            movement.id = None;
        }
        if cancel_signal.is_some() && movement.cancel_signal == cancel_signal {
            movement.cancel_signal = None;
        }
        if completion.is_some() && movement.completion == completion {
            movement.completion = None;
        }
        self.put_movement(movement);
        owned
    }

    /// Forgets what is left of a movement, if nothing moves.
    pub fn clear_idle_movement_state(&mut self, generation: u64)
        requires
            old(self)@.wf(),
        ensures
            final(self)@ == old(self)@.idle_cleared(generation),
            final(self)@.wf(),
    {
        if self.counters.movement_generation != generation || self.movement.registration
            || self.movement.active || self.movement.id.is_some() {
            return;
        }
        let mut movement = self.movement.clone();
        movement.cancel_signal = None;
        movement.completion = None;
        self.put_movement(movement);
    }

    /// Why a client's command of this epoch may not act, if it may not.
    pub fn client_command_error(
        &self,
        client: ClientRef,
        connection_epoch: u64,
        operation: Operation,
    ) -> (error: Option<BackendError>)
        ensures
            error == self@.client_error(client, connection_epoch, operation),
    {
        let current_epoch: u64 = self.writer.connection_epoch;
        if current_epoch != connection_epoch {
            return Some(BackendError::StaleEpoch { bound_epoch: connection_epoch, current_epoch });
        }
        if !self.command_execution_allowed() || !self.client_is_current_owner(client) {
            return Some(BackendError::Cancelled { operation });
        }
        None
    }

    /// Why the movement of a command may not act, if it may not.
    pub fn client_movement_error(
        &self,
        client: ClientRef,
        connection_epoch: u64,
        id: &CommandId,
        generation: u64,
        completion: Option<u64>,
    ) -> (error: Option<BackendError>)
        ensures
            error == self@.movement_error(client, connection_epoch, *id, generation, completion),
    {
        match self.client_command_error(
            client,
            connection_epoch,
            Operation::Command(id.clone()),
        ) {
            Some(error) => Some(error),
            None => if !self.owns_movement(id, generation) || self.completion_is_cancelled(
                completion,
            ) {
                Some(BackendError::Cancelled { operation: Operation::Command(id.clone()) })
            } else {
                None
            },
        }
    }

    /// Tells whether a client may still be disconnected by the runtime itself.
    pub fn disconnect_allowed(&self) -> (r: bool)
        ensures
            r == self@.may_disconnect(),
    {
        !self.flags.stopping && !self.flags.stopped_reported
    }
}

/// A command that was taken in another epoch never acts on the client.
pub proof fn law_stale_commands_are_refused(
    runtime: RuntimeView,
    client: ClientRef,
    connection_epoch: u64,
    operation: Operation,
)
    requires
        runtime.epoch() != connection_epoch,
    ensures
        runtime.client_error(client, connection_epoch, operation) == Some(
            BackendError::StaleEpoch {
                bound_epoch: connection_epoch,
                current_epoch: runtime.epoch(),
            },
        ),
{
}

/// A command acts only through the client that owns the current attempt.
pub proof fn law_only_the_owner_acts(
    runtime: RuntimeView,
    client: ClientRef,
    connection_epoch: u64,
    operation: Operation,
)
    requires
        runtime.client_error(client, connection_epoch, operation) is None,
    ensures
        runtime.owned_by(client),
        runtime.running(),
        runtime.epoch() == connection_epoch,
{
}

/// A superseded movement can no longer act, and its command settles, unless it
/// owes a release that was asked of it before.
pub proof fn law_superseded_movement_is_over(
    runtime: RuntimeView,
    client: ClientRef,
    epoch: u64,
    id: CommandId,
    generation: u64,
)
    requires
        runtime.movement_owned(id, generation),
        runtime.counters.movement_generation < u64::MAX,
    ensures
        runtime.movement_cancelled(false).movement_error(
            client,
            epoch,
            id,
            generation,
            runtime.movement.completion,
        ) is Some,
        runtime.movement.completion matches Some(c) ==> runtime.completions.contains_key(c) && !(
        runtime.completions[c].active_release && runtime.completions[c].release_on_cancel)
            ==> runtime.movement_cancelled(false).completions[c].settled_result is Some,
{
}

/// A movement that is cancelled but has to be released first stays until its own
/// task has done that: it is told by its signal, and nothing supersedes it.
pub proof fn law_a_movement_stays_until_it_is_released(runtime: RuntimeView, signal: u64)
    requires
        runtime.movement.cancel_signal == Some(signal),
    ensures
        ({
            let after = runtime.movement_cancelled(true);
            &&& after.movement.active == runtime.movement.active
            &&& after.movement.id == runtime.movement.id
            &&& after.movement.completion == runtime.movement.completion
            &&& after.movement.cancel_signal is None
            &&& after.movement.registration == runtime.movement.registration
            &&& after.counters == runtime.counters
            &&& after.effects.len() > 0
            &&& after.effects.last() == crate::state::Effect::RaiseSignal(signal)
        }),
{
}

/// A movement that is superseded is gone at once: its signal is raised, and
/// whatever comes next has another generation. Only a registration that is still
/// open stays marked.
pub proof fn law_a_superseded_movement_is_gone_at_once(runtime: RuntimeView)
    requires
        runtime.counters.movement_generation < u64::MAX,
    ensures
        ({
            let after = runtime.movement_cancelled(false);
            &&& !after.movement.active
            &&& after.movement.id is None
            &&& after.movement.completion is None
            &&& after.movement.cancel_signal is None
            &&& after.movement.registration == runtime.movement.registration
            &&& after.counters == (RuntimeCounters {
                movement_generation: (runtime.counters.movement_generation + 1) as u64,
                ..runtime.counters
            })
            &&& runtime.movement.cancel_signal matches Some(signal) ==> after.effects.len() > 0
                && after.effects.last() == crate::state::Effect::RaiseSignal(signal)
            &&& after.flags == runtime.flags
            &&& after.connection == runtime.connection
            &&& after.commands == runtime.commands
        }),
{
}

/// A movement that nobody has to release is gone when it is cancelled.
pub proof fn law_a_movement_without_a_release_is_gone(runtime: RuntimeView)
    requires
        runtime.movement.cancel_signal is None,
        runtime.movement.completion is None,
    ensures
        ({
            let after = runtime.movement_cancelled(true);
            &&& !after.movement.active
            &&& after.movement.id is None
            &&& after.movement.registration == runtime.movement.registration
            &&& after.counters == runtime.counters
            &&& after.effects == runtime.effects
        }),
{
}

/// A movement ends its own bookkeeping and nobody else's: the command that moves
/// stops moving; a signal and a completion are dropped only by whoever they
/// belong to.
pub proof fn law_a_movement_clears_only_itself(
    runtime: RuntimeView,
    id: CommandId,
    generation: u64,
    signal: Option<u64>,
    completion: Option<u64>,
)
    ensures
        ({
            let own = runtime.counters.movement_generation == generation
                && runtime.movement.id is Some && (runtime.movement.id->0).spec_text()
                == id.spec_text();
            let after = runtime.movement_cleared(id, generation, signal, completion).movement;
            &&& own ==> !after.active && after.id is None
            &&& !own ==> after.active == runtime.movement.active && after.id == runtime.movement.id
            &&& after.cancel_signal == (if signal is Some && runtime.movement.cancel_signal
                == signal {
                None
            } else {
                runtime.movement.cancel_signal
            })
            &&& after.completion == (if completion is Some && runtime.movement.completion
                == completion {
                None
            } else {
                runtime.movement.completion
            })
            &&& after.registration == runtime.movement.registration
        }),
{
}

/// What is left of a movement is forgotten exactly if nothing moves, nothing is
/// about to, and no other movement has come in between.
pub proof fn law_leftovers_are_forgotten(runtime: RuntimeView, generation: u64)
    ensures
        ({
            let still = runtime.counters.movement_generation == generation
                && !runtime.movement.registration && !runtime.movement.active
                && runtime.movement.id is None;
            let after = runtime.idle_cleared(generation);
            &&& still ==> after.movement == MovementState::idle()
            &&& !still ==> after == runtime
            &&& after == (RuntimeView { movement: after.movement, ..runtime })
        }),
{
}

/// A client may act exactly in the epoch of its command, while the runtime runs,
/// as the owner of the stream. An old command is told both epochs; any other
/// refusal is a cancellation.
pub proof fn law_who_may_act(
    runtime: RuntimeView,
    client: ClientRef,
    connection_epoch: u64,
    operation: Operation,
)
    ensures
        ({
            let current = runtime.writer.connection_epoch;
            let allowed = !runtime.flags.stopping && !runtime.flags.disconnect_reported
                && runtime.producer.owner == Some((client.entity, current)) && (
            match client.attempt_token {
                Some(token) => runtime.producer.bindings.contains((token, current)),
                None => !runtime.producer.source_fence.ambiguous
                    && runtime.producer.source_fence.pending_rebind_entity != Some(client.entity),
            });
            runtime.client_error(client, connection_epoch, operation) == (if current
                != connection_epoch {
                Some(
                    BackendError::StaleEpoch {
                        bound_epoch: connection_epoch,
                        current_epoch: current,
                    },
                )
            } else if allowed {
                None
            } else {
                Some(BackendError::Cancelled { operation })
            })
        }),
{
}

/// A movement may act exactly if its client may, it is the one that moves, and
/// its command was not cancelled.
pub proof fn law_what_may_move(
    runtime: RuntimeView,
    client: ClientRef,
    connection_epoch: u64,
    id: CommandId,
    generation: u64,
    completion: u64,
)
    requires
        runtime.client_error(client, connection_epoch, Operation::Command(id)) is None,
        runtime.completions.contains_key(completion),
    ensures
        ({
            let own = runtime.counters.movement_generation == generation
                && runtime.movement.id is Some && (runtime.movement.id->0).spec_text()
                == id.spec_text();
            let error = runtime.movement_error(
                client,
                connection_epoch,
                id,
                generation,
                Some(completion),
            );
            &&& error is None <==> own && !runtime.completions[completion].cancelled
            &&& error is Some ==> error == Some(
                BackendError::Cancelled { operation: Operation::Command(id) },
            )
        }),
{
}

/// The runtime disconnects a client by itself as long as it neither stops nor has
/// stopped.
pub proof fn law_who_stops_disconnects_nobody(runtime: RuntimeView)
    ensures
        runtime.flags.stopping ==> !runtime.may_disconnect(),
        runtime.flags.stopped_reported ==> !runtime.may_disconnect(),
        !runtime.flags.stopping && !runtime.flags.stopped_reported ==> runtime.may_disconnect(),
{
}

} // verus!
