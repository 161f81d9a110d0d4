//! Taking commands from the queue and carrying them out step by step.
//!
//! The physical actions lie outside: a step says what to do, and the outcome is
//! handed back. Both happen under one admission, so no reconnect or stop comes
//! between a decision and its action.

use vstd::prelude::*;

use crate::command::{
    command_component_failure, component_failure, direction_for, sprint_direction, walk_direction,
    BackendCommand, BackendCommandEnvelope, CommandError, MotorDirection, SprintDirection,
    WalkDirection,
};
use crate::contract::{Actuation, BackendError, CommandId, Operation};
use crate::lanes::successor;
use crate::number::Single;
use crate::state::{
    next_number, ClientRef, MovementState, QueuedCommand, RuntimeCounters, RuntimeView,
    SharedRuntime,
};
use crate::time::UtcInstant;

verus! {

/// How the registration of a movement ended.
#[derive(Clone, Copy, Debug, PartialEq, Eq, Structural)]
pub enum ActiveMovementRegistration {
    Started { cancel_signal: Option<u64> },
    Cancelled,
}

/// A movement that may begin.
#[derive(Debug, PartialEq, Eq)]
pub struct MovePlan {
    pub id: CommandId,
    pub connection_epoch: u64,
    pub generation: u64,
    pub completion: Option<u64>,
    pub cancel_signal: Option<u64>,
    pub walk: WalkDirection,
    /// The sprint that replaces the walk, if one was asked for and is possible.
    pub sprint: Option<SprintDirection>,
    pub jump: bool,
    pub crouch: bool,
    pub duration_ms: u64,
}

/// A release of all inputs.
#[derive(Debug, PartialEq, Eq)]
pub struct ReleasePlan {
    pub id: CommandId,
    pub connection_epoch: u64,
    pub completion: Option<u64>,
    /// The movement that was under way.
    pub previous_id: Option<CommandId>,
    pub previous_generation: u64,
    pub previous_completion: Option<u64>,
}

/// What to do for a command.
#[derive(Debug, PartialEq, Eq)]
pub enum CommandStep {
    /// Nothing; the command is settled or was cancelled.
    Done,
    /// Say something, then settle the command.
    Chat { message: String, completion: Option<u64> },
    /// Turn the view, then settle the command.
    Look { yaw_degrees: Single, pitch_degrees: Single, completion: Option<u64> },
    /// Press keys.
    Move(MovePlan),
    /// Release all keys.
    Release(ReleasePlan),
    /// Ask for a respawn after the settle delay.
    Respawn { connection_epoch: u64 },
}

/// What follows once the keys of a movement were pressed.
#[derive(Clone, Copy, Debug, PartialEq, Eq, Structural)]
pub enum MoveFollowUp {
    Done,
    /// Release the keys after the duration, or when the signal is raised.
    ReleaseLater { cancel_signal: u64, duration_ms: u64 },
}

/// Whether the inputs of a movement may be released now.
#[derive(Debug, PartialEq, Eq)]
pub enum ReleaseStep {
    /// Another movement is under way: leave everything alone.
    NotOwned,
    /// The client is no longer the owner's: settle without touching it.
    Refused(BackendError),
    Release,
}

/// The sprint of a movement.
pub open spec fn planned_sprint(
    walk: WalkDirection,
    asked: Option<bool>,
) -> Option<SprintDirection> {
    if asked == Some(true) {
        match walk {
            WalkDirection::Forward => Some(SprintDirection::Forward),
            WalkDirection::ForwardLeft => Some(SprintDirection::ForwardLeft),
            WalkDirection::ForwardRight => Some(SprintDirection::ForwardRight),
            _ => None,
        }
    } else {
        None
    }
}

/// The walk of a movement.
pub open spec fn planned_walk(directions: Seq<MotorDirection>) -> WalkDirection {
    walk_direction(
        directions.contains(MotorDirection::Forward),
        directions.contains(MotorDirection::Back),
        directions.contains(MotorDirection::Left),
        directions.contains(MotorDirection::Right),
    )
}

/// The result of a release: what was planned, or that no player was there.
pub open spec fn release_result(
    released: bool,
    action: Actuation,
    planned: Result<(), BackendError>,
) -> Result<(), BackendError> {
    if released {
        planned
    } else {
        Err(component_failure(action))
    }
}

/// The result of a release: what was planned, or that no player was there.
pub fn result_of_release(
    released: bool,
    action: Actuation,
    planned: Result<(), BackendError>,
) -> (result: Result<(), BackendError>)
    ensures
        result == release_result(released, action, planned),
{
    if released {
        planned
    } else {
        Err(command_component_failure(action))
    }
}

impl RuntimeView {
    /// Why a command is not taken, if it is not.
    pub open spec fn command_refusal(self, expected_epoch: Option<u64>) -> Option<CommandError> {
        if self.flags.stopping {
            Some(CommandError::Stopping)
        } else {
            match expected_epoch {
                Some(bound) => if bound != self.epoch() {
                    Some(CommandError::StaleEpoch { bound, current: self.epoch() })
                } else {
                    None
                },
                None => None,
            }
        }
    }

    pub open spec fn command_queued(
        self,
        envelope: BackendCommandEnvelope,
        completion: Option<u64>,
    ) -> RuntimeView {
        RuntimeView {
            commands: self.commands.push(
                QueuedCommand { connection_epoch: self.epoch(), envelope, completion },
            ),
            ..self
        }
    }

    /// Until the player is in the world, only a respawn is carried out.
    pub open spec fn head_ready(self) -> bool {
        self.commands.len() > 0 && (self.flags.ready
            || self.commands[0].envelope.command is Respawn)
    }

    /// A client gets the next command only if it owns the current attempt.
    pub open spec fn command_due(self, client: ClientRef) -> bool {
        self.running() && self.owned_by(client) && self.head_ready()
    }

    pub open spec fn command_taken(self) -> RuntimeView {
        RuntimeView { commands: self.commands.drop_first(), ..self }
    }

    /// The signal of a movement of this duration.
    pub open spec fn movement_signal(self, duration_ms: u64) -> Option<u64> {
        if duration_ms > 0 {
            Some(successor(self.counters.last_signal))
        } else {
            None
        }
    }

    /// The movement is declared, before anything physical happens.
    #[verifier::opaque]
    pub open spec fn movement_declared(
        self,
        id: CommandId,
        duration_ms: u64,
        completion: Option<u64>,
    ) -> RuntimeView {
        let signal = self.movement_signal(duration_ms);
        let marked = self.with_counters(
            RuntimeCounters {
                last_signal: match signal {
                    Some(signal) => signal,
                    None => self.counters.last_signal,
                },
                ..self.counters
            },
        ).with_movement(
            MovementState {
                active: true,
                id: Some(id),
                completion: if completion is Some && signal is Some {
                    completion
                } else {
                    self.movement.completion
                },
                cancel_signal: signal,
                registration: true,
            },
        );
        match (completion, signal) {
            (Some(completion), Some(signal)) => marked.completion_releasing(completion, signal),
            _ => marked,
        }
    }

    /// The registration window closes; a stop that waited for it may end.
    pub open spec fn registration_finished(self, at: UtcInstant) -> RuntimeView {
        self.with_movement(MovementState { registration: false, ..self.movement }).stop_finalized(at)
    }

    /// A declared movement is given up.
    pub open spec fn movement_abandoned(
        self,
        id: CommandId,
        generation: u64,
        signal: Option<u64>,
        completion: Option<u64>,
        at: UtcInstant,
    ) -> RuntimeView {
        self.completion_cancelled(completion, Operation::Command(id), true).movement_cleared(
            id,
            generation,
            signal,
            completion,
        ).completion_finished(
            completion,
            Err(BackendError::Cancelled { operation: Operation::Command(id) }),
        ).registration_finished(at)
    }

    /// A client's movement is registered, or cancelled.
    pub open spec fn movement_registered(
        self,
        client: ClientRef,
        connection_epoch: u64,
        id: CommandId,
        generation: u64,
        duration_ms: u64,
        completion: Option<u64>,
        at: UtcInstant,
    ) -> (RuntimeView, ActiveMovementRegistration) {
        if self.client_error(client, connection_epoch, Operation::Command(id)) is Some {
            (
                self.completion_cancelled(completion, Operation::Command(id), false),
                ActiveMovementRegistration::Cancelled,
            )
        } else {
            let declared = self.movement_declared(id, duration_ms, completion);
            let signal = self.movement_signal(duration_ms);
            if declared.is_completion_cancelled(completion) {
                (
                    declared.movement_abandoned(id, generation, signal, completion, at),
                    ActiveMovementRegistration::Cancelled,
                )
            } else {
                (declared, ActiveMovementRegistration::Started { cancel_signal: signal })
            }
        }
    }

    /// A new movement supersedes the one under way and is registered.
    #[verifier::opaque]
    pub open spec fn movement_begun(
        self,
        client: ClientRef,
        connection_epoch: u64,
        id: CommandId,
        duration_ms: u64,
        completion: Option<u64>,
        at: UtcInstant,
    ) -> (RuntimeView, u64, ActiveMovementRegistration) {
        let superseded = self.movement_cancelled(false).generation_advanced();
        let generation = superseded.counters.movement_generation;
        let step = superseded.movement_registered(
            client,
            connection_epoch,
            id,
            generation,
            duration_ms,
            completion,
            at,
        );
        (step.0, generation, step.1)
    }

    /// The step of a movement.
    pub open spec fn move_step(
        self,
        client: ClientRef,
        connection_epoch: u64,
        id: CommandId,
        completion: Option<u64>,
        directions: Seq<MotorDirection>,
        duration_ms: u64,
        sprint: Option<bool>,
        jump: Option<bool>,
        crouch: Option<bool>,
        at: UtcInstant,
    ) -> (RuntimeView, CommandStep) {
        let begun = self.movement_begun(
            client,
            connection_epoch,
            id,
            duration_ms,
            completion,
            at,
        );
        match begun.2 {
            ActiveMovementRegistration::Cancelled => (begun.0, CommandStep::Done),
            ActiveMovementRegistration::Started { cancel_signal } => (
                begun.0,
                CommandStep::Move(
                    MovePlan {
                        id,
                        connection_epoch,
                        generation: begun.1,
                        completion,
                        cancel_signal,
                        walk: planned_walk(directions),
                        sprint: planned_sprint(planned_walk(directions), sprint),
                        jump: jump == Some(true),
                        crouch: crouch == Some(true),
                        duration_ms,
                    },
                ),
            ),
        }
    }

    /// A command starts.
    pub open spec fn command_started(
        self,
        client: ClientRef,
        queued: QueuedCommand,
        at: UtcInstant,
    ) -> (RuntimeView, CommandStep) {
        let id = queued.envelope.id;
        let completion = queued.completion;
        if self.is_completion_cancelled(completion) {
            (self, CommandStep::Done)
        } else {
            match self.client_error(client, queued.connection_epoch, Operation::Command(id)) {
                Some(error) => (
                    self.completion_finished(completion, Err(error)),
                    CommandStep::Done,
                ),
                None => match queued.envelope.command {
                    BackendCommand::SendChat { message } => (
                        self,
                        CommandStep::Chat { message, completion },
                    ),
                    BackendCommand::LookRelative { yaw_degrees, pitch_degrees } => (
                        self,
                        CommandStep::Look { yaw_degrees, pitch_degrees, completion },
                    ),
                    BackendCommand::Move { directions, duration_ms, sprint, jump, crouch } =>
                    self.move_step(
                        client,
                        queued.connection_epoch,
                        id,
                        completion,
                        directions@,
                        duration_ms,
                        sprint,
                        jump,
                        crouch,
                        at,
                    ),
                    BackendCommand::ReleaseAll => (
                        self.movement_cancelled(true),
                        CommandStep::Release(
                            ReleasePlan {
                                id,
                                connection_epoch: queued.connection_epoch,
                                completion,
                                previous_id: self.movement.id,
                                previous_generation: self.counters.movement_generation,
                                previous_completion: self.movement.completion,
                            },
                        ),
                    ),
                    BackendCommand::Respawn => (
                        self.completion_finished(completion, Ok(())),
                        CommandStep::Respawn { connection_epoch: queued.connection_epoch },
                    ),
                },
            }
        }
    }

    /// What follows once the keys of a movement were pressed, or were not.
    #[verifier::opaque]
    pub open spec fn movement_started(
        self,
        plan: MovePlan,
        started: bool,
        at: UtcInstant,
    ) -> (RuntimeView, MoveFollowUp) {
        match plan.cancel_signal {
            Some(cancel_signal) => if started {
                (
                    self.registration_finished(at),
                    MoveFollowUp::ReleaseLater { cancel_signal, duration_ms: plan.duration_ms },
                )
            } else {
                (self.movement_over(plan, started, at), MoveFollowUp::Done)
            },
            None => (self.movement_over(plan, started, at), MoveFollowUp::Done),
        }
    }

    /// A movement without a release to wait for is over.
    pub open spec fn movement_over(self, plan: MovePlan, started: bool, at: UtcInstant) -> RuntimeView {
        self.movement_cleared(
            plan.id,
            plan.generation,
            plan.cancel_signal,
            plan.completion,
        ).completion_finished(
            plan.completion,
            release_result(started, Actuation::Move, Ok(())),
        ).registration_finished(at)
    }

    /// Whether the inputs of a movement may be released now. The movement owes
    /// its release whatever ended it, a stop or a disconnect included; only the
    /// player of a later attempt, or of another client, is not touched.
    pub open spec fn release_permitted(
        self,
        client: ClientRef,
        connection_epoch: u64,
        id: CommandId,
        generation: u64,
    ) -> ReleaseStep {
        if !self.movement_owned(id, generation) {
            ReleaseStep::NotOwned
        } else {
            match self.release_error(client, connection_epoch, Operation::Command(id)) {
                Some(error) => ReleaseStep::Refused(error),
                None => ReleaseStep::Release,
            }
        }
    }

    /// Why a client's player may not be released, if it may not.
    pub open spec fn release_error(
        self,
        client: ClientRef,
        connection_epoch: u64,
        operation: Operation,
    ) -> Option<BackendError> {
        if self.epoch() != connection_epoch {
            Some(
                BackendError::StaleEpoch {
                    bound_epoch: connection_epoch,
                    current_epoch: self.epoch(),
                },
            )
        } else if self.producer.owner is Some && !self.owned_by(client) {
            Some(BackendError::Cancelled { operation })
        } else {
            None
        }
    }

    /// A movement was cancelled, or the runtime stops.
    pub open spec fn movement_interrupted(self, completion: Option<u64>) -> bool {
        self.is_completion_cancelled(completion) || self.flags.stopping
    }

    /// The release is done: the command settles first, then the movement is
    /// forgotten, then a stop that waited for it may end.
    #[verifier::opaque]
    pub open spec fn release_finished(
        self,
        id: CommandId,
        generation: u64,
        completion: Option<u64>,
        result: Result<(), BackendError>,
        at: UtcInstant,
    ) -> RuntimeView {
        let settled = self.completion_finished(completion, result);
        let cleared = settled.movement_cleared(id, generation, None, completion);
        (if settled.movement_owned(id, generation) {
            cleared.with_movement(MovementState { cancel_signal: None, ..cleared.movement })
        } else {
            cleared
        }).stop_finalized(at)
    }

    /// Inputs were released while nothing moved.
    pub open spec fn idle_release_finished(
        self,
        plan: ReleasePlan,
        released: bool,
    ) -> RuntimeView {
        self.idle_cleared(plan.previous_generation).completion_finished(
            plan.previous_completion,
            release_result(
                released,
                Actuation::ReleaseAllMove,
                Err(BackendError::Cancelled { operation: Operation::MovementReleased }),
            ),
        )
    }
}

impl SharedRuntime {
    /// Queues a command of the current epoch.
    pub fn enqueue_command_if_running(
        &mut self,
        envelope: BackendCommandEnvelope,
        completion: Option<u64>,
        expected_epoch: Option<u64>,
    ) -> (r: Result<(), CommandError>)
        requires
            old(self)@.wf(),
        ensures
            r == (match old(self)@.command_refusal(expected_epoch) {
                Some(error) => Err(error),
                None => Ok(()),
            }),
            final(self)@ == (if r is Ok {
                old(self)@.command_queued(envelope, completion)
            } else {
                old(self)@
            }),
            final(self)@.wf(),
    {
        if self.flags.stopping {
            return Err(CommandError::Stopping);
        }
        let connection_epoch: u64 = self.writer.connection_epoch;
        if let Some(bound) = expected_epoch {
            if bound != connection_epoch {
                return Err(CommandError::StaleEpoch { bound, current: connection_epoch });
            }
        }
        self.commands.push_back(QueuedCommand { connection_epoch, envelope, completion });
        Ok(())
    }

    fn is_head_ready(&self) -> (r: bool)
        ensures
            r == self@.head_ready(),
    {
        if self.commands.len() == 0 {
            return false;
        }
        if self.flags.ready {
            return true;
        }
        match self.commands[0].envelope.command {
            BackendCommand::Respawn => true,
            _ => false,
        }
    }

    /// Takes the next command for a client. A client that does not own the
    /// current attempt takes nothing.
    pub fn next_command_for_client(&mut self, client: ClientRef) -> (command: Option<QueuedCommand>)
        requires
            old(self)@.wf(),
        ensures
            command == (if old(self)@.command_due(client) {
                Some(old(self)@.commands[0])
            } else {
                None
            }),
            final(self)@ == (if old(self)@.command_due(client) {
                old(self)@.command_taken()
            } else {
                old(self)@
            }),
            final(self)@.wf(),
    {
        if !self.command_execution_allowed() || !self.client_is_current_owner(client)
            || !self.is_head_ready() {
            return None;
        }
        let ghost before = self.commands@;
        let command = self.commands.pop_front();
        assert(self.commands@ =~= before.drop_first());
        command
    }

    fn declare_movement(
        &mut self,
        id: CommandId,
        duration_ms: u64,
        completion: Option<u64>,
    ) -> (signal: Option<u64>)
        requires
            old(self)@.wf(),
        ensures
            signal == old(self)@.movement_signal(duration_ms),
            final(self)@ == old(self)@.movement_declared(id, duration_ms, completion),
            final(self)@.wf(),
    {
        reveal(RuntimeView::movement_declared);
        let signal: Option<u64> = if duration_ms > 0 {
            Some(next_number(self.counters.last_signal))
        } else {
            None
        };
        let last_signal: u64 = match signal {
            Some(signal) => signal,
            None => self.counters.last_signal,
        };
        self.put_counters(RuntimeCounters { last_signal, ..self.counters });
        let owed = if completion.is_some() && signal.is_some() {
            completion
        } else {
            self.movement.completion
        };
        self.put_movement(
            MovementState {
                active: true,
                id: Some(id),
                completion: owed,
                cancel_signal: signal,
                registration: true,
            },
        );
        if let Some(completion) = completion {
            if let Some(signal) = signal {
                self.begin_active_release(completion, signal);
            }
        }
        signal
    }

    /// Closes the registration window of a movement.
    pub fn finish_active_movement_registration(&mut self, at: UtcInstant)
        requires
            old(self)@.wf(),
        ensures
            final(self)@ == old(self)@.registration_finished(at),
            final(self)@.wf(),
    {
        let mut movement = self.movement.clone();
        movement.registration = false;
        self.put_movement(movement);
        self.finalize_stop_if_ready(at);
    }

    /// Gives up a movement that was declared.
    pub fn cancel_registered_active_movement(
        &mut self,
        id: &CommandId,
        generation: u64,
        cancel_signal: Option<u64>,
        completion: Option<u64>,
        at: UtcInstant,
    )
        requires
            old(self)@.wf(),
        ensures
            final(self)@ == old(self)@.movement_abandoned(
                *id,
                generation,
                cancel_signal,
                completion,
                at,
            ),
            final(self)@.wf(),
    {
        self.cancel_completion(completion, Operation::Command(id.clone()), true);
        let _ = self.clear_registered_active_movement(id, generation, cancel_signal, completion);
        self.finish_command(
            completion,
            Err(BackendError::Cancelled { operation: Operation::Command(id.clone()) }),
        );
        self.finish_active_movement_registration(at);
    }

    /// Declares a client's movement before anything physical happens, so that a
    /// stop or a disconnect from now on waits for it or cancels it.
    pub fn register_active_movement_for_client(
        &mut self,
        client: ClientRef,
        connection_epoch: u64,
        id: &CommandId,
        generation: u64,
        duration_ms: u64,
        completion: Option<u64>,
        at: UtcInstant,
    ) -> (registration: ActiveMovementRegistration)
        requires
            old(self)@.wf(),
        ensures
            (final(self)@, registration) == old(self)@.movement_registered(
                client,
                connection_epoch,
                *id,
                generation,
                duration_ms,
                completion,
                at,
            ),
            final(self)@.wf(),
    {
        if self.client_command_error(
            client,
            connection_epoch,
            Operation::Command(id.clone()),
        ).is_some() {
            self.cancel_completion(completion, Operation::Command(id.clone()), false);
            return ActiveMovementRegistration::Cancelled;
        }
        let cancel_signal = self.declare_movement(id.clone(), duration_ms, completion);
        if self.completion_is_cancelled(completion) {
            self.cancel_registered_active_movement(id, generation, cancel_signal, completion, at);
            return ActiveMovementRegistration::Cancelled;
        }
        ActiveMovementRegistration::Started { cancel_signal }
    }

    fn begin_movement(
        &mut self,
        client: ClientRef,
        connection_epoch: u64,
        id: &CommandId,
        duration_ms: u64,
        completion: Option<u64>,
        at: UtcInstant,
    ) -> (r: (u64, ActiveMovementRegistration))
        requires
            old(self)@.wf(),
        ensures
            (final(self)@, r.0, r.1) == old(self)@.movement_begun(
                client,
                connection_epoch,
                *id,
                duration_ms,
                completion,
                at,
            ),
            final(self)@.wf(),
    {
        reveal(RuntimeView::movement_begun);
        let _ = self.cancel_active_movement(false);
        let generation: u64 = next_number(self.counters.movement_generation);
        self.put_counters(RuntimeCounters { movement_generation: generation, ..self.counters });
        let registration = self.register_active_movement_for_client(
            client,
            connection_epoch,
            id,
            generation,
            duration_ms,
            completion,
            at,
        );
        (generation, registration)
    }

    fn plan_movement(
        &mut self,
        client: ClientRef,
        connection_epoch: u64,
        id: CommandId,
        completion: Option<u64>,
        directions: &Vec<MotorDirection>,
        duration_ms: u64,
        sprint: Option<bool>,
        jump: Option<bool>,
        crouch: Option<bool>,
        at: UtcInstant,
    ) -> (step: CommandStep)
        requires
            old(self)@.wf(),
        ensures
            (final(self)@, step) == old(self)@.move_step(
                client,
                connection_epoch,
                id,
                completion,
                directions@,
                duration_ms,
                sprint,
                jump,
                crouch,
                at,
            ),
            final(self)@.wf(),
    {
        let (generation, registration) = self.begin_movement(
            client,
            connection_epoch,
            &id,
            duration_ms,
            completion,
            at,
        );
        match registration {
            ActiveMovementRegistration::Cancelled => CommandStep::Done,
            ActiveMovementRegistration::Started { cancel_signal } => {
                let walk = direction_for(directions);
                let sprint = match sprint {
                    Some(true) => sprint_direction(walk),
                    _ => None,
                };
                CommandStep::Move(
                    MovePlan {
                        id,
                        connection_epoch,
                        generation,
                        completion,
                        cancel_signal,
                        walk,
                        sprint,
                        jump: match jump {
                            Some(pressed) => pressed,
                            None => false,
                        },
                        crouch: match crouch {
                            Some(pressed) => pressed,
                            None => false,
                        },
                        duration_ms,
                    },
                )
            },
        }
    }

    /// Starts a command for a client. A command of another epoch, or one whose
    /// client no longer owns the attempt, is settled without acting.
    pub fn handle_command(&mut self, client: ClientRef, queued: QueuedCommand, at: UtcInstant) -> (
        step: CommandStep)
        requires
            old(self)@.wf(),
        ensures
            (final(self)@, step) == old(self)@.command_started(client, queued, at),
            final(self)@.wf(),
    {
        let connection_epoch: u64 = queued.connection_epoch;
        let completion = queued.completion;
        let id = queued.envelope.id;
        if self.completion_is_cancelled(completion) {
            return CommandStep::Done;
        }
        if let Some(error) = self.client_command_error(
            client,
            connection_epoch,
            Operation::Command(id.clone()),
        ) {
            self.finish_command(completion, Err(error));
            return CommandStep::Done;
        }
        match queued.envelope.command {
            BackendCommand::SendChat { message } => CommandStep::Chat { message, completion },
            BackendCommand::LookRelative { yaw_degrees, pitch_degrees } => CommandStep::Look {
                yaw_degrees,
                pitch_degrees,
                completion,
            },
            BackendCommand::Move { directions, duration_ms, sprint, jump, crouch } =>
            self.plan_movement(
                client,
                connection_epoch,
                id,
                completion,
                &directions,
                duration_ms,
                sprint,
                jump,
                crouch,
                at,
            ),
            BackendCommand::ReleaseAll => {
                let previous_id = self.movement.id.clone();
                let previous_generation: u64 = self.counters.movement_generation;
                let previous_completion = self.cancel_active_movement(true);
                CommandStep::Release(
                    ReleasePlan {
                        id,
                        connection_epoch,
                        completion,
                        previous_id,
                        previous_generation,
                        previous_completion,
                    },
                )
            },
            BackendCommand::Respawn => {
                self.finish_command(completion, Ok(()));
                CommandStep::Respawn { connection_epoch }
            },
        }
    }

    fn end_movement(&mut self, plan: &MovePlan, started: bool, at: UtcInstant)
        requires
            old(self)@.wf(),
        ensures
            final(self)@ == old(self)@.movement_over(*plan, started, at),
            final(self)@.wf(),
    {
        let _ = self.clear_registered_active_movement(
            &plan.id,
            plan.generation,
            plan.cancel_signal,
            plan.completion,
        );
        self.finish_command(
            plan.completion,
            result_of_release(started, Actuation::Move, Ok(())),
        );
        self.finish_active_movement_registration(at);
    }

    /// Goes on after the keys of a movement were pressed, or were not because
    /// no player was there.
    pub fn finish_move_start(&mut self, plan: &MovePlan, started: bool, at: UtcInstant) -> (next:
        MoveFollowUp)
        requires
            old(self)@.wf(),
        ensures
            (final(self)@, next) == old(self)@.movement_started(*plan, started, at),
            final(self)@.wf(),
    {
        reveal(RuntimeView::movement_started);
        match plan.cancel_signal {
            Some(cancel_signal) => {
                if started {
                    self.finish_active_movement_registration(at);
                    return MoveFollowUp::ReleaseLater {
                        cancel_signal,
                        duration_ms: plan.duration_ms,
                    };
                }
                self.end_movement(plan, started, at);
                MoveFollowUp::Done
            },
            None => {
                self.end_movement(plan, started, at);
                MoveFollowUp::Done
            },
        }
    }

    /// Tells whether the inputs of a movement may be released now.
    pub fn begin_release(
        &self,
        client: ClientRef,
        connection_epoch: u64,
        id: &CommandId,
        generation: u64,
    ) -> (step: ReleaseStep)
        ensures
            step == self@.release_permitted(client, connection_epoch, *id, generation),
    {
        if !self.owns_movement(id, generation) {
            return ReleaseStep::NotOwned;
        }
        let current_epoch: u64 = self.writer.connection_epoch;
        if current_epoch != connection_epoch {
            return ReleaseStep::Refused(
                BackendError::StaleEpoch { bound_epoch: connection_epoch, current_epoch },
            );
        }
        if self.producer.owner.is_some() && !self.client_is_current_owner(client) {
            return ReleaseStep::Refused(
                BackendError::Cancelled { operation: Operation::Command(id.clone()) },
            );
        }
        ReleaseStep::Release
    }

    /// The result that a movement gets when its duration is over.
    pub fn elapsed_result(&self, id: &CommandId, completion: Option<u64>) -> (result: Result<
        (),
        BackendError,
    >)
        ensures
            result == (if self@.movement_interrupted(completion) {
                Err(BackendError::Cancelled { operation: Operation::Command(*id) })
            } else {
                Ok(())
            }),
    {
        if self.completion_is_cancelled(completion) || self.flags.stopping {
            Err(BackendError::Cancelled { operation: Operation::Command(id.clone()) })
        } else {
            Ok(())
        }
    }

    /// Settles a movement once its inputs are released. The movement stays
    /// visible until its command has settled, so that a stop waits for it.
    pub fn release_active_movement_and_finish(
        &mut self,
        id: &CommandId,
        generation: u64,
        completion: Option<u64>,
        result: Result<(), BackendError>,
        at: UtcInstant,
    )
        requires
            old(self)@.wf(),
        ensures
            final(self)@ == old(self)@.release_finished(*id, generation, completion, result, at),
            final(self)@.wf(),
    {
        reveal(RuntimeView::release_finished);
        self.finish_command(completion, result);
        if self.clear_registered_active_movement(id, generation, None, completion) {
            let mut movement = self.movement.clone();
            movement.cancel_signal = None;
            self.put_movement(movement);
        }
        self.finalize_stop_if_ready(at);
    }

    /// Settles what was left of a movement after a release while nothing moved.
    pub fn finish_idle_release(&mut self, plan: &ReleasePlan, released: bool)
        requires
            old(self)@.wf(),
        ensures
            final(self)@ == old(self)@.idle_release_finished(*plan, released),
            final(self)@.wf(),
    {
        self.clear_idle_movement_state(plan.previous_generation);
        self.finish_command(
            plan.previous_completion,
            result_of_release(
                released,
                Actuation::ReleaseAllMove,
                Err(BackendError::Cancelled { operation: Operation::MovementReleased }),
            ),
        );
    }
}

/// Work that was queued for one connection is never handed to another client.
pub proof fn law_commands_go_to_the_owner(runtime: RuntimeView, client: ClientRef)
    requires
        runtime.command_due(client),
    ensures
        runtime.owned_by(client),
        runtime.running(),
{
}

/// A command of another epoch does nothing but settle.
pub proof fn law_stale_command_only_settles(
    runtime: RuntimeView,
    client: ClientRef,
    queued: QueuedCommand,
    at: UtcInstant,
)
    requires
        queued.connection_epoch != runtime.epoch(),
        !runtime.is_completion_cancelled(queued.completion),
    ensures
        runtime.command_started(client, queued, at) == (
            runtime.completion_finished(
                queued.completion,
                Err(
                    BackendError::StaleEpoch {
                        bound_epoch: queued.connection_epoch,
                        current_epoch: runtime.epoch(),
                    },
                ),
            ),
            CommandStep::Done,
        ),
{
}

/// A cancelled command does nothing at all.
pub proof fn law_cancelled_command_does_nothing(
    runtime: RuntimeView,
    client: ClientRef,
    queued: QueuedCommand,
    at: UtcInstant,
)
    requires
        runtime.is_completion_cancelled(queued.completion),
    ensures
        runtime.command_started(client, queued, at) == (runtime, CommandStep::Done),
{
}

/// Commands leave the queue in the order in which they came.
pub proof fn law_commands_keep_their_order(
    runtime: RuntimeView,
    envelope: BackendCommandEnvelope,
    completion: Option<u64>,
)
    ensures
        runtime.commands.len() > 0 ==> runtime.command_queued(envelope, completion).commands[0]
            == runtime.commands[0],
        runtime.commands.len() > 0 ==> runtime.command_queued(
            envelope,
            completion,
        ).command_taken().commands == runtime.command_taken().command_queued(
            envelope,
            completion,
        ).commands,
{
    if runtime.commands.len() > 0 {
        let queued = QueuedCommand { connection_epoch: runtime.epoch(), envelope, completion };
        assert(runtime.commands.push(queued).drop_first() =~= runtime.commands.drop_first().push(
            queued,
        ));
    }
}

/// A command is refused exactly by a stop, which comes first, or because it was
/// meant for another epoch, of which it is told.
pub proof fn law_commands_are_refused_for_a_reason(
    runtime: RuntimeView,
    expected_epoch: Option<u64>,
)
    ensures
        runtime.command_refusal(expected_epoch) == (if runtime.flags.stopping {
            Some(CommandError::Stopping)
        } else if expected_epoch is Some && expected_epoch != Some(
            runtime.writer.connection_epoch,
        ) {
            Some(
                CommandError::StaleEpoch {
                    bound: expected_epoch->0,
                    current: runtime.writer.connection_epoch,
                },
            )
        } else {
            None
        }),
{
}

/// A queued command is the last in the queue and remembers the epoch in which it
/// was taken; what is taken out is the first.
pub proof fn law_the_queue_holds_what_was_sent(
    runtime: RuntimeView,
    envelope: BackendCommandEnvelope,
    completion: Option<u64>,
)
    ensures
        ({
            let after = runtime.command_queued(envelope, completion);
            let last = after.commands.last();
            &&& after.commands.len() == runtime.commands.len() + 1
            &&& after.commands.drop_last() == runtime.commands
            &&& last.connection_epoch == runtime.writer.connection_epoch
            &&& last.envelope == envelope
            &&& last.completion == completion
            &&& after == (RuntimeView { commands: after.commands, ..runtime })
            &&& after.command_taken().commands == after.commands.subrange(
                1,
                after.commands.len() as int,
            )
        }),
{
    assert(runtime.command_queued(envelope, completion).commands.drop_last()
        =~= runtime.commands);
}

/// A command is carried out exactly while the runtime runs, by the owner, once
/// the player is in the world; a respawn need not wait for that.
pub proof fn law_when_a_command_is_due(runtime: RuntimeView, client: ClientRef)
    ensures
        runtime.command_due(client) <==> {
            &&& runtime.commands.len() > 0
            &&& !runtime.flags.stopping
            &&& !runtime.flags.disconnect_reported
            &&& runtime.producer.owner == Some((client.entity, runtime.writer.connection_epoch))
            &&& match client.attempt_token {
                Some(token) => runtime.producer.bindings.contains(
                    (token, runtime.writer.connection_epoch),
                ),
                None => !runtime.producer.source_fence.ambiguous
                    && runtime.producer.source_fence.pending_rebind_entity != Some(client.entity),
            }
            &&& runtime.flags.ready || runtime.commands[0].envelope.command is Respawn
        },
{
}

/// A movement goes where its keys point, whatever their order: opposite keys
/// cancel each other and everything else.
pub proof fn law_a_movement_goes_where_its_keys_point(directions: Seq<MotorDirection>)
    ensures
        ({
            let walk = planned_walk(directions);
            let forward = directions.contains(MotorDirection::Forward);
            let back = directions.contains(MotorDirection::Back);
            let left = directions.contains(MotorDirection::Left);
            let right = directions.contains(MotorDirection::Right);
            let opposed = (forward && back) || (left && right);
            &&& opposed ==> walk == WalkDirection::Still
            &&& !opposed ==> {
                &&& (walk == WalkDirection::Forward || walk == WalkDirection::ForwardLeft || walk
                    == WalkDirection::ForwardRight) == forward
                &&& (walk == WalkDirection::Backward || walk == WalkDirection::BackwardLeft || walk
                    == WalkDirection::BackwardRight) == back
                &&& (walk == WalkDirection::Left || walk == WalkDirection::ForwardLeft || walk
                    == WalkDirection::BackwardLeft) == left
                &&& (walk == WalkDirection::Right || walk == WalkDirection::ForwardRight || walk
                    == WalkDirection::BackwardRight) == right
            }
        }),
{
}

/// A sprint is made exactly if it is asked for and the walk goes forward, and it
/// goes the way of the walk.
pub proof fn law_only_forward_walks_sprint(walk: WalkDirection, asked: Option<bool>)
    ensures
        asked != Some(true) ==> planned_sprint(walk, asked) is None,
        asked == Some(true) ==> {
            &&& planned_sprint(walk, asked) == Some(SprintDirection::Forward) <==> walk
                == WalkDirection::Forward
            &&& planned_sprint(walk, asked) == Some(SprintDirection::ForwardLeft) <==> walk
                == WalkDirection::ForwardLeft
            &&& planned_sprint(walk, asked) == Some(SprintDirection::ForwardRight) <==> walk
                == WalkDirection::ForwardRight
        },
{
}

/// A command that may act becomes the step that it asks for: a line to say, a
/// turn to make, keys to release or a respawn, which alone settles before it is
/// carried out.
pub proof fn law_commands_become_steps(
    runtime: RuntimeView,
    client: ClientRef,
    queued: QueuedCommand,
    at: UtcInstant,
)
    requires
        runtime.writer.connection_epoch == queued.connection_epoch,
        !runtime.flags.stopping,
        !runtime.flags.disconnect_reported,
        runtime.owned_by(client),
        queued.completion matches Some(completion) ==> runtime.completions.contains_key(completion)
            && !runtime.completions[completion].cancelled
            && runtime.completions[completion].settled_result is None,
    ensures
        ({
            let (after, step) = runtime.command_started(client, queued, at);
            match queued.envelope.command {
                BackendCommand::SendChat { message } => {
                    &&& after == runtime
                    &&& step == (CommandStep::Chat { message, completion: queued.completion })
                },
                BackendCommand::LookRelative { yaw_degrees, pitch_degrees } => {
                    &&& after == runtime
                    &&& step == (CommandStep::Look {
                        yaw_degrees,
                        pitch_degrees,
                        completion: queued.completion,
                    })
                },
                BackendCommand::ReleaseAll => {
                    &&& after == runtime.movement_cancelled(true)
                    &&& step matches CommandStep::Release(plan)
                    &&& plan.id == queued.envelope.id
                    &&& plan.connection_epoch == queued.connection_epoch
                    &&& plan.completion == queued.completion
                    &&& plan.previous_id == runtime.movement.id
                    &&& plan.previous_generation == runtime.counters.movement_generation
                    &&& plan.previous_completion == runtime.movement.completion
                },
                BackendCommand::Respawn => {
                    &&& step == (CommandStep::Respawn {
                        connection_epoch: queued.connection_epoch,
                    })
                    &&& queued.completion matches Some(completion)
                        ==> after.completions[completion].settled_result == Some(
                        Ok::<(), BackendError>(()),
                    )
                },
                BackendCommand::Move { .. } => true,
            }
        }),
{
}

/// A movement that may act supersedes the one under way and is planned as it was
/// asked for: its keys, its sprint, its jump, its crouch and its duration. Until
/// its keys are pressed a stop waits for it, and from now on it owes a release
/// under a signal of its own.
pub proof fn law_a_movement_is_planned_as_asked(
    runtime: RuntimeView,
    client: ClientRef,
    queued: QueuedCommand,
    directions: Vec<MotorDirection>,
    duration_ms: u64,
    sprint: Option<bool>,
    jump: Option<bool>,
    crouch: Option<bool>,
    completion: u64,
    at: UtcInstant,
)
    requires
        queued.envelope.command == (BackendCommand::Move {
            directions,
            duration_ms,
            sprint,
            jump,
            crouch,
        }),
        duration_ms > 0,
        queued.completion == Some(completion),
        runtime.writer.connection_epoch == queued.connection_epoch,
        !runtime.flags.stopping,
        !runtime.flags.disconnect_reported,
        runtime.owned_by(client),
        runtime.completions.contains_key(completion),
        !runtime.completions[completion].cancelled,
        runtime.movement.completion != Some(completion),
        runtime.counters.movement_generation < u64::MAX - 1,
        runtime.counters.last_signal < u64::MAX,
    ensures
        ({
            let (after, step) = runtime.command_started(client, queued, at);
            let signal = (runtime.counters.last_signal + 1) as u64;
            let generation = (runtime.counters.movement_generation + 2) as u64;
            &&& step matches CommandStep::Move(plan)
            &&& plan.id == queued.envelope.id
            &&& plan.connection_epoch == queued.connection_epoch
            &&& plan.generation == generation
            &&& plan.completion == Some(completion)
            &&& plan.cancel_signal == Some(signal)
            &&& plan.walk == planned_walk(directions@)
            &&& plan.sprint == planned_sprint(planned_walk(directions@), sprint)
            &&& plan.jump == (jump == Some(true))
            &&& plan.crouch == (crouch == Some(true))
            &&& plan.duration_ms == duration_ms
            &&& after.counters.movement_generation == generation
            &&& after.counters.last_signal == signal
            &&& after.movement.active
            &&& after.movement.id == Some(queued.envelope.id)
            &&& after.movement.completion == Some(completion)
            &&& after.movement.cancel_signal == Some(signal)
            &&& after.movement.registration
            &&& after.completions[completion].active_release
            &&& after.completions[completion].cancel_signal == Some(signal)
            &&& after.completions[completion].settled_result
                == runtime.completions[completion].settled_result
        }),
{
    reveal(RuntimeView::movement_begun);
    reveal(RuntimeView::movement_declared);
}

/// A movement that may not act is not made, and its command settles as cancelled,
/// unless it owes a release that was asked for.
pub proof fn law_a_movement_that_may_not_act_is_not_made(
    runtime: RuntimeView,
    client: ClientRef,
    connection_epoch: u64,
    id: CommandId,
    generation: u64,
    duration_ms: u64,
    completion: u64,
    at: UtcInstant,
)
    requires
        runtime.client_error(client, connection_epoch, Operation::Command(id)) is Some,
        runtime.completions.contains_key(completion),
        runtime.completions[completion].settled_result is None,
        !runtime.completions[completion].active_release,
    ensures
        ({
            let (after, registration) = runtime.movement_registered(
                client,
                connection_epoch,
                id,
                generation,
                duration_ms,
                Some(completion),
                at,
            );
            &&& registration is Cancelled
            &&& after.movement == runtime.movement
            &&& after.counters == runtime.counters
            &&& after.completions[completion].settled_result == Some(
                Err::<(), BackendError>(
                    BackendError::Cancelled { operation: Operation::Command(id) },
                ),
            )
        }),
{
}

/// Once the keys of a movement are pressed, they are released after its duration
/// or when its signal is raised. If they could not be pressed, or there is nothing
/// to wait for, the movement is over and its command has its result.
pub proof fn law_pressed_keys_are_released_later(
    runtime: RuntimeView,
    plan: MovePlan,
    started: bool,
    completion: u64,
    at: UtcInstant,
)
    requires
        !runtime.flags.stopping,
        plan.completion == Some(completion),
        runtime.completions.contains_key(completion),
        runtime.completions[completion].settled_result is None,
    ensures
        ({
            let (after, next) = runtime.movement_started(plan, started, at);
            &&& !after.movement.registration
            &&& plan.cancel_signal matches Some(signal) ==> started ==> {
                &&& next == (MoveFollowUp::ReleaseLater {
                    cancel_signal: signal,
                    duration_ms: plan.duration_ms,
                })
                &&& after.movement.active == runtime.movement.active
                &&& after.movement.id == runtime.movement.id
                &&& after.movement.completion == runtime.movement.completion
                &&& after.completions == runtime.completions
            }
            &&& plan.cancel_signal is None || !started ==> {
                &&& next is Done
                &&& after.completions[completion].settled_result == Some(
                    if started {
                        Ok(())
                    } else {
                        Err(component_failure(Actuation::Move))
                    },
                )
                &&& runtime.movement.id matches Some(id) ==> id.spec_text() == plan.id.spec_text()
                    && runtime.counters.movement_generation == plan.generation
                    ==> !after.movement.active && after.movement.id is None
            }
        }),
{
    reveal(RuntimeView::movement_started);
    reveal(RuntimeView::stop_finalized);
}

/// The inputs of a movement may be released exactly if it is the one under way,
/// in its own epoch, and no other client owns the stream. A stop or a disconnect
/// is no hindrance.
pub proof fn law_when_inputs_may_be_released(
    runtime: RuntimeView,
    client: ClientRef,
    connection_epoch: u64,
    id: CommandId,
    generation: u64,
)
    ensures
        ({
            let own = runtime.counters.movement_generation == generation
                && runtime.movement.id is Some && (runtime.movement.id->0).spec_text()
                == id.spec_text();
            let step = runtime.release_permitted(client, connection_epoch, id, generation);
            &&& step is NotOwned <==> !own
            &&& step is Release <==> own && runtime.writer.connection_epoch == connection_epoch && (
            runtime.producer.owner is None || runtime.owned_by(client))
            &&& step matches ReleaseStep::Refused(error) ==> {
                error == (if runtime.writer.connection_epoch != connection_epoch {
                    BackendError::StaleEpoch {
                        bound_epoch: connection_epoch,
                        current_epoch: runtime.writer.connection_epoch,
                    }
                } else {
                    BackendError::Cancelled { operation: Operation::Command(id) }
                })
            }
        }),
{
}

/// A release that was made gives the result that was planned; one that found no
/// player says so.
pub proof fn law_a_release_without_a_player_fails(
    released: bool,
    action: Actuation,
    planned: Result<(), BackendError>,
)
    ensures
        released ==> release_result(released, action, planned) == planned,
        !released ==> release_result(released, action, planned) == Err::<(), BackendError>(
            component_failure(action),
        ),
{
}

/// When the inputs of the movement under way are released, its command has its
/// result and nothing moves any more.
pub proof fn law_a_released_movement_is_over(
    runtime: RuntimeView,
    id: CommandId,
    completion: u64,
    result: Result<(), BackendError>,
    at: UtcInstant,
)
    requires
        !runtime.flags.stopping,
        runtime.movement.id matches Some(active) && active.spec_text() == id.spec_text(),
        runtime.movement.completion == Some(completion),
        runtime.completions.contains_key(completion),
        runtime.completions[completion].settled_result is None,
    ensures
        ({
            let after = runtime.release_finished(
                id,
                runtime.counters.movement_generation,
                Some(completion),
                result,
                at,
            );
            &&& !after.movement.active
            &&& after.movement.id is None
            &&& after.movement.completion is None
            &&& after.movement.cancel_signal is None
            &&& after.movement.registration == runtime.movement.registration
            &&& after.completions[completion].settled_result == Some(result)
            &&& after.effects == runtime.effects.push(crate::state::Effect::Settled(completion))
        }),
{
    reveal(RuntimeView::release_finished);
    reveal(RuntimeView::stop_finalized);
}

/// A release that comes too late for its movement settles its own command and
/// leaves the movement that is under way alone.
pub proof fn law_a_late_release_leaves_the_others(
    runtime: RuntimeView,
    id: CommandId,
    generation: u64,
    completion: u64,
    result: Result<(), BackendError>,
    at: UtcInstant,
)
    requires
        !runtime.flags.stopping,
        runtime.counters.movement_generation != generation,
        runtime.movement.completion != Some(completion),
    ensures
        runtime.release_finished(id, generation, Some(completion), result, at).movement
            == runtime.movement,
{
    reveal(RuntimeView::release_finished);
    reveal(RuntimeView::stop_finalized);
}

/// A movement is interrupted exactly by the cancellation of its command or by a
/// stop.
pub proof fn law_what_interrupts_a_movement(runtime: RuntimeView, completion: u64)
    requires
        runtime.completions.contains_key(completion),
    ensures
        runtime.movement_interrupted(Some(completion)) <==> runtime.flags.stopping
            || runtime.completions[completion].cancelled,
        runtime.movement_interrupted(None) <==> runtime.flags.stopping,
{
}

/// A movement that was left behind when nothing moved is cancelled by the release
/// of the inputs; without a player it fails instead. Nothing of it is remembered.
pub proof fn law_a_release_cancels_what_was_left(
    runtime: RuntimeView,
    plan: ReleasePlan,
    released: bool,
    completion: u64,
)
    requires
        plan.previous_completion == Some(completion),
        runtime.completions.contains_key(completion),
        runtime.completions[completion].settled_result is None,
        !runtime.movement.active,
        !runtime.movement.registration,
        runtime.movement.id is None,
        runtime.counters.movement_generation == plan.previous_generation,
    ensures
        ({
            let after = runtime.idle_release_finished(plan, released);
            &&& after.movement.completion is None
            &&& after.movement.cancel_signal is None
            &&& after.movement.id is None
            &&& released ==> after.completions[completion].settled_result == Some(
                Err::<(), BackendError>(
                    BackendError::Cancelled { operation: Operation::MovementReleased },
                ),
            )
            &&& !released ==> after.completions[completion].settled_result == Some(
                Err::<(), BackendError>(component_failure(Actuation::ReleaseAllMove)),
            )
            &&& after.effects == runtime.effects.push(crate::state::Effect::Settled(completion))
        }),
{
}

} // verus!
