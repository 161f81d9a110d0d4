//! The runtime's handle: what callers may ask of the runtime and read of it.

use std::sync::Arc;

use vstd::prelude::*;

use crate::command::{
    command_error, validate_command, BackendCommand, BackendCommandEnvelope, CommandError,
    CommandProtocol, MotorDirection,
};
use crate::config::RunConfig;
use crate::contract::{
    BackendError, BackendEventEnvelope, BackendState, CommandId, FactSource, Operation,
    StopReason,
};
use crate::frame::RuntimeFrameFacts;
use crate::lanes::successor;
use crate::number::Single;
use crate::observation::RuntimeObservationSource;
use crate::snapshot::MinecraftSnapshotV1;
use crate::state::{next_number, RuntimeCounters, RuntimeView, SharedRuntime};
use crate::time::UtcInstant;

verus! {

/// A queued command: its id, and where its one result will be.
#[derive(Debug, PartialEq, Eq)]
pub struct CommandCompletion {
    pub command_id: CommandId,
    pub completion: u64,
}

/// Cancels a command on behalf of a caller who no longer waits.
#[derive(Clone, Copy, Debug, PartialEq, Eq, Structural)]
pub struct CommandCompletionCancellation {
    pub completion: u64,
}

/// One subscription to the event stream.
#[derive(Clone, Copy, Debug, PartialEq, Eq, Structural)]
pub struct RuntimeEventReceiver {
    pub subscriber: u64,
}

/// The runtime as callers see it.
pub struct RuntimeHandle {
    pub shared: SharedRuntime,
}

impl RuntimeView {
    pub open spec fn command_numbered(self) -> RuntimeView {
        self.with_counters(
            RuntimeCounters {
                command_revision: successor(self.counters.command_revision),
                ..self.counters
            },
        )
    }

    /// The envelope that the handle puts a command into.
    pub open spec fn enveloped(self, command: BackendCommand, at: UtcInstant) -> BackendCommandEnvelope {
        BackendCommandEnvelope {
            protocol: CommandProtocol::Current,
            id: CommandId::Sequence(successor(self.counters.command_revision)),
            issued_at: at,
            command,
        }
    }

    /// Why a command is not queued, if it is not: the protocol is looked at
    /// first, the command itself next, the runtime last.
    pub open spec fn submission_error(
        self,
        envelope: BackendCommandEnvelope,
        expected_epoch: Option<u64>,
    ) -> Option<CommandError> {
        match envelope.protocol {
            CommandProtocol::Other(given) => Some(CommandError::UnsupportedProtocol(given)),
            CommandProtocol::Current => match command_error(envelope.command) {
                Some(error) => Some(error),
                None => self.command_refusal(expected_epoch),
            },
        }
    }

    pub open spec fn submitted(
        self,
        envelope: BackendCommandEnvelope,
        expected_epoch: Option<u64>,
    ) -> RuntimeView {
        if self.submission_error(envelope, expected_epoch) is None {
            self.command_queued(envelope, None)
        } else {
            self
        }
    }

    /// The completion that a command gets.
    pub open spec fn completion_for(self) -> CommandCompletion {
        CommandCompletion {
            command_id: CommandId::Sequence(successor(self.counters.command_revision)),
            completion: successor(self.counters.last_completion),
        }
    }

    /// A command with a completion: it is queued, or its completion is settled
    /// as cancelled at once.
    pub open spec fn submitted_with_completion(
        self,
        command: BackendCommand,
        expected_epoch: Option<u64>,
        at: UtcInstant,
    ) -> (RuntimeView, Result<CommandCompletion, CommandError>) {
        match command_error(command) {
            Some(error) => (self, Err(error)),
            None => {
                let given = self.completion_for();
                let created = self.command_numbered().completion_created();
                match created.command_refusal(expected_epoch) {
                    None => (
                        created.command_queued(
                            self.enveloped(command, at),
                            Some(given.completion),
                        ),
                        Ok(given),
                    ),
                    Some(error) => (
                        created.completion_cancelled(
                            Some(given.completion),
                            Operation::Command(given.command_id),
                            false,
                        ).completion_forgotten(given.completion),
                        Err(error),
                    ),
                }
            },
        }
    }
}

impl CommandCompletion {
    /// The id of the command.
    pub fn command_id(&self) -> (id: String)
        ensures
            id@ == self.command_id.spec_text(),
    {
        self.command_id.text()
    }

    /// Cancels the command. A movement under way is released first.
    pub fn cancel(&self, runtime: &mut SharedRuntime)
        requires
            old(runtime)@.wf(),
        ensures
            final(runtime)@ == old(runtime)@.completion_cancelled(
                Some(self.completion),
                Operation::Command(self.command_id),
                true,
            ),
            final(runtime)@.wf(),
    {
        runtime.cancel_completion(
            Some(self.completion),
            Operation::Command(self.command_id.clone()),
            true,
        );
    }

    /// A way to cancel the command once the completion itself is being waited for.
    pub fn cancellation_handle(&self) -> (handle: CommandCompletionCancellation)
        ensures
            handle.completion == self.completion,
    {
        CommandCompletionCancellation { completion: self.completion }
    }
}

impl CommandCompletionCancellation {
    /// Cancels the command.
    pub fn cancel(&self, runtime: &mut SharedRuntime)
        requires
            old(runtime)@.wf(),
        ensures
            final(runtime)@ == old(runtime)@.completion_cancelled(
                Some(self.completion),
                Operation::CancelledByCaller,
                true,
            ),
            final(runtime)@.wf(),
    {
        runtime.cancel_completion(Some(self.completion), Operation::CancelledByCaller, true);
    }
}

impl RuntimeEventReceiver {
    /// Takes the next event of the subscription, if there is one, and lets
    /// whoever waited for the room go on.
    pub fn try_recv(&self, runtime: &mut SharedRuntime) -> (event: Option<
        Arc<BackendEventEnvelope>,
    >)
        requires
            old(runtime)@.wf(),
        ensures
            event == old(runtime)@.next_for(self.subscriber),
            final(runtime)@ == old(runtime)@.received(self.subscriber),
            final(runtime)@.wf(),
    {
        runtime.take_event(self.subscriber)
    }
}

impl SharedRuntime {
    /// Puts a command into an envelope with the next number.
    pub fn next_command(&mut self, command: BackendCommand, at: UtcInstant) -> (envelope:
        BackendCommandEnvelope)
        requires
            old(self)@.wf(),
        ensures
            envelope == old(self)@.enveloped(command, at),
            final(self)@ == old(self)@.command_numbered(),
            final(self)@.wf(),
    {
        let number: u64 = next_number(self.counters.command_revision);
        self.put_counters(RuntimeCounters { command_revision: number, ..self.counters });
        BackendCommandEnvelope {
            protocol: CommandProtocol::Current,
            id: CommandId::Sequence(number),
            issued_at: at,
            command,
        }
    }

    /// Queues a command that nobody waits for.
    pub fn submit_command(
        &mut self,
        envelope: BackendCommandEnvelope,
        expected_epoch: Option<u64>,
    ) -> (r: Result<(), CommandError>)
        requires
            old(self)@.wf(),
        ensures
            r == (match old(self)@.submission_error(envelope, expected_epoch) {
                Some(error) => Err(error),
                None => Ok(()),
            }),
            final(self)@ == old(self)@.submitted(envelope, expected_epoch),
            final(self)@.wf(),
    {
        match &envelope.protocol {
            CommandProtocol::Current => {},
            CommandProtocol::Other(given) => {
                return Err(CommandError::UnsupportedProtocol(given.clone()));
            },
        }
        match validate_command(&envelope.command) {
            Err(error) => {
                return Err(error);
            },
            Ok(()) => {},
        }
        self.enqueue_command_if_running(envelope, None, expected_epoch)
    }

    /// Queues a command whose result somebody waits for.
    pub fn submit_command_with_completion(
        &mut self,
        command: BackendCommand,
        expected_epoch: Option<u64>,
        at: UtcInstant,
    ) -> (r: Result<CommandCompletion, CommandError>)
        requires
            old(self)@.wf(),
        ensures
            r == old(self)@.submitted_with_completion(command, expected_epoch, at).1,
            final(self)@ == old(self)@.submitted_with_completion(command, expected_epoch, at).0,
            final(self)@.wf(),
    {
        match validate_command(&command) {
            Err(error) => {
                return Err(error);
            },
            Ok(()) => {},
        }
        let envelope = self.next_command(command, at);
        let command_id = envelope.id.clone();
        let completion: u64 = self.create_completion();
        match self.enqueue_command_if_running(envelope, Some(completion), expected_epoch) {
            Ok(()) => Ok(CommandCompletion { command_id, completion }),
            Err(error) => {
                self.cancel_completion(Some(completion), Operation::Command(command_id), false);
                self.forget_completion(completion);
                Err(error)
            },
        }
    }
}

impl RuntimeHandle {
    /// A handle on a fresh runtime. The process session id and the seed of the
    /// retry jitter come from outside.
    pub fn new(config: RunConfig, process_session_id: String, seed: u64) -> (handle: Self)
        ensures
            handle.shared@ == RuntimeView::initial(config, process_session_id, seed),
            handle.shared@.wf(),
    {
        RuntimeHandle { shared: SharedRuntime::new(config, process_session_id, seed) }
    }

    /// The state of the backend.
    pub fn state(&self) -> (state: BackendState)
        ensures
            state == self.shared@.connection.state,
    {
        self.shared.backend_state()
    }

    /// The epoch of the current connection attempt.
    pub fn connection_epoch(&self) -> (epoch: u64)
        ensures
            epoch == self.shared@.epoch(),
    {
        self.shared.connection_epoch()
    }

    /// The published snapshot.
    pub fn snapshot(&self) -> (snapshot: Option<Arc<MinecraftSnapshotV1>>)
        ensures
            snapshot == self.shared@.observation.snapshot,
    {
        self.shared.stored_snapshot()
    }

    /// Snapshot, armor and light, all of one published state.
    pub fn capture_frame_facts(&self) -> (facts: Option<RuntimeFrameFacts>)
        ensures
            facts == self.shared@.observation.frame_facts(),
    {
        self.shared.observation.capture_frame_facts()
    }

    /// Where the published snapshot comes from. A predicted snapshot is not one
    /// that the server confirmed.
    pub fn snapshot_source(&self) -> (source: Option<FactSource>)
        ensures
            source == self.shared@.observation.source,
    {
        self.shared.observation.source
    }

    /// Subscribes to the event stream.
    pub fn subscribe(&mut self) -> (receiver: RuntimeEventReceiver)
        requires
            old(self).shared@.wf(),
        ensures
            receiver.subscriber == successor(old(self).shared@.counters.last_subscriber),
            final(self).shared@ == old(self).shared@.subscribed(),
            final(self).shared@.wf(),
    {
        RuntimeEventReceiver { subscriber: self.shared.subscribe() }
    }

    /// A reader of the observations of the current epoch.
    pub fn observation_source(&self) -> (source: RuntimeObservationSource)
        ensures
            source.bound_epoch == self.shared@.epoch(),
    {
        RuntimeObservationSource { bound_epoch: self.shared.connection_epoch() }
    }

    /// Queues a command as it is given.
    pub fn send_command(&mut self, command: BackendCommandEnvelope) -> (r: Result<(), CommandError>)
        requires
            old(self).shared@.wf(),
        ensures
            r == (match old(self).shared@.submission_error(command, None) {
                Some(error) => Err(error),
                None => Ok(()),
            }),
            final(self).shared@ == old(self).shared@.submitted(command, None),
            final(self).shared@.wf(),
    {
        self.shared.submit_command(command, None)
    }

    /// Says something.
    pub fn send_chat(&mut self, message: String, at: UtcInstant) -> (r: Result<(), CommandError>)
        requires
            old(self).shared@.wf(),
        ensures
            ({
                let before = old(self).shared@;
                let chat = before.enveloped(BackendCommand::SendChat { message }, at);
                let numbered = before.command_numbered();
                &&& r == (match numbered.submission_error(chat, None) {
                    Some(error) => Err(error),
                    None => Ok(()),
                })
                &&& final(self).shared@ == numbered.submitted(chat, None)
            }),
            final(self).shared@.wf(),
    {
        let envelope = self.shared.next_command(BackendCommand::SendChat { message }, at);
        self.shared.submit_command(envelope, None)
    }

    /// Says something in one epoch only.
    pub fn send_chat_for_epoch(
        &mut self,
        expected_epoch: u64,
        message: String,
        at: UtcInstant,
    ) -> (r: Result<(), CommandError>)
        requires
            old(self).shared@.wf(),
        ensures
            ({
                let before = old(self).shared@;
                let chat = before.enveloped(BackendCommand::SendChat { message }, at);
                let numbered = before.command_numbered();
                &&& r == (match numbered.submission_error(chat, Some(expected_epoch)) {
                    Some(error) => Err(error),
                    None => Ok(()),
                })
                &&& final(self).shared@ == numbered.submitted(chat, Some(expected_epoch))
            }),
            final(self).shared@.wf(),
    {
        let envelope = self.shared.next_command(BackendCommand::SendChat { message }, at);
        self.shared.submit_command(envelope, Some(expected_epoch))
    }

    /// Turns the view.
    pub fn look_relative(
        &mut self,
        yaw_degrees: Single,
        pitch_degrees: Single,
        at: UtcInstant,
    ) -> (r: Result<CommandCompletion, CommandError>)
        requires
            old(self).shared@.wf(),
        ensures
            (final(self).shared@, r) == old(self).shared@.submitted_with_completion(
                BackendCommand::LookRelative { yaw_degrees, pitch_degrees },
                None,
                at,
            ),
            final(self).shared@.wf(),
    {
        self.shared.submit_command_with_completion(
            BackendCommand::LookRelative { yaw_degrees, pitch_degrees },
            None,
            at,
        )
    }

    /// Turns the view in one epoch only.
    pub fn look_relative_for_epoch(
        &mut self,
        expected_epoch: u64,
        yaw_degrees: Single,
        pitch_degrees: Single,
        at: UtcInstant,
    ) -> (r: Result<CommandCompletion, CommandError>)
        requires
            old(self).shared@.wf(),
        ensures
            (final(self).shared@, r) == old(self).shared@.submitted_with_completion(
                BackendCommand::LookRelative { yaw_degrees, pitch_degrees },
                Some(expected_epoch),
                at,
            ),
            final(self).shared@.wf(),
    {
        self.shared.submit_command_with_completion(
            BackendCommand::LookRelative { yaw_degrees, pitch_degrees },
            Some(expected_epoch),
            at,
        )
    }

    /// Presses movement keys for a while; the result comes once they are released.
    pub fn move_input(
        &mut self,
        directions: Vec<MotorDirection>,
        duration_ms: u64,
        sprint: Option<bool>,
        jump: Option<bool>,
        crouch: Option<bool>,
        at: UtcInstant,
    ) -> (r: Result<CommandCompletion, CommandError>)
        requires
            old(self).shared@.wf(),
        ensures
            (final(self).shared@, r) == old(self).shared@.submitted_with_completion(
                BackendCommand::Move { directions, duration_ms, sprint, jump, crouch },
                None,
                at,
            ),
            final(self).shared@.wf(),
    {
        self.shared.submit_command_with_completion(
            BackendCommand::Move { directions, duration_ms, sprint, jump, crouch },
            None,
            at,
        )
    }

    /// Presses movement keys in one epoch only.
    pub fn move_input_for_epoch(
        &mut self,
        expected_epoch: u64,
        directions: Vec<MotorDirection>,
        duration_ms: u64,
        sprint: Option<bool>,
        jump: Option<bool>,
        crouch: Option<bool>,
        at: UtcInstant,
    ) -> (r: Result<CommandCompletion, CommandError>)
        requires
            old(self).shared@.wf(),
        ensures
            (final(self).shared@, r) == old(self).shared@.submitted_with_completion(
                BackendCommand::Move { directions, duration_ms, sprint, jump, crouch },
                Some(expected_epoch),
                at,
            ),
            final(self).shared@.wf(),
    {
        self.shared.submit_command_with_completion(
            BackendCommand::Move { directions, duration_ms, sprint, jump, crouch },
            Some(expected_epoch),
            at,
        )
    }

    /// Releases every key.
    pub fn release_all(&mut self, at: UtcInstant) -> (r: Result<CommandCompletion, CommandError>)
        requires
            old(self).shared@.wf(),
        ensures
            (final(self).shared@, r) == old(self).shared@.submitted_with_completion(
                BackendCommand::ReleaseAll,
                None,
                at,
            ),
            final(self).shared@.wf(),
    {
        self.shared.submit_command_with_completion(BackendCommand::ReleaseAll, None, at)
    }

    /// Releases every key in one epoch only.
    pub fn release_all_for_epoch(&mut self, expected_epoch: u64, at: UtcInstant) -> (r: Result<
        CommandCompletion,
        CommandError,
    >)
        requires
            old(self).shared@.wf(),
        ensures
            (final(self).shared@, r) == old(self).shared@.submitted_with_completion(
                BackendCommand::ReleaseAll,
                Some(expected_epoch),
                at,
            ),
            final(self).shared@.wf(),
    {
        self.shared.submit_command_with_completion(
            BackendCommand::ReleaseAll,
            Some(expected_epoch),
            at,
        )
    }

    /// Asks the server for a respawn; a death by itself never does.
    pub fn respawn(&mut self, at: UtcInstant) -> (r: Result<(), CommandError>)
        requires
            old(self).shared@.wf(),
        ensures
            ({
                let before = old(self).shared@;
                let respawn = before.enveloped(BackendCommand::Respawn, at);
                let numbered = before.command_numbered();
                &&& r == (match numbered.submission_error(respawn, None) {
                    Some(error) => Err(error),
                    None => Ok(()),
                })
                &&& final(self).shared@ == numbered.submitted(respawn, None)
            }),
            final(self).shared@.wf(),
    {
        let envelope = self.shared.next_command(BackendCommand::Respawn, at);
        self.shared.submit_command(envelope, None)
    }

    /// Asks the server for a respawn in one epoch only.
    pub fn respawn_for_epoch(&mut self, expected_epoch: u64, at: UtcInstant) -> (r: Result<
        CommandCompletion,
        CommandError,
    >)
        requires
            old(self).shared@.wf(),
        ensures
            (final(self).shared@, r) == old(self).shared@.submitted_with_completion(
                BackendCommand::Respawn,
                Some(expected_epoch),
                at,
            ),
            final(self).shared@.wf(),
    {
        self.shared.submit_command_with_completion(
            BackendCommand::Respawn,
            Some(expected_epoch),
            at,
        )
    }

    /// Ends the run; the stop itself is reported as commanded.
    pub fn stop(&mut self, reason: String, at: UtcInstant)
        requires
            old(self).shared@.wf(),
        ensures
            final(self).shared@ == old(self).shared@.stopped_by(StopReason::Given(reason), at),
            final(self).shared@.wf(),
    {
        self.shared.initiate_stop(StopReason::Given(reason), at);
    }
}

/// A command that is refused leaves nothing behind, neither in the queue nor
/// among the results that are still to come.
pub proof fn law_refused_commands_do_not_linger(
    runtime: RuntimeView,
    command: BackendCommand,
    expected_epoch: Option<u64>,
    at: UtcInstant,
)
    requires
        runtime.submitted_with_completion(command, expected_epoch, at).1 is Err,
    ensures
        ({
            let after = runtime.submitted_with_completion(command, expected_epoch, at).0;
            let id = successor(runtime.counters.last_completion);
            &&& after.commands == runtime.commands
            &&& after.completions.remove(id) == runtime.completions.remove(id)
            &&& command_error(command) is None ==> !after.completions.contains_key(id)
        }),
{
    let after = runtime.submitted_with_completion(command, expected_epoch, at).0;
    let id = successor(runtime.counters.last_completion);
    assert(after.completions.remove(id) =~= runtime.completions.remove(id));
}

/// A command that is taken waits in the queue under the epoch in which it was
/// taken, behind everything that was taken before, with a result still to come.
pub proof fn law_taken_commands_wait_their_turn(
    runtime: RuntimeView,
    command: BackendCommand,
    expected_epoch: Option<u64>,
    at: UtcInstant,
)
    requires
        runtime.submitted_with_completion(command, expected_epoch, at).1 is Ok,
    ensures
        ({
            let after = runtime.submitted_with_completion(command, expected_epoch, at).0;
            let id = successor(runtime.counters.last_completion);
            &&& after.commands.len() == runtime.commands.len() + 1
            &&& after.commands.drop_last() == runtime.commands
            &&& after.commands.last().connection_epoch == runtime.epoch()
            &&& after.commands.last().envelope.command == command
            &&& after.commands.last().completion == Some(id)
            &&& after.completions[id].settled_result is None
            &&& !runtime.flags.stopping
            &&& (expected_epoch is None || expected_epoch == Some(runtime.epoch()))
        }),
{
    let after = runtime.submitted_with_completion(command, expected_epoch, at).0;
    assert(after.commands.drop_last() =~= runtime.commands);
}

/// Nothing is queued once a stop has begun.
pub proof fn law_stopping_takes_no_commands(
    runtime: RuntimeView,
    envelope: BackendCommandEnvelope,
    expected_epoch: Option<u64>,
)
    requires
        runtime.flags.stopping,
    ensures
        runtime.submission_error(envelope, expected_epoch) is Some,
        runtime.submitted(envelope, expected_epoch) == runtime,
{
}

/// A command is put into an envelope of the current protocol, under the next
/// number and with the time of its issue.
pub proof fn law_commands_are_numbered(
    runtime: RuntimeView,
    command: BackendCommand,
    at: UtcInstant,
)
    requires
        runtime.counters.command_revision < u64::MAX,
    ensures
        ({
            let envelope = runtime.enveloped(command, at);
            let number = (runtime.counters.command_revision + 1) as u64;
            &&& envelope.protocol is Current
            &&& envelope.id == CommandId::Sequence(number)
            &&& envelope.issued_at == at
            &&& envelope.command == command
            &&& runtime.command_numbered() == (RuntimeView {
                counters: RuntimeCounters { command_revision: number, ..runtime.counters },
                ..runtime
            })
        }),
{
}

/// A command is queued exactly if it is of the current protocol, makes sense and
/// is not refused by the runtime, in this order; what is wrong first is told.
pub proof fn law_which_commands_are_queued(
    runtime: RuntimeView,
    envelope: BackendCommandEnvelope,
    expected_epoch: Option<u64>,
)
    ensures
        ({
            let error = runtime.submission_error(envelope, expected_epoch);
            let after = runtime.submitted(envelope, expected_epoch);
            &&& envelope.protocol matches CommandProtocol::Other(given) ==> error == Some(
                CommandError::UnsupportedProtocol(given),
            )
            &&& envelope.protocol is Current && command_error(envelope.command) is Some ==> error
                == command_error(envelope.command)
            &&& envelope.protocol is Current && command_error(envelope.command) is None
                && runtime.flags.stopping ==> error == Some(CommandError::Stopping)
            &&& envelope.protocol is Current && command_error(envelope.command) is None
                && !runtime.flags.stopping && (expected_epoch is None || expected_epoch == Some(
                runtime.writer.connection_epoch,
            )) ==> error is None
            &&& error is Some ==> after == runtime
            &&& error is None ==> after.commands == runtime.commands.push(
                crate::state::QueuedCommand {
                    connection_epoch: runtime.writer.connection_epoch,
                    envelope,
                    completion: None,
                },
            )
        }),
{
}

/// Whoever waits for a command gets its number and its own completion. A command
/// that makes no sense costs no number; one that the runtime refuses is told why.
pub proof fn law_who_waits_gets_a_completion(
    runtime: RuntimeView,
    command: BackendCommand,
    expected_epoch: Option<u64>,
    at: UtcInstant,
)
    requires
        runtime.counters.command_revision < u64::MAX,
        runtime.counters.last_completion < u64::MAX,
    ensures
        ({
            let (after, given) = runtime.submitted_with_completion(command, expected_epoch, at);
            let refused = runtime.flags.stopping || (expected_epoch is Some && expected_epoch
                != Some(runtime.writer.connection_epoch));
            &&& command_error(command) matches Some(error) ==> {
                &&& given == Err::<CommandCompletion, CommandError>(error)
                &&& after == runtime
            }
            &&& command_error(command) is None ==> {
                &&& after.counters.command_revision == runtime.counters.command_revision + 1
                &&& after.counters.last_completion == runtime.counters.last_completion + 1
                &&& given is Err <==> refused
                &&& refused && runtime.flags.stopping ==> given == Err::<
                    CommandCompletion,
                    CommandError,
                >(CommandError::Stopping)
                &&& given matches Ok(completion) ==> {
                    &&& completion.command_id == CommandId::Sequence(
                        (runtime.counters.command_revision + 1) as u64,
                    )
                    &&& completion.completion == runtime.counters.last_completion + 1
                    &&& after.commands.last().envelope == runtime.enveloped(command, at)
                    &&& after.commands.last().completion == Some(completion.completion)
                }
            }
        }),
{
}

} // verus!
