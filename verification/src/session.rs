//! One run of the runtime as the backend owns it: what came of its start, its
//! worker, and the errors that callers get in each of its states.

use std::sync::Arc;

use vstd::prelude::*;

use crate::command::CommandError;
use crate::conversion::{
    convert_snapshot, protocol_error, protocol_failure, refused_snapshot, same_snapshot,
    PublicSnapshot,
};
use crate::contract::{
    AttemptId, BackendError, BackendEventEnvelope, BackendEventPayload, BackendFailure,
    BackendFailureCode, BackendLifecyclePayload, BackendState, FailureMessage, Operation,
    PublicOperation, Readiness,
};
use crate::handle::{CommandCompletion, RuntimeHandle};
use crate::config::RunConfig;
use crate::snapshot::MinecraftSnapshotV1;
use crate::state::RuntimeView;

verus! {

/// A run that got through to the world.
#[derive(Debug, PartialEq, Eq)]
pub struct BackendReady {
    pub process_session_id: String,
    pub connection_epoch: u64,
    pub connection_attempt_id: AttemptId,
    pub snapshot: Arc<PublicSnapshot>,
}

impl Clone for BackendReady {
    fn clone(&self) -> (r: Self)
        ensures
            r == *self,
    {
        BackendReady {
            process_session_id: self.process_session_id.clone(),
            connection_epoch: self.connection_epoch,
            connection_attempt_id: self.connection_attempt_id,
            snapshot: self.snapshot.clone(),
        }
    }
}

/// The attempt that a snapshot and an event belong to is the same.
pub open spec fn same_attempt(event: BackendEventEnvelope, raw: MinecraftSnapshotV1) -> bool {
    &&& raw.process_session_id@ == event.process_session_id@
    &&& raw.connection_epoch == event.connection_epoch
    &&& raw.connection_attempt_id == event.connection_attempt_id
}

/// What is wrong with a ready event, if anything is.
pub open spec fn ready_error(
    event: BackendEventEnvelope,
    raw: Option<Arc<MinecraftSnapshotV1>>,
    axes: Result<(), BackendError>,
) -> Option<BackendError> {
    match raw {
        None => Some(protocol_failure(FailureMessage::ReadyWithoutSnapshot)),
        Some(raw) => match refused_snapshot(*raw, axes) {
            Some(error) => Some(error),
            None => if same_attempt(event, *raw) {
                None
            } else {
                Some(protocol_failure(FailureMessage::ReadyIdentityMismatch))
            },
        },
    }
}

/// What a ready event amounts to, given the published snapshot and what the
/// check of its axes says.
pub open spec fn readiness(
    event: BackendEventEnvelope,
    raw: Option<Arc<MinecraftSnapshotV1>>,
    axes: Result<(), BackendError>,
    ready: Result<BackendReady, BackendError>,
) -> bool {
    match ready_error(event, raw, axes) {
        Some(error) => ready == Err::<BackendReady, BackendError>(error),
        None => {
            &&& ready is Ok
            &&& ready->Ok_0.process_session_id == event.process_session_id
            &&& ready->Ok_0.connection_epoch == event.connection_epoch
            &&& ready->Ok_0.connection_attempt_id == event.connection_attempt_id
            &&& same_snapshot(*raw->0, *ready->Ok_0.snapshot)
        },
    }
}

/// What a ready event amounts to, given the published snapshot and what the
/// check of its axes says.
pub fn ready_from_event(
    event: &BackendEventEnvelope,
    raw: &Option<Arc<MinecraftSnapshotV1>>,
    axes: Result<(), BackendError>,
) -> (ready: Result<BackendReady, BackendError>)
    ensures
        readiness(*event, *raw, axes, ready),
{
    match raw {
        None => Err(protocol_error(FailureMessage::ReadyWithoutSnapshot)),
        Some(raw) => match convert_snapshot(raw, axes) {
            Err(error) => Err(error),
            Ok(snapshot) => {
                if raw.process_session_id == event.process_session_id && raw.connection_epoch
                    == event.connection_epoch && raw.connection_attempt_id
                    == event.connection_attempt_id {
                    Ok(
                        BackendReady {
                            process_session_id: event.process_session_id.clone(),
                            connection_epoch: event.connection_epoch,
                            connection_attempt_id: event.connection_attempt_id,
                            snapshot: Arc::new(snapshot),
                        },
                    )
                } else {
                    Err(protocol_error(FailureMessage::ReadyIdentityMismatch))
                }
            },
        },
    }
}

/// What came of a run so far.
#[derive(Debug, PartialEq, Eq)]
pub struct SessionOutcome {
    pub ready: Option<Result<BackendReady, BackendError>>,
    pub terminal: Option<BackendError>,
}

/// The error with which an event ends a run, if it does.
pub open spec fn terminal_error(event: BackendEventEnvelope) -> Option<BackendError> {
    match event.payload {
        BackendEventPayload::Lifecycle(
            BackendLifecyclePayload::Faulted { failure },
        ) => Some(BackendError::BackendFailure { failure }),
        BackendEventPayload::Lifecycle(
            BackendLifecyclePayload::ConnectionClosed { close },
        ) => if close.retryable {
            None
        } else {
            Some(BackendError::BackendClosed { close })
        },
        _ => None,
    }
}

pub open spec fn is_ready_payload(event: BackendEventEnvelope) -> bool {
    event.payload matches BackendEventPayload::Lifecycle(BackendLifecyclePayload::Ready { .. })
}

impl SessionOutcome {
    pub open spec fn open() -> SessionOutcome {
        SessionOutcome { ready: None, terminal: None }
    }

    pub fn new() -> (outcome: Self)
        ensures
            outcome == Self::open(),
    {
        SessionOutcome { ready: None, terminal: None }
    }

    /// The first terminal error counts.
    pub open spec fn ended(self, error: BackendError) -> SessionOutcome {
        if self.terminal is None {
            SessionOutcome { terminal: Some(error), ..self }
        } else {
            self
        }
    }

    /// The first readiness counts; a bad one is also the end of the run.
    pub open spec fn readied(self, ready: Result<BackendReady, BackendError>) -> SessionOutcome {
        if self.ready is Some {
            self
        } else {
            SessionOutcome {
                ready: Some(ready),
                terminal: match ready {
                    Err(error) => Some(error),
                    Ok(_) => self.terminal,
                },
            }
        }
    }

    /// The outcome after an event, given what a ready event amounts to.
    pub open spec fn observed(
        self,
        event: BackendEventEnvelope,
        ready: Result<BackendReady, BackendError>,
    ) -> SessionOutcome {
        if is_ready_payload(event) {
            self.readied(ready)
        } else if event.terminal() {
            if self.ready is None {
                self.ended(BackendError::NotReady { state: Readiness::Stopped })
            } else {
                self
            }
        } else {
            match terminal_error(event) {
                Some(error) => self.ended(error),
                None => self,
            }
        }
    }

    /// Records how the run ended, unless that is known.
    pub fn record_terminal(&mut self, error: BackendError)
        ensures
            *final(self) == old(self).ended(error),
    {
        if self.terminal.is_none() {
            self.terminal = Some(error);
        }
    }

    /// Takes notice of an event of the run, given the published snapshot and what
    /// the check of its axes says.
    pub fn observe_event(
        &mut self,
        event: &BackendEventEnvelope,
        raw: &Option<Arc<MinecraftSnapshotV1>>,
        axes: Result<(), BackendError>,
    )
        ensures
            exists|ready: Result<BackendReady, BackendError>|
                readiness(*event, *raw, axes, ready) && *final(self) == #[trigger] old(self).observed(
                    *event,
                    ready,
                ),
    {
        let ready = ready_from_event(event, raw, axes);
        let ghost found = ready;
        match &event.payload {
            BackendEventPayload::Lifecycle(payload) => match payload {
                BackendLifecyclePayload::Ready { .. } => {
                    if self.ready.is_none() {
                        if let Err(error) = &ready {
                            self.terminal = Some(error.clone());
                        }
                        self.ready = Some(ready);
                    }
                },
                BackendLifecyclePayload::Faulted { failure } => {
                    self.record_terminal(
                        BackendError::BackendFailure { failure: failure.clone() },
                    );
                },
                BackendLifecyclePayload::ConnectionClosed { close } => {
                    if !close.retryable {
                        self.record_terminal(BackendError::BackendClosed { close: close.clone() });
                    }
                },
                BackendLifecyclePayload::Stopped { .. } => {
                    if self.ready.is_none() {
                        self.record_terminal(
                            BackendError::NotReady { state: Readiness::Stopped },
                        );
                    }
                },
                _ => {},
            },
            _ => {},
        }
        assert(*self == old(self).observed(*event, found));
    }

    /// What a start amounts to so far: readiness counts before a later end.
    pub open spec fn start(self) -> Option<Result<BackendReady, BackendError>> {
        match self.ready {
            Some(ready) => Some(ready),
            None => match self.terminal {
                Some(error) => Some(Err(error)),
                None => None,
            },
        }
    }

    /// What a start amounts to so far.
    pub fn start_result(&self) -> (result: Option<Result<BackendReady, BackendError>>)
        ensures
            result == self.start(),
    {
        match &self.ready {
            Some(Ok(ready)) => Some(Ok(ready.clone())),
            Some(Err(error)) => Some(Err(error.clone())),
            None => match &self.terminal {
                Some(error) => Some(Err(error.clone())),
                None => None,
            },
        }
    }
}

/// Once a start has a result, no later event changes it.
pub proof fn law_a_start_has_one_result(
    outcome: SessionOutcome,
    event: BackendEventEnvelope,
    ready: Result<BackendReady, BackendError>,
)
    requires
        outcome.ready is Some,
    ensures
        outcome.observed(event, ready).start() == outcome.start(),
{
}

/// A run that stops before it is ready ends its pending start, and not as a close.
pub proof fn law_an_early_stop_ends_the_start(
    event: BackendEventEnvelope,
    ready: Result<BackendReady, BackendError>,
)
    requires
        event.terminal(),
    ensures
        SessionOutcome::open().observed(event, ready).start() == Some(
            Err::<BackendReady, BackendError>(
                BackendError::NotReady { state: Readiness::Stopped },
            ),
        ),
{
}

/// The end of a run is what ended it first.
pub proof fn law_the_first_end_counts(
    outcome: SessionOutcome,
    event: BackendEventEnvelope,
    ready: Result<BackendReady, BackendError>,
)
    requires
        outcome.terminal is Some,
        !(is_ready_payload(event) && outcome.ready is None && ready is Err),
    ensures
        outcome.observed(event, ready).terminal == outcome.terminal,
{
}

/// The thread that carries a run.
#[derive(Clone, Copy, Debug, PartialEq, Eq, Structural)]
pub struct WorkerStatus {
    pub launched: bool,
    pub done: bool,
    pub joined: bool,
}

/// A run, as a value.
pub ghost struct SessionView {
    pub id: u64,
    pub runtime: RuntimeView,
    pub outcome: SessionOutcome,
    pub worker: WorkerStatus,
    /// Whether waiting for room in the bridge is over.
    pub stop_cancel: bool,
}

/// A run and what came of it.
pub struct RuntimeSession {
    pub id: u64,
    pub handle: RuntimeHandle,
    pub outcome: SessionOutcome,
    pub worker: WorkerStatus,
    pub stop_cancel: bool,
}

impl View for RuntimeSession {
    type V = SessionView;

    open spec fn view(&self) -> SessionView {
        SessionView {
            id: self.id,
            runtime: self.handle.shared@,
            outcome: self.outcome,
            worker: self.worker,
            stop_cancel: self.stop_cancel,
        }
    }
}

/// The name of a state.
pub open spec fn state_readiness(state: BackendState) -> Readiness {
    match state {
        BackendState::Idle => Readiness::Idle,
        BackendState::Connecting { .. } => Readiness::Connecting,
        BackendState::LoggingIn { .. } => Readiness::LoggingIn,
        BackendState::Spawning { .. } => Readiness::Spawning,
        BackendState::Ready { .. } => Readiness::Ready,
        BackendState::Dead { .. } => Readiness::Dead,
        BackendState::Reconnecting { .. } => Readiness::Reconnecting,
        BackendState::Stopping { .. } => Readiness::Stopping,
        BackendState::Stopped { .. } => Readiness::Stopped,
        BackendState::Faulted { .. } => Readiness::Faulted,
    }
}

/// The name of a state.
pub fn state_name(state: &BackendState) -> (name: Readiness)
    ensures
        name == state_readiness(*state),
{
    match state {
        BackendState::Idle => Readiness::Idle,
        BackendState::Connecting { .. } => Readiness::Connecting,
        BackendState::LoggingIn { .. } => Readiness::LoggingIn,
        BackendState::Spawning { .. } => Readiness::Spawning,
        BackendState::Ready { .. } => Readiness::Ready,
        BackendState::Dead { .. } => Readiness::Dead,
        BackendState::Reconnecting { .. } => Readiness::Reconnecting,
        BackendState::Stopping { .. } => Readiness::Stopping,
        BackendState::Stopped { .. } => Readiness::Stopped,
        BackendState::Faulted { .. } => Readiness::Faulted,
    }
}

/// The error of an operation that the state does not allow.
pub open spec fn state_error(state: BackendState) -> BackendError {
    match state {
        BackendState::Faulted { failure } => BackendError::BackendFailure { failure },
        _ => BackendError::NotReady { state: state_readiness(state) },
    }
}

/// The error of an operation that the state does not allow.
pub fn state_error_for(state: &BackendState) -> (error: BackendError)
    ensures
        error == state_error(*state),
{
    match state {
        BackendState::Faulted { failure } => BackendError::BackendFailure {
            failure: failure.clone(),
        },
        _ => BackendError::NotReady { state: state_name(state) },
    }
}

impl SessionView {
    pub open spec fn fresh(id: u64, config: RunConfig, process_session_id: String, seed: u64) -> SessionView {
        SessionView {
            id,
            runtime: RuntimeView::initial(config, process_session_id, seed),
            outcome: SessionOutcome::open(),
            worker: WorkerStatus { launched: false, done: false, joined: false },
            stop_cancel: false,
        }
    }

    pub open spec fn state(self) -> BackendState {
        self.runtime.connection.state
    }

    /// The error of an operation that this run does not allow: a stopped run
    /// answers with what ended it.
    pub open spec fn error(self) -> BackendError {
        if self.state() is Stopped && self.outcome.terminal is Some {
            self.outcome.terminal->0
        } else {
            state_error(self.state())
        }
    }

    /// The error of a command that the runtime did not take.
    pub open spec fn command_error(
        self,
        operation: PublicOperation,
        error: CommandError,
    ) -> BackendError {
        match self.state() {
            BackendState::Faulted { failure } => BackendError::BackendFailure { failure },
            BackendState::Stopped { .. } => self.error(),
            BackendState::Stopping { .. } => self.error(),
            _ => BackendError::BackendFailure {
                failure: BackendFailure {
                    code: BackendFailureCode::ProtocolError,
                    message: FailureMessage::Refused { operation, error },
                    retryable: true,
                },
            },
        }
    }

    /// Nothing of the run is left but its thread: the runtime has stopped and
    /// its worker is done. Whether anyone has seen the last event is no matter.
    pub open spec fn released(self) -> bool {
        self.state() is Stopped && self.worker.done
    }
}

impl RuntimeSession {
    pub fn new(id: u64, config: RunConfig, process_session_id: String, seed: u64) -> (session: Self)
        ensures
            session@ == SessionView::fresh(id, config, process_session_id, seed),
            session@.runtime.wf(),
    {
        RuntimeSession {
            id,
            handle: RuntimeHandle::new(config, process_session_id, seed),
            outcome: SessionOutcome::new(),
            worker: WorkerStatus { launched: false, done: false, joined: false },
            stop_cancel: false,
        }
    }

    /// Tells whether a snapshot is published.
    pub fn has_snapshot(&self) -> (r: bool)
        ensures
            r == (self@.runtime.observation.snapshot is Some),
    {
        self.handle.shared.observation.snapshot.is_some()
    }

    /// The error of an operation that this run does not allow.
    pub fn session_error_for(&self) -> (error: BackendError)
        ensures
            error == self@.error(),
    {
        let state = self.handle.state();
        match &state {
            BackendState::Stopped { .. } => match &self.outcome.terminal {
                Some(error) => error.clone(),
                None => state_error_for(&state),
            },
            _ => state_error_for(&state),
        }
    }

    /// The error of a command that the runtime did not take.
    pub fn map_runtime_command_error(&self, operation: PublicOperation, error: CommandError) -> (r:
        BackendError)
        ensures
            r == self@.command_error(operation, error),
    {
        match self.handle.state() {
            BackendState::Faulted { failure } => BackendError::BackendFailure { failure },
            BackendState::Stopped { .. } => self.session_error_for(),
            BackendState::Stopping { .. } => self.session_error_for(),
            _ => BackendError::BackendFailure {
                failure: BackendFailure {
                    code: BackendFailureCode::ProtocolError,
                    message: FailureMessage::Refused { operation, error },
                    retryable: true,
                },
            },
        }
    }

    /// Tells whether only the thread of the run is left to be joined.
    pub fn stop_resources_released(&self) -> (r: bool)
        ensures
            r == self@.released(),
    {
        let stopped = match self.handle.state() {
            BackendState::Stopped { .. } => true,
            _ => false,
        };
        stopped && self.worker.done
    }

    /// Takes notice of an event of the run, given what the check of the published
    /// snapshot's axes says.
    pub fn observe_event(&mut self, event: &BackendEventEnvelope, axes: Result<(), BackendError>)
        requires
            old(self)@.runtime.wf(),
        ensures
            exists|ready: Result<BackendReady, BackendError>|
                readiness(*event, old(self)@.runtime.observation.snapshot, axes, ready)
                    && final(self)@.outcome == #[trigger] old(self)@.outcome.observed(
                    *event,
                    ready,
                ),
            final(self)@ == (SessionView { outcome: final(self)@.outcome, ..old(self)@ }),
    {
        let raw = self.handle.snapshot();
        self.outcome.observe_event(event, &raw, axes);
    }

    /// The worker has been started.
    pub fn mark_launched(&mut self)
        ensures
            final(self)@ == (SessionView {
                worker: WorkerStatus { launched: true, ..old(self)@.worker },
                ..old(self)@
            }),
    {
        self.worker.launched = true;
    }

    /// The worker has nothing left to do.
    pub fn mark_worker_done(&mut self)
        ensures
            final(self)@ == (SessionView {
                worker: WorkerStatus { done: true, ..old(self)@.worker },
                ..old(self)@
            }),
    {
        self.worker.done = true;
    }

    /// The worker's thread is gone.
    pub fn mark_joined(&mut self)
        ensures
            final(self)@ == (SessionView {
                worker: WorkerStatus { joined: true, ..old(self)@.worker },
                ..old(self)@
            }),
    {
        self.worker.joined = true;
    }
}

/// A stopped run keeps its reason: whoever asks later is told what ended it.
pub proof fn law_stopped_runs_tell_what_ended_them(session: SessionView, error: BackendError)
    requires
        session.state() is Stopped,
        session.outcome.terminal == Some(error),
    ensures
        session.error() == error,
{
}

/// How a task that runs the runtime ended.
#[derive(Debug, PartialEq, Eq)]
pub enum RunEnd {
    /// The task itself broke down.
    TaskFailed(String),
    /// The run ended with an error.
    Failed(String),
    Finished,
}

/// The error of a run that ended, if it ended badly. A run that never left its
/// first state was no run.
pub open spec fn run_error(end: RunEnd, state: BackendState) -> Option<BackendError> {
    match end {
        RunEnd::TaskFailed(error) => Some(
            protocol_failure(FailureMessage::RuntimeTaskFailed(error)),
        ),
        RunEnd::Failed(error) => Some(protocol_failure(FailureMessage::RuntimeExited(error))),
        RunEnd::Finished => if state is Idle {
            Some(protocol_failure(FailureMessage::RuntimeExitedEarly))
        } else {
            None
        },
    }
}

/// The error of a run that ended, if it ended badly.
pub fn run_failure(end: RunEnd, state: &BackendState) -> (error: Option<BackendError>)
    ensures
        error == run_error(end, *state),
{
    match end {
        RunEnd::TaskFailed(error) => Some(
            protocol_error(FailureMessage::RuntimeTaskFailed(error)),
        ),
        RunEnd::Failed(error) => Some(protocol_error(FailureMessage::RuntimeExited(error))),
        RunEnd::Finished => match state {
            BackendState::Idle => Some(protocol_error(FailureMessage::RuntimeExitedEarly)),
            _ => None,
        },
    }
}

/// How far the worker of a run has come.
#[derive(Clone, Copy, Debug, PartialEq, Eq, Structural)]
pub struct WorkerProgress {
    pub run_finished: bool,
    pub run_failed: bool,
    pub stopped_seen: bool,
}

impl WorkerProgress {
    /// The progress of a worker that has just begun.
    pub open spec fn begun() -> WorkerProgress {
        WorkerProgress { run_finished: false, run_failed: false, stopped_seen: false }
    }

    pub fn new() -> (progress: Self)
        ensures
            progress == WorkerProgress::begun(),
    {
        WorkerProgress { run_finished: false, run_failed: false, stopped_seen: false }
    }

    /// The worker is done once the run has ended and its last event was seen,
    /// or no such event will come.
    pub open spec fn done(self) -> bool {
        self.run_finished && (self.run_failed || self.stopped_seen)
    }

    /// Tells whether the worker is done.
    pub fn is_done(&self) -> (r: bool)
        ensures
            r == self.done(),
    {
        self.run_finished && (self.run_failed || self.stopped_seen)
    }

    /// The progress after an event, which may be the last.
    pub open spec fn relayed(self, stopped: bool) -> WorkerProgress {
        WorkerProgress { stopped_seen: self.stopped_seen || stopped, ..self }
    }

    /// The progress after the end of the run.
    pub open spec fn finished(self, failed: bool) -> WorkerProgress {
        WorkerProgress { run_finished: true, run_failed: self.run_failed || failed, ..self }
    }

    /// An event was relayed.
    pub fn saw_event(&mut self, stopped: bool)
        ensures
            *final(self) == old(self).relayed(stopped),
    {
        self.stopped_seen = self.stopped_seen || stopped;
    }

    /// The run ended.
    pub fn saw_end(&mut self, failed: bool)
        ensures
            *final(self) == old(self).finished(failed),
    {
        self.run_finished = true;
        self.run_failed = self.run_failed || failed;
    }
}

/// What woke someone who waits under an operation's control.
#[derive(Debug, PartialEq, Eq)]
pub enum ControlWake {
    Cancelled,
    DeadlineElapsed,
    /// What was waited for may have happened.
    Notified,
}

/// The error of an operation that its control interrupts.
pub open spec fn interruption(wake: ControlWake, operation: PublicOperation) -> Option<BackendError> {
    match wake {
        ControlWake::Cancelled => Some(
            BackendError::Cancelled { operation: Operation::Public(operation) },
        ),
        ControlWake::DeadlineElapsed => Some(
            BackendError::DeadlineExceeded { operation: Operation::Public(operation) },
        ),
        ControlWake::Notified => None,
    }
}

/// The error of an operation that its control interrupts.
pub fn interruption_of(wake: &ControlWake, operation: PublicOperation) -> (error: Option<
    BackendError,
>)
    ensures
        error == interruption(*wake, operation),
{
    match wake {
        ControlWake::Cancelled => Some(
            BackendError::Cancelled { operation: Operation::Public(operation) },
        ),
        ControlWake::DeadlineElapsed => Some(
            BackendError::DeadlineExceeded { operation: Operation::Public(operation) },
        ),
        ControlWake::Notified => None,
    }
}

/// What someone who waits for a start does next.
#[derive(Debug, PartialEq, Eq)]
pub enum StartWait {
    /// The start is over.
    Done(Result<BackendReady, BackendError>),
    /// The start is given up: the run is stopped.
    GivenUp(BackendError),
    Wait,
}

/// What a wait for a stop has come to.
#[derive(Debug, PartialEq, Eq)]
pub enum StopWait {
    /// The worker's thread can be joined.
    Join,
    GivenUp(BackendError),
    Wait,
}

impl RuntimeSession {
    /// The next step of someone who waits for a start. The control is asked first.
    pub fn start_step(&self, preflight: Result<(), BackendError>) -> (next: StartWait)
        ensures
            next == (match preflight {
                Err(error) => StartWait::GivenUp(error),
                Ok(()) => match self@.outcome.start() {
                    Some(result) => StartWait::Done(result),
                    None => StartWait::Wait,
                },
            }),
    {
        match preflight {
            Err(error) => StartWait::GivenUp(error),
            Ok(()) => match self.outcome.start_result() {
                Some(result) => StartWait::Done(result),
                None => StartWait::Wait,
            },
        }
    }

    /// The next step of someone who waits for a stop.
    pub fn stop_step(&self, preflight: Result<(), BackendError>) -> (next: StopWait)
        ensures
            next == (match preflight {
                Err(error) => StopWait::GivenUp(error),
                Ok(()) => if self@.released() {
                    StopWait::Join
                } else {
                    StopWait::Wait
                },
            }),
    {
        match preflight {
            Err(error) => StopWait::GivenUp(error),
            Ok(()) => if self.stop_resources_released() {
                StopWait::Join
            } else {
                StopWait::Wait
            },
        }
    }

    /// What someone who waits for a command does when woken: an interruption
    /// cancels the command, and is answered once the command has settled.
    pub fn interrupt_command(
        &mut self,
        completion: &CommandCompletion,
        wake: &ControlWake,
        operation: PublicOperation,
    ) -> (error: Option<BackendError>)
        requires
            old(self)@.runtime.wf(),
        ensures
            error == interruption(*wake, operation),
            final(self)@ == (SessionView {
                runtime: if error is Some {
                    old(self)@.runtime.completion_cancelled(
                        Some(completion.completion),
                        Operation::CancelledByCaller,
                        true,
                    )
                } else {
                    old(self)@.runtime
                },
                ..old(self)@
            }),
            final(self)@.runtime.wf(),
    {
        match interruption_of(wake, operation) {
            Some(error) => {
                completion.cancellation_handle().cancel(&mut self.handle.shared);
                Some(error)
            },
            None => None,
        }
    }
}

/// A ready event needs a snapshot that can be handed out and is of the event's own
/// session, epoch and attempt; what is wrong first is told.
pub proof fn law_what_readiness_needs(
    event: BackendEventEnvelope,
    raw: Option<Arc<MinecraftSnapshotV1>>,
    axes: Result<(), BackendError>,
)
    ensures
        raw is None ==> ready_error(event, raw, axes) == Some(
            BackendError::BackendFailure {
                failure: BackendFailure {
                    code: BackendFailureCode::ProtocolError,
                    message: FailureMessage::ReadyWithoutSnapshot,
                    retryable: false,
                },
            },
        ),
        raw matches Some(snapshot) ==> {
            let same = snapshot.process_session_id@ == event.process_session_id@
                && snapshot.connection_epoch == event.connection_epoch
                && snapshot.connection_attempt_id == event.connection_attempt_id;
            let refused = refused_snapshot(*snapshot, axes);
            &&& refused is Some ==> ready_error(event, raw, axes) == refused
            &&& refused is None && same ==> ready_error(event, raw, axes) is None
            &&& refused is None && !same ==> ready_error(event, raw, axes) == Some(
                BackendError::BackendFailure {
                    failure: BackendFailure {
                        code: BackendFailureCode::ProtocolError,
                        message: FailureMessage::ReadyIdentityMismatch,
                        retryable: false,
                    },
                },
            )
        },
{
}

/// A run that is ready is known by the session, the epoch and the attempt of its
/// event, and by the snapshot.
pub proof fn law_who_is_ready(
    event: BackendEventEnvelope,
    raw: Arc<MinecraftSnapshotV1>,
    axes: Result<(), BackendError>,
    ready: Result<BackendReady, BackendError>,
)
    requires
        readiness(event, Some(raw), axes, ready),
        ready_error(event, Some(raw), axes) is None,
    ensures
        ready matches Ok(run) && run.process_session_id == event.process_session_id
            && run.connection_epoch == event.connection_epoch && run.connection_attempt_id
            == event.connection_attempt_id && same_snapshot(*raw, *run.snapshot),
{
}

/// A run is ended by a failure, and by a close that is not worth a retry; by no
/// other event.
pub proof fn law_what_ends_a_run(event: BackendEventEnvelope)
    ensures
        match event.payload {
            BackendEventPayload::Lifecycle(BackendLifecyclePayload::Faulted { failure }) =>
            terminal_error(event) == Some(BackendError::BackendFailure { failure }),
            BackendEventPayload::Lifecycle(BackendLifecyclePayload::ConnectionClosed { close }) =>
            terminal_error(event) == (if close.retryable {
                None
            } else {
                Some(BackendError::BackendClosed { close })
            }),
            _ => terminal_error(event) is None,
        },
{
}

/// What a start comes to: readiness, if it came first; otherwise what ended the
/// run; nothing yet, if neither happened.
pub proof fn law_what_a_start_comes_to(outcome: SessionOutcome, error: BackendError)
    ensures
        outcome.ready matches Some(ready) ==> outcome.start() == Some(ready),
        outcome.ready is None && outcome.terminal == Some(error) ==> outcome.start() == Some(
            Err::<BackendReady, BackendError>(error),
        ),
        outcome.ready is None && outcome.terminal is None ==> outcome.start() is None,
        SessionOutcome::open().start() is None,
{
}

/// Events settle the outcome of a run: the first readiness, the first end, and a
/// stop that comes before readiness.
pub proof fn law_events_settle_the_outcome(
    outcome: SessionOutcome,
    event: BackendEventEnvelope,
    ready: Result<BackendReady, BackendError>,
)
    ensures
        ({
            let after = outcome.observed(event, ready);
            match event.payload {
                BackendEventPayload::Lifecycle(BackendLifecyclePayload::Ready { .. }) => {
                    &&& outcome.ready is None ==> after.ready == Some(ready)
                    &&& outcome.ready is None ==> after.terminal == (match ready {
                        Err(error) => Some(error),
                        Ok(_) => outcome.terminal,
                    })
                    &&& outcome.ready is Some ==> after == outcome
                },
                BackendEventPayload::Lifecycle(BackendLifecyclePayload::Faulted { failure }) => {
                    &&& after.ready == outcome.ready
                    &&& after.terminal == (if outcome.terminal is Some {
                        outcome.terminal
                    } else {
                        Some(BackendError::BackendFailure { failure })
                    })
                },
                BackendEventPayload::Lifecycle(BackendLifecyclePayload::ConnectionClosed { close },
                ) => {
                    &&& after.ready == outcome.ready
                    &&& after.terminal == (if outcome.terminal is Some || close.retryable {
                        outcome.terminal
                    } else {
                        Some(BackendError::BackendClosed { close })
                    })
                },
                BackendEventPayload::Lifecycle(BackendLifecyclePayload::Stopped { .. }) => {
                    &&& after.ready == outcome.ready
                    &&& after.terminal == (if outcome.terminal is Some || outcome.ready is Some {
                        outcome.terminal
                    } else {
                        Some(BackendError::NotReady { state: Readiness::Stopped })
                    })
                },
                _ => after == outcome,
            }
        }),
{
}

/// Every state is called by its own name.
pub proof fn law_states_have_their_names(state: BackendState)
    ensures
        state is Idle <==> state_readiness(state) is Idle,
        state is Connecting <==> state_readiness(state) is Connecting,
        state is LoggingIn <==> state_readiness(state) is LoggingIn,
        state is Spawning <==> state_readiness(state) is Spawning,
        state is Ready <==> state_readiness(state) is Ready,
        state is Dead <==> state_readiness(state) is Dead,
        state is Reconnecting <==> state_readiness(state) is Reconnecting,
        state is Stopping <==> state_readiness(state) is Stopping,
        state is Stopped <==> state_readiness(state) is Stopped,
        state is Faulted <==> state_readiness(state) is Faulted,
{
}

/// An operation that the state does not allow is told the state, or the failure
/// that it is; a stopped run tells what ended it.
pub proof fn law_refused_operations_are_told_why(session: SessionView, failure: BackendFailure)
    ensures
        session.runtime.connection.state == (BackendState::Faulted { failure }) ==> session.error()
            == (BackendError::BackendFailure { failure }),
        session.runtime.connection.state is Stopped && session.outcome.terminal is Some
            ==> session.error() == session.outcome.terminal->0,
        session.runtime.connection.state is Stopped && session.outcome.terminal is None
            ==> session.error() == (BackendError::NotReady { state: Readiness::Stopped }),
        !(session.runtime.connection.state is Faulted) && !(
        session.runtime.connection.state is Stopped) ==> session.error() == (
        BackendError::NotReady { state: state_readiness(session.runtime.connection.state) }),
{
}

/// A command that the runtime did not take fails the run's way if the run is over,
/// and otherwise says which operation was refused and why; that can be tried
/// again.
pub proof fn law_refused_commands_are_told_why(
    session: SessionView,
    operation: PublicOperation,
    error: CommandError,
)
    ensures
        ({
            let told = session.command_error(operation, error);
            match session.runtime.connection.state {
                BackendState::Faulted { failure } => told == (BackendError::BackendFailure {
                    failure,
                }),
                BackendState::Stopped { .. } => told == session.error(),
                BackendState::Stopping { .. } => told == (BackendError::NotReady {
                    state: Readiness::Stopping,
                }),
                _ => told == (BackendError::BackendFailure {
                    failure: BackendFailure {
                        code: BackendFailureCode::ProtocolError,
                        message: FailureMessage::Refused { operation, error },
                        retryable: true,
                    },
                }),
            }
        }),
{
}

/// A run is released exactly when it has stopped and its worker is done.
pub proof fn law_when_a_run_is_released(session: SessionView)
    ensures
        session.released() <==> session.runtime.connection.state is Stopped && session.worker.done,
{
}

/// A fresh run has done nothing, and nothing has come of it.
pub proof fn law_a_fresh_run_has_done_nothing(
    id: u64,
    config: RunConfig,
    process_session_id: String,
    seed: u64,
)
    ensures
        ({
            let fresh = SessionView::fresh(id, config, process_session_id, seed);
            &&& fresh.id == id
            &&& fresh.runtime == RuntimeView::initial(config, process_session_id, seed)
            &&& fresh.outcome.ready is None
            &&& fresh.outcome.terminal is None
            &&& !fresh.worker.launched
            &&& !fresh.worker.done
            &&& !fresh.worker.joined
            &&& !fresh.stop_cancel
        }),
{
}

/// A run that broke down or ended with an error failed, and so did one that ended
/// without ever having begun; nothing can be retried for it.
pub proof fn law_how_runs_fail(end: RunEnd, state: BackendState)
    ensures
        match end {
            RunEnd::TaskFailed(error) => run_error(end, state) == Some(
                BackendError::BackendFailure {
                    failure: BackendFailure {
                        code: BackendFailureCode::ProtocolError,
                        message: FailureMessage::RuntimeTaskFailed(error),
                        retryable: false,
                    },
                },
            ),
            RunEnd::Failed(error) => run_error(end, state) == Some(
                BackendError::BackendFailure {
                    failure: BackendFailure {
                        code: BackendFailureCode::ProtocolError,
                        message: FailureMessage::RuntimeExited(error),
                        retryable: false,
                    },
                },
            ),
            RunEnd::Finished => {
                &&& state is Idle ==> run_error(end, state) == Some(
                    BackendError::BackendFailure {
                        failure: BackendFailure {
                            code: BackendFailureCode::ProtocolError,
                            message: FailureMessage::RuntimeExitedEarly,
                            retryable: false,
                        },
                    },
                )
                &&& !(state is Idle) ==> run_error(end, state) is None
            },
        },
{
}

/// A worker is done once its run has ended, and its last event was seen or will
/// not come.
pub proof fn law_when_a_worker_is_done(progress: WorkerProgress)
    ensures
        progress.done() <==> progress.run_finished && (progress.run_failed
            || progress.stopped_seen),
{
}

/// Whoever is cancelled is told so, whoever is late is told so, and whoever is only
/// woken goes on.
pub proof fn law_interruptions_are_told(wake: ControlWake, operation: PublicOperation)
    ensures
        match wake {
            ControlWake::Cancelled => interruption(wake, operation) == Some(
                BackendError::Cancelled { operation: Operation::Public(operation) },
            ),
            ControlWake::DeadlineElapsed => interruption(wake, operation) == Some(
                BackendError::DeadlineExceeded { operation: Operation::Public(operation) },
            ),
            ControlWake::Notified => interruption(wake, operation) is None,
        },
{
}

/// A worker that has just begun is done once it has seen both the end of its run
/// and the last event, in either order; after a bad end it does not wait for the
/// event. What was seen stays seen.
pub proof fn law_a_worker_waits_for_both(progress: WorkerProgress, failed: bool, stopped: bool)
    ensures
        !WorkerProgress::begun().done(),
        !WorkerProgress::begun().relayed(stopped).done(),
        WorkerProgress::begun().finished(failed).done() <==> failed,
        progress.finished(failed).relayed(true).done(),
        progress.relayed(true).finished(failed).done(),
        progress.finished(true).done(),
        progress.done() ==> progress.relayed(stopped).done() && progress.finished(failed).done(),
        progress.relayed(false) == progress,
        !progress.run_finished ==> !progress.relayed(stopped).done(),
{
}

} // verus!
