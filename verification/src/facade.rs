//! The backend as its callers see it: one run at a time, its events in order,
//! and handles that are refused once they are out of date.

use std::sync::Arc;

use vstd::prelude::*;

use crate::bridge::{BridgeAdmission, BridgeView, EventBridge, ListenerStatus};
use crate::command::{is_single_line, single_line, BackendCommand, MotorDirection};
use crate::config::{BackendTimeouts, ReconnectPolicy, RunConfig};
use crate::conversion::{
    convert_frame_facts, convert_snapshot, refused_snapshot, same_snapshot,
    MinecraftFrameFacts, PublicSnapshot,
};
use crate::contract::{
    BackendError, BackendEventEnvelope, BackendState, Complaint, PublicOperation, Readiness,
    RequestField, StopReason,
};
use crate::handle::{CommandCompletion, RuntimeEventReceiver};
use crate::lanes::{successor, LanePending};
use crate::number::Single;
use crate::entity_events::NormalizedEntitySnapshot;
use crate::observation::{entities_error, RuntimeObservationSource, WorldRead};
use crate::session::{readiness, BackendReady, RuntimeSession, SessionView, WorkerStatus};
use crate::snapshot::{block_at, BlockPosition, BlockReadResult, PoseSnapshot};
use crate::state::next_number;
use crate::time::UtcInstant;

verus! {

/// The server to connect to.
#[derive(Debug, PartialEq, Eq)]
pub struct ServerConfig {
    pub host: String,
    pub port: u16,
}

/// Who the bot is.
#[derive(Debug, PartialEq, Eq)]
pub struct IdentityConfig {
    pub username: String,
}

/// The configuration of the backend.
#[derive(Debug, PartialEq, Eq)]
pub struct MinecraftBackendConfig {
    pub server: ServerConfig,
    pub identity: IdentityConfig,
    pub world_id: String,
    pub timeouts: BackendTimeouts,
    pub reconnect: ReconnectPolicy,
}

/// The duration of a run that does not stop by itself, in milliseconds.
pub const UNLIMITED_DURATION_MS: u64 = 86_400_000;

/// The configuration of a run: it stops only when told to, and keeps its events
/// inside the process.
pub open spec fn production_config(config: MinecraftBackendConfig) -> RunConfig {
    RunConfig {
        host: config.server.host,
        port: config.server.port,
        username: config.identity.username,
        world_id: config.world_id,
        duration_ms: UNLIMITED_DURATION_MS,
        timeouts: config.timeouts,
        reconnect: config.reconnect,
        auto_stop: false,
        emit_stdout: false,
        initial_chat: None,
    }
}

/// The configuration of a run.
pub fn run_config(config: &MinecraftBackendConfig) -> (run: RunConfig)
    ensures
        run == production_config(*config),
{
    RunConfig {
        host: config.server.host.clone(),
        port: config.server.port,
        username: config.identity.username.clone(),
        world_id: config.world_id.clone(),
        duration_ms: UNLIMITED_DURATION_MS,
        timeouts: config.timeouts,
        reconnect: config.reconnect,
        auto_stop: false,
        emit_stdout: false,
        initial_chat: None,
    }
}

/// One public listener.
#[derive(Clone, Copy, Debug, PartialEq, Eq, Structural)]
pub struct FacadeListener {
    pub id: u64,
    pub status: ListenerStatus,
}

/// A handle on the motor of one connection.
#[derive(Clone, Copy, Debug, PartialEq, Eq, Structural)]
pub struct FacadeMotor {
    pub session_id: u64,
    pub bound_epoch: u64,
}

/// A reader of the observations of one connection.
#[derive(Clone, Copy, Debug, PartialEq, Eq, Structural)]
pub struct FacadeObservationSource {
    pub session_id: u64,
    pub bound_epoch: u64,
}

/// What a stop finds.
#[derive(Clone, Copy, Debug, PartialEq, Eq, Structural)]
pub enum StopAdmission {
    /// There was no run: one was made and stopped without being started. Its
    /// events are still to be relayed.
    Idle { session_id: u64, events: RuntimeEventReceiver },
    /// The run has no worker yet: it is launched before the stop is asked for.
    Launch { session_id: u64 },
    /// The run is under way.
    Running { session_id: u64 },
}

/// What became of the next event of a run.
#[derive(Debug, PartialEq, Eq)]
pub enum Relay {
    /// There was none.
    Nothing,
    Relayed {
        /// Whether it was the last event of the run.
        stopped: bool,
        /// Where it stands in the bridge, unless the bridge is out of use.
        bridged: Option<(LanePending, BridgeAdmission)>,
    },
}

/// The backend as a value.
pub ghost struct FacadeView {
    pub config: MinecraftBackendConfig,
    pub session: Option<SessionView>,
    pub next_session_id: u64,
    pub listeners: Seq<FacadeListener>,
    pub next_subscription_id: u64,
    pub bridge: BridgeView,
    pub closed: bool,
}

impl FacadeView {
    pub open spec fn wf(self) -> bool {
        &&& self.bridge.lanes.bounded()
        &&& (self.session matches Some(session) ==> session.runtime.wf())
    }

    pub open spec fn initial(config: MinecraftBackendConfig) -> FacadeView {
        FacadeView {
            config,
            session: None,
            next_session_id: 0,
            listeners: Seq::empty(),
            next_subscription_id: 0,
            bridge: BridgeView::empty(),
            closed: false,
        }
    }

    pub open spec fn state(self) -> BackendState {
        match self.session {
            Some(session) => session.state(),
            None => BackendState::Idle,
        }
    }

    /// Why an operation is refused, if it is. Observations can be read of a
    /// player who is dead, too; actions need a living one.
    pub open spec fn refusal(self, allow_dead: bool) -> Option<BackendError> {
        match self.session {
            None => Some(BackendError::NotReady { state: Readiness::Idle }),
            Some(session) => if !(session.state() is Ready || (allow_dead
                && session.state() is Dead)) {
                Some(session.error())
            } else if session.runtime.observation.snapshot is None {
                Some(BackendError::NotReady { state: Readiness::SnapshotUnavailable })
            } else {
                None
            },
        }
    }

    /// Why a handle is refused, if it is: it is out of date, or the player is
    /// not in the world. A reader also serves while the player is dead.
    pub open spec fn bound_refusal(
        self,
        session_id: u64,
        bound_epoch: u64,
        allow_dead: bool,
    ) -> Option<BackendError> {
        let current_epoch = match self.session {
            Some(session) => session.runtime.epoch(),
            None => 0,
        };
        if self.session is None || self.session->0.id != session_id || current_epoch
            != bound_epoch {
            Some(BackendError::StaleEpoch { bound_epoch, current_epoch })
        } else if !(self.session->0.state() is Ready || (allow_dead
            && self.session->0.state() is Dead)) {
            Some(self.session->0.error())
        } else {
            None
        }
    }

    /// Why a read of observations is refused, if it is.
    pub open spec fn source_refusal(self, source: FacadeObservationSource) -> Option<BackendError> {
        match self.bound_refusal(source.session_id, source.bound_epoch, true) {
            Some(error) => Some(error),
            None => if self.session->0.runtime.observation.snapshot is None {
                Some(BackendError::NotReady { state: Readiness::SnapshotUnavailable })
            } else {
                None
            },
        }
    }

    pub open spec fn with_session(self, session: SessionView) -> FacadeView {
        FacadeView { session: Some(session), ..self }
    }

    /// A run that nothing has begun yet.
    pub open spec fn session_made(self, process_session_id: String, seed: u64) -> FacadeView {
        let id = successor(self.next_session_id);
        FacadeView {
            session: Some(
                SessionView::fresh(id, production_config(self.config), process_session_id, seed),
            ),
            next_session_id: id,
            ..self
        }
    }

    /// The run is told to stop, and nobody waits for room any more.
    pub open spec fn stop_asked(self, reason: StopReason, at: UtcInstant) -> FacadeView {
        match self.session {
            Some(session) => self.with_session(
                SessionView {
                    runtime: session.runtime.stopped_by(reason, at),
                    stop_cancel: true,
                    ..session
                },
            ),
            None => self,
        }
    }

    /// A run that is stopped before it was ever started.
    pub open spec fn idle_stopped(
        self,
        reason: StopReason,
        process_session_id: String,
        seed: u64,
        at: UtcInstant,
    ) -> FacadeView {
        let made = self.session_made(process_session_id, seed);
        let session = made.session->0;
        made.with_session(
            SessionView {
                runtime: session.runtime.subscribed().stopped_by(reason, at),
                worker: WorkerStatus { done: true, joined: true, ..session.worker },
                ..session
            },
        )
    }

    /// Nobody waits for room on behalf of this run.
    pub open spec fn routing_cancelled(self, session_id: u64) -> bool {
        self.session matches Some(session) && session.id == session_id && session.stop_cancel
    }

    pub open spec fn routed(self, session_id: u64, event: Arc<BackendEventEnvelope>) -> FacadeView {
        if self.closed {
            self
        } else {
            FacadeView {
                bridge: self.bridge.ticketed().offered(
                    self.bridge.place(session_id, event),
                    self.routing_cancelled(session_id),
                ),
                ..self
            }
        }
    }

    pub open spec fn routing(self, session_id: u64, event: Arc<BackendEventEnvelope>) -> Option<
        (LanePending, BridgeAdmission),
    > {
        if self.closed {
            None
        } else {
            let place = self.bridge.place(session_id, event);
            Some(
                (
                    place,
                    self.bridge.ticketed().admission(place, self.routing_cancelled(session_id)),
                ),
            )
        }
    }

    pub open spec fn shut(self, reason: StopReason, at: UtcInstant) -> FacadeView {
        FacadeView {
            closed: true,
            bridge: BridgeView { closed: true, ..self.bridge },
            ..self.stop_asked(reason, at)
        }
    }
}

/// The listeners after each was asked for a callback.
pub open spec fn all_reserved(listeners: Seq<FacadeListener>) -> Seq<FacadeListener> {
    listeners.map_values(
        |l: FacadeListener| FacadeListener { status: l.status.reserved(), ..l },
    )
}

/// The listeners that get a callback, in the order of their subscription.
pub open spec fn reserved_ids(listeners: Seq<FacadeListener>) -> Seq<u64>
    decreases listeners.len(),
{
    if listeners.len() == 0 {
        Seq::empty()
    } else {
        let rest = reserved_ids(listeners.drop_last());
        if listeners.last().status.reservable() {
            rest.push(listeners.last().id)
        } else {
            rest
        }
    }
}

/// The place of a listener from one place on; past the end, if it is not there.
pub open spec fn listener_from(listeners: Seq<FacadeListener>, id: u64, from: int) -> int
    decreases listeners.len() - from,
{
    if from >= listeners.len() {
        listeners.len() as int
    } else if listeners[from].id == id {
        from
    } else {
        listener_from(listeners, id, from + 1)
    }
}

/// The place of a listener; past the end, if it is not there.
pub open spec fn listener_at(listeners: Seq<FacadeListener>, id: u64) -> int {
    listener_from(listeners, id, 0)
}

/// The listeners with a new status of one.
pub open spec fn with_listener(
    listeners: Seq<FacadeListener>,
    id: u64,
    status: ListenerStatus,
) -> Seq<FacadeListener> {
    let at = listener_at(listeners, id);
    if at < listeners.len() {
        listeners.update(at, FacadeListener { id, status })
    } else {
        listeners
    }
}

/// The backend: its run, its listeners and the bridge between them.
pub struct MinecraftBackendFacade {
    pub config: MinecraftBackendConfig,
    pub session: Option<RuntimeSession>,
    pub next_session_id: u64,
    pub listeners: Vec<FacadeListener>,
    pub next_subscription_id: u64,
    pub bridge: EventBridge,
    pub closed: bool,
}

/// The run as a value, if there is one.
pub open spec fn session_view(session: Option<RuntimeSession>) -> Option<SessionView> {
    match session {
        Some(session) => Some(session@),
        None => None,
    }
}

impl View for MinecraftBackendFacade {
    type V = FacadeView;

    open spec fn view(&self) -> FacadeView {
        FacadeView {
            config: self.config,
            session: session_view(self.session),
            next_session_id: self.next_session_id,
            listeners: self.listeners@,
            next_subscription_id: self.next_subscription_id,
            bridge: self.bridge@,
            closed: self.closed,
        }
    }
}

fn find_listener(listeners: &Vec<FacadeListener>, id: u64) -> (at: usize)
    ensures
        at == listener_at(listeners@, id),
        at <= listeners@.len(),
        at < listeners@.len() ==> listeners@[at as int].id == id,
{
    let mut i: usize = 0;
    while i < listeners.len()
        invariant
            i <= listeners@.len(),
            listener_at(listeners@, id) == listener_from(listeners@, id, i as int),
        decreases listeners@.len() - i,
    {
        if listeners[i].id == id {
            return i;
        }
        i = i + 1;
    }
    i
}

impl MinecraftBackendFacade {
    /// A backend without a run. It takes its configuration as it came out of
    /// validation, with the values filled in that were left open; one that was
    /// refused there makes no backend.
    pub fn new(validated: Result<MinecraftBackendConfig, BackendError>) -> (r: Result<
        Self,
        BackendError,
    >)
        ensures
            match validated {
                Ok(config) => r is Ok && (r->Ok_0)@ == FacadeView::initial(config)
                    && (r->Ok_0)@.wf(),
                Err(error) => r == Err::<Self, BackendError>(error),
            },
    {
        match validated {
            Ok(config) => Ok(
                MinecraftBackendFacade {
                    config,
                    session: None,
                    next_session_id: 0,
                    listeners: Vec::new(),
                    next_subscription_id: 0,
                    bridge: EventBridge::new(),
                    closed: false,
                },
            ),
            Err(error) => Err(error),
        }
    }

    /// The state of the run; without one, the backend is idle.
    pub fn state(&self) -> (state: BackendState)
        ensures
            state == self@.state(),
    {
        match &self.session {
            Some(session) => session.handle.state(),
            None => BackendState::Idle,
        }
    }

    fn ensure_admitted(&self, allow_dead: bool) -> (refused: Option<BackendError>)
        ensures
            refused == self@.refusal(allow_dead),
    {
        match &self.session {
            None => Some(BackendError::NotReady { state: Readiness::Idle }),
            Some(session) => {
                let admitted = match session.handle.state() {
                    BackendState::Ready { .. } => true,
                    BackendState::Dead { .. } => allow_dead,
                    _ => false,
                };
                if !admitted {
                    return Some(session.session_error_for());
                }
                if !session.has_snapshot() {
                    return Some(
                        BackendError::NotReady { state: Readiness::SnapshotUnavailable },
                    );
                }
                None
            },
        }
    }

    fn ensure_bound(&self, session_id: u64, bound_epoch: u64, allow_dead: bool) -> (refused: Option<
        BackendError,
    >)
        ensures
            refused == self@.bound_refusal(session_id, bound_epoch, allow_dead),
    {
        match &self.session {
            None => Some(BackendError::StaleEpoch { bound_epoch, current_epoch: 0 }),
            Some(session) => {
                let current_epoch: u64 = session.handle.connection_epoch();
                if session.id != session_id || current_epoch != bound_epoch {
                    return Some(BackendError::StaleEpoch { bound_epoch, current_epoch });
                }
                let admitted = match session.handle.state() {
                    BackendState::Ready { .. } => true,
                    BackendState::Dead { .. } => allow_dead,
                    _ => false,
                };
                if admitted {
                    None
                } else {
                    Some(session.session_error_for())
                }
            },
        }
    }

    fn ensure_bound_ready(&self, session_id: u64, bound_epoch: u64) -> (refused: Option<
        BackendError,
    >)
        ensures
            refused == self@.bound_refusal(session_id, bound_epoch, false),
    {
        self.ensure_bound(session_id, bound_epoch, false)
    }

    /// Tells why a read of observations is refused, if it is.
    pub fn ensure_source_snapshot(&self, source: FacadeObservationSource) -> (refused: Option<
        BackendError,
    >)
        ensures
            refused == self@.source_refusal(source),
    {
        match self.ensure_bound(source.session_id, source.bound_epoch, true) {
            Some(error) => Some(error),
            None => match &self.session {
                Some(session) => if session.has_snapshot() {
                    None
                } else {
                    Some(BackendError::NotReady { state: Readiness::SnapshotUnavailable })
                },
                None => None,
            },
        }
    }

    /// The published snapshot, as callers get it, given what the check of its
    /// axes says.
    pub fn snapshot(&self, axes: Result<(), BackendError>) -> (r: Result<
        PublicSnapshot,
        BackendError,
    >)
        ensures
            match self@.refusal(true) {
                Some(error) => r == Err::<PublicSnapshot, BackendError>(error),
                None => {
                    let raw = *(self@.session->0.runtime.observation.snapshot->0);
                    match refused_snapshot(raw, axes) {
                        Some(error) => r == Err::<PublicSnapshot, BackendError>(error),
                        None => r is Ok && same_snapshot(raw, r->Ok_0),
                    }
                },
            },
    {
        if let Some(error) = self.ensure_admitted(true) {
            return Err(error);
        }
        match &self.session {
            Some(session) => match session.handle.snapshot() {
                Some(raw) => convert_snapshot(&raw, axes),
                None => Err(
                    BackendError::NotReady { state: Readiness::SnapshotUnavailable },
                ),
            },
            None => Err(BackendError::NotReady { state: Readiness::Idle }),
        }
    }

    /// Snapshot, armor and light of one frame, as callers get them, given what
    /// the check of the snapshot's axes says.
    pub fn capture_frame_facts(&self, axes: Result<(), BackendError>) -> (r: Result<
        MinecraftFrameFacts,
        BackendError,
    >)
        ensures
            match self@.refusal(true) {
                Some(error) => r == Err::<MinecraftFrameFacts, BackendError>(error),
                None => {
                    let raw = self@.session->0.runtime.observation.frame_facts()->0;
                    match refused_snapshot(*raw.snapshot, axes) {
                        Some(error) => r == Err::<MinecraftFrameFacts, BackendError>(error),
                        None => r is Ok && same_snapshot(*raw.snapshot, *r->Ok_0.snapshot)
                            && r->Ok_0.armor == raw.armor && r->Ok_0.light == raw.light,
                    }
                },
            },
    {
        if let Some(error) = self.ensure_admitted(true) {
            return Err(error);
        }
        match &self.session {
            Some(session) => match session.handle.capture_frame_facts() {
                Some(raw) => convert_frame_facts(&raw, axes),
                None => Err(
                    BackendError::NotReady { state: Readiness::FrameFactsUnavailable },
                ),
            },
            None => Err(BackendError::NotReady { state: Readiness::Idle }),
        }
    }

    /// A reader of the observations of the current connection.
    pub fn observation_source(&self) -> (r: Result<FacadeObservationSource, BackendError>)
        ensures
            r == (match self@.refusal(true) {
                Some(error) => Err(error),
                None => Ok(
                    FacadeObservationSource {
                        session_id: self@.session->0.id,
                        bound_epoch: self@.session->0.runtime.epoch(),
                    },
                ),
            }),
    {
        if let Some(error) = self.ensure_admitted(true) {
            return Err(error);
        }
        match &self.session {
            Some(session) => Ok(
                FacadeObservationSource {
                    session_id: session.id,
                    bound_epoch: session.handle.connection_epoch(),
                },
            ),
            None => Err(BackendError::NotReady { state: Readiness::Idle }),
        }
    }

    /// A handle on the motor of the current connection.
    pub fn motor(&self) -> (r: Result<FacadeMotor, BackendError>)
        ensures
            r == (match self@.refusal(false) {
                Some(error) => Err(error),
                None => Ok(
                    FacadeMotor {
                        session_id: self@.session->0.id,
                        bound_epoch: self@.session->0.runtime.epoch(),
                    },
                ),
            }),
    {
        if let Some(error) = self.ensure_admitted(false) {
            return Err(error);
        }
        match &self.session {
            Some(session) => Ok(
                FacadeMotor {
                    session_id: session.id,
                    bound_epoch: session.handle.connection_epoch(),
                },
            ),
            None => Err(BackendError::NotReady { state: Readiness::Idle }),
        }
    }
}

impl FacadeView {
    /// What a request to act comes to: one that makes no sense is refused first,
    /// then a handle that is out of date, then a control that has already spoken.
    pub open spec fn motor_refusal(
        self,
        motor: FacadeMotor,
        validation: Result<(), BackendError>,
        preflight: Result<(), BackendError>,
    ) -> Option<BackendError> {
        match validation {
            Err(error) => Some(error),
            Ok(()) => match self.bound_refusal(motor.session_id, motor.bound_epoch, false) {
                Some(error) => Some(error),
                None => match preflight {
                    Err(error) => Some(error),
                    Ok(()) => None,
                },
            },
        }
    }

    /// A command of a motor that was not refused.
    pub open spec fn motor_command(
        self,
        motor: FacadeMotor,
        operation: PublicOperation,
        command: BackendCommand,
        at: UtcInstant,
    ) -> (FacadeView, Result<CommandCompletion, BackendError>) {
        let session = self.session->0;
        let step = session.runtime.submitted_with_completion(
            command,
            Some(motor.bound_epoch),
            at,
        );
        let after = SessionView { runtime: step.0, ..session };
        (
            self.with_session(after),
            match step.1 {
                Ok(completion) => Ok(completion),
                Err(error) => Err(after.command_error(operation, error)),
            },
        )
    }

    /// A motor's request, from its checks to the queue.
    pub open spec fn motor_request(
        self,
        motor: FacadeMotor,
        validation: Result<(), BackendError>,
        preflight: Result<(), BackendError>,
        operation: PublicOperation,
        command: BackendCommand,
        at: UtcInstant,
    ) -> (FacadeView, Result<CommandCompletion, BackendError>) {
        match self.motor_refusal(motor, validation, preflight) {
            Some(error) => (self, Err(error)),
            None => self.motor_command(motor, operation, command, at),
        }
    }

    /// A chat line that was checked is queued for the current epoch.
    pub open spec fn chat_queued(self, message: String, at: UtcInstant) -> (
        FacadeView,
        Result<(), BackendError>,
    ) {
        let session = self.session->0;
        let chat = session.runtime.enveloped(BackendCommand::SendChat { message }, at);
        let numbered = session.runtime.command_numbered();
        let expected = Some(session.runtime.epoch());
        let after = SessionView { runtime: numbered.submitted(chat, expected), ..session };
        (
            self.with_session(after),
            match numbered.submission_error(chat, expected) {
                Some(error) => Err(after.command_error(PublicOperation::SendChat, error)),
                None => Ok(()),
            },
        )
    }

    pub open spec fn chat_sent(self, message: String, at: UtcInstant) -> (
        FacadeView,
        Result<(), BackendError>,
    ) {
        match self.refusal(false) {
            Some(error) => (self, Err(error)),
            None => if single_line(message@) {
                self.chat_queued(message, at)
            } else {
                (
                    self,
                    Err(
                        BackendError::InvalidCommand {
                            field: RequestField::Message,
                            message: Complaint::NotSingleLine,
                        },
                    ),
                )
            },
        }
    }
}

impl MinecraftBackendFacade {
    fn refuse_motor(
        &self,
        motor: FacadeMotor,
        validation: Result<(), BackendError>,
        preflight: Result<(), BackendError>,
    ) -> (refused: Option<BackendError>)
        ensures
            refused == self@.motor_refusal(motor, validation, preflight),
    {
        match validation {
            Err(error) => Some(error),
            Ok(()) => match self.ensure_bound_ready(motor.session_id, motor.bound_epoch) {
                Some(error) => Some(error),
                None => match preflight {
                    Err(error) => Some(error),
                    Ok(()) => None,
                },
            },
        }
    }

    fn send_motor_command(
        &mut self,
        motor: FacadeMotor,
        operation: PublicOperation,
        command: BackendCommand,
        at: UtcInstant,
    ) -> (r: Result<CommandCompletion, BackendError>)
        requires
            old(self)@.wf(),
            old(self)@.session is Some,
        ensures
            (final(self)@, r) == old(self)@.motor_command(motor, operation, command, at),
            final(self)@.wf(),
    {
        match self.session.take() {
            Some(found) => {
                let mut session = found;
                let sent = session.handle.shared.submit_command_with_completion(
                    command,
                    Some(motor.bound_epoch),
                    at,
                );
                let r = match sent {
                    Ok(completion) => Ok(completion),
                    Err(error) => Err(session.map_runtime_command_error(operation, error)),
                };
                self.session = Some(session);
                r
            },
            None => Err(BackendError::NotReady { state: Readiness::Idle }),
        }
    }

    fn request_motor(
        &mut self,
        motor: FacadeMotor,
        validation: Result<(), BackendError>,
        preflight: Result<(), BackendError>,
        operation: PublicOperation,
        command: BackendCommand,
        at: UtcInstant,
    ) -> (r: Result<CommandCompletion, BackendError>)
        requires
            old(self)@.wf(),
        ensures
            (final(self)@, r) == old(self)@.motor_request(
                motor,
                validation,
                preflight,
                operation,
                command,
                at,
            ),
            final(self)@.wf(),
    {
        match self.refuse_motor(motor, validation, preflight) {
            Some(error) => Err(error),
            None => self.send_motor_command(motor, operation, command, at),
        }
    }

    /// Turns the view. The angles are given as the actuator holds them.
    pub fn look_relative(
        &mut self,
        motor: FacadeMotor,
        validation: Result<(), BackendError>,
        preflight: Result<(), BackendError>,
        yaw_degrees: Single,
        pitch_degrees: Single,
        at: UtcInstant,
    ) -> (r: Result<CommandCompletion, BackendError>)
        requires
            old(self)@.wf(),
        ensures
            (final(self)@, r) == (match old(self)@.motor_refusal(motor, validation, preflight) {
                Some(error) => (old(self)@, Err(error)),
                None => if yaw_degrees.finite() && pitch_degrees.finite() {
                    old(self)@.motor_command(
                        motor,
                        PublicOperation::LookRelative,
                        BackendCommand::LookRelative { yaw_degrees, pitch_degrees },
                        at,
                    )
                } else {
                    (
                        old(self)@,
                        Err(
                            BackendError::InvalidCommand {
                                field: RequestField::Degrees,
                                message: Complaint::NotRepresentable,
                            },
                        ),
                    )
                },
            }),
            final(self)@.wf(),
    {
        if let Some(error) = self.refuse_motor(motor, validation, preflight) {
            return Err(error);
        }
        if !yaw_degrees.is_finite() || !pitch_degrees.is_finite() {
            return Err(
                BackendError::InvalidCommand {
                    field: RequestField::Degrees,
                    message: Complaint::NotRepresentable,
                },
            );
        }
        self.send_motor_command(
            motor,
            PublicOperation::LookRelative,
            BackendCommand::LookRelative { yaw_degrees, pitch_degrees },
            at,
        )
    }

    /// Asks for a respawn.
    pub fn respawn(
        &mut self,
        motor: FacadeMotor,
        preflight: Result<(), BackendError>,
        at: UtcInstant,
    ) -> (r: Result<CommandCompletion, BackendError>)
        requires
            old(self)@.wf(),
        ensures
            (final(self)@, r) == old(self)@.motor_request(
                motor,
                Ok(()),
                preflight,
                PublicOperation::Respawn,
                BackendCommand::Respawn,
                at,
            ),
            final(self)@.wf(),
    {
        self.request_motor(
            motor,
            Ok(()),
            preflight,
            PublicOperation::Respawn,
            BackendCommand::Respawn,
            at,
        )
    }

    /// Presses movement keys. Callers cannot ask for a jump or a crouch.
    pub fn move_input(
        &mut self,
        motor: FacadeMotor,
        validation: Result<(), BackendError>,
        preflight: Result<(), BackendError>,
        directions: Vec<MotorDirection>,
        duration_ms: u64,
        sprint: Option<bool>,
        at: UtcInstant,
    ) -> (r: Result<CommandCompletion, BackendError>)
        requires
            old(self)@.wf(),
        ensures
            (final(self)@, r) == old(self)@.motor_request(
                motor,
                validation,
                preflight,
                PublicOperation::MoveInput,
                BackendCommand::Move { directions, duration_ms, sprint, jump: None, crouch: None },
                at,
            ),
            final(self)@.wf(),
    {
        self.request_motor(
            motor,
            validation,
            preflight,
            PublicOperation::MoveInput,
            BackendCommand::Move { directions, duration_ms, sprint, jump: None, crouch: None },
            at,
        )
    }

    /// Releases every key. Nothing interrupts this request.
    pub fn release_all(&mut self, motor: FacadeMotor, at: UtcInstant) -> (r: Result<
        CommandCompletion,
        BackendError,
    >)
        requires
            old(self)@.wf(),
        ensures
            (final(self)@, r) == old(self)@.motor_request(
                motor,
                Ok(()),
                Ok(()),
                PublicOperation::ReleaseAll,
                BackendCommand::ReleaseAll,
                at,
            ),
            final(self)@.wf(),
    {
        self.request_motor(
            motor,
            Ok(()),
            Ok(()),
            PublicOperation::ReleaseAll,
            BackendCommand::ReleaseAll,
            at,
        )
    }

    fn queue_chat(&mut self, message: String, at: UtcInstant) -> (r: Result<(), BackendError>)
        requires
            old(self)@.wf(),
            old(self)@.session is Some,
        ensures
            (final(self)@, r) == old(self)@.chat_queued(message, at),
            final(self)@.wf(),
    {
        match self.session.take() {
            Some(found) => {
                let mut session = found;
                let bound_epoch: u64 = session.handle.connection_epoch();
                let r = match session.handle.send_chat_for_epoch(bound_epoch, message, at) {
                    Ok(()) => Ok(()),
                    Err(error) => Err(
                        session.map_runtime_command_error(PublicOperation::SendChat, error),
                    ),
                };
                self.session = Some(session);
                r
            },
            None => Err(BackendError::NotReady { state: Readiness::Idle }),
        }
    }

    /// Says something.
    pub fn send_chat(&mut self, message: String, at: UtcInstant) -> (r: Result<(), BackendError>)
        requires
            old(self)@.wf(),
        ensures
            (final(self)@, r) == old(self)@.chat_sent(message, at),
            final(self)@.wf(),
    {
        if let Some(error) = self.ensure_admitted(false) {
            return Err(error);
        }
        if !is_single_line(message.as_str()) {
            return Err(
                BackendError::InvalidCommand {
                    field: RequestField::Message,
                    message: Complaint::NotSingleLine,
                },
            );
        }
        self.queue_chat(message, at)
    }

    fn make_session(&mut self, process_session_id: String, seed: u64) -> (id: u64)
        requires
            old(self)@.wf(),
        ensures
            id == successor(old(self)@.next_session_id),
            final(self)@ == old(self)@.session_made(process_session_id, seed),
            final(self)@.wf(),
    {
        let id: u64 = next_number(self.next_session_id);
        let config = run_config(&self.config);
        self.session = Some(RuntimeSession::new(id, config, process_session_id, seed));
        self.next_session_id = id;
        id
    }

    /// Takes a start. There is one run per backend: while there is one, a start
    /// is refused, and the result of an earlier start is not given out again.
    pub fn admit_start(&mut self, process_session_id: String, seed: u64) -> (r: Result<
        u64,
        BackendError,
    >)
        requires
            old(self)@.wf(),
        ensures
            r == (if old(self)@.session is Some {
                Err(
                    BackendError::InvalidCommand {
                        field: RequestField::Lifecycle,
                        message: Complaint::StartAlreadyOwned,
                    },
                )
            } else {
                Ok(successor(old(self)@.next_session_id))
            }),
            final(self)@ == (if r is Ok {
                old(self)@.session_made(process_session_id, seed)
            } else {
                old(self)@
            }),
            final(self)@.wf(),
    {
        if self.session.is_some() {
            return Err(
                BackendError::InvalidCommand {
                    field: RequestField::Lifecycle,
                    message: Complaint::StartAlreadyOwned,
                },
            );
        }
        Ok(self.make_session(process_session_id, seed))
    }

    /// Tells the run to stop.
    pub fn request_stop(&mut self, reason: String, at: UtcInstant)
        requires
            old(self)@.wf(),
        ensures
            final(self)@ == old(self)@.stop_asked(StopReason::Given(reason), at),
            final(self)@.wf(),
    {
        match self.session.take() {
            Some(found) => {
                let mut session = found;
                session.stop_cancel = true;
                session.handle.stop(reason, at);
                self.session = Some(session);
            },
            None => {},
        }
    }

    fn stop_idle_session(&mut self, reason: String, at: UtcInstant) -> (events:
        RuntimeEventReceiver)
        requires
            old(self)@.wf(),
            old(self)@.session is Some,
        ensures
            events.subscriber == successor(
                old(self)@.session->0.runtime.counters.last_subscriber,
            ),
            final(self)@ == old(self)@.with_session(
                SessionView {
                    runtime: old(self)@.session->0.runtime.subscribed().stopped_by(
                        StopReason::Given(reason),
                        at,
                    ),
                    worker: WorkerStatus {
                        done: true,
                        joined: true,
                        ..old(self)@.session->0.worker
                    },
                    ..old(self)@.session->0
                },
            ),
            final(self)@.wf(),
    {
        match self.session.take() {
            Some(found) => {
                let mut session = found;
                let events = session.handle.subscribe();
                session.handle.stop(reason, at);
                session.mark_worker_done();
                session.mark_joined();
                self.session = Some(session);
                events
            },
            None => RuntimeEventReceiver { subscriber: 0 },
        }
    }

    /// Takes a stop. A backend without a run makes one only to stop it, so that
    /// the stop is reported; it connects nothing and starts no worker.
    pub fn admit_stop(
        &mut self,
        reason: String,
        process_session_id: String,
        seed: u64,
        at: UtcInstant,
    ) -> (r: StopAdmission)
        requires
            old(self)@.wf(),
        ensures
            match old(self)@.session {
                None => {
                    &&& r == (StopAdmission::Idle {
                        session_id: successor(old(self)@.next_session_id),
                        events: RuntimeEventReceiver { subscriber: 1 },
                    })
                    &&& final(self)@ == old(self)@.idle_stopped(
                        StopReason::Given(reason),
                        process_session_id,
                        seed,
                        at,
                    )
                },
                Some(session) => if !session.worker.launched && !session.worker.done {
                    &&& r == (StopAdmission::Launch { session_id: session.id })
                    &&& final(self)@ == old(self)@
                } else {
                    &&& r == (StopAdmission::Running { session_id: session.id })
                    &&& final(self)@ == old(self)@.stop_asked(StopReason::Given(reason), at)
                },
            },
            final(self)@.wf(),
    {
        match &self.session {
            None => {},
            Some(session) => {
                let session_id: u64 = session.id;
                if !session.worker.launched && !session.worker.done {
                    return StopAdmission::Launch { session_id };
                }
                self.request_stop(reason, at);
                return StopAdmission::Running { session_id };
            },
        }
        let session_id: u64 = self.make_session(process_session_id, seed);
        let events = self.stop_idle_session(reason, at);
        StopAdmission::Idle { session_id, events }
    }

    /// Puts an event of a run on its way to the listeners.
    pub fn route_event(&mut self, session_id: u64, event: Arc<BackendEventEnvelope>) -> (r: Option<
        (LanePending, BridgeAdmission),
    >)
        requires
            old(self)@.wf(),
        ensures
            r == old(self)@.routing(session_id, event),
            final(self)@ == old(self)@.routed(session_id, event),
            final(self)@.wf(),
    {
        if self.closed {
            return None;
        }
        let cancelled = match &self.session {
            Some(session) => session.id == session_id && session.stop_cancel,
            None => false,
        };
        Some(self.bridge.enqueue(session_id, event, cancelled))
    }

    fn take_notice(&mut self, receiver: RuntimeEventReceiver, axes: Result<(), BackendError>) -> (event:
        Option<Arc<BackendEventEnvelope>>)
        requires
            old(self)@.wf(),
        ensures
            old(self)@.session is None ==> event is None && final(self)@ == old(self)@,
            old(self)@.session matches Some(session) ==> {
                &&& event == session.runtime.next_for(receiver.subscriber)
                &&& final(self)@ == old(self)@.with_session(final(self)@.session->0)
                &&& noticed(session, receiver, event, axes, final(self)@.session->0)
            },
            final(self)@.wf(),
    {
        match self.session.take() {
            Some(found) => {
                let mut session = found;
                let event = receiver.try_recv(&mut session.handle.shared);
                if let Some(event) = &event {
                    session.observe_event(event, axes);
                }
                self.session = Some(session);
                event
            },
            None => None,
        }
    }

    /// Relays the next event of the run: the run's outcome takes notice of it
    /// before any listener hears of it, so a listener that blocks holds up no start.
    /// What the check of the published snapshot's axes says is given.
    pub fn relay_event(&mut self, receiver: RuntimeEventReceiver, axes: Result<(), BackendError>) -> (r:
        Relay)
        requires
            old(self)@.wf(),
        ensures
            old(self)@.session is None ==> r == Relay::Nothing && final(self)@ == old(self)@,
            old(self)@.session matches Some(session) ==> exists|after: SessionView|
                {
                    &&& #[trigger] noticed(
                        session,
                        receiver,
                        session.runtime.next_for(receiver.subscriber),
                        axes,
                        after,
                    )
                    &&& match session.runtime.next_for(receiver.subscriber) {
                        None => r == Relay::Nothing && final(self)@ == old(self)@.with_session(
                            after,
                        ),
                        Some(event) => {
                            let kept = old(self)@.with_session(after);
                            &&& r == (Relay::Relayed {
                                stopped: event.terminal(),
                                bridged: kept.routing(session.id, event),
                            })
                            &&& final(self)@ == kept.routed(session.id, event)
                        },
                    }
                },
            final(self)@.wf(),
    {
        let session_id: u64 = match &self.session {
            Some(session) => session.id,
            None => 0,
        };
        match self.take_notice(receiver, axes) {
            None => Relay::Nothing,
            Some(event) => {
                let stopped = event.is_terminal();
                let bridged = self.route_event(session_id, event);
                Relay::Relayed { stopped, bridged }
            },
        }
    }

    /// Subscribes to the backend's events.
    pub fn subscribe(&mut self) -> (r: Result<u64, BackendError>)
        requires
            old(self)@.wf(),
        ensures
            r == (if old(self)@.closed {
                Err(BackendError::SubscriptionClosed)
            } else {
                Ok(successor(old(self)@.next_subscription_id))
            }),
            final(self)@ == (if old(self)@.closed {
                old(self)@
            } else {
                FacadeView {
                    next_subscription_id: successor(old(self)@.next_subscription_id),
                    listeners: old(self)@.listeners.push(
                        FacadeListener {
                            id: successor(old(self)@.next_subscription_id),
                            status: ListenerStatus::fresh(),
                        },
                    ),
                    ..old(self)@
                }
            }),
            final(self)@.wf(),
    {
        if self.closed {
            return Err(BackendError::SubscriptionClosed);
        }
        let id: u64 = next_number(self.next_subscription_id);
        self.next_subscription_id = id;
        self.listeners.push(FacadeListener { id, status: ListenerStatus::new() });
        Ok(id)
    }

    /// Reserves a callback of every open listener for an event of this run; an
    /// event of another run reaches nobody.
    pub fn handle_event(&mut self, session_id: u64) -> (deliveries: Vec<u64>)
        requires
            old(self)@.wf(),
        ensures
            deliveries@ == (if current_run(old(self)@, session_id) {
                reserved_ids(old(self)@.listeners)
            } else {
                Seq::empty()
            }),
            final(self)@ == (FacadeView {
                listeners: if current_run(old(self)@, session_id) {
                    all_reserved(old(self)@.listeners)
                } else {
                    old(self)@.listeners
                },
                ..old(self)@
            }),
            final(self)@.wf(),
    {
        let current = match &self.session {
            Some(session) => session.id == session_id,
            None => false,
        };
        if !current {
            return Vec::new();
        }
        reserve_all(&mut self.listeners)
    }

    /// A reserved callback is about to run on this thread. Tells whether it may.
    pub fn begin_callback(&mut self, id: u64, thread: u64) -> (begun: bool)
        requires
            old(self)@.wf(),
        ensures
            begun == (listener_at(old(self)@.listeners, id) < old(self)@.listeners.len() && old(
                self,
            )@.listeners[listener_at(old(self)@.listeners, id)].status.beginnable()),
            final(self)@ == (FacadeView {
                listeners: with_listener(
                    old(self)@.listeners,
                    id,
                    old(self)@.listeners[listener_at(old(self)@.listeners, id)].status.begun(
                        thread,
                    ),
                ),
                ..old(self)@
            }),
            final(self)@.wf(),
    {
        let at: usize = find_listener(&self.listeners, id);
        if at == self.listeners.len() {
            return false;
        }
        let mut status = self.listeners[at].status;
        let begun = status.begin(thread);
        self.listeners.set(at, FacadeListener { id, status });
        begun
    }

    /// A callback has returned.
    pub fn finish_callback(&mut self, id: u64)
        requires
            old(self)@.wf(),
        ensures
            final(self)@ == (FacadeView {
                listeners: with_listener(
                    old(self)@.listeners,
                    id,
                    old(self)@.listeners[listener_at(old(self)@.listeners, id)].status.finished(),
                ),
                ..old(self)@
            }),
            final(self)@.wf(),
    {
        let at: usize = find_listener(&self.listeners, id);
        if at < self.listeners.len() {
            let mut status = self.listeners[at].status;
            let _ = status.finish();
            self.listeners.set(at, FacadeListener { id, status });
        }
    }

    /// Closes a subscription. From now on no callback of it begins.
    pub fn remove_subscription(&mut self, id: u64)
        requires
            old(self)@.wf(),
        ensures
            final(self)@ == (FacadeView {
                listeners: with_listener(
                    old(self)@.listeners,
                    id,
                    ListenerStatus {
                        closed: true,
                        ..old(self)@.listeners[listener_at(old(self)@.listeners, id)].status
                    },
                ),
                ..old(self)@
            }),
            final(self)@.wf(),
    {
        let at: usize = find_listener(&self.listeners, id);
        if at < self.listeners.len() {
            let mut status = self.listeners[at].status;
            status.close();
            self.listeners.set(at, FacadeListener { id, status });
        }
    }

    /// Tells whether whoever closes a subscription has to wait for a callback.
    pub fn subscription_must_wait(&self, id: u64, thread: u64) -> (r: bool)
        ensures
            r == (listener_at(self@.listeners, id) < self@.listeners.len() && {
                let status = self@.listeners[listener_at(self@.listeners, id)].status;
                status.active > 0 && status.active_thread != Some(thread)
            }),
    {
        let at: usize = find_listener(&self.listeners, id);
        if at < self.listeners.len() {
            self.listeners[at].status.must_wait(thread)
        } else {
            false
        }
    }

    /// Forgets a closed subscription.
    pub fn forget_subscription(&mut self, id: u64)
        requires
            old(self)@.wf(),
        ensures
            final(self)@ == (FacadeView {
                listeners: if listener_at(old(self)@.listeners, id) < old(self)@.listeners.len()
                    && old(self)@.listeners[listener_at(
                    old(self)@.listeners,
                    id,
                )].status.closed {
                    old(self)@.listeners.remove(listener_at(old(self)@.listeners, id))
                } else {
                    old(self)@.listeners
                },
                ..old(self)@
            }),
            final(self)@.wf(),
    {
        let at: usize = find_listener(&self.listeners, id);
        if at < self.listeners.len() {
            if self.listeners[at].status.is_closed() {
                let _ = self.listeners.remove(at);
            }
        }
    }

    /// The backend goes away: nothing is taken any more, and the run is stopped.
    pub fn close(&mut self, at: UtcInstant)
        requires
            old(self)@.wf(),
        ensures
            exists|reason: String|
                reason@ == "facade_dropped"@ && final(self)@ == #[trigger] old(self)@.shut(
                    StopReason::Given(reason),
                    at,
                ),
            final(self)@.wf(),
    {
        self.closed = true;
        self.bridge.close();
        let reason = "facade_dropped".to_owned();
        let ghost said = reason;
        self.request_stop(reason, at);
        assert(self@ == old(self)@.shut(StopReason::Given(said), at));
    }
}

impl FacadeObservationSource {
    /// The epoch in which the reader was made.
    pub fn epoch(&self) -> (epoch: u64)
        ensures
            epoch == self.bound_epoch,
    {
        self.bound_epoch
    }

    /// Where the player is.
    pub fn self_pose(&self, facade: &MinecraftBackendFacade) -> (r: Result<
        PoseSnapshot,
        BackendError,
    >)
        ensures
            r == (match facade@.source_refusal(*self) {
                Some(error) => Err(error),
                None => Ok(
                    (facade@.session->0.runtime.observation.snapshot->0).spec_pose(),
                ),
            }),
    {
        if let Some(error) = facade.ensure_source_snapshot(*self) {
            return Err(error);
        }
        match &facade.session {
            Some(session) => RuntimeObservationSource {
                bound_epoch: self.bound_epoch,
            }.self_pose(&session.handle.shared),
            None => Err(BackendError::NotReady { state: Readiness::Idle }),
        }
    }

    /// The entities that are published.
    pub fn list_tracked_entities(&self, facade: &MinecraftBackendFacade) -> (r: Result<
        Vec<Arc<NormalizedEntitySnapshot>>,
        BackendError,
    >)
        ensures
            match facade@.source_refusal(*self) {
                Some(error) => r == Err::<Vec<Arc<NormalizedEntitySnapshot>>, BackendError>(error),
                None => {
                    let published = facade@.session->0.runtime.observation.tracked_entities;
                    match entities_error(published, 0) {
                        Some(error) => r == Err::<
                            Vec<Arc<NormalizedEntitySnapshot>>,
                            BackendError,
                        >(error),
                        None => r is Ok && (r->Ok_0)@ == published,
                    }
                },
            },
    {
        if let Some(error) = facade.ensure_source_snapshot(*self) {
            return Err(error);
        }
        match &facade.session {
            Some(session) => RuntimeObservationSource {
                bound_epoch: self.bound_epoch,
            }.list_tracked_entities(&session.handle.shared),
            None => Err(BackendError::NotReady { state: Readiness::Idle }),
        }
    }

    /// Reads one block. What the published world holds there is given.
    pub fn read_block(
        &self,
        facade: &MinecraftBackendFacade,
        position: BlockPosition,
        world: WorldRead,
    ) -> (r: Result<BlockReadResult, BackendError>)
        ensures
            r == (match facade@.source_refusal(*self) {
                Some(error) => Err(error),
                None => Ok(
                    if facade@.session->0.runtime.observation.world is None {
                        BlockReadResult::Unloaded
                    } else {
                        block_at(position, world.min_y, world.height, world.stored)
                    },
                ),
            }),
            r matches Ok(BlockReadResult::Loaded { block }) ==> block.position == position,
    {
        if let Some(error) = facade.ensure_source_snapshot(*self) {
            return Err(error);
        }
        match &facade.session {
            Some(session) => RuntimeObservationSource {
                bound_epoch: self.bound_epoch,
            }.read_block(&session.handle.shared, position, world),
            None => Err(BackendError::NotReady { state: Readiness::Idle }),
        }
    }

    /// Registers a listener for the observations of this connection.
    pub fn subscribe(&self, facade: &mut MinecraftBackendFacade) -> (r: Result<u64, BackendError>)
        requires
            old(facade)@.wf(),
        ensures
            r == (match old(facade)@.source_refusal(*self) {
                Some(error) => Err(error),
                None => Ok(
                    successor(old(facade)@.session->0.runtime.counters.last_listener),
                ),
            }),
            final(facade)@ == (if r is Ok {
                old(facade)@.with_session(
                    SessionView {
                        runtime: old(facade)@.session->0.runtime.listening(self.bound_epoch),
                        ..old(facade)@.session->0
                    },
                )
            } else {
                old(facade)@
            }),
            final(facade)@.wf(),
    {
        if let Some(error) = facade.ensure_source_snapshot(*self) {
            return Err(error);
        }
        match facade.session.take() {
            Some(found) => {
                let mut session = found;
                let source = RuntimeObservationSource { bound_epoch: self.bound_epoch };
                let r = source.subscribe_listener(&mut session.handle.shared);
                facade.session = Some(session);
                r
            },
            None => Err(BackendError::NotReady { state: Readiness::Idle }),
        }
    }
}

/// The run whose events reach the listeners.
pub open spec fn current_run(facade: FacadeView, session_id: u64) -> bool {
    facade.session matches Some(session) && session.id == session_id
}

/// The run took its next event, and its outcome took notice of it.
pub open spec fn noticed(
    before: SessionView,
    receiver: RuntimeEventReceiver,
    event: Option<Arc<BackendEventEnvelope>>,
    axes: Result<(), BackendError>,
    after: SessionView,
) -> bool {
    let received = before.runtime.received(receiver.subscriber);
    &&& after == (SessionView { runtime: received, outcome: after.outcome, ..before })
    &&& match event {
        None => after.outcome == before.outcome,
        Some(event) => exists|ready: Result<BackendReady, BackendError>|
            readiness(*event, received.observation.snapshot, axes, ready) && after.outcome
                == #[trigger] before.outcome.observed(*event, ready),
    }
}

fn reserve_all(listeners: &mut Vec<FacadeListener>) -> (ids: Vec<u64>)
    ensures
        final(listeners)@ == all_reserved(old(listeners)@),
        ids@ == reserved_ids(old(listeners)@),
{
    let ghost before = listeners@;
    let mut ids: Vec<u64> = Vec::new();
    let mut i: usize = 0;
    assert(before.take(0) =~= Seq::empty());
    while i < listeners.len()
        invariant
            i <= listeners@.len(),
            listeners@.len() == before.len(),
            forall|k: int| 0 <= k < i ==> listeners@[k] == all_reserved(before)[k],
            forall|k: int| i <= k < listeners@.len() ==> listeners@[k] == before[k],
            ids@ == reserved_ids(before.take(i as int)),
        decreases listeners@.len() - i,
    {
        let id: u64 = listeners[i].id;
        let mut status = listeners[i].status;
        if status.reserve() {
            ids.push(id);
        }
        listeners.set(i, FacadeListener { id, status });
        i = i + 1;
        assert(before.take(i as int).drop_last() =~= before.take(i - 1));
    }
    assert(before.take(i as int) =~= before);
    assert(listeners@ =~= all_reserved(before));
    ids
}

/// A handle of an earlier connection is told that it is out of date: it never
/// acts on the connection that replaced it.
pub proof fn law_old_handles_are_refused(
    facade: FacadeView,
    motor: FacadeMotor,
    operation: PublicOperation,
    command: BackendCommand,
    at: UtcInstant,
)
    requires
        facade.session matches Some(session) && session.runtime.epoch() != motor.bound_epoch,
    ensures
        facade.motor_request(motor, Ok(()), Ok(()), operation, command, at) == (
            facade,
            Err::<CommandCompletion, BackendError>(
                BackendError::StaleEpoch {
                    bound_epoch: motor.bound_epoch,
                    current_epoch: facade.session->0.runtime.epoch(),
                },
            ),
        ),
{
}

/// The dead can be observed, but not moved: a reader of the current connection
/// is made and serves every read, its viewport included, while motor and chat
/// are refused.
pub proof fn law_the_dead_can_be_observed(
    facade: FacadeView,
    source: FacadeObservationSource,
    motor: FacadeMotor,
)
    requires
        facade.session matches Some(session) && session.state() is Dead
            && session.runtime.observation.snapshot is Some && source.session_id == session.id
            && source.bound_epoch == session.runtime.epoch() && motor.session_id == session.id
            && motor.bound_epoch == session.runtime.epoch(),
    ensures
        facade.refusal(true) is None,
        facade.source_refusal(source) is None,
        facade.session->0.runtime.viewport_refusal(
            (RuntimeObservationSource { bound_epoch: source.bound_epoch }),
        ) is None,
        facade.refusal(false) == Some(BackendError::NotReady { state: Readiness::Dead }),
        facade.bound_refusal(motor.session_id, motor.bound_epoch, false) == Some(
            BackendError::NotReady { state: Readiness::Dead },
        ),
{
}

/// Without a run the backend is idle, and answers every request so.
pub proof fn law_an_idle_backend_says_so(facade: FacadeView, allow_dead: bool)
    requires
        facade.session is None,
    ensures
        facade.state() == BackendState::Idle,
        facade.refusal(allow_dead) == Some(BackendError::NotReady { state: Readiness::Idle }),
{
}

/// A run is made of the backend's configuration. It never stops by itself, writes
/// no events to standard output and says nothing by itself.
pub proof fn law_runs_are_made_of_the_configuration(config: MinecraftBackendConfig)
    ensures
        ({
            let run = production_config(config);
            &&& run.host == config.server.host
            &&& run.port == config.server.port
            &&& run.username == config.identity.username
            &&& run.world_id == config.world_id
            &&& run.timeouts == config.timeouts
            &&& run.reconnect == config.reconnect
            &&& run.duration_ms == 24 * 60 * 60 * 1000
            &&& !run.auto_stop
            &&& !run.emit_stdout
            &&& run.initial_chat is None
        }),
{
}

/// A fresh backend is open and idle: it has no run and nobody listens.
pub proof fn law_a_fresh_backend_is_idle(config: MinecraftBackendConfig)
    ensures
        ({
            let fresh = FacadeView::initial(config);
            &&& fresh.config == config
            &&& fresh.session is None
            &&& fresh.listeners.len() == 0
            &&& fresh.next_session_id == 0
            &&& fresh.next_subscription_id == 0
            &&& !fresh.closed
            &&& !fresh.bridge.closed
            &&& fresh.state() is Idle
        }),
{
}

/// The backend is in the state of its run; without one it is idle.
pub proof fn law_the_backend_is_what_its_run_is(facade: FacadeView)
    ensures
        facade.session matches Some(session) ==> facade.state()
            == session.runtime.connection.state,
        facade.session is None ==> facade.state() is Idle,
{
}

/// An operation is refused exactly if there is no run, the player is not in the
/// world, or nothing is published yet. Where that is enough, a dead player is
/// one who is in the world.
pub proof fn law_which_operations_are_refused(facade: FacadeView, allow_dead: bool)
    ensures
        facade.session is None ==> facade.refusal(allow_dead) == Some(
            BackendError::NotReady { state: Readiness::Idle },
        ),
        facade.session matches Some(session) ==> {
            let there = session.runtime.connection.state is Ready || (allow_dead
                && session.runtime.connection.state is Dead);
            &&& !there ==> facade.refusal(allow_dead) == Some(session.error())
            &&& there && session.runtime.observation.snapshot is None ==> facade.refusal(allow_dead)
                == Some(BackendError::NotReady { state: Readiness::SnapshotUnavailable })
            &&& there && session.runtime.observation.snapshot is Some ==> facade.refusal(
                allow_dead,
            ) is None
        },
{
}

/// A handle is refused exactly if its run or its epoch is not the current one, or
/// the player is not in the world; one that is out of date is told both epochs.
pub proof fn law_which_handles_are_refused(
    facade: FacadeView,
    session_id: u64,
    bound_epoch: u64,
    allow_dead: bool,
)
    ensures
        facade.session is None ==> facade.bound_refusal(session_id, bound_epoch, allow_dead)
            == Some(BackendError::StaleEpoch { bound_epoch, current_epoch: 0 }),
        facade.session matches Some(session) ==> {
            let current = session.id == session_id && session.runtime.writer.connection_epoch
                == bound_epoch;
            let there = session.runtime.connection.state is Ready || (allow_dead
                && session.runtime.connection.state is Dead);
            let refusal = facade.bound_refusal(session_id, bound_epoch, allow_dead);
            &&& !current ==> refusal == Some(
                BackendError::StaleEpoch {
                    bound_epoch,
                    current_epoch: session.runtime.writer.connection_epoch,
                },
            )
            &&& current && !there ==> refusal == Some(session.error())
            &&& current && there ==> refusal is None
        },
{
}

/// A reader also needs a published snapshot.
pub proof fn law_readers_need_a_snapshot(facade: FacadeView, source: FacadeObservationSource)
    ensures
        ({
            let refusal = facade.bound_refusal(source.session_id, source.bound_epoch, true);
            &&& refusal is Some ==> facade.source_refusal(source) == refusal
            &&& refusal is None && facade.session->0.runtime.observation.snapshot is None
                ==> facade.source_refusal(source) == Some(
                BackendError::NotReady { state: Readiness::SnapshotUnavailable },
            )
            &&& refusal is None && facade.session->0.runtime.observation.snapshot is Some
                ==> facade.source_refusal(source) is None
        }),
{
}

/// A new run has the next number and is fresh.
pub proof fn law_runs_are_numbered(facade: FacadeView, process_session_id: String, seed: u64)
    requires
        facade.next_session_id < u64::MAX,
    ensures
        ({
            let after = facade.session_made(process_session_id, seed);
            &&& after.session matches Some(session)
            &&& session.id == facade.next_session_id + 1
            &&& after.next_session_id == session.id
            &&& session == SessionView::fresh(
                session.id,
                production_config(facade.config),
                process_session_id,
                seed,
            )
            &&& after.listeners == facade.listeners
            &&& after.bridge == facade.bridge
            &&& after.closed == facade.closed
        }),
{
}

/// A run that is told to stop is stopped for the reason given, and nobody waits for
/// room on its behalf any more.
pub proof fn law_a_stop_reaches_the_run(
    facade: FacadeView,
    session: SessionView,
    reason: StopReason,
    at: UtcInstant,
)
    requires
        facade.session == Some(session),
    ensures
        ({
            let after = facade.stop_asked(reason, at);
            &&& after.session == Some(
                SessionView {
                    runtime: session.runtime.stopped_by(reason, at),
                    stop_cancel: true,
                    ..session
                },
            )
            &&& after.routing_cancelled(session.id)
            &&& after.listeners == facade.listeners
            &&& after.bridge == facade.bridge
        }),
{
}

/// Stopping an idle backend makes a run that is stopped without ever having been
/// started: it has nothing left to do and nothing to join, and its events can be
/// read.
pub proof fn law_an_idle_stop_starts_nothing(
    facade: FacadeView,
    reason: StopReason,
    process_session_id: String,
    seed: u64,
    at: UtcInstant,
)
    requires
        facade.next_session_id < u64::MAX,
    ensures
        ({
            let after = facade.idle_stopped(reason, process_session_id, seed, at);
            &&& after.session matches Some(session)
            &&& session.id == facade.next_session_id + 1
            &&& !session.worker.launched
            &&& session.worker.done
            &&& session.worker.joined
            &&& session.runtime.connection.state == (BackendState::Stopped { reason: Some(reason) })
            &&& session.runtime.flags.stopped_reported
            &&& session.runtime.writer.connection_epoch == 0
        }),
{
    let made = facade.session_made(process_session_id, seed);
    let fresh = made.session->0.runtime.subscribed();
    crate::guarantees::lemma_stopped_frame(fresh, reason, at);
    crate::endings::lemma_stop_keeps_the_epoch(fresh, reason, at);
}

/// An event of a run is placed in the bridge in order, for that run; a closed
/// backend places nothing.
pub proof fn law_events_are_routed(
    facade: FacadeView,
    session_id: u64,
    event: Arc<BackendEventEnvelope>,
)
    ensures
        facade.closed ==> facade.routed(session_id, event) == facade && facade.routing(
            session_id,
            event,
        ) is None,
        !facade.closed ==> {
            let cancelled = facade.session is Some && facade.session->0.id == session_id
                && facade.session->0.stop_cancel;
            let place = LanePending {
                sequence: facade.bridge.lanes.next_sequence,
                session_id,
                event,
            };
            &&& facade.routing(session_id, event) == Some(
                (place, facade.bridge.ticketed().admission(place, cancelled)),
            )
            &&& facade.routed(session_id, event) == (FacadeView {
                bridge: facade.bridge.ticketed().offered(place, cancelled),
                ..facade
            })
        },
{
}

/// A backend that is shut takes no more events, and its run is stopped.
pub proof fn law_a_shut_backend_is_closed(facade: FacadeView, reason: StopReason, at: UtcInstant)
    ensures
        ({
            let after = facade.shut(reason, at);
            &&& after.closed
            &&& after.bridge.closed
            &&& after.bridge.lanes == facade.bridge.lanes
            &&& after.session == facade.stop_asked(reason, at).session
            &&& after.listeners == facade.listeners
        }),
{
}

proof fn lemma_listener_from(listeners: Seq<FacadeListener>, id: u64, from: int, at: int)
    requires
        0 <= from <= at < listeners.len(),
        listeners[at].id == id,
        forall|i: int| from <= i < at ==> (#[trigger] listeners[i]).id != id,
    ensures
        listener_from(listeners, id, from) == at,
    decreases at - from,
{
    if from < at {
        lemma_listener_from(listeners, id, from + 1, at);
    }
}

/// A listener is found by its number: the first that has it.
pub proof fn law_listeners_are_found_by_number(
    listeners: Seq<FacadeListener>,
    id: u64,
    at: int,
    status: ListenerStatus,
)
    requires
        0 <= at < listeners.len(),
        listeners[at].id == id,
        forall|i: int| 0 <= i < at ==> (#[trigger] listeners[i]).id != id,
    ensures
        listener_at(listeners, id) == at,
        with_listener(listeners, id, status).len() == listeners.len(),
        with_listener(listeners, id, status)[at] == (FacadeListener { id, status }),
        forall|i: int|
            0 <= i < listeners.len() && i != at ==> #[trigger] with_listener(
                listeners,
                id,
                status,
            )[i] == listeners[i],
{
    lemma_listener_from(listeners, id, 0, at);
}

/// A listener that is not there is not changed.
pub proof fn law_unknown_listeners_are_not_found(
    listeners: Seq<FacadeListener>,
    id: u64,
    from: int,
    status: ListenerStatus,
)
    requires
        0 <= from <= listeners.len(),
        forall|i: int| from <= i < listeners.len() ==> (#[trigger] listeners[i]).id != id,
    ensures
        listener_from(listeners, id, from) == listeners.len(),
        from == 0 ==> with_listener(listeners, id, status) == listeners,
    decreases listeners.len() - from,
{
    if from < listeners.len() {
        law_unknown_listeners_are_not_found(listeners, id, from + 1, status);
    }
}

/// Every open listener gets a callback of its own, in the order of subscription,
/// and no closed one does.
pub proof fn law_every_open_listener_is_called(listeners: Seq<FacadeListener>, i: int)
    requires
        0 <= i < listeners.len(),
    ensures
        all_reserved(listeners).len() == listeners.len(),
        all_reserved(listeners)[i].id == listeners[i].id,
        !listeners[i].status.closed && listeners[i].status.pending < u64::MAX ==> all_reserved(
            listeners,
        )[i].status.pending == listeners[i].status.pending + 1 && reserved_ids(listeners).contains(
            listeners[i].id,
        ),
        listeners[i].status.closed ==> all_reserved(listeners)[i] == listeners[i],
    decreases listeners.len(),
{
    if !listeners[i].status.closed && listeners[i].status.pending < u64::MAX {
        lemma_reserved_ids(listeners, i);
    }
}

proof fn lemma_reserved_ids(listeners: Seq<FacadeListener>, i: int)
    requires
        0 <= i < listeners.len(),
        listeners[i].status.reservable(),
    ensures
        reserved_ids(listeners).contains(listeners[i].id),
    decreases listeners.len(),
{
    let rest = listeners.drop_last();
    let ids = reserved_ids(listeners);
    if i < rest.len() {
        assert(rest[i] == listeners[i]);
        lemma_reserved_ids(rest, i);
        let k = choose|k: int|
            0 <= k < reserved_ids(rest).len() && reserved_ids(rest)[k] == listeners[i].id;
        assert(ids[k] == listeners[i].id);
    } else {
        assert(ids[ids.len() - 1] == listeners[i].id);
    }
}

/// Whoever gets a callback is open.
pub proof fn law_only_open_listeners_are_called(listeners: Seq<FacadeListener>, id: u64)
    requires
        reserved_ids(listeners).contains(id),
    ensures
        exists|i: int|
            0 <= i < listeners.len() && (#[trigger] listeners[i]).id == id
                && !listeners[i].status.closed,
    decreases listeners.len(),
{
    let rest = listeners.drop_last();
    let ids = reserved_ids(listeners);
    let k = choose|k: int| 0 <= k < ids.len() && ids[k] == id;
    if k < reserved_ids(rest).len() {
        assert(reserved_ids(rest)[k] == id);
        law_only_open_listeners_are_called(rest, id);
        let i = choose|i: int|
            0 <= i < rest.len() && (#[trigger] rest[i]).id == id && !rest[i].status.closed;
        assert(listeners[i] == rest[i]);
    } else {
        assert(listeners[listeners.len() - 1].id == id);
    }
}

/// A request to act is refused because it makes no sense, because its handle is
/// out of date or the player is not alive in the world, or because its control has
/// spoken, in this order.
pub proof fn law_why_a_request_to_act_is_refused(
    facade: FacadeView,
    motor: FacadeMotor,
    validation: Result<(), BackendError>,
    preflight: Result<(), BackendError>,
)
    ensures
        ({
            let refusal = facade.motor_refusal(motor, validation, preflight);
            let bound = facade.bound_refusal(motor.session_id, motor.bound_epoch, false);
            &&& validation matches Err(error) ==> refusal == Some(error)
            &&& validation is Ok && bound is Some ==> refusal == bound
            &&& validation is Ok && bound is None && preflight is Err ==> refusal == Some(
                preflight->Err_0,
            )
            &&& validation is Ok && bound is None && preflight is Ok ==> refusal is None
        }),
{
}

/// A request to act that is not refused becomes a command of the handle's own
/// epoch; a command that the runtime does not take is told the way of the run.
pub proof fn law_requests_become_commands(
    facade: FacadeView,
    session: SessionView,
    motor: FacadeMotor,
    operation: PublicOperation,
    command: BackendCommand,
    at: UtcInstant,
)
    requires
        facade.session == Some(session),
        facade.bound_refusal(motor.session_id, motor.bound_epoch, false) is None,
    ensures
        ({
            let (after, given) = facade.motor_request(
                motor,
                Ok(()),
                Ok(()),
                operation,
                command,
                at,
            );
            let (runtime, taken) = session.runtime.submitted_with_completion(
                command,
                Some(session.runtime.writer.connection_epoch),
                at,
            );
            &&& after == (FacadeView {
                session: Some(SessionView { runtime, ..session }),
                ..facade
            })
            &&& taken matches Ok(completion) ==> given == Ok::<CommandCompletion, BackendError>(
                completion,
            )
            &&& taken matches Err(error) ==> given == Err::<CommandCompletion, BackendError>(
                (SessionView { runtime, ..session }).command_error(operation, error),
            )
        }),
{
}

/// A chat line is said by a living player only, on one line, in the current epoch.
pub proof fn law_who_may_chat(
    facade: FacadeView,
    session: SessionView,
    message: String,
    at: UtcInstant,
)
    requires
        facade.session == Some(session),
    ensures
        ({
            let (after, said) = facade.chat_sent(message, at);
            let alive = session.runtime.connection.state is Ready
                && session.runtime.observation.snapshot is Some;
            let line = message@.len() > 0 && forall|i: int|
                0 <= i < message@.len() ==> #[trigger] message@[i] != '\r' && message@[i] != '\n'
                    && message@[i] != '\0';
            &&& !alive ==> after == facade && said is Err
            &&& alive && !line ==> after == facade && said == Err::<(), BackendError>(
                BackendError::InvalidCommand {
                    field: RequestField::Message,
                    message: Complaint::NotSingleLine,
                },
            )
            &&& alive && line && !session.runtime.flags.stopping ==> said is Ok && (
            after.session->0).runtime.commands.len() == session.runtime.commands.len() + 1 && (
            after.session->0).runtime.commands.last().envelope.command == (
            BackendCommand::SendChat { message })
        }),
{
}

/// The run whose events reach the listeners is the one with the given number.
pub proof fn law_which_run_is_current(facade: FacadeView, session_id: u64)
    ensures
        current_run(facade, session_id) <==> facade.session is Some && facade.session->0.id
            == session_id,
{
}

} // verus!
