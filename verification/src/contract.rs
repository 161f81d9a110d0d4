//! Events, states and errors that cross the backend boundary.

use std::sync::Arc;

use vstd::prelude::*;
use vstd::string::*;

use crate::command::CommandError;
use crate::entity_events::{EntityIdentity, NormalizedEntityEvent};
use crate::number::{Double, Single, Vec3Value};
use crate::text::{decimal, numbered, push_decimal, push_signed_decimal, signed_decimal};
use crate::time::UtcInstant;

verus! {

/// Where a fact comes from.
#[derive(Clone, Copy, Debug, PartialEq, Eq, Structural)]
pub enum FactSource {
    Commanded,
    ClientPredicted,
    ServerObserved,
}

/// The families of events.
#[derive(Clone, Copy, Debug, PartialEq, Eq, Structural)]
pub enum BackendEventKind {
    Lifecycle,
    Chat,
    PlayerList,
    SnapshotChanged,
    Entity,
    Block,
    Sound,
    Overflow,
}

/// Why a connection was closed.
#[derive(Clone, Copy, Debug, PartialEq, Eq, Structural)]
pub enum CloseCode {
    DeliberateStop,
    ServerShutdown,
    PermissionDenied,
    UnclassifiedKick,
    ConnectionEnded,
    ConnectionFailed,
    ConnectionTimeout,
    LoginTimeout,
    SpawnTimeout,
}

impl CloseCode {
    pub open spec fn spec_text(self) -> Seq<char> {
        match self {
            CloseCode::DeliberateStop => "deliberate_stop"@,
            CloseCode::ServerShutdown => "server_shutdown"@,
            CloseCode::PermissionDenied => "permission_denied"@,
            CloseCode::UnclassifiedKick => "unclassified_kick"@,
            CloseCode::ConnectionEnded => "connection_ended"@,
            CloseCode::ConnectionFailed => "connection_failed"@,
            CloseCode::ConnectionTimeout => "connection_timeout"@,
            CloseCode::LoginTimeout => "login_timeout"@,
            CloseCode::SpawnTimeout => "spawn_timeout"@,
        }
    }

    /// The code as it is written in events.
    pub fn text(&self) -> (r: &'static str)
        ensures
            r@ == self.spec_text(),
    {
        match self {
            CloseCode::DeliberateStop => "deliberate_stop",
            CloseCode::ServerShutdown => "server_shutdown",
            CloseCode::PermissionDenied => "permission_denied",
            CloseCode::UnclassifiedKick => "unclassified_kick",
            CloseCode::ConnectionEnded => "connection_ended",
            CloseCode::ConnectionFailed => "connection_failed",
            CloseCode::ConnectionTimeout => "connection_timeout",
            CloseCode::LoginTimeout => "login_timeout",
            CloseCode::SpawnTimeout => "spawn_timeout",
        }
    }
}

/// The text that goes with a close: the code itself, or the words of the peer.
#[derive(Debug, PartialEq, Eq)]
pub enum EndReason {
    Code(CloseCode),
    Text(String),
}

impl EndReason {
    pub open spec fn spec_text(self) -> Seq<char> {
        match self {
            EndReason::Code(code) => code.spec_text(),
            EndReason::Text(text) => text@,
        }
    }

    /// The reason as it is written in events.
    pub fn text(&self) -> (r: String)
        ensures
            r@ == self.spec_text(),
    {
        match self {
            EndReason::Code(code) => code.text().to_owned(),
            EndReason::Text(text) => text.clone(),
        }
    }
}

impl Clone for EndReason {
    fn clone(&self) -> (r: Self)
        ensures
            r == *self,
    {
        match self {
            EndReason::Code(code) => EndReason::Code(*code),
            EndReason::Text(text) => EndReason::Text(text.clone()),
        }
    }
}

/// A reason a server gave for ending the connection.
#[derive(Debug, PartialEq, Eq)]
pub struct BackendKick {
    pub text: String,
    pub during_login: bool,
}

impl Clone for BackendKick {
    fn clone(&self) -> (r: Self)
        ensures
            r == *self,
    {
        BackendKick { text: self.text.clone(), during_login: self.during_login }
    }
}

/// A transport error that ended the connection; its name is its close code.
#[derive(Debug, PartialEq, Eq)]
pub struct BackendCloseError {
    pub name: CloseCode,
    pub message: String,
}

impl Clone for BackendCloseError {
    fn clone(&self) -> (r: Self)
        ensures
            r == *self,
    {
        BackendCloseError { name: self.name, message: self.message.clone() }
    }
}

/// The end of one connection.
#[derive(Debug, PartialEq, Eq)]
pub struct BackendClose {
    pub epoch: u64,
    pub at: UtcInstant,
    pub code: CloseCode,
    pub retryable: bool,
    pub deliberate: bool,
    pub kick: Option<BackendKick>,
    pub error: Option<BackendCloseError>,
    pub end_reason: Option<EndReason>,
}

impl Clone for BackendClose {
    fn clone(&self) -> (r: Self)
        ensures
            r == *self,
    {
        BackendClose {
            epoch: self.epoch,
            at: self.at,
            code: self.code,
            retryable: self.retryable,
            deliberate: self.deliberate,
            kick: self.kick.clone(),
            error: self.error.clone(),
            end_reason: self.end_reason.clone(),
        }
    }
}

/// The classes of failure.
#[derive(Clone, Copy, Debug, PartialEq, Eq, Structural)]
pub enum BackendFailureCode {
    ProtocolError,
    PermissionDenied,
    AuthenticationFailed,
    ReconnectDisabled,
}

/// The physical action that a command or a boundary attempted.
#[derive(Clone, Copy, Debug, PartialEq, Eq, Structural)]
pub enum Actuation {
    Move,
    MoveRelease,
    CancelMove,
    ReleaseAll,
    ReleaseAllMove,
    DeathMove,
}

impl Actuation {
    pub open spec fn spec_text(self) -> Seq<char> {
        match self {
            Actuation::Move => "move"@,
            Actuation::MoveRelease => "move release"@,
            Actuation::CancelMove => "cancel move"@,
            Actuation::ReleaseAll => "release_all"@,
            Actuation::ReleaseAllMove => "release_all move"@,
            Actuation::DeathMove => "death move"@,
        }
    }

    /// The action as it is written in messages.
    pub fn text(&self) -> (r: &'static str)
        ensures
            r@ == self.spec_text(),
    {
        match self {
            Actuation::Move => "move",
            Actuation::MoveRelease => "move release",
            Actuation::CancelMove => "cancel move",
            Actuation::ReleaseAll => "release_all",
            Actuation::ReleaseAllMove => "release_all move",
            Actuation::DeathMove => "death move",
        }
    }
}

/// The public operations that can be refused or interrupted.
#[derive(Clone, Copy, Debug, PartialEq, Eq, Structural)]
pub enum PublicOperation {
    Start,
    Stop,
    LookRelative,
    Respawn,
    MoveInput,
    ReleaseAll,
    SendChat,
    ReadViewport,
    ReadDirectedViewport,
}

impl PublicOperation {
    pub open spec fn spec_text(self) -> Seq<char> {
        match self {
            PublicOperation::Start => "start"@,
            PublicOperation::Stop => "stop"@,
            PublicOperation::LookRelative => "look_relative"@,
            PublicOperation::Respawn => "respawn"@,
            PublicOperation::MoveInput => "move_input"@,
            PublicOperation::ReleaseAll => "release_all"@,
            PublicOperation::SendChat => "send_chat"@,
            PublicOperation::ReadViewport => "read_viewport"@,
            PublicOperation::ReadDirectedViewport => "read_directed_viewport"@,
        }
    }

    /// The operation's name.
    pub fn text(&self) -> (r: &'static str)
        ensures
            r@ == self.spec_text(),
    {
        match self {
            PublicOperation::Start => "start",
            PublicOperation::Stop => "stop",
            PublicOperation::LookRelative => "look_relative",
            PublicOperation::Respawn => "respawn",
            PublicOperation::MoveInput => "move_input",
            PublicOperation::ReleaseAll => "release_all",
            PublicOperation::SendChat => "send_chat",
            PublicOperation::ReadViewport => "read_viewport",
            PublicOperation::ReadDirectedViewport => "read_directed_viewport",
        }
    }
}

/// The message of a failure.
#[derive(Debug, PartialEq, Eq)]
pub enum FailureMessage {
    /// Words that came from outside.
    Text(String),
    /// A retryable close while reconnecting is switched off.
    ReconnectDisabled(CloseCode),
    /// A close that allows no retry and recorded no failure.
    NonRetryable(CloseCode),
    /// An action that found no local player to act on.
    RequiresLocalPlayer(Actuation),
    /// A command that the runtime did not take, with its complaint.
    Refused { operation: PublicOperation, error: CommandError },
    /// An equipment count that no contract value can hold.
    NegativeItemCount(i64),
    /// A game mode that the contract does not know.
    UnknownGameMode(String),
    /// An inventory count that no contract value can hold.
    NegativeInventoryCount(i32),
    /// An inventory slot that no contract value can hold.
    InventorySlotOverflow(u64),
    /// A ready event without a snapshot behind it.
    ReadyWithoutSnapshot,
    /// A ready event whose snapshot belongs to another attempt.
    ReadyIdentityMismatch,
    /// The facade is gone.
    FacadeDropped,
    /// A full viewport ray left the world.
    ViewportOutOfWorld,
    /// A control signal that carries neither cancellation nor deadline.
    ControlWokeWithoutCause(PublicOperation),
    /// The task of the run broke down.
    RuntimeTaskFailed(String),
    /// The run ended with an error.
    RuntimeExited(String),
    /// Waiting for the worker broke down.
    WorkerJoinFailed(String),
    /// The run ended before it had begun.
    RuntimeExitedEarly,
    /// The worker was told to wait for itself.
    WorkerJoinedItself,
    /// The worker panicked.
    WorkerPanicked,
}

impl FailureMessage {
    pub open spec fn spec_text(self) -> Seq<char> {
        match self {
            FailureMessage::Text(text) => text@,
            FailureMessage::ReconnectDisabled(code) => "reconnect disabled after close "@
                + code.spec_text(),
            FailureMessage::NonRetryable(code) => "backend closed with non-retryable code "@
                + code.spec_text(),
            FailureMessage::RequiresLocalPlayer(action) => action.spec_text()
                + " requires an active local player"@,
            FailureMessage::Refused { operation, error } => operation.spec_text() + ": "@
                + error.spec_text(),
            FailureMessage::NegativeItemCount(count) =>
            "cannot convert backend observation DTO entity.equipment.count: negative item count "@
                + signed_decimal(count as int),
            FailureMessage::UnknownGameMode(mode) =>
            "cannot convert runtime snapshot: unknown game mode "@ + mode@,
            FailureMessage::NegativeInventoryCount(count) =>
            "cannot convert runtime snapshot: negative inventory count "@ + signed_decimal(
                count as int,
            ),
            FailureMessage::InventorySlotOverflow(slot) =>
            "cannot convert runtime snapshot: inventory slot "@ + decimal(slot as nat)
                + " overflows u32"@,
            FailureMessage::ReadyWithoutSnapshot => "ready event has no runtime snapshot"@,
            FailureMessage::ReadyIdentityMismatch =>
            "ready snapshot identity does not match the ready event"@,
            FailureMessage::FacadeDropped => "backend facade has been dropped"@,
            FailureMessage::ViewportOutOfWorld =>
            "full viewport encountered an out-of-world ray coordinate"@,
            FailureMessage::ControlWokeWithoutCause(operation) => operation.spec_text()
                + " control woke without cancellation or deadline"@,
            FailureMessage::RuntimeTaskFailed(error) => "runtime task failed: "@ + error@,
            FailureMessage::RuntimeExited(error) => "runtime exited with error: "@ + error@,
            FailureMessage::WorkerJoinFailed(error) => "runtime worker join task failed: "@ + error@,
            FailureMessage::RuntimeExitedEarly => "runtime exited before a terminal lifecycle event"@,
            FailureMessage::WorkerJoinedItself => "runtime worker attempted to join itself"@,
            FailureMessage::WorkerPanicked => "runtime worker panicked while joining"@,
        }
    }

    /// The message in words.
    pub fn text(&self) -> (r: String)
        ensures
            r@ == self.spec_text(),
    {
        match self {
            FailureMessage::Text(text) => text.clone(),
            FailureMessage::ReconnectDisabled(code) => "reconnect disabled after close ".to_owned().concat(
            code.text()),
            FailureMessage::NonRetryable(code) => "backend closed with non-retryable code ".to_owned().concat(
            code.text()),
            FailureMessage::RequiresLocalPlayer(action) => action.text().to_owned().concat(
                " requires an active local player",
            ),
            FailureMessage::Refused { operation, error } => operation.text().to_owned().concat(
                ": ",
            ).concat(error.text().as_str()),
            FailureMessage::NegativeItemCount(count) => {
                let mut out =
                    "cannot convert backend observation DTO entity.equipment.count: negative item count ".to_owned();
                push_signed_decimal(&mut out, *count);
                out
            },
            FailureMessage::UnknownGameMode(mode) =>
            "cannot convert runtime snapshot: unknown game mode ".to_owned().concat(mode.as_str()),
            FailureMessage::NegativeInventoryCount(count) => {
                let mut out =
                    "cannot convert runtime snapshot: negative inventory count ".to_owned();
                push_signed_decimal(&mut out, *count as i64);
                out
            },
            FailureMessage::InventorySlotOverflow(slot) => {
                let mut out = "cannot convert runtime snapshot: inventory slot ".to_owned();
                push_decimal(&mut out, *slot);
                out.concat(" overflows u32")
            },
            FailureMessage::ReadyWithoutSnapshot =>
            "ready event has no runtime snapshot".to_owned(),
            FailureMessage::ReadyIdentityMismatch =>
            "ready snapshot identity does not match the ready event".to_owned(),
            FailureMessage::FacadeDropped => "backend facade has been dropped".to_owned(),
            FailureMessage::ViewportOutOfWorld =>
            "full viewport encountered an out-of-world ray coordinate".to_owned(),
            FailureMessage::ControlWokeWithoutCause(operation) => operation.text().to_owned().concat(
                " control woke without cancellation or deadline",
            ),
            FailureMessage::RuntimeTaskFailed(error) => "runtime task failed: ".to_owned().concat(error.as_str()),
            FailureMessage::RuntimeExited(error) => "runtime exited with error: ".to_owned().concat(error.as_str()),
            FailureMessage::WorkerJoinFailed(error) => "runtime worker join task failed: ".to_owned().concat(error.as_str()),
            FailureMessage::RuntimeExitedEarly => "runtime exited before a terminal lifecycle event".to_owned(),
            FailureMessage::WorkerJoinedItself => "runtime worker attempted to join itself".to_owned(),
            FailureMessage::WorkerPanicked => "runtime worker panicked while joining".to_owned(),
        }
    }
}

impl Clone for FailureMessage {
    fn clone(&self) -> (r: Self)
        ensures
            r == *self,
    {
        match self {
            FailureMessage::Text(text) => FailureMessage::Text(text.clone()),
            FailureMessage::ReconnectDisabled(code) => FailureMessage::ReconnectDisabled(*code),
            FailureMessage::NonRetryable(code) => FailureMessage::NonRetryable(*code),
            FailureMessage::RequiresLocalPlayer(action) => FailureMessage::RequiresLocalPlayer(
                *action,
            ),
            FailureMessage::Refused { operation, error } => FailureMessage::Refused {
                operation: *operation,
                error: error.clone(),
            },
            FailureMessage::NegativeItemCount(count) => FailureMessage::NegativeItemCount(*count),
            FailureMessage::UnknownGameMode(mode) => FailureMessage::UnknownGameMode(mode.clone()),
            FailureMessage::NegativeInventoryCount(count) => FailureMessage::NegativeInventoryCount(
                *count,
            ),
            FailureMessage::InventorySlotOverflow(slot) => FailureMessage::InventorySlotOverflow(
                *slot,
            ),
            FailureMessage::ReadyWithoutSnapshot => FailureMessage::ReadyWithoutSnapshot,
            FailureMessage::ReadyIdentityMismatch => FailureMessage::ReadyIdentityMismatch,
            FailureMessage::FacadeDropped => FailureMessage::FacadeDropped,
            FailureMessage::ViewportOutOfWorld => FailureMessage::ViewportOutOfWorld,
            FailureMessage::ControlWokeWithoutCause(operation) =>
            FailureMessage::ControlWokeWithoutCause(*operation),
            FailureMessage::RuntimeTaskFailed(error) => FailureMessage::RuntimeTaskFailed(error.clone()),
            FailureMessage::RuntimeExited(error) => FailureMessage::RuntimeExited(error.clone()),
            FailureMessage::WorkerJoinFailed(error) => FailureMessage::WorkerJoinFailed(error.clone()),
            FailureMessage::RuntimeExitedEarly => FailureMessage::RuntimeExitedEarly,
            FailureMessage::WorkerJoinedItself => FailureMessage::WorkerJoinedItself,
            FailureMessage::WorkerPanicked => FailureMessage::WorkerPanicked,
        }
    }
}

/// A failure of the backend.
#[derive(Debug, PartialEq, Eq)]
pub struct BackendFailure {
    pub code: BackendFailureCode,
    pub message: FailureMessage,
    pub retryable: bool,
}

impl Clone for BackendFailure {
    fn clone(&self) -> (r: Self)
        ensures
            r == *self,
    {
        BackendFailure {
            code: self.code,
            message: self.message.clone(),
            retryable: self.retryable,
        }
    }
}

/// The identity of a command.
#[derive(Debug, PartialEq, Eq)]
pub enum CommandId {
    /// A command that the handle made, by its ordinal.
    Sequence(u64),
    /// An identity given by the caller.
    Named(String),
}

impl CommandId {
    pub open spec fn spec_text(self) -> Seq<char> {
        match self {
            CommandId::Sequence(n) => "command-"@ + decimal(n as nat),
            CommandId::Named(text) => text@,
        }
    }

    /// The identity as it is written.
    pub fn text(&self) -> (r: String)
        ensures
            r@ == self.spec_text(),
    {
        match self {
            CommandId::Sequence(n) => numbered("command-", *n),
            CommandId::Named(text) => text.clone(),
        }
    }

    /// Identities are the same when they are written the same.
    pub fn same(&self, other: &CommandId) -> (r: bool)
        ensures
            r == (self.spec_text() == other.spec_text()),
    {
        self.text() == other.text()
    }
}

impl Clone for CommandId {
    fn clone(&self) -> (r: Self)
        ensures
            r == *self,
    {
        match self {
            CommandId::Sequence(n) => CommandId::Sequence(*n),
            CommandId::Named(text) => CommandId::Named(text.clone()),
        }
    }
}

/// The operation that was cancelled or ran out of time.
#[derive(Debug, PartialEq, Eq)]
pub enum Operation {
    /// A queued command, by its id.
    Command(CommandId),
    MovementSuperseded,
    MovementStoppedByDeath,
    MovementReleased,
    StopWatchdog,
    CancelledByCaller,
    /// A public operation.
    Public(PublicOperation),
}

impl Operation {
    pub open spec fn spec_text(self) -> Seq<char> {
        match self {
            Operation::Command(id) => "command:"@ + id.spec_text(),
            Operation::MovementSuperseded => "movement superseded or stopped"@,
            Operation::MovementStoppedByDeath => "movement stopped by death"@,
            Operation::MovementReleased => "movement released by release_all"@,
            Operation::StopWatchdog => "stop_watchdog"@,
            Operation::CancelledByCaller => "command completion cancelled by caller"@,
            Operation::Public(operation) => operation.spec_text(),
        }
    }

    /// The operation in words.
    pub fn text(&self) -> (r: String)
        ensures
            r@ == self.spec_text(),
    {
        match self {
            Operation::Command(id) => "command:".to_owned().concat(id.text().as_str()),
            Operation::MovementSuperseded => "movement superseded or stopped".to_owned(),
            Operation::MovementStoppedByDeath => "movement stopped by death".to_owned(),
            Operation::MovementReleased => "movement released by release_all".to_owned(),
            Operation::StopWatchdog => "stop_watchdog".to_owned(),
            Operation::CancelledByCaller => "command completion cancelled by caller".to_owned(),
            Operation::Public(operation) => operation.text().to_owned(),
        }
    }
}

impl Clone for Operation {
    fn clone(&self) -> (r: Self)
        ensures
            r == *self,
    {
        match self {
            Operation::Command(id) => Operation::Command(id.clone()),
            Operation::MovementSuperseded => Operation::MovementSuperseded,
            Operation::MovementStoppedByDeath => Operation::MovementStoppedByDeath,
            Operation::MovementReleased => Operation::MovementReleased,
            Operation::StopWatchdog => Operation::StopWatchdog,
            Operation::CancelledByCaller => Operation::CancelledByCaller,
            Operation::Public(operation) => Operation::Public(*operation),
        }
    }
}

/// What is missing when the backend cannot serve a request yet.
#[derive(Clone, Copy, Debug, PartialEq, Eq, Structural)]
pub enum Readiness {
    Idle,
    Connecting,
    LoggingIn,
    Spawning,
    Ready,
    Dead,
    Reconnecting,
    Stopping,
    Stopped,
    Faulted,
    NotReady,
    SnapshotUnavailable,
    FrameFactsUnavailable,
    SelfPoseUnavailable,
    ViewportSnapshotUnavailable,
    ViewportSourceUnavailable,
    ViewportWorldUnavailable,
    ViewportSnapshotEpochMismatch,
    ViewportCaptureChanged,
}

impl Readiness {
    pub open spec fn spec_text(self) -> Seq<char> {
        match self {
            Readiness::Idle => "idle"@,
            Readiness::Connecting => "connecting"@,
            Readiness::LoggingIn => "logging_in"@,
            Readiness::Spawning => "spawning"@,
            Readiness::Ready => "ready"@,
            Readiness::Dead => "dead"@,
            Readiness::Reconnecting => "reconnecting"@,
            Readiness::Stopping => "stopping"@,
            Readiness::Stopped => "stopped"@,
            Readiness::Faulted => "faulted"@,
            Readiness::NotReady => "not_ready"@,
            Readiness::SnapshotUnavailable => "snapshot_unavailable"@,
            Readiness::FrameFactsUnavailable => "frame_facts_unavailable"@,
            Readiness::SelfPoseUnavailable => "self_pose_unavailable"@,
            Readiness::ViewportSnapshotUnavailable => "viewport_snapshot_unavailable"@,
            Readiness::ViewportSourceUnavailable => "viewport_source_unavailable"@,
            Readiness::ViewportWorldUnavailable => "viewport_world_unavailable"@,
            Readiness::ViewportSnapshotEpochMismatch => "viewport_snapshot_epoch_mismatch"@,
            Readiness::ViewportCaptureChanged => "viewport_capture_changed"@,
        }
    }

    /// The state in words.
    pub fn text(&self) -> (r: &'static str)
        ensures
            r@ == self.spec_text(),
    {
        match self {
            Readiness::Idle => "idle",
            Readiness::Connecting => "connecting",
            Readiness::LoggingIn => "logging_in",
            Readiness::Spawning => "spawning",
            Readiness::Ready => "ready",
            Readiness::Dead => "dead",
            Readiness::Reconnecting => "reconnecting",
            Readiness::Stopping => "stopping",
            Readiness::Stopped => "stopped",
            Readiness::Faulted => "faulted",
            Readiness::NotReady => "not_ready",
            Readiness::SnapshotUnavailable => "snapshot_unavailable",
            Readiness::FrameFactsUnavailable => "frame_facts_unavailable",
            Readiness::SelfPoseUnavailable => "self_pose_unavailable",
            Readiness::ViewportSnapshotUnavailable => "viewport_snapshot_unavailable",
            Readiness::ViewportSourceUnavailable => "viewport_source_unavailable",
            Readiness::ViewportWorldUnavailable => "viewport_world_unavailable",
            Readiness::ViewportSnapshotEpochMismatch => "viewport_snapshot_epoch_mismatch",
            Readiness::ViewportCaptureChanged => "viewport_capture_changed",
        }
    }
}

/// What is wrong with a request.
#[derive(Debug, PartialEq, Eq)]
pub enum Complaint {
    NotSingleLine,
    StartAlreadyOwned,
    NotRepresentable,
    Text(String),
}

impl Complaint {
    pub open spec fn spec_text(self) -> Seq<char> {
        match self {
            Complaint::NotSingleLine => "must be non-empty single-line text"@,
            Complaint::StartAlreadyOwned => "start already has an owned attempt"@,
            Complaint::NotRepresentable => "cannot be represented by the runtime actuator"@,
            Complaint::Text(text) => text@,
        }
    }

    /// The complaint in words.
    pub fn text(&self) -> (r: String)
        ensures
            r@ == self.spec_text(),
    {
        match self {
            Complaint::NotSingleLine => "must be non-empty single-line text".to_owned(),
            Complaint::StartAlreadyOwned => "start already has an owned attempt".to_owned(),
            Complaint::NotRepresentable =>
            "cannot be represented by the runtime actuator".to_owned(),
            Complaint::Text(text) => text.clone(),
        }
    }
}

impl Clone for Complaint {
    fn clone(&self) -> (r: Self)
        ensures
            r == *self,
    {
        match self {
            Complaint::NotSingleLine => Complaint::NotSingleLine,
            Complaint::StartAlreadyOwned => Complaint::StartAlreadyOwned,
            Complaint::NotRepresentable => Complaint::NotRepresentable,
            Complaint::Text(text) => Complaint::Text(text.clone()),
        }
    }
}

/// The request field that a complaint is about.
#[derive(Clone, Copy, Debug, PartialEq, Eq, Structural)]
pub enum RequestField {
    Message,
    Lifecycle,
    Degrees,
    Viewport,
    Positions,
}

impl RequestField {
    pub open spec fn spec_text(self) -> Seq<char> {
        match self {
            RequestField::Message => "message"@,
            RequestField::Lifecycle => "lifecycle"@,
            RequestField::Degrees => "degrees"@,
            RequestField::Viewport => "viewport"@,
            RequestField::Positions => "positions"@,
        }
    }

    /// The field's name.
    pub fn text(&self) -> (r: &'static str)
        ensures
            r@ == self.spec_text(),
    {
        match self {
            RequestField::Message => "message",
            RequestField::Lifecycle => "lifecycle",
            RequestField::Degrees => "degrees",
            RequestField::Viewport => "viewport",
            RequestField::Positions => "positions",
        }
    }
}

/// The errors of the backend's operations.
#[derive(Debug, PartialEq, Eq)]
pub enum BackendError {
    NotReady { state: Readiness },
    StaleEpoch { bound_epoch: u64, current_epoch: u64 },
    Cancelled { operation: Operation },
    DeadlineExceeded { operation: Operation },
    InvalidCommand { field: RequestField, message: Complaint },
    BackendFailure { failure: BackendFailure },
    BackendClosed { close: BackendClose },
    SubscriptionClosed,
}

impl Clone for BackendError {
    fn clone(&self) -> (r: Self)
        ensures
            r == *self,
    {
        match self {
            BackendError::NotReady { state } => BackendError::NotReady { state: *state },
            BackendError::StaleEpoch { bound_epoch, current_epoch } => BackendError::StaleEpoch {
                bound_epoch: *bound_epoch,
                current_epoch: *current_epoch,
            },
            BackendError::Cancelled { operation } => BackendError::Cancelled {
                operation: operation.clone(),
            },
            BackendError::DeadlineExceeded { operation } => BackendError::DeadlineExceeded {
                operation: operation.clone(),
            },
            BackendError::InvalidCommand { field, message } => BackendError::InvalidCommand {
                field: *field,
                message: message.clone(),
            },
            BackendError::BackendFailure { failure } => BackendError::BackendFailure {
                failure: failure.clone(),
            },
            BackendError::BackendClosed { close } => BackendError::BackendClosed {
                close: close.clone(),
            },
            BackendError::SubscriptionClosed => BackendError::SubscriptionClosed,
        }
    }
}

/// The reason a stop was asked for.
#[derive(Debug, PartialEq, Eq)]
pub enum StopReason {
    Given(String),
    Watchdog,
}

impl StopReason {
    pub open spec fn spec_text(self) -> Seq<char> {
        match self {
            StopReason::Given(text) => text@,
            StopReason::Watchdog => "stop_watchdog"@,
        }
    }

    /// The reason in words.
    pub fn text(&self) -> (r: String)
        ensures
            r@ == self.spec_text(),
    {
        match self {
            StopReason::Given(text) => text.clone(),
            StopReason::Watchdog => "stop_watchdog".to_owned(),
        }
    }
}

impl Clone for StopReason {
    fn clone(&self) -> (r: Self)
        ensures
            r == *self,
    {
        match self {
            StopReason::Given(text) => StopReason::Given(text.clone()),
            StopReason::Watchdog => StopReason::Watchdog,
        }
    }
}

/// The identity of one connection attempt.
#[derive(Clone, Copy, Debug, PartialEq, Eq, Structural)]
pub struct AttemptId {
    pub epoch: u64,
}

impl AttemptId {
    /// The identity as it is written in events.
    pub fn text(&self) -> (r: String)
        ensures
            r@ == "attempt-"@ + decimal(self.epoch as nat),
    {
        numbered("attempt-", self.epoch)
    }
}

/// The lifecycle state that the runtime owns.
#[allow(inconsistent_fields)]
#[derive(Debug, PartialEq, Eq)]
pub enum BackendState {
    Idle,
    Connecting { epoch: u64, attempt_id: AttemptId, attempt: u32 },
    LoggingIn { epoch: u64, attempt_id: AttemptId, attempt: u32 },
    Spawning { epoch: u64, attempt_id: AttemptId, attempt: u32 },
    Ready { epoch: u64, attempt_id: AttemptId, ready_at: UtcInstant },
    Dead { epoch: u64, attempt_id: AttemptId, died_at: UtcInstant },
    Reconnecting { attempt: u32, retry_at: UtcInstant, last_close: BackendClose },
    Stopping { epoch: Option<u64>, reason: StopReason },
    Stopped { reason: Option<StopReason> },
    Faulted { failure: BackendFailure },
}

impl Clone for BackendState {
    fn clone(&self) -> (r: Self)
        ensures
            r == *self,
    {
        match self {
            BackendState::Idle => BackendState::Idle,
            BackendState::Connecting { epoch, attempt_id, attempt } => BackendState::Connecting {
                epoch: *epoch,
                attempt_id: *attempt_id,
                attempt: *attempt,
            },
            BackendState::LoggingIn { epoch, attempt_id, attempt } => BackendState::LoggingIn {
                epoch: *epoch,
                attempt_id: *attempt_id,
                attempt: *attempt,
            },
            BackendState::Spawning { epoch, attempt_id, attempt } => BackendState::Spawning {
                epoch: *epoch,
                attempt_id: *attempt_id,
                attempt: *attempt,
            },
            BackendState::Ready { epoch, attempt_id, ready_at } => BackendState::Ready {
                epoch: *epoch,
                attempt_id: *attempt_id,
                ready_at: *ready_at,
            },
            BackendState::Dead { epoch, attempt_id, died_at } => BackendState::Dead {
                epoch: *epoch,
                attempt_id: *attempt_id,
                died_at: *died_at,
            },
            BackendState::Reconnecting { attempt, retry_at, last_close } =>
            BackendState::Reconnecting {
                attempt: *attempt,
                retry_at: *retry_at,
                last_close: last_close.clone(),
            },
            BackendState::Stopping { epoch, reason } => BackendState::Stopping {
                epoch: *epoch,
                reason: reason.clone(),
            },
            BackendState::Stopped { reason } => BackendState::Stopped { reason: reason.clone() },
            BackendState::Faulted { failure } => BackendState::Faulted {
                failure: failure.clone(),
            },
        }
    }
}

/// Transitions of the connection's life.
#[derive(Debug, PartialEq, Eq)]
pub enum BackendLifecyclePayload {
    ConnectionRequested { attempt: u32 },
    TransportConnected,
    LoggedIn { version: String, dimension: String },
    Ready { snapshot_revision: u64 },
    Died,
    RespawnTransitionStarted { from_dimension: String },
    Respawned { dimension: String },
    DimensionChanged { from: String, to: String },
    ConnectionClosed { close: BackendClose },
    ReconnectScheduled { attempt: u32, retry_at: UtcInstant, close_code: CloseCode },
    Faulted { failure: BackendFailure },
    Stopped { reason: StopReason },
}

/// The part of a snapshot that changed.
#[derive(Clone, Copy, Debug, PartialEq, Eq)]
pub enum SnapshotGroup {
    World,
}

impl SnapshotGroup {
    pub open spec fn spec_text(self) -> Seq<char> {
        match self {
            SnapshotGroup::World => "world"@,
        }
    }

    /// The group's name.
    pub fn text(&self) -> (r: &'static str)
        ensures
            r@ == self.spec_text(),
    {
        match self {
            SnapshotGroup::World => "world",
        }
    }
}

/// Where the client shows a line.
#[derive(Clone, Copy, Debug, PartialEq, Eq)]
pub enum ChatPosition {
    Chat,
}

/// A chat line that the server delivered.
#[derive(Debug, PartialEq, Eq)]
pub struct ChatEvent {
    pub sender_username: Option<String>,
    pub plain_text: String,
    pub position: Option<ChatPosition>,
    /// Whether the sender's signature was checked, where anyone tried.
    pub verified: Option<bool>,
}

/// A change of the server's player list.
#[derive(Debug, PartialEq, Eq)]
pub enum PlayerListEvent {
    Add { uuid: String, username: String },
    Remove { uuid: String, username: String },
    Update { uuid: String, username: String },
}

/// A sound that was heard.
#[derive(Debug, PartialEq, Eq)]
pub struct SoundEvent {
    pub sound_name: String,
    pub source_position: Vec3Value,
    pub volume: Double,
    pub pitch: Double,
}

/// A change of one block.
#[derive(Debug, PartialEq, Eq)]
pub struct BlockEvent {
    pub x: i32,
    pub y: i32,
    pub z: i32,
    pub name: String,
}

/// The kinds of event that one loss segment swallowed, in first-seen order.
#[derive(Clone, Copy, Debug, PartialEq, Eq, Structural)]
pub struct DroppedKinds {
    pub first: BackendEventKind,
    pub second: Option<BackendEventKind>,
    pub third: Option<BackendEventKind>,
}

impl DroppedKinds {
    /// The kinds as a sequence.
    pub open spec fn seq(self) -> Seq<BackendEventKind> {
        match (self.second, self.third) {
            (Some(second), Some(third)) => seq![self.first, second, third],
            (Some(second), None) => seq![self.first, second],
            (None, _) => seq![self.first],
        }
    }

    /// The kinds with one more, if it is new. Only three kinds can be lost.
    pub open spec fn with_kind(self, kind: BackendEventKind) -> DroppedKinds {
        if self.first == kind {
            self
        } else {
            match (self.second, self.third) {
                (None, _) => DroppedKinds { second: Some(kind), ..self },
                (Some(second), None) => if second == kind {
                    self
                } else {
                    DroppedKinds { third: Some(kind), ..self }
                },
                (Some(_), Some(_)) => self,
            }
        }
    }

    /// Records one more kind.
    pub fn record(&mut self, kind: BackendEventKind)
        ensures
            *final(self) == old(self).with_kind(kind),
    {
        if self.first == kind {
            return;
        }
        match self.second {
            None => {
                self.second = Some(kind);
            },
            Some(second) => {
                if second == kind {
                    return;
                }
                match self.third {
                    None => {
                        self.third = Some(kind);
                    },
                    Some(_) => {},
                }
            },
        }
    }

    /// The kinds in first-seen order.
    pub fn to_vec(&self) -> (kinds: Vec<BackendEventKind>)
        ensures
            kinds@ == self.seq(),
    {
        let mut kinds: Vec<BackendEventKind> = Vec::new();
        kinds.push(self.first);
        if let Some(second) = self.second {
            kinds.push(second);
            if let Some(third) = self.third {
                kinds.push(third);
            }
        }
        assert(kinds@ =~= self.seq());
        kinds
    }
}

/// What an event says.
#[derive(Debug, PartialEq, Eq)]
pub enum BackendEventPayload {
    Lifecycle(BackendLifecyclePayload),
    Chat(ChatEvent),
    PlayerList(PlayerListEvent),
    SnapshotChanged { group: SnapshotGroup, snapshot_revision: u64 },
    Entity(NormalizedEntityEvent),
    Block(BlockEvent),
    Sound(SoundEvent),
    Overflow { dropped_count: u64, dropped_kinds: DroppedKinds },
}

impl BackendEventPayload {
    pub open spec fn spec_kind(self) -> BackendEventKind {
        match self {
            BackendEventPayload::Lifecycle(_) => BackendEventKind::Lifecycle,
            BackendEventPayload::Chat(_) => BackendEventKind::Chat,
            BackendEventPayload::PlayerList(_) => BackendEventKind::PlayerList,
            BackendEventPayload::SnapshotChanged { .. } => BackendEventKind::SnapshotChanged,
            BackendEventPayload::Entity(_) => BackendEventKind::Entity,
            BackendEventPayload::Block(_) => BackendEventKind::Block,
            BackendEventPayload::Sound(_) => BackendEventKind::Sound,
            BackendEventPayload::Overflow { .. } => BackendEventKind::Overflow,
        }
    }

    /// The family of the event.
    pub fn kind(&self) -> (kind: BackendEventKind)
        ensures
            kind == self.spec_kind(),
    {
        match self {
            BackendEventPayload::Lifecycle(_) => BackendEventKind::Lifecycle,
            BackendEventPayload::Chat(_) => BackendEventKind::Chat,
            BackendEventPayload::PlayerList(_) => BackendEventKind::PlayerList,
            BackendEventPayload::SnapshotChanged { .. } => BackendEventKind::SnapshotChanged,
            BackendEventPayload::Entity(_) => BackendEventKind::Entity,
            BackendEventPayload::Block(_) => BackendEventKind::Block,
            BackendEventPayload::Sound(_) => BackendEventKind::Sound,
            BackendEventPayload::Overflow { .. } => BackendEventKind::Overflow,
        }
    }
}

/// The identity of an event.
#[derive(Debug, PartialEq, Eq)]
pub enum EventId {
    /// An event that the runtime wrote, by its ordinal.
    Event(u64),
    /// A loss marker of the runtime's own dispatch queue.
    DispatchOverflow(u64),
    /// A loss marker of a runtime subscriber.
    RuntimeOverflow(u64),
    /// A loss marker of the public bridge.
    Overflow(u64),
    /// An identity given from outside.
    Named(String),
}

impl EventId {
    pub open spec fn spec_text(self) -> Seq<char> {
        match self {
            EventId::Event(n) => "event-"@ + decimal(n as nat),
            EventId::DispatchOverflow(n) => "runtime-dispatch-overflow-"@ + decimal(n as nat),
            EventId::RuntimeOverflow(n) => "runtime-overflow-"@ + decimal(n as nat),
            EventId::Overflow(n) => "overflow-"@ + decimal(n as nat),
            EventId::Named(text) => text@,
        }
    }

    /// The identity as it is written.
    pub fn text(&self) -> (r: String)
        ensures
            r@ == self.spec_text(),
    {
        match self {
            EventId::Event(n) => numbered("event-", *n),
            EventId::DispatchOverflow(n) => numbered("runtime-dispatch-overflow-", *n),
            EventId::RuntimeOverflow(n) => numbered("runtime-overflow-", *n),
            EventId::Overflow(n) => numbered("overflow-", *n),
            EventId::Named(text) => text.clone(),
        }
    }
}

/// An event with its metadata.
#[derive(Debug, PartialEq, Eq)]
pub struct BackendEventEnvelope {
    pub id: EventId,
    pub occurred_at: UtcInstant,
    pub process_session_id: String,
    pub connection_epoch: u64,
    pub connection_attempt_id: AttemptId,
    pub world_id: String,
    pub dimension: Option<String>,
    pub source: FactSource,
    pub payload: BackendEventPayload,
}

impl BackendEventEnvelope {
    pub open spec fn spec_kind(self) -> BackendEventKind {
        self.payload.spec_kind()
    }

    /// The family of the event.
    pub fn kind(&self) -> (kind: BackendEventKind)
        ensures
            kind == self.spec_kind(),
    {
        self.payload.kind()
    }

    /// A fact about the world that a later read can rebuild: it may be dropped.
    pub open spec fn droppable(self) -> bool {
        self.spec_kind() == BackendEventKind::Entity || self.spec_kind() == BackendEventKind::Block
            || self.spec_kind() == BackendEventKind::Sound
    }

    /// The event that ends the runtime's life.
    pub open spec fn terminal(self) -> bool {
        self.payload matches BackendEventPayload::Lifecycle(
            BackendLifecyclePayload::Stopped { .. },
        )
    }

    /// Tells whether the event may be dropped under pressure.
    pub fn is_droppable(&self) -> (r: bool)
        ensures
            r == self.droppable(),
    {
        match self.payload {
            BackendEventPayload::Entity(_) => true,
            BackendEventPayload::Block(_) => true,
            BackendEventPayload::Sound(_) => true,
            _ => false,
        }
    }

    /// Tells whether the event ends the runtime's life.
    pub fn is_terminal(&self) -> (r: bool)
        ensures
            r == self.terminal(),
    {
        match &self.payload {
            BackendEventPayload::Lifecycle(BackendLifecyclePayload::Stopped { .. }) => true,
            _ => false,
        }
    }
}

/// No event is both droppable and terminal.
pub proof fn law_terminal_events_are_never_droppable(event: BackendEventEnvelope)
    ensures
        !(event.terminal() && event.droppable()),
{
}

/// What may be dropped under pressure is what a later read of the world can
/// rebuild, and nothing else: entities, blocks and sounds. Only the report of
/// the stop ends the runtime's life.
pub proof fn law_only_facts_of_the_world_may_be_dropped(event: BackendEventEnvelope)
    ensures
        event.droppable() <==> event.payload is Entity || event.payload is Block
            || event.payload is Sound,
        event.terminal() <==> (event.payload matches BackendEventPayload::Lifecycle(what)
            && what is Stopped),
{
}

/// An event is of the family that its payload is of.
pub proof fn law_events_are_of_their_payloads_family(event: BackendEventEnvelope)
    ensures
        event.spec_kind() == event.payload.spec_kind(),
        event.payload is Lifecycle <==> event.spec_kind() == BackendEventKind::Lifecycle,
        event.payload is Chat <==> event.spec_kind() == BackendEventKind::Chat,
        event.payload is PlayerList <==> event.spec_kind() == BackendEventKind::PlayerList,
        event.payload is SnapshotChanged <==> event.spec_kind()
            == BackendEventKind::SnapshotChanged,
        event.payload is Entity <==> event.spec_kind() == BackendEventKind::Entity,
        event.payload is Block <==> event.spec_kind() == BackendEventKind::Block,
        event.payload is Sound <==> event.spec_kind() == BackendEventKind::Sound,
        event.payload is Overflow <==> event.spec_kind() == BackendEventKind::Overflow,
{
}

/// The kinds of a loss are told in the order in which they were first lost, each
/// once; a kind that was lost is never left out.
pub proof fn law_lost_kinds_are_remembered(kinds: DroppedKinds, kind: BackendEventKind)
    requires
        kinds.third is Some ==> kinds.second is Some && kinds.seq().contains(kind),
        kinds.seq().no_duplicates(),
    ensures
        kinds.with_kind(kind).seq() == (if kinds.seq().contains(kind) {
            kinds.seq()
        } else {
            kinds.seq().push(kind)
        }),
        kinds.with_kind(kind).seq().no_duplicates(),
        kinds.with_kind(kind).third is Some ==> kinds.with_kind(kind).second is Some,
{
    let before = kinds.seq();
    let after = kinds.with_kind(kind).seq();
    assert(before[0] == kinds.first);
    if before.contains(kind) {
        let i = choose|i: int| 0 <= i < before.len() && before[i] == kind;
        assert(after =~= before);
    } else {
        if kinds.second is Some {
            assert(before[1] == kinds.second->0);
        }
        assert(after =~= before.push(kind));
        assert forall|i: int, j: int| 0 <= i < j < after.len() implies after[i] != after[j] by {
            assert(before.contains(before[i]));
            if j < before.len() {
                assert(before[i] != before[j]);
            }
        }
    }
}

} // verus!
