//! The words that events, errors and messages are written with.

use vstd::prelude::*;

use crate::command::{CommandError, CommandProtocol};
use crate::config::ConfigError;
use crate::contract::{
    Actuation, CloseCode, CommandId, Complaint, EndReason, EventId, FailureMessage, Operation,
    PublicOperation, Readiness, RequestField, SnapshotGroup, StopReason,
};
use crate::entity_events::{EntityPose, PacketKind, TokenName};
use crate::text::{decimal, signed_decimal};
use crate::wire::WireError;

verus! {

/// How a connection ended is written with these codes.
pub proof fn law_ends_are_written(code: CloseCode)
    ensures
        match code {
            CloseCode::DeliberateStop => code.spec_text() == "deliberate_stop"@,
            CloseCode::ServerShutdown => code.spec_text() == "server_shutdown"@,
            CloseCode::PermissionDenied => code.spec_text() == "permission_denied"@,
            CloseCode::UnclassifiedKick => code.spec_text() == "unclassified_kick"@,
            CloseCode::ConnectionEnded => code.spec_text() == "connection_ended"@,
            CloseCode::ConnectionFailed => code.spec_text() == "connection_failed"@,
            CloseCode::ConnectionTimeout => code.spec_text() == "connection_timeout"@,
            CloseCode::LoginTimeout => code.spec_text() == "login_timeout"@,
            CloseCode::SpawnTimeout => code.spec_text() == "spawn_timeout"@,
        },
{
}

/// The reason of an end is written as its code, or in the words that were given.
pub proof fn law_end_reasons_are_written(reason: EndReason)
    ensures
        match reason {
            EndReason::Code(code) => reason.spec_text() == code.spec_text(),
            EndReason::Text(text) => reason.spec_text() == text@,
        },
{
}

/// The actions of the client are written with these words.
pub proof fn law_actions_are_written(action: Actuation)
    ensures
        match action {
            Actuation::Move => action.spec_text() == "move"@,
            Actuation::MoveRelease => action.spec_text() == "move release"@,
            Actuation::CancelMove => action.spec_text() == "cancel move"@,
            Actuation::ReleaseAll => action.spec_text() == "release_all"@,
            Actuation::ReleaseAllMove => action.spec_text() == "release_all move"@,
            Actuation::DeathMove => action.spec_text() == "death move"@,
        },
{
}

/// The public operations are written with these words.
pub proof fn law_public_operations_are_written(operation: PublicOperation)
    ensures
        match operation {
            PublicOperation::Start => operation.spec_text() == "start"@,
            PublicOperation::Stop => operation.spec_text() == "stop"@,
            PublicOperation::LookRelative => operation.spec_text() == "look_relative"@,
            PublicOperation::Respawn => operation.spec_text() == "respawn"@,
            PublicOperation::MoveInput => operation.spec_text() == "move_input"@,
            PublicOperation::ReleaseAll => operation.spec_text() == "release_all"@,
            PublicOperation::SendChat => operation.spec_text() == "send_chat"@,
            PublicOperation::ReadViewport => operation.spec_text() == "read_viewport"@,
            PublicOperation::ReadDirectedViewport => operation.spec_text() == "read_directed_viewport"@,
        },
{
}

/// Failures are explained in these words.
pub proof fn law_failures_are_written(message: FailureMessage)
    ensures
        match message {
            FailureMessage::Text(text) => message.spec_text() == text@,
            FailureMessage::ReconnectDisabled(code) => message.spec_text() == "reconnect disabled after close "@ + code.spec_text(),
            FailureMessage::NonRetryable(code) => message.spec_text() == "backend closed with non-retryable code "@ + code.spec_text(),
            FailureMessage::RequiresLocalPlayer(action) => message.spec_text() == action.spec_text() + " requires an active local player"@,
            FailureMessage::Refused { operation, error } => message.spec_text() == operation.spec_text() + ": "@ + error.spec_text(),
            FailureMessage::NegativeItemCount(count) => message.spec_text() == "cannot convert backend observation DTO entity.equipment.count: negative item count "@ + signed_decimal(count as int),
            FailureMessage::UnknownGameMode(mode) => message.spec_text() == "cannot convert runtime snapshot: unknown game mode "@ + mode@,
            FailureMessage::NegativeInventoryCount(count) => message.spec_text() == "cannot convert runtime snapshot: negative inventory count "@ + signed_decimal( count as int, ),
            FailureMessage::InventorySlotOverflow(slot) => message.spec_text() == "cannot convert runtime snapshot: inventory slot "@ + decimal(slot as nat) + " overflows u32"@,
            FailureMessage::ReadyWithoutSnapshot => message.spec_text() == "ready event has no runtime snapshot"@,
            FailureMessage::ReadyIdentityMismatch => message.spec_text() == "ready snapshot identity does not match the ready event"@,
            FailureMessage::FacadeDropped => message.spec_text() == "backend facade has been dropped"@,
            FailureMessage::ViewportOutOfWorld => message.spec_text() == "full viewport encountered an out-of-world ray coordinate"@,
            FailureMessage::ControlWokeWithoutCause(operation) => message.spec_text() == operation.spec_text() + " control woke without cancellation or deadline"@,
            FailureMessage::RuntimeTaskFailed(error) => message.spec_text() == "runtime task failed: "@ + error@,
            FailureMessage::RuntimeExited(error) => message.spec_text() == "runtime exited with error: "@ + error@,
            FailureMessage::WorkerJoinFailed(error) => message.spec_text() == "runtime worker join task failed: "@ + error@,
            FailureMessage::RuntimeExitedEarly => message.spec_text() == "runtime exited before a terminal lifecycle event"@,
            FailureMessage::WorkerJoinedItself => message.spec_text() == "runtime worker attempted to join itself"@,
            FailureMessage::WorkerPanicked => message.spec_text() == "runtime worker panicked while joining"@,
        },
{
}

/// A command is known by its ordinal, or by the name that it was given.
pub proof fn law_command_identities_are_written(id: CommandId)
    ensures
        match id {
            CommandId::Sequence(n) => id.spec_text() == "command-"@ + decimal(n as nat),
            CommandId::Named(text) => id.spec_text() == text@,
        },
{
}

/// What was cancelled is told in these words.
pub proof fn law_operations_are_written(operation: Operation)
    ensures
        match operation {
            Operation::Command(id) => operation.spec_text() == "command:"@ + id.spec_text(),
            Operation::MovementSuperseded => operation.spec_text() == "movement superseded or stopped"@,
            Operation::MovementStoppedByDeath => operation.spec_text() == "movement stopped by death"@,
            Operation::MovementReleased => operation.spec_text() == "movement released by release_all"@,
            Operation::StopWatchdog => operation.spec_text() == "stop_watchdog"@,
            Operation::CancelledByCaller => operation.spec_text() == "command completion cancelled by caller"@,
            Operation::Public(operation) => operation.spec_text() == operation.spec_text(),
        },
{
}

/// What the backend is, or lacks, is told in these words.
pub proof fn law_readiness_is_written(readiness: Readiness)
    ensures
        match readiness {
            Readiness::Idle => readiness.spec_text() == "idle"@,
            Readiness::Connecting => readiness.spec_text() == "connecting"@,
            Readiness::LoggingIn => readiness.spec_text() == "logging_in"@,
            Readiness::Spawning => readiness.spec_text() == "spawning"@,
            Readiness::Ready => readiness.spec_text() == "ready"@,
            Readiness::Dead => readiness.spec_text() == "dead"@,
            Readiness::Reconnecting => readiness.spec_text() == "reconnecting"@,
            Readiness::Stopping => readiness.spec_text() == "stopping"@,
            Readiness::Stopped => readiness.spec_text() == "stopped"@,
            Readiness::Faulted => readiness.spec_text() == "faulted"@,
            Readiness::NotReady => readiness.spec_text() == "not_ready"@,
            Readiness::SnapshotUnavailable => readiness.spec_text() == "snapshot_unavailable"@,
            Readiness::FrameFactsUnavailable => readiness.spec_text() == "frame_facts_unavailable"@,
            Readiness::SelfPoseUnavailable => readiness.spec_text() == "self_pose_unavailable"@,
            Readiness::ViewportSnapshotUnavailable => readiness.spec_text() == "viewport_snapshot_unavailable"@,
            Readiness::ViewportSourceUnavailable => readiness.spec_text() == "viewport_source_unavailable"@,
            Readiness::ViewportWorldUnavailable => readiness.spec_text() == "viewport_world_unavailable"@,
            Readiness::ViewportSnapshotEpochMismatch => readiness.spec_text() == "viewport_snapshot_epoch_mismatch"@,
            Readiness::ViewportCaptureChanged => readiness.spec_text() == "viewport_capture_changed"@,
        },
{
}

/// What is wrong with a request is told in these words.
pub proof fn law_complaints_are_written(complaint: Complaint)
    ensures
        match complaint {
            Complaint::NotSingleLine => complaint.spec_text() == "must be non-empty single-line text"@,
            Complaint::StartAlreadyOwned => complaint.spec_text() == "start already has an owned attempt"@,
            Complaint::NotRepresentable => complaint.spec_text() == "cannot be represented by the runtime actuator"@,
            Complaint::Text(text) => complaint.spec_text() == text@,
        },
{
}

/// The fields of a request have these names.
pub proof fn law_request_fields_are_written(field: RequestField)
    ensures
        match field {
            RequestField::Message => field.spec_text() == "message"@,
            RequestField::Lifecycle => field.spec_text() == "lifecycle"@,
            RequestField::Degrees => field.spec_text() == "degrees"@,
            RequestField::Viewport => field.spec_text() == "viewport"@,
            RequestField::Positions => field.spec_text() == "positions"@,
        },
{
}

/// A stop is told with the reason that was given, or with its watchdog.
pub proof fn law_stop_reasons_are_written(reason: StopReason)
    ensures
        match reason {
            StopReason::Given(text) => reason.spec_text() == text@,
            StopReason::Watchdog => reason.spec_text() == "stop_watchdog"@,
        },
{
}

/// The groups of a snapshot have these names.
pub proof fn law_snapshot_groups_are_written(group: SnapshotGroup)
    ensures
        match group {
            SnapshotGroup::World => group.spec_text() == "world"@,
        },
{
}

/// An event is known by its number and by what kind of event it is.
pub proof fn law_event_identities_are_written(id: EventId)
    ensures
        match id {
            EventId::Event(n) => id.spec_text() == "event-"@ + decimal(n as nat),
            EventId::DispatchOverflow(n) => id.spec_text() == "runtime-dispatch-overflow-"@ + decimal(n as nat),
            EventId::RuntimeOverflow(n) => id.spec_text() == "runtime-overflow-"@ + decimal(n as nat),
            EventId::Overflow(n) => id.spec_text() == "overflow-"@ + decimal(n as nat),
            EventId::Named(text) => id.spec_text() == text@,
        },
{
}

/// The command protocol has one name.
pub proof fn law_protocols_are_written(protocol: CommandProtocol)
    ensures
        match protocol {
            CommandProtocol::Current => protocol.spec_text() == "mineintent.minecraft.backend-command.v1"@,
            CommandProtocol::Other(text) => protocol.spec_text() == text@,
        },
{
}

/// Why a command is refused is told in these words.
pub proof fn law_refusals_are_written(error: CommandError)
    ensures
        match error {
            CommandError::UnsupportedProtocol(given) => error.spec_text() == "不支持的命令协议："@ + given@ + "，期望 "@ + "mineintent.minecraft.backend-command.v1"@,
            CommandError::ChatNotSingleLine => error.spec_text() == "聊天消息必须是非空的单行文本"@,
            CommandError::YawOutOfRange => error.spec_text() == "相对 yaw 必须是 ±90 度以内的有限数"@,
            CommandError::PitchOutOfRange => error.spec_text() == "相对 pitch 必须是 ±90 度以内的有限数"@,
            CommandError::DirectionCount => error.spec_text() == "移动方向必须包含 1 到 4 个按键"@,
            CommandError::DuplicateDirection => error.spec_text() == "移动方向不能重复"@,
            CommandError::DurationOutOfRange => error.spec_text() == "移动时长必须是 50 到 1500 毫秒"@,
            CommandError::Stopping => error.spec_text() == "runtime is stopping"@,
            CommandError::StaleEpoch { bound, current } => error.spec_text() == "stale command epoch: bound Some("@ + decimal(bound as nat) + "), current "@ + decimal(current as nat),
        },
{
}

/// What is wrong with a configuration is told in these words.
pub proof fn law_configuration_errors_are_written(error: ConfigError)
    ensures
        match error {
            ConfigError::HostEmpty => error.spec_text() == "服务器 host 不能为空"@,
            ConfigError::PortZero => error.spec_text() == "服务器 port 不能为 0"@,
            ConfigError::Username => error.spec_text() == "offline 用户名必须是 1–16 个 ASCII 字母、数字或下划线"@,
            ConfigError::WorldIdEmpty => error.spec_text() == "world_id 不能为空"@,
            ConfigError::TimeoutZero => error.spec_text() == "transport timeout 必须大于 0"@,
            ConfigError::Multiplier => error.spec_text() == "reconnect multiplier 必须是有限且不小于 1 的数"@,
            ConfigError::JitterRatio => error.spec_text() == "reconnect jitter ratio 必须在 0 到 1 之间"@,
        },
{
}

/// A pose is written in one word.
pub proof fn law_poses_are_written(pose: EntityPose)
    ensures
        match pose {
            EntityPose::Standing => pose.spec_text() == "standing"@,
            EntityPose::Named(text) => pose.spec_text() == text@,
        },
{
}

/// The kinds of entity packets have these names.
pub proof fn law_packet_kinds_are_written(kind: PacketKind)
    ensures
        match kind {
            PacketKind::Add => kind.spec_text() == "add"@,
            PacketKind::MovePos => kind.spec_text() == "move-pos"@,
            PacketKind::MovePosRot => kind.spec_text() == "move-pos-rot"@,
            PacketKind::MoveRot => kind.spec_text() == "move-rot"@,
            PacketKind::Teleport => kind.spec_text() == "teleport"@,
            PacketKind::PositionSync => kind.spec_text() == "position-sync"@,
            PacketKind::RotateHead => kind.spec_text() == "rotate-head"@,
            PacketKind::SetMotion => kind.spec_text() == "set-motion"@,
        },
{
}

/// A token is known by the number of its packet and by what the packet told.
pub proof fn law_token_names_are_written(name: TokenName)
    ensures
        match name {
            TokenName::Packet { admission, kind } => name.spec_text() == "packet-admission:"@ + decimal( admission as nat, ) + ":"@ + kind.spec_text(),
            TokenName::Removal { admission, id, index } => name.spec_text() == "packet-admission:"@ + decimal( admission as nat, ) + ":remove:MinecraftEntityId("@ + signed_decimal(id as int) + "):"@ + decimal( index as nat, ),
            TokenName::Named(text) => name.spec_text() == text@,
        },
{
}

/// Why a message cannot be read is told in these words.
pub proof fn law_wire_errors_are_written(error: WireError)
    ensures
        match error {
            WireError::MissingType => error.spec_text() == "命令缺少字符串字段 type"@,
            WireError::UnknownType(kind) => error.spec_text() == "未知命令类型："@ + kind@,
            WireError::BadFields => error.spec_text() == "命令字段不合法"@,
        },
{
}

} // verus!
