//! Commands, their validation and the state of their completion.

use vstd::prelude::*;
use vstd::string::*;

use crate::contract::{
    Actuation, BackendError, BackendFailure, BackendFailureCode, CommandId, FailureMessage,
    Operation,
};
use crate::number::Single;
use crate::text::{chars_of, decimal, push_decimal};
use crate::time::UtcInstant;

verus! {

/// The version of the command protocol.
pub const BACKEND_COMMAND_PROTOCOL: &'static str = "mineintent.minecraft.backend-command.v1";

/// The version of the event protocol.
pub const BACKEND_EVENT_PROTOCOL: &'static str = "mineintent.minecraft.backend-event.v2";

/// How long a requested respawn waits for the server to settle, in milliseconds.
pub const RESPAWN_SETTLE_DELAY_MS: u64 = 100;

/// A movement key.
#[derive(Clone, Copy, Debug, PartialEq, Eq, Structural)]
pub enum MotorDirection {
    Forward,
    Back,
    Left,
    Right,
}

/// What a caller asks the bot to do.
#[derive(Debug, PartialEq, Eq)]
pub enum BackendCommand {
    SendChat { message: String },
    LookRelative { yaw_degrees: Single, pitch_degrees: Single },
    Move {
        directions: Vec<MotorDirection>,
        duration_ms: u64,
        sprint: Option<bool>,
        jump: Option<bool>,
        crouch: Option<bool>,
    },
    ReleaseAll,
    Respawn,
}

/// The protocol that a command claims to speak.
#[derive(Debug, PartialEq, Eq)]
pub enum CommandProtocol {
    Current,
    Other(String),
}

impl CommandProtocol {
    pub open spec fn spec_text(self) -> Seq<char> {
        match self {
            CommandProtocol::Current => "mineintent.minecraft.backend-command.v1"@,
            CommandProtocol::Other(text) => text@,
        }
    }

    /// Reads a protocol name.
    pub fn parse(name: String) -> (protocol: CommandProtocol)
        ensures
            protocol.spec_text() == name@,
            protocol is Current <==> name@ == "mineintent.minecraft.backend-command.v1"@,
    {
        let current = "mineintent.minecraft.backend-command.v1".to_owned();
        if name == current {
            CommandProtocol::Current
        } else {
            CommandProtocol::Other(name)
        }
    }

    /// The protocol's name.
    pub fn text(&self) -> (r: String)
        ensures
            r@ == self.spec_text(),
    {
        match self {
            CommandProtocol::Current => "mineintent.minecraft.backend-command.v1".to_owned(),
            CommandProtocol::Other(text) => text.clone(),
        }
    }
}

/// A command with its metadata.
#[derive(Debug, PartialEq, Eq)]
pub struct BackendCommandEnvelope {
    pub protocol: CommandProtocol,
    pub id: CommandId,
    pub issued_at: UtcInstant,
    pub command: BackendCommand,
}

/// Why a command was not taken.
#[derive(Debug, PartialEq, Eq)]
pub enum CommandError {
    UnsupportedProtocol(String),
    ChatNotSingleLine,
    YawOutOfRange,
    PitchOutOfRange,
    DirectionCount,
    DuplicateDirection,
    DurationOutOfRange,
    Stopping,
    StaleEpoch { bound: u64, current: u64 },
}

impl CommandError {
    pub open spec fn spec_text(self) -> Seq<char> {
        match self {
            CommandError::UnsupportedProtocol(given) => "不支持的命令协议："@ + given@ + "，期望 "@
                + "mineintent.minecraft.backend-command.v1"@,
            CommandError::ChatNotSingleLine => "聊天消息必须是非空的单行文本"@,
            CommandError::YawOutOfRange => "相对 yaw 必须是 ±90 度以内的有限数"@,
            CommandError::PitchOutOfRange => "相对 pitch 必须是 ±90 度以内的有限数"@,
            CommandError::DirectionCount => "移动方向必须包含 1 到 4 个按键"@,
            CommandError::DuplicateDirection => "移动方向不能重复"@,
            CommandError::DurationOutOfRange => "移动时长必须是 50 到 1500 毫秒"@,
            CommandError::Stopping => "runtime is stopping"@,
            CommandError::StaleEpoch { bound, current } => "stale command epoch: bound Some("@
                + decimal(bound as nat) + "), current "@ + decimal(current as nat),
        }
    }

    /// The message for the caller.
    pub fn text(&self) -> (r: String)
        ensures
            r@ == self.spec_text(),
    {
        match self {
            CommandError::UnsupportedProtocol(given) => "不支持的命令协议：".to_owned().concat(
                given.as_str(),
            ).concat("，期望 ").concat("mineintent.minecraft.backend-command.v1"),
            CommandError::ChatNotSingleLine => "聊天消息必须是非空的单行文本".to_owned(),
            CommandError::YawOutOfRange => "相对 yaw 必须是 ±90 度以内的有限数".to_owned(),
            CommandError::PitchOutOfRange => "相对 pitch 必须是 ±90 度以内的有限数".to_owned(),
            CommandError::DirectionCount => "移动方向必须包含 1 到 4 个按键".to_owned(),
            CommandError::DuplicateDirection => "移动方向不能重复".to_owned(),
            CommandError::DurationOutOfRange => "移动时长必须是 50 到 1500 毫秒".to_owned(),
            CommandError::Stopping => "runtime is stopping".to_owned(),
            CommandError::StaleEpoch { bound, current } => {
                let mut out = "stale command epoch: bound Some(".to_owned();
                push_decimal(&mut out, *bound);
                let mut out = out.concat("), current ");
                push_decimal(&mut out, *current);
                out
            },
        }
    }
}

impl Clone for CommandError {
    fn clone(&self) -> (r: Self)
        ensures
            r == *self,
    {
        match self {
            CommandError::UnsupportedProtocol(given) => CommandError::UnsupportedProtocol(
                given.clone(),
            ),
            CommandError::ChatNotSingleLine => CommandError::ChatNotSingleLine,
            CommandError::YawOutOfRange => CommandError::YawOutOfRange,
            CommandError::PitchOutOfRange => CommandError::PitchOutOfRange,
            CommandError::DirectionCount => CommandError::DirectionCount,
            CommandError::DuplicateDirection => CommandError::DuplicateDirection,
            CommandError::DurationOutOfRange => CommandError::DurationOutOfRange,
            CommandError::Stopping => CommandError::Stopping,
            CommandError::StaleEpoch { bound, current } => CommandError::StaleEpoch {
                bound: *bound,
                current: *current,
            },
        }
    }
}

/// Text that fits on one line and says something.
pub open spec fn single_line(text: Seq<char>) -> bool {
    text.len() > 0 && forall|i: int|
        0 <= i < text.len() ==> #[trigger] text[i] != '\r' && text[i] != '\n' && text[i] != '\0'
}

/// Tells whether a text is not empty and holds no line break and no NUL.
pub fn is_single_line(text: &str) -> (r: bool)
    ensures
        r == single_line(text@),
{
    let chars = chars_of(text);
    if chars.len() == 0 {
        return false;
    }
    let mut i: usize = 0;
    while i < chars.len()
        invariant
            chars@ == text@,
            i <= chars@.len(),
            forall|k: int|
                0 <= k < i ==> #[trigger] text@[k] != '\r' && text@[k] != '\n' && text@[k]
                    != '\0',
        decreases chars@.len() - i,
    {
        let c: char = chars[i];
        if c == '\r' || c == '\n' || c == '\0' {
            assert(text@[i as int] == c);
            return false;
        }
        i = i + 1;
    }
    true
}

/// The first thing that is wrong with a command.
pub open spec fn command_error(command: BackendCommand) -> Option<CommandError> {
    match command {
        BackendCommand::SendChat { message } => if single_line(message@) {
            None
        } else {
            Some(CommandError::ChatNotSingleLine)
        },
        BackendCommand::LookRelative { yaw_degrees, pitch_degrees } => if !yaw_degrees.within_ninety() {
            Some(CommandError::YawOutOfRange)
        } else if !pitch_degrees.within_ninety() {
            Some(CommandError::PitchOutOfRange)
        } else {
            None
        },
        BackendCommand::Move { directions, duration_ms, .. } => if directions@.len() == 0
            || directions@.len() > 4 {
            Some(CommandError::DirectionCount)
        } else if !directions@.no_duplicates() {
            Some(CommandError::DuplicateDirection)
        } else if !(50 <= duration_ms <= 1500) {
            Some(CommandError::DurationOutOfRange)
        } else {
            None
        },
        BackendCommand::ReleaseAll => None,
        BackendCommand::Respawn => None,
    }
}

fn has_duplicates(directions: &Vec<MotorDirection>) -> (r: bool)
    ensures
        r == !directions@.no_duplicates(),
{
    let mut i: usize = 0;
    while i < directions.len()
        invariant
            i <= directions@.len(),
            forall|a: int, b: int| 0 <= a < i && a < b < directions@.len() ==> directions@[a]
                != directions@[b],
        decreases directions@.len() - i,
    {
        let mut j: usize = i + 1;
        while j < directions.len()
            invariant
                i < j <= directions@.len(),
                forall|b: int| i < b < j ==> directions@[i as int] != directions@[b],
            decreases directions@.len() - j,
        {
            if directions[i] == directions[j] {
                assert(directions@[i as int] == directions@[j as int]);
                return true;
            }
            j = j + 1;
        }
        i = i + 1;
    }
    false
}

/// Checks a command before it is queued.
pub fn validate_command(command: &BackendCommand) -> (r: Result<(), CommandError>)
    ensures
        r == (match command_error(*command) {
            Some(error) => Err(error),
            None => Ok(()),
        }),
{
    match command {
        BackendCommand::SendChat { message } => {
            if !is_single_line(message.as_str()) {
                return Err(CommandError::ChatNotSingleLine);
            }
        },
        BackendCommand::LookRelative { yaw_degrees, pitch_degrees } => {
            if !yaw_degrees.is_within_ninety() {
                return Err(CommandError::YawOutOfRange);
            }
            if !pitch_degrees.is_within_ninety() {
                return Err(CommandError::PitchOutOfRange);
            }
        },
        BackendCommand::Move { directions, duration_ms, .. } => {
            if directions.len() == 0 || directions.len() > 4 {
                return Err(CommandError::DirectionCount);
            }
            if has_duplicates(directions) {
                return Err(CommandError::DuplicateDirection);
            }
            if *duration_ms < 50 || *duration_ms > 1500 {
                return Err(CommandError::DurationOutOfRange);
            }
        },
        BackendCommand::ReleaseAll => {},
        BackendCommand::Respawn => {},
    }
    Ok(())
}

/// The directions in which the bot can walk.
#[derive(Clone, Copy, Debug, PartialEq, Eq, Structural)]
pub enum WalkDirection {
    Still,
    Forward,
    Backward,
    Left,
    Right,
    ForwardLeft,
    ForwardRight,
    BackwardLeft,
    BackwardRight,
}

/// The directions in which the bot can sprint.
#[derive(Clone, Copy, Debug, PartialEq, Eq, Structural)]
pub enum SprintDirection {
    Forward,
    ForwardLeft,
    ForwardRight,
}

/// The direction that pressed keys add up to; opposite keys cancel out to standing still.
pub open spec fn walk_direction(
    forward: bool,
    back: bool,
    left: bool,
    right: bool,
) -> WalkDirection {
    match (forward, back, left, right) {
        (true, false, true, false) => WalkDirection::ForwardLeft,
        (true, false, false, true) => WalkDirection::ForwardRight,
        (false, true, true, false) => WalkDirection::BackwardLeft,
        (false, true, false, true) => WalkDirection::BackwardRight,
        (true, false, false, false) => WalkDirection::Forward,
        (false, true, false, false) => WalkDirection::Backward,
        (false, false, true, false) => WalkDirection::Left,
        (false, false, false, true) => WalkDirection::Right,
        _ => WalkDirection::Still,
    }
}

fn pressed(directions: &Vec<MotorDirection>, key: MotorDirection) -> (r: bool)
    ensures
        r == directions@.contains(key),
{
    let mut i: usize = 0;
    while i < directions.len()
        invariant
            i <= directions@.len(),
            forall|k: int| 0 <= k < i ==> directions@[k] != key,
        decreases directions@.len() - i,
    {
        if directions[i] == key {
            assert(directions@[i as int] == key);
            return true;
        }
        i = i + 1;
    }
    false
}

/// The direction in which the pressed keys walk.
pub fn direction_for(directions: &Vec<MotorDirection>) -> (direction: WalkDirection)
    ensures
        direction == walk_direction(
            directions@.contains(MotorDirection::Forward),
            directions@.contains(MotorDirection::Back),
            directions@.contains(MotorDirection::Left),
            directions@.contains(MotorDirection::Right),
        ),
{
    let forward = pressed(directions, MotorDirection::Forward);
    let back = pressed(directions, MotorDirection::Back);
    let left = pressed(directions, MotorDirection::Left);
    let right = pressed(directions, MotorDirection::Right);
    match (forward, back, left, right) {
        (true, false, true, false) => WalkDirection::ForwardLeft,
        (true, false, false, true) => WalkDirection::ForwardRight,
        (false, true, true, false) => WalkDirection::BackwardLeft,
        (false, true, false, true) => WalkDirection::BackwardRight,
        (true, false, false, false) => WalkDirection::Forward,
        (false, true, false, false) => WalkDirection::Backward,
        (false, false, true, false) => WalkDirection::Left,
        (false, false, false, true) => WalkDirection::Right,
        _ => WalkDirection::Still,
    }
}

/// The sprint in the direction of a walk.
pub open spec fn sprint_of(direction: WalkDirection) -> Option<SprintDirection> {
    match direction {
        WalkDirection::Forward => Some(SprintDirection::Forward),
        WalkDirection::ForwardLeft => Some(SprintDirection::ForwardLeft),
        WalkDirection::ForwardRight => Some(SprintDirection::ForwardRight),
        _ => None,
    }
}

/// The sprint that goes with a walk; only forward movement can sprint.
pub fn sprint_direction(direction: WalkDirection) -> (sprint: Option<SprintDirection>)
    ensures
        sprint == sprint_of(direction),
{
    match direction {
        WalkDirection::Forward => Some(SprintDirection::Forward),
        WalkDirection::ForwardLeft => Some(SprintDirection::ForwardLeft),
        WalkDirection::ForwardRight => Some(SprintDirection::ForwardRight),
        _ => None,
    }
}

/// The failure of an action that found no local player.
pub open spec fn component_failure(action: Actuation) -> BackendError {
    BackendError::BackendFailure {
        failure: BackendFailure {
            code: BackendFailureCode::ProtocolError,
            message: FailureMessage::RequiresLocalPlayer(action),
            retryable: true,
        },
    }
}

/// The failure of an action that found no local player.
pub fn command_component_failure(action: Actuation) -> (error: BackendError)
    ensures
        error == component_failure(action),
{
    BackendError::BackendFailure {
        failure: BackendFailure {
            code: BackendFailureCode::ProtocolError,
            message: FailureMessage::RequiresLocalPlayer(action),
            retryable: true,
        },
    }
}

/// The state of one command's completion.
#[derive(Debug, PartialEq, Eq)]
pub struct CommandCompletionState {
    /// The one result, once there is one.
    pub settled_result: Option<Result<(), BackendError>>,
    pub cancelled: bool,
    /// A physical release is owed before the command may settle.
    pub active_release: bool,
    pub release_on_cancel: bool,
    /// The signal that wakes whoever owes the release.
    pub cancel_signal: Option<u64>,
}

impl CommandCompletionState {
    pub open spec fn fresh() -> CommandCompletionState {
        CommandCompletionState {
            settled_result: None,
            cancelled: false,
            active_release: false,
            release_on_cancel: false,
            cancel_signal: None,
        }
    }

    pub fn new() -> (state: Self)
        ensures
            state == Self::fresh(),
    {
        CommandCompletionState {
            settled_result: None,
            cancelled: false,
            active_release: false,
            release_on_cancel: false,
            cancel_signal: None,
        }
    }

    pub open spec fn finished(self, result: Result<(), BackendError>) -> CommandCompletionState {
        if self.settled_result is Some {
            self
        } else {
            CommandCompletionState {
                settled_result: Some(result),
                active_release: false,
                ..self
            }
        }
    }

    /// Settles the command, unless it is settled already.
    pub fn finish(&mut self, result: Result<(), BackendError>) -> (settled: bool)
        ensures
            *final(self) == old(self).finished(result),
            settled == (old(self).settled_result is None),
    {
        if self.settled_result.is_some() {
            return false;
        }
        self.settled_result = Some(result);
        self.active_release = false;
        true
    }

    pub open spec fn releasing(self, signal: u64) -> CommandCompletionState {
        CommandCompletionState { active_release: true, cancel_signal: Some(signal), ..self }
    }

    /// Makes the command owe a physical release; tells whether the signal has
    /// to be raised at once because the command is cancelled already.
    pub fn begin_active_release(&mut self, signal: u64) -> (raise: bool)
        ensures
            *final(self) == old(self).releasing(signal),
            raise == old(self).cancelled,
    {
        self.active_release = true;
        self.cancel_signal = Some(signal);
        self.cancelled
    }

    pub open spec fn cancelling(self, release_on_cancel: bool) -> CommandCompletionState {
        CommandCompletionState {
            cancelled: true,
            release_on_cancel: self.release_on_cancel || release_on_cancel,
            ..self
        }
    }

    pub open spec fn after_cancel(
        self,
        operation: Operation,
        release_on_cancel: bool,
    ) -> CommandCompletionState {
        let marked = self.cancelling(release_on_cancel);
        if marked.active_release && marked.release_on_cancel {
            marked
        } else {
            marked.finished(Err(BackendError::Cancelled { operation }))
        }
    }

    /// Cancels the command. A command that owes a physical release settles only
    /// when that is done; any other settles now. Hands back the signal to raise.
    pub fn cancel(&mut self, operation: Operation, release_on_cancel: bool) -> (signal: Option<
        u64,
    >)
        ensures
            *final(self) == old(self).after_cancel(operation, release_on_cancel),
            signal == old(self).cancel_signal,
    {
        self.cancelled = true;
        self.release_on_cancel = self.release_on_cancel || release_on_cancel;
        if !self.active_release || !self.release_on_cancel {
            let _ = self.finish(Err(BackendError::Cancelled { operation }));
        }
        self.cancel_signal
    }
}

/// A command settles once: later results and cancellations do not change it.
pub proof fn law_completion_settles_once(
    state: CommandCompletionState,
    result: Result<(), BackendError>,
    operation: Operation,
    release_on_cancel: bool,
)
    requires
        state.settled_result is Some,
    ensures
        state.finished(result).settled_result == state.settled_result,
        state.after_cancel(operation, release_on_cancel).settled_result == state.settled_result,
{
}

/// A finished command has a result, and owes no release any more.
pub proof fn law_finish_settles(state: CommandCompletionState, result: Result<(), BackendError>)
    requires
        state.settled_result is None,
    ensures
        state.finished(result).settled_result == Some(result),
        !state.finished(result).active_release,
{
}

/// Cancelling settles at once, except for a command that owes a release and was
/// asked to make it; that one settles when the release is done.
pub proof fn law_cancel_waits_for_an_owed_release(
    state: CommandCompletionState,
    operation: Operation,
    release_on_cancel: bool,
)
    requires
        state.settled_result is None,
    ensures
        state.after_cancel(operation, release_on_cancel).cancelled,
        state.after_cancel(operation, release_on_cancel).settled_result is None <==> (
        state.active_release && (state.release_on_cancel || release_on_cancel)),
        !state.active_release || !(state.release_on_cancel || release_on_cancel) ==> state.after_cancel(
            operation,
            release_on_cancel,
        ).settled_result == Some(
            Err::<(), BackendError>(BackendError::Cancelled { operation }),
        ),
{
}

/// A command is taken exactly if it makes sense: a chat line is one line of
/// text, a turn is at most ninety degrees each way, a movement presses one to
/// four different keys for 50 to 1500 milliseconds. Otherwise the first thing
/// that is wrong is told.
pub proof fn law_only_sensible_commands_are_taken(command: BackendCommand)
    ensures
        match command {
            BackendCommand::SendChat { message } => {
                let fits = message@.len() > 0 && forall|i: int|
                    0 <= i < message@.len() ==> #[trigger] message@[i] != '\r' && message@[i]
                        != '\n' && message@[i] != '\0';
                command_error(command) == (if fits {
                    None
                } else {
                    Some(CommandError::ChatNotSingleLine)
                })
            },
            BackendCommand::LookRelative { yaw_degrees, pitch_degrees } => {
                &&& command_error(command) is None <==> yaw_degrees.within_ninety()
                    && pitch_degrees.within_ninety()
                &&& command_error(command) == Some(CommandError::YawOutOfRange)
                    <==> !yaw_degrees.within_ninety()
                &&& command_error(command) == Some(CommandError::PitchOutOfRange)
                    <==> yaw_degrees.within_ninety() && !pitch_degrees.within_ninety()
            },
            BackendCommand::Move { directions, duration_ms, .. } => {
                let counted = 1 <= directions@.len() <= 4;
                let differ = forall|i: int, j: int|
                    0 <= i < directions@.len() && 0 <= j < directions@.len() && i != j
                        ==> directions@[i] != directions@[j];
                let timed = 50 <= duration_ms <= 1500;
                &&& command_error(command) is None <==> counted && differ && timed
                &&& command_error(command) == Some(CommandError::DirectionCount) <==> !counted
                &&& command_error(command) == Some(CommandError::DuplicateDirection) <==> counted
                    && !differ
                &&& command_error(command) == Some(CommandError::DurationOutOfRange) <==> counted
                    && differ && !timed
            },
            BackendCommand::ReleaseAll => command_error(command) is None,
            BackendCommand::Respawn => command_error(command) is None,
        },
{
    if let BackendCommand::Move { directions, .. } = command {
        assert(directions@.no_duplicates() <==> forall|i: int, j: int|
            0 <= i < directions@.len() && 0 <= j < directions@.len() && i != j ==> directions@[i]
                != directions@[j]);
    }
}

/// The pressed keys decide where the bot walks. Opposite keys stop it; otherwise
/// it walks towards each side whose key is pressed, and to no other.
pub proof fn law_the_bot_walks_where_the_keys_point(
    forward: bool,
    back: bool,
    left: bool,
    right: bool,
)
    ensures
        ({
            let walk = walk_direction(forward, back, left, right);
            let opposed = (forward && back) || (left && right);
            let ahead = walk == WalkDirection::Forward || walk == WalkDirection::ForwardLeft
                || walk == WalkDirection::ForwardRight;
            let behind = walk == WalkDirection::Backward || walk == WalkDirection::BackwardLeft
                || walk == WalkDirection::BackwardRight;
            let to_the_left = walk == WalkDirection::Left || walk == WalkDirection::ForwardLeft
                || walk == WalkDirection::BackwardLeft;
            let to_the_right = walk == WalkDirection::Right || walk == WalkDirection::ForwardRight
                || walk == WalkDirection::BackwardRight;
            &&& opposed ==> walk == WalkDirection::Still
            &&& !opposed ==> {
                &&& ahead == forward
                &&& behind == back
                &&& to_the_left == left
                &&& to_the_right == right
                &&& walk == WalkDirection::Still <==> !forward && !back && !left && !right
            }
        }),
{
}

/// An action that found no local player is worth another try, and says which
/// action it was.
pub proof fn law_a_missing_player_is_told(action: Actuation)
    ensures
        component_failure(action) matches BackendError::BackendFailure { failure }
            && failure.retryable && failure.code == BackendFailureCode::ProtocolError
            && failure.message == FailureMessage::RequiresLocalPlayer(action),
{
}

/// A command that owes a release keeps its signal; being cancelled later, it
/// waits for the release if that was ever asked for. Nothing but a result ends
/// the debt.
pub proof fn law_an_owed_release_is_remembered(
    state: CommandCompletionState,
    signal: u64,
    operation: Operation,
    release_on_cancel: bool,
    result: Result<(), BackendError>,
)
    ensures
        state.releasing(signal).active_release,
        state.releasing(signal).cancel_signal == Some(signal),
        state.releasing(signal).settled_result == state.settled_result,
        state.releasing(signal).cancelled == state.cancelled,
        state.releasing(signal).release_on_cancel == state.release_on_cancel,
        state.after_cancel(operation, release_on_cancel).release_on_cancel == (
        state.release_on_cancel || release_on_cancel),
        state.after_cancel(operation, release_on_cancel).cancel_signal == state.cancel_signal,
        state.after_cancel(operation, release_on_cancel).cancelled,
        state.finished(result).cancelled == state.cancelled,
        state.finished(result).cancel_signal == state.cancel_signal,
        state.finished(result).release_on_cancel == state.release_on_cancel,
        CommandCompletionState::fresh().settled_result is None,
        !CommandCompletionState::fresh().cancelled,
        !CommandCompletionState::fresh().active_release,
        !CommandCompletionState::fresh().release_on_cancel,
        CommandCompletionState::fresh().cancel_signal is None,
{
}

/// Whoever goes forward can sprint, in the same direction; nobody else can. Opposite
/// keys go nowhere.
pub proof fn law_sprints_go_forward(forward: bool, back: bool, left: bool, right: bool)
    ensures
        ({
            let sprint = sprint_of(walk_direction(forward, back, left, right));
            &&& sprint is Some <==> forward && !back && !(left && right)
            &&& sprint == Some(SprintDirection::ForwardLeft) <==> forward && !back && left && !right
            &&& sprint == Some(SprintDirection::ForwardRight) <==> forward && !back && right
                && !left
        }),
{
}

} // verus!
