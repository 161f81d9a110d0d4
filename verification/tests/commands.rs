use mineintent_backend::command::{
    command_component_failure, direction_for, is_single_line, sprint_direction, validate_command,
    BackendCommand, CommandCompletionState, CommandError, CommandProtocol, MotorDirection,
    SprintDirection, WalkDirection,
};
use mineintent_backend::contract::{
    Actuation, BackendError, BackendFailureCode, FailureMessage, Operation,
};
use mineintent_backend::number::Single;

fn single(value: f32) -> Single {
    Single { bits: value.to_bits() }
}

fn movement(directions: Vec<MotorDirection>, duration_ms: u64) -> BackendCommand {
    BackendCommand::Move { directions, duration_ms, sprint: None, jump: None, crouch: None }
}

fn look(yaw: f32, pitch: f32) -> BackendCommand {
    BackendCommand::LookRelative { yaw_degrees: single(yaw), pitch_degrees: single(pitch) }
}

#[test]
fn each_fault_of_a_command_has_its_error() {
    let chat = |message: &str| BackendCommand::SendChat { message: message.to_owned() };
    assert_eq!(validate_command(&chat("hello")), Ok(()));
    assert_eq!(validate_command(&chat("")), Err(CommandError::ChatNotSingleLine));
    assert_eq!(validate_command(&chat("a\rb")), Err(CommandError::ChatNotSingleLine));
    assert_eq!(validate_command(&chat("a\0b")), Err(CommandError::ChatNotSingleLine));
    assert_eq!(validate_command(&look(90.0, -90.0)), Ok(()));
    assert_eq!(validate_command(&look(90.5, 200.0)), Err(CommandError::YawOutOfRange));
    assert_eq!(validate_command(&look(0.0, f32::NAN)), Err(CommandError::PitchOutOfRange));
    assert_eq!(validate_command(&movement(vec![], 100)), Err(CommandError::DirectionCount));
    assert_eq!(
        validate_command(&movement(vec![MotorDirection::Left; 5], 100)),
        Err(CommandError::DirectionCount)
    );
    assert_eq!(
        validate_command(&movement(vec![MotorDirection::Left; 2], 1)),
        Err(CommandError::DuplicateDirection)
    );
    assert_eq!(
        validate_command(&movement(vec![MotorDirection::Left], 49)),
        Err(CommandError::DurationOutOfRange)
    );
    assert_eq!(
        validate_command(&movement(vec![MotorDirection::Left], 1501)),
        Err(CommandError::DurationOutOfRange)
    );
    assert_eq!(validate_command(&movement(vec![MotorDirection::Left], 50)), Ok(()));
    assert_eq!(validate_command(&movement(vec![MotorDirection::Left], 1500)), Ok(()));
    assert_eq!(validate_command(&BackendCommand::ReleaseAll), Ok(()));
    assert_eq!(validate_command(&BackendCommand::Respawn), Ok(()));
}

#[test]
fn single_lines_are_told_apart() {
    assert!(is_single_line("one"));
    assert!(is_single_line(" "));
    assert!(!is_single_line(""));
    assert!(!is_single_line("one\n"));
}

#[test]
fn errors_have_their_messages() {
    assert_eq!(
        CommandError::UnsupportedProtocol("other".to_owned()).text(),
        "不支持的命令协议：other，期望 mineintent.minecraft.backend-command.v1"
    );
    assert_eq!(
        CommandError::StaleEpoch { bound: 3, current: 12 }.text(),
        "stale command epoch: bound Some(3), current 12"
    );
    assert_eq!(CommandError::Stopping.text(), "runtime is stopping");
    assert_eq!(CommandError::DirectionCount.text(), "移动方向必须包含 1 到 4 个按键");
}

#[test]
fn protocols_are_read_by_name() {
    assert_eq!(
        CommandProtocol::parse("mineintent.minecraft.backend-command.v1".to_owned()),
        CommandProtocol::Current
    );
    assert_eq!(
        CommandProtocol::parse("v2".to_owned()),
        CommandProtocol::Other("v2".to_owned())
    );
    assert_eq!(CommandProtocol::Other("v2".to_owned()).text(), "v2");
}

#[test]
fn keys_add_up_to_a_direction() {
    let walk = |keys: &[MotorDirection]| direction_for(&keys.to_vec());
    assert_eq!(walk(&[MotorDirection::Forward]), WalkDirection::Forward);
    assert_eq!(walk(&[MotorDirection::Back]), WalkDirection::Backward);
    assert_eq!(walk(&[MotorDirection::Left]), WalkDirection::Left);
    assert_eq!(walk(&[MotorDirection::Right]), WalkDirection::Right);
    assert_eq!(
        walk(&[MotorDirection::Left, MotorDirection::Forward]),
        WalkDirection::ForwardLeft
    );
    assert_eq!(
        walk(&[MotorDirection::Forward, MotorDirection::Right]),
        WalkDirection::ForwardRight
    );
    assert_eq!(walk(&[MotorDirection::Back, MotorDirection::Left]), WalkDirection::BackwardLeft);
    assert_eq!(
        walk(&[MotorDirection::Back, MotorDirection::Right]),
        WalkDirection::BackwardRight
    );
    assert_eq!(walk(&[MotorDirection::Forward, MotorDirection::Back]), WalkDirection::Still);
    assert_eq!(walk(&[]), WalkDirection::Still);
}

#[test]
fn only_forward_movement_sprints() {
    assert_eq!(sprint_direction(WalkDirection::Forward), Some(SprintDirection::Forward));
    assert_eq!(sprint_direction(WalkDirection::ForwardLeft), Some(SprintDirection::ForwardLeft));
    assert_eq!(
        sprint_direction(WalkDirection::ForwardRight),
        Some(SprintDirection::ForwardRight)
    );
    assert_eq!(sprint_direction(WalkDirection::Backward), None);
    assert_eq!(sprint_direction(WalkDirection::Still), None);
}

#[test]
fn a_missing_player_is_a_retryable_failure() {
    match command_component_failure(Actuation::Move) {
        BackendError::BackendFailure { failure } => {
            assert_eq!(failure.code, BackendFailureCode::ProtocolError);
            assert_eq!(failure.message, FailureMessage::RequiresLocalPlayer(Actuation::Move));
            assert!(failure.retryable);
        }
        other => panic!("expected a failure, got {other:?}"),
    }
}

#[test]
fn a_completion_settles_once() {
    let mut state = CommandCompletionState::new();
    assert!(state.finish(Ok(())));
    assert!(!state.finish(Err(BackendError::SubscriptionClosed)));
    assert_eq!(state.cancel(Operation::CancelledByCaller, false), None);
    assert_eq!(state.settled_result, Some(Ok(())));
    assert!(state.cancelled);
}

#[test]
fn a_finished_completion_owes_no_release() {
    let mut state = CommandCompletionState::new();
    assert!(!state.begin_active_release(9));
    assert!(state.active_release);
    assert!(state.finish(Ok(())));
    assert!(!state.active_release);
}

#[test]
fn a_cancellation_waits_for_an_owed_release() {
    let mut owing = CommandCompletionState::new();
    owing.begin_active_release(9);
    assert_eq!(owing.cancel(Operation::CancelledByCaller, true), Some(9));
    assert_eq!(owing.settled_result, None);

    let mut free = CommandCompletionState::new();
    assert_eq!(free.cancel(Operation::CancelledByCaller, true), None);
    assert_eq!(
        free.settled_result,
        Some(Err(BackendError::Cancelled { operation: Operation::CancelledByCaller }))
    );
    assert!(free.begin_active_release(10));
}
