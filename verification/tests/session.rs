use std::sync::Arc;

use mineintent_backend::config::RunConfig;
use mineintent_backend::command::CommandError;
use mineintent_backend::contract::{
    AttemptId, BackendClose, BackendError, BackendEventEnvelope, BackendEventPayload,
    BackendFailure, BackendFailureCode, BackendLifecyclePayload, BackendState, CloseCode, EventId,
    Complaint, FactSource, FailureMessage, Operation, PublicOperation, Readiness, RequestField,
    StopReason,
};
use mineintent_backend::number::{Double, Single, Vec3Value};
use mineintent_backend::observation::control_wakeup_error;
use mineintent_backend::session::{
    interruption_of, ready_from_event, run_failure, state_error_for, state_name, ControlWake,
    RunEnd, RuntimeSession, SessionOutcome, StopWait, WorkerProgress,
};
use mineintent_backend::snapshot::{
    ExperienceSnapshot, InventorySlotSnapshot, InventorySnapshot, MinecraftSnapshotV1,
    SelfSnapshot, TrackedPlayerSnapshot, WorldSnapshot,
};
use mineintent_backend::conversion::{convert_snapshot, game_mode_of, GameMode};
use mineintent_backend::time::UtcInstant;

const AT: UtcInstant = UtcInstant { seconds: 1_700_000_000, nanos: 0 };

fn single(value: f32) -> Single {
    Single { bits: value.to_bits() }
}

fn origin() -> Vec3Value {
    let zero = Double { bits: 0 };
    Vec3Value { x: zero, y: zero, z: zero }
}

fn snapshot() -> MinecraftSnapshotV1 {
    MinecraftSnapshotV1 {
        snapshot_revision: 7,
        lifecycle_revision: 3,
        captured_at: AT,
        process_session_id: "session".to_owned(),
        connection_epoch: 1,
        connection_attempt_id: AttemptId { epoch: 1 },
        world: WorldSnapshot {
            world_id: "world".to_owned(),
            dimension: "minecraft:overworld".to_owned(),
            minecraft_version: "26.1.2".to_owned(),
            protocol_version: 775,
            game_mode: "creative".to_owned(),
            min_y: -64,
            height: 384,
        },
        self_snapshot: SelfSnapshot {
            entity_key: "self".to_owned(),
            username: "Bot".to_owned(),
            position: origin(),
            velocity: origin(),
            yaw: single(1.0),
            pitch: single(2.0),
            on_ground: true,
            alive: true,
            health: single(20.0),
            food: 20,
            food_saturation: single(5.0),
            experience: ExperienceSnapshot { level: 1, progress: single(0.5), total: 9 },
        },
        inventory: InventorySnapshot {
            selected_hotbar_slot: 4,
            slots: vec![InventorySlotSnapshot {
                slot: 3,
                item_name: "minecraft:stone".to_owned(),
                count: 12,
            }],
        },
        tracked_players: vec![TrackedPlayerSnapshot {
            player_key: "p".to_owned(),
            uuid: "".to_owned(),
            username: "Alex".to_owned(),
            listed: true,
            entity_tracked: false,
            position: None,
            yaw: None,
            pitch: None,
        }],
    }
}

fn event(payload: BackendLifecyclePayload) -> BackendEventEnvelope {
    BackendEventEnvelope {
        id: EventId::Event(1),
        occurred_at: AT,
        process_session_id: "session".to_owned(),
        connection_epoch: 1,
        connection_attempt_id: AttemptId { epoch: 1 },
        world_id: "world".to_owned(),
        dimension: None,
        source: FactSource::ServerObserved,
        payload: BackendEventPayload::Lifecycle(payload),
    }
}

fn close() -> BackendClose {
    BackendClose {
        epoch: 1,
        at: AT,
        code: CloseCode::ConnectionEnded,
        retryable: true,
        deliberate: false,
        kick: None,
        error: None,
        end_reason: None,
    }
}

#[test]
fn readiness_shows_the_snapshot_of_its_attempt() {
    let ready = ready_from_event(
        &event(BackendLifecyclePayload::Ready { snapshot_revision: 7 }),
        &Some(Arc::new(snapshot())),
        Ok(()),
    )
    .expect("ready");
    assert_eq!(ready.process_session_id, "session");
    assert_eq!(ready.connection_epoch, 1);
    assert_eq!(ready.snapshot.snapshot_revision, 7);
    assert_eq!(ready.snapshot.world.game_mode, GameMode::Creative);
}

#[test]
fn readiness_without_its_snapshot_is_a_failure() {
    let ready = event(BackendLifecyclePayload::Ready { snapshot_revision: 7 });
    let failure = |result: Result<_, BackendError>| match result {
        Err(BackendError::BackendFailure { failure }) => failure.message,
        Err(other) => panic!("expected a failure, got {other:?}"),
        Ok(()) => panic!("expected a failure"),
    };
    assert_eq!(
        failure(ready_from_event(&ready, &None, Ok(())).map(|_| ())),
        FailureMessage::ReadyWithoutSnapshot
    );
    let mut other = snapshot();
    other.connection_epoch = 2;
    assert_eq!(
        failure(ready_from_event(&ready, &Some(Arc::new(other)), Ok(())).map(|_| ())),
        FailureMessage::ReadyIdentityMismatch
    );
}

#[test]
fn a_start_has_one_result() {
    let mut outcome = SessionOutcome::new();
    assert_eq!(outcome.start_result(), None);
    let raw = Some(Arc::new(snapshot()));
    outcome.observe_event(&event(BackendLifecyclePayload::Ready { snapshot_revision: 7 }), &raw, Ok(()));
    assert!(matches!(outcome.start_result(), Some(Ok(_))));
    outcome.observe_event(&event(BackendLifecyclePayload::ConnectionClosed { close: close() }), &raw, Ok(()));
    assert!(matches!(outcome.start_result(), Some(Ok(_))));
}

#[test]
fn a_snapshot_with_refused_axes_ends_the_start() {
    let refused = || BackendError::InvalidCommand {
        field: RequestField::Viewport,
        message: Complaint::Text("axes".to_owned()),
    };
    let ready = event(BackendLifecyclePayload::Ready { snapshot_revision: 7 });
    let raw = Some(Arc::new(snapshot()));
    assert_eq!(ready_from_event(&ready, &raw, Err(refused())), Err(refused()));
    let mut outcome = SessionOutcome::new();
    outcome.observe_event(&ready, &raw, Err(refused()));
    assert_eq!(outcome.start_result(), Some(Err(refused())));
    assert_eq!(outcome.terminal, Some(refused()));
    let mut unknown = snapshot();
    unknown.world.game_mode = "hardcore".to_owned();
    assert!(matches!(
        convert_snapshot(&unknown, Err(refused())),
        Err(BackendError::BackendFailure { .. })
    ));
}

#[test]
fn an_early_stop_ends_the_start() {
    let mut outcome = SessionOutcome::new();
    outcome.observe_event(
        &event(BackendLifecyclePayload::Stopped { reason: StopReason::Given("x".to_owned()) }),
        &None,
        Ok(()),
    );
    assert_eq!(
        outcome.start_result(),
        Some(Err(BackendError::NotReady { state: Readiness::Stopped }))
    );
}

#[test]
fn the_first_end_counts() {
    let mut outcome = SessionOutcome::new();
    outcome.record_terminal(BackendError::BackendClosed { close: close() });
    outcome.record_terminal(BackendError::SubscriptionClosed);
    assert_eq!(
        outcome.start_result(),
        Some(Err(BackendError::BackendClosed { close: close() }))
    );
}

#[test]
fn states_have_their_names() {
    let failure = || BackendFailure {
        code: BackendFailureCode::ProtocolError,
        message: FailureMessage::FacadeDropped,
        retryable: false,
    };
    let cases = [
        (BackendState::Idle, Readiness::Idle),
        (
            BackendState::Connecting { epoch: 1, attempt_id: AttemptId { epoch: 1 }, attempt: 1 },
            Readiness::Connecting,
        ),
        (
            BackendState::LoggingIn { epoch: 1, attempt_id: AttemptId { epoch: 1 }, attempt: 1 },
            Readiness::LoggingIn,
        ),
        (
            BackendState::Spawning { epoch: 1, attempt_id: AttemptId { epoch: 1 }, attempt: 1 },
            Readiness::Spawning,
        ),
        (
            BackendState::Ready { epoch: 1, attempt_id: AttemptId { epoch: 1 }, ready_at: AT },
            Readiness::Ready,
        ),
        (
            BackendState::Dead { epoch: 1, attempt_id: AttemptId { epoch: 1 }, died_at: AT },
            Readiness::Dead,
        ),
        (
            BackendState::Reconnecting { attempt: 1, retry_at: AT, last_close: close() },
            Readiness::Reconnecting,
        ),
        (
            BackendState::Stopping { epoch: None, reason: StopReason::Watchdog },
            Readiness::Stopping,
        ),
        (BackendState::Stopped { reason: None }, Readiness::Stopped),
        (BackendState::Faulted { failure: failure() }, Readiness::Faulted),
    ];
    for (state, name) in cases {
        assert_eq!(state_name(&state), name);
    }
    assert_eq!(Readiness::LoggingIn.text(), "logging_in");
    assert_eq!(
        state_error_for(&BackendState::Faulted { failure: failure() }),
        BackendError::BackendFailure { failure: failure() }
    );
    assert_eq!(
        state_error_for(&BackendState::Idle),
        BackendError::NotReady { state: Readiness::Idle }
    );
}

#[test]
fn refused_commands_are_told_as_what_they_are() {
    let session = RuntimeSession::new(1, RunConfig::default(), "session".to_owned(), 1);
    match session
        .map_runtime_command_error(PublicOperation::MoveInput, CommandError::DirectionCount)
    {
        BackendError::BackendFailure { failure } => assert_eq!(
            failure.message,
            FailureMessage::Refused {
                operation: PublicOperation::MoveInput,
                error: CommandError::DirectionCount,
            }
        ),
        other => panic!("expected a failure, got {other:?}"),
    }
    let mut stopped = RuntimeSession::new(1, RunConfig::default(), "session".to_owned(), 1);
    stopped.handle.stop("end".to_owned(), AT);
    assert_eq!(
        stopped.map_runtime_command_error(PublicOperation::MoveInput, CommandError::Stopping),
        BackendError::NotReady { state: Readiness::Stopped }
    );
}

#[test]
fn the_end_of_a_run_tells_what_went_wrong() {
    let idle = BackendState::Idle;
    let stopped = BackendState::Stopped { reason: None };
    let message = |error: Option<BackendError>| match error {
        Some(BackendError::BackendFailure { failure }) => failure.message,
        other => panic!("expected a failure, got {other:?}"),
    };
    assert_eq!(
        message(run_failure(RunEnd::TaskFailed("x".to_owned()), &idle)),
        FailureMessage::RuntimeTaskFailed("x".to_owned())
    );
    assert_eq!(
        message(run_failure(RunEnd::Failed("y".to_owned()), &stopped)),
        FailureMessage::RuntimeExited("y".to_owned())
    );
    assert_eq!(
        message(run_failure(RunEnd::Finished, &idle)),
        FailureMessage::RuntimeExitedEarly
    );
    assert_eq!(run_failure(RunEnd::Finished, &stopped), None);
}

#[test]
fn a_worker_is_done_once_its_run_and_its_events_are() {
    let mut progress = WorkerProgress::new();
    progress.saw_event(false);
    progress.saw_end(false);
    assert!(!progress.is_done());
    progress.saw_event(true);
    assert!(progress.is_done());
    let mut failed = WorkerProgress::new();
    failed.saw_end(true);
    assert!(failed.is_done());
}

#[test]
fn a_wake_tells_why_the_wait_is_over() {
    let start = || Operation::Public(PublicOperation::Start);
    assert_eq!(
        interruption_of(&ControlWake::Cancelled, PublicOperation::Start),
        Some(BackendError::Cancelled { operation: start() })
    );
    assert_eq!(
        interruption_of(&ControlWake::DeadlineElapsed, PublicOperation::Start),
        Some(BackendError::DeadlineExceeded { operation: start() })
    );
    assert_eq!(interruption_of(&ControlWake::Notified, PublicOperation::Start), None);
    assert_eq!(
        control_wakeup_error(
            Err(BackendError::Cancelled { operation: start() }),
            PublicOperation::Start
        ),
        BackendError::Cancelled { operation: start() }
    );
    match control_wakeup_error(Ok(()), PublicOperation::ReadViewport) {
        BackendError::BackendFailure { failure } => assert_eq!(
            failure.message,
            FailureMessage::ControlWokeWithoutCause(PublicOperation::ReadViewport)
        ),
        other => panic!("expected a failure, got {other:?}"),
    }
}

#[test]
fn a_stop_waits_for_its_worker() {
    let mut session = RuntimeSession::new(1, RunConfig::default(), "session".to_owned(), 1);
    session.mark_launched();
    assert!(!session.has_snapshot());
    assert_eq!(session.stop_step(Ok(())), StopWait::Wait);
    session.handle.stop("end".to_owned(), AT);
    session.observe_event(
        &event(BackendLifecyclePayload::Stopped { reason: StopReason::Given("end".to_owned()) }),
        Ok(()),
    );
    session.mark_worker_done();
    assert_eq!(session.stop_step(Ok(())), StopWait::Join);
    let expired = || BackendError::DeadlineExceeded {
        operation: Operation::Public(PublicOperation::Stop),
    };
    let mut waiting = RuntimeSession::new(2, RunConfig::default(), "session".to_owned(), 1);
    waiting.mark_launched();
    assert_eq!(waiting.stop_step(Err(expired())), StopWait::GivenUp(expired()));
}

#[test]
fn a_snapshot_is_shown_as_it_is() {
    let shown = convert_snapshot(&snapshot(), Ok(())).expect("shown");
    assert_eq!(shown.selected_hotbar_slot, 4);
    assert_eq!(shown.slots[0].slot, 3);
    assert_eq!(shown.slots[0].count, 12);
    assert_eq!(shown.tracked_players[0].uuid, None);
    assert_eq!(shown.tracked_players[0].username, "Alex");
    assert_eq!(shown.self_snapshot.experience.total, 9);
}

#[test]
fn what_does_not_fit_keeps_a_snapshot_back() {
    let message = |raw: &MinecraftSnapshotV1| match convert_snapshot(raw, Ok(())) {
        Err(BackendError::BackendFailure { failure }) => failure.message,
        other => panic!("expected a failure, got {other:?}"),
    };
    let mut unknown = snapshot();
    unknown.world.game_mode = "hardcore".to_owned();
    assert_eq!(message(&unknown), FailureMessage::UnknownGameMode("hardcore".to_owned()));
    let mut negative = snapshot();
    negative.inventory.slots[0].count = -1;
    assert_eq!(message(&negative), FailureMessage::NegativeInventoryCount(-1));
    let mut beyond = snapshot();
    beyond.inventory.slots[0].slot = u64::from(u32::MAX) + 1;
    assert_eq!(
        message(&beyond),
        FailureMessage::InventorySlotOverflow(u64::from(u32::MAX) + 1)
    );
}

#[test]
fn game_modes_have_their_own_names() {
    for (name, mode) in [
        ("survival", GameMode::Survival),
        ("creative", GameMode::Creative),
        ("adventure", GameMode::Adventure),
        ("spectator", GameMode::Spectator),
    ] {
        assert_eq!(game_mode_of(&name.to_owned()), Some(mode));
    }
    assert_eq!(game_mode_of(&"Survival".to_owned()), None);
}

#[test]
fn requests_name_their_fields() {
    assert_eq!(RequestField::Message.text(), "message");
    assert_eq!(RequestField::Positions.text(), "positions");
    assert_eq!(PublicOperation::LookRelative.text(), "look_relative");
}
